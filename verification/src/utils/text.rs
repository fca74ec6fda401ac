//! Text primitives over sequences of characters.
//!
//! Every function here works on the characters of a string, never on its
//! bytes, and its contract is stated over `Seq<char>`.

use vstd::prelude::*;
use vstd::string::*;

verus! {

/// The characters with the Unicode property `White_Space`.
pub open spec fn is_white_space(c: char) -> bool {
    let n = c as u32;
    ||| 0x09 <= n <= 0x0D
    ||| n == 0x20
    ||| n == 0x85
    ||| n == 0xA0
    ||| n == 0x1680
    ||| 0x2000 <= n <= 0x200A
    ||| n == 0x2028
    ||| n == 0x2029
    ||| n == 0x202F
    ||| n == 0x205F
    ||| n == 0x3000
}

/// Index of the first character at or after `from` that is not white space,
/// or the length of `s` if there is none.
pub open spec fn skip_white_space(s: Seq<char>, from: int) -> int
    decreases s.len() - from,
{
    if from < 0 || from >= s.len() {
        s.len() as int
    } else if !is_white_space(s[from]) {
        from
    } else {
        skip_white_space(s, from + 1)
    }
}

/// One past the index of the last character before `upto` that is not white
/// space, or 0 if there is none.
pub open spec fn skip_white_space_back(s: Seq<char>, upto: int) -> int
    decreases upto,
{
    if upto <= 0 || upto > s.len() {
        0
    } else if !is_white_space(s[upto - 1]) {
        upto
    } else {
        skip_white_space_back(s, upto - 1)
    }
}

/// `s` without its leading and trailing white space.
pub open spec fn trimmed(s: Seq<char>) -> Seq<char> {
    let from = skip_white_space(s, 0);
    let upto = skip_white_space_back(s, s.len() as int);
    if from < upto {
        s.subrange(from, upto)
    } else {
        Seq::empty()
    }
}

/// Where `skip_white_space` points: at the first character from `from` on
/// that is not white space, or at the end.
pub proof fn lemma_skip_white_space(s: Seq<char>, from: int)
    requires
        0 <= from <= s.len(),
    ensures
        from <= skip_white_space(s, from) <= s.len(),
        skip_white_space(s, from) < s.len() ==> !is_white_space(s[skip_white_space(s, from)]),
        forall|i: int| from <= i < skip_white_space(s, from) ==> is_white_space(s[i]),
    decreases s.len() - from,
{
    if from < s.len() && is_white_space(s[from]) {
        lemma_skip_white_space(s, from + 1);
    }
}

/// Where `skip_white_space_back` points: behind the last character before
/// `upto` that is not white space, or at the start.
pub proof fn lemma_skip_white_space_back(s: Seq<char>, upto: int)
    requires
        0 <= upto <= s.len(),
    ensures
        0 <= skip_white_space_back(s, upto) <= upto,
        skip_white_space_back(s, upto) > 0 ==> !is_white_space(
            s[skip_white_space_back(s, upto) - 1],
        ),
        forall|i: int| skip_white_space_back(s, upto) <= i < upto ==> is_white_space(s[i]),
    decreases upto,
{
    if upto > 0 && is_white_space(s[upto - 1]) {
        lemma_skip_white_space_back(s, upto - 1);
    }
}

/// What trimming gives: a part of the text that neither begins nor ends
/// with white space, with nothing but white space before and behind it. A
/// text that neither begins nor ends with white space is its own trimming.
pub proof fn lemma_trimmed(s: Seq<char>)
    ensures
        trimmed(s).len() > 0 ==> !is_white_space(trimmed(s).first()) && !is_white_space(
            trimmed(s).last(),
        ),
        exists|from: int, upto: int|
            0 <= from <= upto <= s.len() && trimmed(s) == s.subrange(from, upto) && (forall|i: int|
                0 <= i < from ==> is_white_space(s[i])) && (forall|i: int|
                upto <= i < s.len() ==> is_white_space(s[i])),
        (s.len() > 0 && !is_white_space(s.first()) && !is_white_space(s.last())) ==> trimmed(s) == s,
        trimmed(trimmed(s)) == trimmed(s),
{
    lemma_skip_white_space(s, 0);
    lemma_skip_white_space_back(s, s.len() as int);
    let from = skip_white_space(s, 0);
    let upto = skip_white_space_back(s, s.len() as int);
    if from < upto {
        assert(trimmed(s) == s.subrange(from, upto));
        assert(trimmed(s).first() == s[from]);
        assert(trimmed(s).last() == s[upto - 1]);
    } else {
        // nothing but white space: the empty part at the end will do
        assert(trimmed(s) =~= s.subrange(s.len() as int, s.len() as int));
        assert(from == s.len()) by {
            if from < s.len() {
                assert(!is_white_space(s[from]));
                assert(upto <= from);
            }
        }
    }
    if s.len() > 0 && !is_white_space(s.first()) && !is_white_space(s.last()) {
        assert(from == 0);
        assert(upto == s.len());
        assert(s.subrange(0, s.len() as int) =~= s);
    }
    let t = trimmed(s);
    lemma_skip_white_space(t, 0);
    lemma_skip_white_space_back(t, t.len() as int);
    if t.len() > 0 {
        assert(skip_white_space(t, 0) == 0);
        assert(skip_white_space_back(t, t.len() as int) == t.len());
        assert(t.subrange(0, t.len() as int) =~= t);
    } else {
        assert(trimmed(t) =~= t);
    }
}

/// Whether `s` begins with `prefix`.
pub open spec fn has_prefix(s: Seq<char>, prefix: Seq<char>) -> bool {
    prefix.len() <= s.len() && s.subrange(0, prefix.len() as int) == prefix
}

/// Whether `c` has the Unicode property `White_Space`.
pub fn is_whitespace(c: char) -> (b: bool)
    ensures
        b == is_white_space(c),
{
    let n: u32 = c as u32;
    (0x09 <= n && n <= 0x0D) || n == 0x20 || n == 0x85 || n == 0xA0 || n == 0x1680 || (0x2000 <= n
        && n <= 0x200A) || n == 0x2028 || n == 0x2029 || n == 0x202F || n == 0x205F || n == 0x3000
}

/// The characters of `s`, in order.
pub fn chars_of(s: &str) -> (v: Vec<char>)
    ensures
        v@ == s@,
{
    let mut v: Vec<char> = Vec::new();
    for c in it: s.chars()
        invariant
            v@ == it.seq().take(it.index() as int),
    {
        v.push(c);
    }
    v
}

/// Whether two strings hold the same characters.
pub fn str_eq(a: &str, b: &str) -> (r: bool)
    ensures
        r == (a@ == b@),
{
    a.to_owned() == b.to_owned()
}

/// `s` without its leading and trailing white space.
pub fn trim(s: &str) -> (r: &str)
    ensures
        r@ == trimmed(s@),
{
    let cs = chars_of(s);
    let n = cs.len();
    let mut from: usize = 0;
    while from < n && is_whitespace(cs[from])
        invariant
            cs@ == s@,
            n == cs.len(),
            from <= n,
            skip_white_space(s@, 0) == skip_white_space(s@, from as int),
        decreases n - from,
    {
        from += 1;
    }
    let mut upto: usize = n;
    while upto > 0 && is_whitespace(cs[upto - 1])
        invariant
            cs@ == s@,
            n == cs.len(),
            upto <= n,
            skip_white_space_back(s@, n as int) == skip_white_space_back(s@, upto as int),
        decreases upto,
    {
        upto -= 1;
    }
    if from < upto {
        s.substring_char(from, upto)
    } else {
        s.substring_char(0, 0)
    }
}

/// `c` in lower case if it is an ASCII capital letter, else `c`.
pub open spec fn ascii_lower(c: char) -> char {
    if 'A' <= c && c <= 'Z' {
        ((c as u8) + 32) as char
    } else {
        c
    }
}

/// `s` with every ASCII capital letter in lower case.
pub open spec fn ascii_lowered(s: Seq<char>) -> Seq<char> {
    Seq::new(s.len(), |i: int| ascii_lower(s[i]))
}

/// Whether `a` and `b` are equal but for the case of their ASCII letters.
pub open spec fn same_ignoring_ascii_case(a: Seq<char>, b: Seq<char>) -> bool {
    ascii_lowered(a) == ascii_lowered(b)
}

/// Index of the first `c` in `s` at or after `from`, or the length of `s` if
/// there is none.
pub open spec fn index_of(s: Seq<char>, c: char, from: int) -> int
    decreases s.len() - from,
{
    if from < 0 || from >= s.len() {
        s.len() as int
    } else if s[from] == c {
        from
    } else {
        index_of(s, c, from + 1)
    }
}

/// Where `index_of` points: at the first `c` from `from` on, or at the end.
pub proof fn lemma_index_of_bounds(s: Seq<char>, c: char, from: int)
    requires
        0 <= from <= s.len(),
    ensures
        from <= index_of(s, c, from) <= s.len(),
        index_of(s, c, from) < s.len() ==> s[index_of(s, c, from)] == c,
        forall|i: int| from <= i < index_of(s, c, from) ==> s[i] != c,
    decreases s.len() - from,
{
    if from < s.len() && s[from] != c {
        lemma_index_of_bounds(s, c, from + 1);
    }
}

/// The line of `s` that begins at `from` and ends before `end`, where `end`
/// is the index of its line feed or the length of `s`: a carriage return
/// directly before the line feed belongs to the line ending.
pub open spec fn line_body(s: Seq<char>, from: int, end: int) -> Seq<char> {
    if from < end && end < s.len() && s[end - 1] == '\r' {
        s.subrange(from, end - 1)
    } else {
        s.subrange(from, end)
    }
}

/// The lines of `s` from index `from` on.
pub open spec fn lines_from(s: Seq<char>, from: int) -> Seq<Seq<char>>
    decreases s.len() + 1 - from,
{
    if from < 0 || from >= s.len() {
        Seq::empty()
    } else {
        let end = index_of(s, '\n', from);
        proof {
            lemma_index_of_bounds(s, '\n', from);
        }
        seq![line_body(s, from, end)] + lines_from(s, end + 1)
    }
}

/// The lines of `s`. A line ends at a line feed, or at a carriage return
/// directly followed by one, and does not hold its ending; the last line
/// needs none, and no empty line follows a final ending.
pub open spec fn lines_of(s: Seq<char>) -> Seq<Seq<char>> {
    lines_from(s, 0)
}

/// The character sequences of a list of string slices.
pub open spec fn views(v: Seq<&str>) -> Seq<Seq<char>> {
    Seq::new(v.len(), |i: int| v[i]@)
}

/// The character sequences of a list of strings.
pub open spec fn string_views(v: Seq<String>) -> Seq<Seq<char>> {
    Seq::new(v.len(), |i: int| v[i]@)
}

/// `c` in lower case if it is an ASCII capital letter, else `c`.
pub fn to_ascii_lower(c: char) -> (r: char)
    ensures
        r == ascii_lower(c),
{
    if 'A' <= c && c <= 'Z' {
        ((c as u8) + 32) as char
    } else {
        c
    }
}

/// Whether `a` and `b` are equal but for the case of their ASCII letters.
pub fn eq_ignore_ascii_case(a: &str, b: &str) -> (r: bool)
    ensures
        r == same_ignoring_ascii_case(a@, b@),
{
    let x = chars_of(a);
    let y = chars_of(b);
    if x.len() != y.len() {
        assert(ascii_lowered(a@).len() != ascii_lowered(b@).len());
        return false;
    }
    let mut i: usize = 0;
    while i < x.len()
        invariant
            x@ == a@,
            y@ == b@,
            x.len() == y.len(),
            i <= x.len(),
            forall|j: int| 0 <= j < i ==> ascii_lower(x@[j]) == ascii_lower(y@[j]),
        decreases x.len() - i,
    {
        if to_ascii_lower(x[i]) != to_ascii_lower(y[i]) {
            assert(ascii_lowered(a@)[i as int] != ascii_lowered(b@)[i as int]);
            return false;
        }
        i += 1;
    }
    assert(ascii_lowered(a@) =~= ascii_lowered(b@));
    true
}

/// Whether `s` begins with `prefix`.
pub fn starts_with(s: &str, prefix: &str) -> (r: bool)
    ensures
        r == has_prefix(s@, prefix@),
{
    let x = chars_of(s);
    let y = chars_of(prefix);
    if y.len() > x.len() {
        return false;
    }
    let mut i: usize = 0;
    while i < y.len()
        invariant
            x@ == s@,
            y@ == prefix@,
            y.len() <= x.len(),
            i <= y.len(),
            forall|j: int| 0 <= j < i ==> x@[j] == y@[j],
        decreases y.len() - i,
    {
        if x[i] != y[i] {
            assert(s@.subrange(0, prefix@.len() as int)[i as int] != prefix@[i as int]);
            return false;
        }
        i += 1;
    }
    assert(s@.subrange(0, prefix@.len() as int) =~= prefix@);
    true
}

/// What follows `prefix` in `s`, if `s` begins with it.
pub fn strip_prefix<'a>(s: &'a str, prefix: &str) -> (r: Option<&'a str>)
    ensures
        r is Some <==> has_prefix(s@, prefix@),
        r is Some ==> r->0@ == s@.subrange(prefix@.len() as int, s@.len() as int),
{
    if starts_with(s, prefix) {
        Some(s.substring_char(prefix.unicode_len(), s.unicode_len()))
    } else {
        None
    }
}

/// The lines of `s`, as `str::lines` gives them.
pub fn lines(s: &str) -> (v: Vec<&str>)
    ensures
        views(v@) == lines_of(s@),
{
    let cs = chars_of(s);
    let n = cs.len();
    let mut v: Vec<&str> = Vec::new();
    let mut from: usize = 0;
    assert(views(v@) + lines_from(s@, 0) =~= lines_of(s@));
    while from < n
        invariant
            cs@ == s@,
            n == cs.len(),
            from <= n,
            views(v@) + lines_from(s@, from as int) == lines_of(s@),
        decreases n - from,
    {
        let mut end: usize = from;
        while end < n && cs[end] != '\n'
            invariant
                cs@ == s@,
                n == cs.len(),
                from <= end <= n,
                index_of(s@, '\n', from as int) == index_of(s@, '\n', end as int),
            decreases n - end,
        {
            end += 1;
        }
        let stop: usize = if from < end && end < n && cs[end - 1] == '\r' {
            end - 1
        } else {
            end
        };
        let line = s.substring_char(from, stop);
        let ghost before = views(v@);
        v.push(line);
        proof {
            assert(line@ == line_body(s@, from as int, end as int));
            assert(views(v@) =~= before + seq![line@]);
            assert(lines_from(s@, from as int) == seq![line@] + lines_from(s@, end + 1));
            assert(views(v@) + lines_from(s@, end + 1) =~= before + lines_from(s@, from as int));
        }
        from = if end < n {
            end + 1
        } else {
            n
        };
    }
    assert(lines_from(s@, from as int) =~= Seq::empty());
    assert(views(v@) + lines_from(s@, from as int) =~= views(v@));
    v
}

/// The text that `String::from_utf8_lossy` makes of `bytes`.
pub uninterp spec fn utf8_lossy(bytes: Seq<u8>) -> Seq<char>;

/// Calls `String::from_utf8_lossy`: the text that the bytes encode, with
/// U+FFFD in place of what is no UTF-8. The result depends on the bytes
/// alone.
#[verifier::external_body]
pub(crate) fn from_utf8_lossy(bytes: &[u8]) -> (text: String)
    ensures
        text@ == utf8_lossy(bytes@),
{
    String::from_utf8_lossy(bytes).into_owned()
}

/// The text that `str::to_lowercase` makes of `s`.
pub uninterp spec fn unicode_lowercase(s: Seq<char>) -> Seq<char>;

/// Calls `str::to_lowercase`: the text in lower case as Unicode defines it.
#[verifier::external_body]
pub(crate) fn to_lowercase(s: &str) -> (lower: String)
    ensures
        lower@ == unicode_lowercase(s@),
{
    s.to_lowercase()
}

/// Index of the first `c` in `s`, or the number of characters of `s` if
/// there is none.
pub fn find_char(s: &str, c: char) -> (index: usize)
    ensures
        index == index_of(s@, c, 0),
        index <= s@.len(),
{
    let cs = chars_of(s);
    let mut i: usize = 0;
    while i < cs.len() && cs[i] != c
        invariant
            cs@ == s@,
            i <= cs.len(),
            index_of(s@, c, 0) == index_of(s@, c, i as int),
        decreases cs.len() - i,
    {
        i += 1;
    }
    i
}

/// The texts of `list` in order, with `separator` between each two.
pub open spec fn joined(list: Seq<Seq<char>>, separator: Seq<char>) -> Seq<char>
    decreases list.len(),
{
    if list.len() == 0 {
        Seq::empty()
    } else if list.len() == 1 {
        list[0]
    } else {
        joined(list.drop_last(), separator) + separator + list.last()
    }
}

/// The texts of `list` in order, with `separator` between each two.
pub fn join(list: &Vec<&str>, separator: &str) -> (text: String)
    ensures
        text@ == joined(views(list@), separator@),
{
    let ghost all = views(list@);
    let mut text = String::new();
    let mut i: usize = 0;
    assert(all.take(0) =~= Seq::<Seq<char>>::empty());
    while i < list.len()
        invariant
            i <= list.len(),
            all == views(list@),
            text@ == joined(all.take(i as int), separator@),
        decreases list.len() - i,
    {
        assert(all.take(i + 1).drop_last() =~= all.take(i as int));
        assert(all.take(i + 1).last() == list@[i as int]@);
        if i > 0 {
            text.append(separator);
        } else {
            assert(text@ + list@[i as int]@ =~= list@[i as int]@);
        }
        text.append(list[i]);
        i += 1;
    }
    assert(all.take(i as int) =~= all);
    text
}

/// The character for a digit from 0 to 9.
pub open spec fn digit_char(digit: nat) -> char {
    if digit == 0 {
        '0'
    } else if digit == 1 {
        '1'
    } else if digit == 2 {
        '2'
    } else if digit == 3 {
        '3'
    } else if digit == 4 {
        '4'
    } else if digit == 5 {
        '5'
    } else if digit == 6 {
        '6'
    } else if digit == 7 {
        '7'
    } else if digit == 8 {
        '8'
    } else {
        '9'
    }
}

/// `n` in decimal digits, without leading zeros.
pub open spec fn decimal(n: nat) -> Seq<char>
    decreases n,
{
    if n < 10 {
        seq![digit_char(n)]
    } else {
        decimal(n / 10).push(digit_char(n % 10))
    }
}

fn digit_str(digit: u64) -> (s: &'static str)
    requires
        digit < 10,
    ensures
        s@ == seq![digit_char(digit as nat)],
{
    proof {
        reveal_strlit("0");
        reveal_strlit("1");
        reveal_strlit("2");
        reveal_strlit("3");
        reveal_strlit("4");
        reveal_strlit("5");
        reveal_strlit("6");
        reveal_strlit("7");
        reveal_strlit("8");
        reveal_strlit("9");
    }
    let s = if digit == 0 {
        "0"
    } else if digit == 1 {
        "1"
    } else if digit == 2 {
        "2"
    } else if digit == 3 {
        "3"
    } else if digit == 4 {
        "4"
    } else if digit == 5 {
        "5"
    } else if digit == 6 {
        "6"
    } else if digit == 7 {
        "7"
    } else if digit == 8 {
        "8"
    } else {
        "9"
    };
    assert(s@ =~= seq![digit_char(digit as nat)]);
    s
}

/// `n` in decimal digits, without leading zeros.
pub fn u64_to_string(n: u64) -> (text: String)
    ensures
        text@ == decimal(n as nat),
    decreases n,
{
    if n < 10 {
        String::from_str(digit_str(n))
    } else {
        let head = u64_to_string(n / 10);
        let text = head.concat(digit_str(n % 10));
        assert(text@ =~= decimal((n / 10) as nat).push(digit_char((n % 10) as nat)));
        text
    }
}

} // verus!
