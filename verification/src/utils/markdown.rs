//! Getting the JSON out of a model's answer.
//!
//! A model wraps what it was asked for in asides and in a fenced code block.
//! Three patterns take the wrapping off, in this order: every block between
//! a tag and a closing tag; everything up to the end of the line that opens
//! the first fence; everything from the next fence on. A text in which no
//! pattern can match, since it holds neither `<` nor a fence, is spared the
//! patterns.

use vstd::prelude::*;
use vstd::string::*;
use crate::utils::text::{chars_of, trim, trimmed};

verus! {

/// A tag, what follows it, and the next closing tag.
pub const TAG_BLOCK: &'static str = r"<[^>]+>[\s\S]*?<\/[^>]+>";

/// Everything up to and with the line that opens a fence.
pub const CODE_BLOCK_START: &'static str = r"(?:([\s\S]*?))(\s*```.*\n)([\s\S]*?)";

/// A fence with the white space before it, and everything behind it.
pub const CODE_BLOCK_END: &'static str = r"\s*```[\s\S]*";

/// What the `regex` crate makes of replacing, in `text`, the first `limit`
/// matches of `pattern` that do not overlap (all of them where `limit` is 0)
/// by `replacement`; nothing where `pattern` does not compile.
pub uninterp spec fn regex_replaced(
    pattern: Seq<char>,
    text: Seq<char>,
    limit: usize,
    replacement: Seq<char>,
) -> Option<Seq<char>>;

/// Compiles `pattern` with `regex::Regex::new` and calls `Regex::replacen`
/// on it, which `Regex::replace` and `Regex::replace_all` are made of. The
/// result depends on the four arguments alone.
#[verifier::external_body]
pub(crate) fn regex_replacen(pattern: &str, text: &str, limit: usize, replacement: &str) -> (r:
    Option<String>)
    ensures
        match r {
            Some(replaced) => regex_replaced(pattern@, text@, limit, replacement@) == Some(replaced@),
            None => regex_replaced(pattern@, text@, limit, replacement@) is None,
        },
{
    match regex::Regex::new(pattern) {
        Ok(re) => Some(re.replacen(text, limit, replacement).into_owned()),
        Err(_) => None,
    }
}

/// `text` without the first `limit` matches of `pattern` (without any where
/// `limit` is 0); `text` itself where `pattern` does not compile.
pub open spec fn without(pattern: Seq<char>, text: Seq<char>, limit: usize) -> Seq<char> {
    match regex_replaced(pattern, text, limit, Seq::empty()) {
        Some(replaced) => replaced,
        None => text,
    }
}

/// Whether a fence, three backticks in a row, begins at index `at` of `s`.
pub open spec fn fence_at(s: Seq<char>, at: int) -> bool {
    0 <= at && at + 2 < s.len() && s[at] == '`' && s[at + 1] == '`' && s[at + 2] == '`'
}

/// Whether `s` is plain: it holds no `<`, with which every tag begins, and
/// no fence.
pub open spec fn is_plain(s: Seq<char>) -> bool {
    (forall|i: int| 0 <= i < s.len() ==> s[i] != '<') && (forall|i: int| !fence_at(s, i))
}

/// What `extract_code_block` makes of `s`. A plain text is only trimmed.
/// Any other is taken without its tag blocks, then without what the first
/// start of a code block matches, then without what the first end of one
/// matches, and trimmed.
pub open spec fn code_block_of(s: Seq<char>) -> Seq<char> {
    if is_plain(s) {
        trimmed(s)
    } else {
        trimmed(
            without(CODE_BLOCK_END@, without(CODE_BLOCK_START@, without(TAG_BLOCK@, s, 0), 1), 1),
        )
    }
}

/// Whether `s` holds neither a `<` nor a fence.
pub fn plain(s: &str) -> (b: bool)
    ensures
        b == is_plain(s@),
{
    let cs = chars_of(s);
    let mut i: usize = 0;
    while i < cs.len()
        invariant
            cs@ == s@,
            i <= cs.len(),
            forall|j: int| 0 <= j < i ==> s@[j] != '<',
            forall|j: int| 0 <= j < i ==> !fence_at(s@, j),
        decreases cs.len() - i,
    {
        if cs[i] == '<' {
            return false;
        }
        if cs[i] == '`' && cs.len() - i > 2 && cs[i + 1] == '`' && cs[i + 2] == '`' {
            assert(fence_at(s@, i as int));
            return false;
        }
        i += 1;
    }
    true
}

/// `text` without the first `limit` matches of `pattern`.
pub fn remove_matches(pattern: &str, text: String, limit: usize) -> (r: String)
    ensures
        r@ == without(pattern@, text@, limit),
{
    proof {
        reveal_strlit("");
    }
    assert(""@ =~= Seq::<char>::empty());
    match regex_replacen(pattern, text.as_str(), limit, "") {
        Some(replaced) => replaced,
        None => text,
    }
}

/// The payload of a model's answer: the answer without its asides, without
/// the fence around it and what stands outside the fence, and trimmed. An
/// answer without tags and fences comes back trimmed and otherwise as it is.
pub fn extract_code_block(s: &str) -> (r: String)
    ensures
        r@ == code_block_of(s@),
        is_plain(s@) ==> r@ == trimmed(s@),
{
    if plain(s) {
        return trim(s).to_owned();
    }
    let s = remove_matches(TAG_BLOCK, s.to_owned(), 0);
    let s = remove_matches(CODE_BLOCK_START, s, 1);
    let s = remove_matches(CODE_BLOCK_END, s, 1);
    trim(s.as_str()).to_owned()
}

} // verus!
