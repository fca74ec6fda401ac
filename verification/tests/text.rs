use invmst::utils::text::{
    chars_of, eq_ignore_ascii_case, find_char, is_whitespace, join, lines, starts_with, str_eq,
    strip_prefix, to_ascii_lower, trim, u64_to_string,
};

#[test]
fn white_space_is_what_std_calls_white_space() {
    let mut n: u32 = 0;
    while n <= 0x10FFFF {
        if let Some(c) = char::from_u32(n) {
            assert_eq!(is_whitespace(c), c.is_whitespace(), "U+{:04X}", n);
        }
        n += 1;
    }
}

#[test]
fn trim_removes_white_space_at_both_ends() {
    assert_eq!(trim("  a b \n"), "a b");
    assert_eq!(trim(""), "");
    assert_eq!(trim(" \t\r\n"), "");
    assert_eq!(trim("\u{3000}x\u{a0}"), "x");
}

#[test]
fn lines_are_those_of_std() {
    let samples = ["", "a", "a\n", "a\nb", "a\r\nb\r\n", "\n", "\n\n", "a\r", "a\r\n\r", "\r\n", "a\n\rb", "x\r\r\ny"];
    for s in samples {
        let expected: Vec<&str> = s.lines().collect();
        assert_eq!(lines(s), expected, "{:?}", s);
    }
}

#[test]
fn case_of_ascii_letters_is_ignored_and_of_no_others() {
    assert!(eq_ignore_ascii_case("Graham", "gRAHAM"));
    assert!(eq_ignore_ascii_case("", ""));
    assert!(!eq_ignore_ascii_case("a", "ab"));
    assert!(!eq_ignore_ascii_case("Ä", "ä"));
    assert!(eq_ignore_ascii_case("Ä-x", "Ä-X"));
    for n in 0u32..=0x10FFFF {
        if let Some(c) = char::from_u32(n) {
            assert_eq!(to_ascii_lower(c), c.to_ascii_lowercase());
        }
    }
    let samples = ["", "a", "A", "Zz", "[`", "@{", "ÀB", "warren-BUFFETT"];
    for a in samples {
        for b in samples {
            assert_eq!(eq_ignore_ascii_case(a, b), a.eq_ignore_ascii_case(b), "{:?} {:?}", a, b);
        }
    }
}

#[test]
fn prefixes_are_compared_by_characters() {
    assert!(starts_with("data: x", "data: "));
    assert!(starts_with("data: ", "data: "));
    assert!(starts_with("abc", ""));
    assert!(!starts_with("data:", "data: "));
    assert!(!starts_with("", "a"));
    assert!(starts_with("日本語", "日本"));
    assert_eq!(strip_prefix("data: x", "data: "), Some("x"));
    assert_eq!(strip_prefix("日本語", "日"), Some("本語"));
    assert_eq!(strip_prefix("abc", "abc"), Some(""));
    assert_eq!(strip_prefix("abc", "b"), None);
    assert!(str_eq("a", "a"));
    assert!(!str_eq("a", "A"));
    assert!(!str_eq("a", "ab"));
}

#[test]
fn numbers_are_written_in_decimal() {
    for n in [0u64, 1, 9, 10, 11, 99, 100, 101, 1234567890, u64::MAX - 1, u64::MAX] {
        assert_eq!(u64_to_string(n), n.to_string());
    }
}

#[test]
fn texts_are_joined_with_a_separator() {
    assert_eq!(join(&vec![], "/"), "");
    assert_eq!(join(&vec!["a"], "/"), "a");
    assert_eq!(join(&vec!["a", "b", "c"], "/"), "a/b/c");
    assert_eq!(join(&vec!["", ""], ", "), ", ");
}

#[test]
fn the_first_of_a_character_is_found() {
    assert_eq!(find_char("a:b:c", ':'), 1);
    assert_eq!(find_char("abc", ':'), 3);
    assert_eq!(find_char("", ':'), 0);
    assert_eq!(find_char("日本:語", ':'), 2);
    assert_eq!(chars_of("日a"), vec!['日', 'a']);
}

/// Every text of up to `max` characters over `alphabet`.
fn texts(alphabet: &[char], max: usize) -> Vec<String> {
    let mut all = vec![String::new()];
    let mut last = vec![String::new()];
    for _ in 0..max {
        let mut next = vec![];
        for text in &last {
            for c in alphabet {
                let mut longer = text.clone();
                longer.push(*c);
                next.push(longer);
            }
        }
        all.extend(next.iter().cloned());
        last = next;
    }
    all
}

#[test]
fn trim_is_that_of_std_on_every_short_text() {
    for s in texts(&[' ', '\n', '\u{a0}', 'a', '界'], 5) {
        assert_eq!(trim(&s), s.trim(), "{:?}", s);
    }
}

#[test]
fn lines_are_those_of_std_on_every_short_text() {
    for s in texts(&['\n', '\r', 'a', ' '], 6) {
        let expected: Vec<&str> = s.lines().collect();
        assert_eq!(lines(&s), expected, "{:?}", s);
    }
}

#[test]
fn prefixes_are_those_of_std_on_every_short_text() {
    let all = texts(&['a', 'B', 'é'], 3);
    for s in &all {
        for p in &all {
            assert_eq!(starts_with(s, p), s.starts_with(p.as_str()), "{:?} {:?}", s, p);
            assert_eq!(strip_prefix(s, p), s.strip_prefix(p.as_str()), "{:?} {:?}", s, p);
            assert_eq!(eq_ignore_ascii_case(s, p), s.eq_ignore_ascii_case(p), "{:?} {:?}", s, p);
            assert_eq!(str_eq(s, p), s == p);
        }
        assert_eq!(find_char(s, 'B'), s.chars().position(|c| c == 'B').unwrap_or(s.chars().count()));
    }
}
