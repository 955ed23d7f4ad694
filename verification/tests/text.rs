use gcue::completer::completion_segment;
use gcue::order::key_less;
use gcue::text::{
    char_is_whitespace, split_once, starts_with, str_eq, to_chars, to_decimal, to_decimal3, trim,
};

#[test]
fn whitespace_is_what_std_says() {
    for u in 0u32..0x11_0000 {
        if let Some(c) = char::from_u32(u) {
            assert_eq!(char_is_whitespace(c), c.is_whitespace(), "U+{:04X}", u);
        }
    }
}

#[test]
fn trim_is_what_std_trims() {
    for s in ["", " ", "a", " a", "a ", "  a b  ", "\t\nab\r\n", "\u{a0}x\u{2003}", "\u{3000}", "e\u{301} "] {
        assert_eq!(trim(s), s.trim());
    }
}

#[test]
fn split_once_splits_at_the_first_occurrence() {
    for (s, pat) in [
        ("format csv", " "),
        ("format  csv", " "),
        ("format", " "),
        ("", " "),
        (" ", " "),
        ("bolt://h://x", "://"),
        ("a:/b", "://"),
        ("://", "://"),
        ("ab", "abc"),
        ("\u{e9}://\u{e9}", "://"),
        ("abc", ""),
    ] {
        assert_eq!(split_once(s, pat), s.split_once(pat), "{:?} by {:?}", s, pat);
    }
}

#[test]
fn prefixes_and_equality() {
    assert!(starts_with("format csv", "format"));
    assert!(starts_with("format", "format"));
    assert!(starts_with("x", ""));
    assert!(!starts_with("forma", "format"));
    assert!(!starts_with(" format", "format"));
    assert!(str_eq("", ""));
    assert!(str_eq("\u{e9}", "\u{e9}"));
    assert!(!str_eq("a", "b"));
    assert!(!str_eq("a", "ab"));
    assert_eq!(to_chars("a\u{e9}b"), vec!['a', '\u{e9}', 'b']);
}

#[test]
fn decimal_text_of_numbers() {
    for n in [0u128, 1, 9, 10, 11, 99, 100, 101, 999, 1000, 65535, u64::MAX as u128, u128::MAX] {
        assert_eq!(to_decimal(n), n.to_string());
        assert_eq!(to_decimal3(n), format!("{:03}", n));
    }
}

#[test]
fn keys_are_ordered_as_strings_are() {
    let keys = ["", "a", "A", "ab", "b", "\u{e9}", "z", "\u{10000}", "\u{ffff}", "aa", "a\u{0}"];
    for a in keys {
        for b in keys {
            assert_eq!(key_less(a, b), a < b, "{:?} < {:?}", a, b);
        }
    }
}

#[test]
fn file_segment_follows_the_mark_at_the_end_of_the_line() {
    assert_eq!(completion_segment("@queries/a.cy", 13), Some("queries/a.cy"));
    assert_eq!(completion_segment("@", 1), Some(""));
    assert_eq!(completion_segment("@queries/a.cy", 5), None);
    assert_eq!(completion_segment("queries/a.cy", 12), None);
    assert_eq!(completion_segment("", 0), None);
    assert_eq!(completion_segment("@\u{e9}", 3), Some("\u{e9}"));
    assert_eq!(completion_segment("@\u{e9}", 2), None);
}
