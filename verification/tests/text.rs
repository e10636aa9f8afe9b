use system_proxy::text::{ends_with, is_whitespace_char, str_equal};

#[test]
fn whitespace_is_the_unicode_property() {
    for code in 0..=0x10FFFFu32 {
        if let Some(c) = char::from_u32(code) {
            assert_eq!(is_whitespace_char(c), c.is_whitespace(), "U+{:04X}", code);
        }
    }
}

#[test]
fn whitespace_samples() {
    assert!(is_whitespace_char(' '));
    assert!(is_whitespace_char('\t'));
    assert!(is_whitespace_char('\n'));
    assert!(is_whitespace_char('\u{a0}'));
    assert!(is_whitespace_char('\u{3000}'));
    assert!(!is_whitespace_char('a'));
    assert!(!is_whitespace_char('*'));
    assert!(!is_whitespace_char('\u{200b}'));
}

#[test]
fn str_equal_compares_characters() {
    assert!(str_equal("", ""));
    assert!(str_equal("example.com", "example.com"));
    assert!(!str_equal("example.com", "example.co"));
    assert!(!str_equal("example.co", "example.com"));
    assert!(!str_equal("example.com", "example.con"));
    assert!(!str_equal("", "a"));
    assert!(str_equal("b\u{fc}cher.example", "b\u{fc}cher.example"));
    assert!(!str_equal("b\u{fc}cher.example", "bucher.example"));
}

#[test]
fn ends_with_compares_suffixes() {
    assert!(ends_with("foo.example.com", ".example.com"));
    assert!(ends_with("foo.example.com", "foo.example.com"));
    assert!(ends_with("foo.example.com", ""));
    assert!(ends_with("", ""));
    assert!(!ends_with("example.com", ".example.com"));
    assert!(!ends_with("fooexample.com", ".example.com"));
    assert!(!ends_with("", "a"));
    assert!(!ends_with("foo.example.org", ".example.com"));
    assert!(ends_with("\u{e9}\u{e9}a", "\u{e9}a"));
    assert!(!ends_with("\u{e9}\u{e8}a", "\u{e9}a"));
}
