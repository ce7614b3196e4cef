use codeptit::text::{
    decimal_string, first_line_of, is_white_char, same_text, strip_prefix_str, strip_suffix_str,
    trim_str,
};

#[test]
fn trim_removes_surrounding_whitespace() {
    assert_eq!(trim_str("  hello world \t\n"), "hello world");
    assert_eq!(trim_str(""), "");
    assert_eq!(trim_str(" \u{3000}\u{a0} "), "");
    assert_eq!(trim_str("x"), "x");
    assert_eq!(trim_str("\u{2003}a b\u{85}"), "a b");
}

#[test]
fn trim_agrees_with_std() {
    for s in ["  a  ", "\r\n b\t", "\u{1680}c\u{200a}", "none", " \u{2028}"] {
        assert_eq!(trim_str(s), s.trim());
    }
}

#[test]
fn whitespace_set_matches_std() {
    for code in 0u32..0x3100 {
        if let Some(c) = char::from_u32(code) {
            assert_eq!(is_white_char(c), c.is_whitespace(), "code point {code:#x}");
        }
    }
}

#[test]
fn prefix_and_suffix_stripping() {
    assert_eq!(strip_prefix_str("// ABC", "//"), Some(" ABC".to_string()));
    assert_eq!(strip_prefix_str("/ ABC", "//"), None);
    assert_eq!(strip_prefix_str("ab", "abc"), None);
    assert_eq!(strip_prefix_str("abc", ""), Some("abc".to_string()));
    assert_eq!(strip_suffix_str("x */", "*/"), Some("x ".to_string()));
    assert_eq!(strip_suffix_str("x */\n", "*/"), None);
    assert_eq!(strip_suffix_str("*/", "*/"), Some(String::new()));
}

#[test]
fn first_line_like_std_lines() {
    assert_eq!(first_line_of("first\nsecond"), "first");
    assert_eq!(first_line_of("first\r\nsecond"), "first");
    assert_eq!(first_line_of("only\r"), "only\r");
    assert_eq!(first_line_of(""), "");
    assert_eq!(first_line_of("\nrest"), "");
    assert_eq!(first_line_of("a\rb\nc"), "a\rb");
    for s in ["a\nb", "a\r\nb", "x\r", "", "\r\n", "p\rq"] {
        assert_eq!(first_line_of(s), s.lines().next().unwrap_or_default());
    }
}

#[test]
fn decimal_rendering() {
    assert_eq!(decimal_string(0), "0");
    assert_eq!(decimal_string(7), "7");
    assert_eq!(decimal_string(10), "10");
    assert_eq!(decimal_string(4096), "4096");
    assert_eq!(decimal_string(u64::MAX), u64::MAX.to_string());
}

#[test]
fn text_equality() {
    assert!(same_text("AC", "AC"));
    assert!(!same_text("AC", "ACC"));
    assert!(!same_text("AC", "AD"));
    assert!(same_text("", ""));
}
