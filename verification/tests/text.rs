use antiafk::text::{decimal_text, join_with, str_contains, str_eq, trimmed};

#[test]
fn trimming_uses_unicode_whitespace() {
    assert_eq!(trimmed("  a b \t\n"), "a b");
    assert_eq!(trimmed("\u{2003}x\u{85}"), "x");
    assert_eq!(trimmed("   "), "");
    assert_eq!(trimmed(""), "");
}

#[test]
fn decimal_rendering() {
    assert_eq!(decimal_text(0), "0");
    assert_eq!(decimal_text(10), "10");
    assert_eq!(decimal_text(u64::MAX), u64::MAX.to_string());
}

#[test]
fn searching_and_joining() {
    assert!(str_contains("hello world", "o w"));
    assert!(str_contains("abc", ""));
    assert!(!str_contains("ab", "abc"));
    assert!(str_eq("é", "é"));
    assert!(!str_eq("a", "ab"));
    assert_eq!(join_with(&vec!["a".to_string(), "b".to_string()], "\n"), "a\nb");
    assert_eq!(join_with(&vec![], ", "), "");
}
