use deepseek_json::text::{contains_text, decimal_text, eq_ignore_ascii_case_text, join3};

#[test]
fn decimal_text_writes_digits() {
    assert_eq!(decimal_text(0), "0");
    assert_eq!(decimal_text(7), "7");
    assert_eq!(decimal_text(1234), "1234");
    assert_eq!(decimal_text(u64::MAX), "18446744073709551615");
}

#[test]
fn contains_text_finds_parts() {
    assert!(contains_text("connection refused", "refused"));
    assert!(contains_text("abc", ""));
    assert!(!contains_text("ab", "abc"));
    assert!(!contains_text("network", "dns"));
    assert!(contains_text("ünïcode dns", "dns"));
}

#[test]
fn case_insensitive_equality_is_ascii_only() {
    assert!(eq_ignore_ascii_case_text("/PROCEED", "/proceed"));
    assert!(!eq_ignore_ascii_case_text("/proceed!", "/proceed"));
    assert!(!eq_ignore_ascii_case_text("Ä", "ä"));
    assert_eq!(join3("a", "b", "c"), "abc");
}
