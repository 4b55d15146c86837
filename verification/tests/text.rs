use radzen_leptos::text::{
    decimal_string, flagged_string, join_strings, parse_i32, parse_unsigned, replace,
    split_at_char, str_contains, str_is_blank, trim_str, zero_padded_string,
};

#[test]
fn trims_unicode_whitespace() {
    assert_eq!(trim_str("  a b \t\n"), "a b");
    assert_eq!(trim_str("\u{3000}x\u{a0}"), "x");
    assert_eq!(trim_str("   "), "");
}

#[test]
fn blank_strings() {
    assert!(str_is_blank(""));
    assert!(str_is_blank(" \t"));
    assert!(!str_is_blank(" a "));
}

#[test]
fn parses_i32_like_std() {
    assert_eq!(parse_i32("42"), Some(42));
    assert_eq!(parse_i32("+7"), Some(7));
    assert_eq!(parse_i32("-2147483648"), Some(i32::MIN));
    assert_eq!(parse_i32("2147483648"), None);
    assert_eq!(parse_i32("-"), None);
    assert_eq!(parse_i32(""), None);
    assert_eq!(parse_i32(" 1"), None);
}

#[test]
fn parses_unsigned_with_bound() {
    assert_eq!(parse_unsigned("255", 255), Some(255));
    assert_eq!(parse_unsigned("256", 255), None);
    assert_eq!(parse_unsigned("-1", 255), None);
    assert_eq!(parse_unsigned("+3", 255), Some(3));
}

#[test]
fn replaces_every_occurrence() {
    assert_eq!(replace("a-b-c", "-", "+"), "a+b+c");
    assert_eq!(replace("aaa", "aa", "b"), "ba");
    assert_eq!(replace("xyz", "q", "r"), "xyz");
}

#[test]
fn splits_at_each_separator() {
    assert_eq!(split_at_char("a::b", ':'), vec!["a", "", "b"]);
    assert_eq!(split_at_char("", ':'), vec![""]);
}

#[test]
fn joins_with_separator() {
    let parts = vec!["a".to_string(), "b".to_string(), "c".to_string()];
    assert_eq!(join_strings(&parts, ", "), "a, b, c");
    assert_eq!(join_strings(&Vec::new(), ", "), "");
}

#[test]
fn searches() {
    assert!(str_contains("orders", "der"));
    assert!(str_contains("orders", ""));
    assert!(!str_contains("ord", "orders"));
}

#[test]
fn formats_numbers() {
    assert_eq!(decimal_string(0), "0");
    assert_eq!(decimal_string(1234), "1234");
    assert_eq!(zero_padded_string(7, 3), "007");
    assert_eq!(zero_padded_string(1234, 2), "1234");
}

#[test]
fn flags_append_in_order() {
    assert_eq!(flagged_string("a", "b", true, "c", true), "a b c");
    assert_eq!(flagged_string("a", "b", false, "c", true), "a c");
}
