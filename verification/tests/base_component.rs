use radzen_leptos::components::base_component::{
    counter_id, initially_visible, IdCounter, merge_css_class, parse_style, random_id, resolve_locale,
    style_to_string, StyleMap,
};
use std::collections::HashMap;

#[test]
fn parse_style_basic() {
    let m = parse_style("color: red; font-size: 1rem; ");
    assert_eq!(m.get("color").map(String::as_str), Some("red"));
    assert_eq!(m.get("font-size").map(String::as_str), Some("1rem"));
}

#[test]
fn parse_style_empty() {
    assert!(parse_style("").is_empty());
}

#[test]
fn style_round_trip() {
    let m1 = parse_style("color: blue; margin: 0px");
    let m2 = parse_style(&style_to_string(&m1));
    assert_eq!(m1, m2);
}

#[test]
fn css_class_merge() {
    let mut attrs = HashMap::new();
    attrs.insert("class".to_string(), "mt-4".to_string());
    let caller = attrs.get("class").cloned().unwrap_or_default();
    let result = merge_css_class("rz-button", &caller);
    assert_eq!(result, "rz-button mt-4");
}

#[test]
fn unique_ids_differ() {
    let a = counter_id(1);
    let b = counter_id(2);
    assert_ne!(a, b);
    assert!(a.starts_with("rz-"));
}

#[test]
fn locale_explicit_prop_wins() {
    assert_eq!(resolve_locale(Some("de-DE"), Some("en-GB"), Some("fr-FR")), "de-DE");
}

#[test]
fn locale_inherited_then_default() {
    assert_eq!(resolve_locale(None, Some("hu-HU"), Some("fr-FR")), "hu-HU");
    assert_eq!(resolve_locale(None, None, Some("fr-FR")), "fr-FR");
    assert_eq!(resolve_locale(None, None, None), "en-US");
}

#[test]
fn empty_system_locale_falls_back_to_en_us() {
    assert_eq!(resolve_locale(None, None, Some("")), "en-US");
}

#[test]
fn merge_without_caller_class() {
    assert_eq!(merge_css_class("rz-card", ""), "rz-card");
}

#[test]
fn visibility_defaults_to_shown() {
    assert!(initially_visible(None));
    assert!(!initially_visible(Some(false)));
}

#[test]
fn counter_id_is_sixteen_hex_digits() {
    assert_eq!(counter_id(255), "rz-00000000000000ff");
    assert_eq!(counter_id(u64::MAX), "rz-ffffffffffffffff");
}

#[test]
fn random_id_is_two_hex_words() {
    assert_eq!(random_id(0xdeadbeef, 1), "rz-deadbeef00000001");
}

#[test]
fn style_to_string_joins_declarations() {
    let m = parse_style("color:red;font-size:  1rem");
    assert_eq!(style_to_string(&m), "color: red; font-size: 1rem");
}

#[test]
fn repeated_property_keeps_last_value_in_first_place() {
    let m = parse_style("a: 1; b: 2; a: 3");
    assert_eq!(m.get("a").map(String::as_str), Some("3"));
    assert_eq!(m.len(), 2);
    assert_eq!(style_to_string(&m), "a: 3; b: 2");
}

#[test]
fn pieces_without_colon_or_name_are_ignored() {
    let m = parse_style("color red; : x; top: 0");
    assert_eq!(m.len(), 1);
    assert_eq!(m.get("top").map(String::as_str), Some("0"));
    assert_eq!(m.get("color"), None);
}

#[test]
fn value_keeps_later_colons() {
    let m = parse_style("background: url(a:b)");
    assert_eq!(m.get("background").map(String::as_str), Some("url(a:b)"));
}

#[test]
fn empty_value_is_kept() {
    let m = parse_style("color:");
    assert_eq!(m.get("color").map(String::as_str), Some(""));
    assert_eq!(style_to_string(&m), "color: ");
    assert_eq!(parse_style(&style_to_string(&m)), m);
}

#[test]
fn insert_replaces_in_place() {
    let mut m = StyleMap::new();
    m.insert("a", "1");
    m.insert("b", "2");
    m.insert("a", "9");
    assert_eq!(style_to_string(&m), "a: 9; b: 2");
}

#[test]
fn id_counter_draws_distinct_ids() {
    let mut c = IdCounter::new();
    let a = c.next_id();
    let b = c.next_id();
    assert_eq!(a, "rz-0000000000000001");
    assert_eq!(b, "rz-0000000000000002");
    assert_ne!(a, b);
    assert_eq!(c.next, 3);
}

#[test]
fn styles_equal_whatever_the_order() {
    assert_eq!(parse_style("color: red; width: 10px"), parse_style("width: 10px; color: red"));
    assert_ne!(parse_style("color: red"), parse_style("color: blue"));
    assert_ne!(parse_style("color: red"), parse_style("color: red; width: 1px"));
}
