use codexmate::json::{model_names, field, JsonValue};
use codexmate::text::{bool_text, decimal_text, join3, same_text, trim, trim_end_char};

#[test]
fn trim_removes_unicode_whitespace() {
    assert_eq!(trim("  a b \t\n"), "a b");
    assert_eq!(trim("\u{00A0}\u{2003}x\u{3000}"), "x");
    assert_eq!(trim("\u{200B}x"), "\u{200B}x");
    assert_eq!(trim(""), "");
    assert_eq!(trim(" \r\n "), "");
    let once = trim("\t x y \u{85}");
    assert_eq!(trim(once), once);
}

#[test]
fn trim_end_char_strips_every_trailing_copy() {
    assert_eq!(trim_end_char("https://a///", '/'), "https://a");
    assert_eq!(trim_end_char("/a/b", '/'), "/a/b");
    assert_eq!(trim_end_char("////", '/'), "");
}

#[test]
fn decimal_rendering() {
    assert_eq!(decimal_text(0), "0");
    assert_eq!(decimal_text(7), "7");
    assert_eq!(decimal_text(404), "404");
    assert_eq!(decimal_text(65535), "65535");
    assert_eq!(bool_text(true), "true");
    assert_eq!(bool_text(false), "false");
}

#[test]
fn text_comparison_and_joining() {
    assert!(same_text("mimo", "mimo"));
    assert!(!same_text("mimo", "Mimo"));
    assert!(!same_text("mim", "mimo"));
    assert_eq!(join3("a", "-", "b"), "a-b");
}

#[test]
fn json_field_lookup() {
    let v = JsonValue::Object(vec![
        ("a".to_string(), JsonValue::Bool(true)),
        ("b".to_string(), JsonValue::Null),
    ]);
    assert!(matches!(field(&v, "a"), Some(JsonValue::Bool(true))));
    assert!(matches!(field(&v, "b"), Some(JsonValue::Null)));
    assert!(field(&v, "c").is_none());
    assert!(field(&JsonValue::Array(vec![]), "a").is_none());
    assert!(model_names(&JsonValue::Null).is_empty());
}
