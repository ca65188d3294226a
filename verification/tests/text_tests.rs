use open_music::text::{
    bool_string, decimal_string, join_path, join_text, parse_bool, parse_u64, parse_u8, split_text,
    text_contains, text_eq_ignore_ascii_case, trim,
};

#[test]
fn trim_uses_unicode_white_space() {
    assert_eq!(trim("  a b \t\n"), "a b");
    assert_eq!(trim("\u{3000}x\u{a0}"), "x");
    assert_eq!(trim("   "), "");
    assert_eq!(trim(""), "");
}

#[test]
fn split_keeps_empty_pieces() {
    assert_eq!(split_text("a,,b", ','), vec!["a", "", "b"]);
    assert_eq!(split_text("", ','), vec![""]);
    assert_eq!(split_text(",", ','), vec!["", ""]);
}

#[test]
fn join_puts_separator_between() {
    let parts = vec!["x".to_string(), "y".to_string(), "z".to_string()];
    assert_eq!(join_text(&parts, ", "), "x, y, z");
    assert_eq!(join_text(&parts[..1], ", "), "x");
    assert_eq!(join_text(&[], ", "), "");
}

#[test]
fn substring_search() {
    assert!(text_contains("hello world", "lo w"));
    assert!(text_contains("abc", ""));
    assert!(!text_contains("abc", "abcd"));
    assert!(!text_contains("abc", "ac"));
}

#[test]
fn unsigned_parsing() {
    assert_eq!(parse_u64("0"), Some(0));
    assert_eq!(parse_u64("+42"), Some(42));
    assert_eq!(parse_u64("+"), None);
    assert_eq!(parse_u64(""), None);
    assert_eq!(parse_u64("-0"), None);
    assert_eq!(parse_u64("1 "), None);
    assert_eq!(parse_u64("007"), Some(7));
    assert_eq!(parse_u8("255"), Some(255));
    assert_eq!(parse_u8("256"), None);
    for s in ["12", "+9", "x", "99999999999999999999", "18446744073709551615"] {
        assert_eq!(parse_u64(s), s.parse::<u64>().ok());
    }
}

#[test]
fn booleans_and_decimals() {
    assert_eq!(parse_bool("true"), Some(true));
    assert_eq!(parse_bool("false"), Some(false));
    assert_eq!(parse_bool("True"), None);
    assert_eq!(bool_string(true), "true");
    assert_eq!(decimal_string(0), "0");
    assert_eq!(decimal_string(300), "300");
    assert_eq!(decimal_string(u64::MAX), u64::MAX.to_string());
}

#[test]
fn ascii_case_folding_and_paths() {
    assert!(text_eq_ignore_ascii_case("NuLl", "null"));
    assert!(!text_eq_ignore_ascii_case("nul", "null"));
    assert_eq!(join_path("/data", "open_music"), "/data/open_music");
    assert_eq!(join_path("/data/", "open_music"), "/data/open_music");
    assert_eq!(join_path("", "x.json"), "x.json");
    assert_eq!(join_path(".", "open_music"), "./open_music");
}
