use listener_coordinator::text::{
    contains_text, decimal, eq_ignore_ascii_case, hex16, is_blank, starts_with, strip_prefix,
    to_ascii_lowercase, trim, trim_end_matches, trim_quotes,
};

#[test]
fn trimming_takes_white_space_of_every_kind() {
    assert_eq!(trim(" \t\u{3000}你好 world\u{a0}\n"), "你好 world");
    assert_eq!(trim("   "), "");
    assert_eq!(trim(trim("  x  ")), "x");
    assert!(is_blank("\u{2003}\r\n"));
    assert!(!is_blank(" . "));
}

#[test]
fn prefixes_and_parts_are_found() {
    assert!(starts_with("zh-CN", "zh-"));
    assert!(!starts_with("zh", "zh-"));
    assert!(contains_text("简体中文", "中文"));
    assert!(!contains_text("简体", "中文"));
    assert!(contains_text("anything", ""));
    assert_eq!(strip_prefix("Bearer x", "Bearer "), Some("x"));
    assert_eq!(strip_prefix("bearer x", "Bearer "), None);
}

#[test]
fn trailing_parts_are_taken_off_repeatedly() {
    assert_eq!(trim_end_matches("a///", "/"), "a");
    assert_eq!(trim_end_matches("a/b/b", "/b"), "a");
    assert_eq!(trim_end_matches("a/c", "/b"), "a/c");
    assert_eq!(trim_quotes("\"'key'\""), "key");
}

#[test]
fn only_ascii_letters_change_case() {
    assert_eq!(to_ascii_lowercase("ÄBC-Ü"), "Äbc-Ü");
    assert!(eq_ignore_ascii_case("HTTPS", "https"));
    assert!(!eq_ignore_ascii_case("Ä", "ä"));
}

#[test]
fn numbers_are_written_out() {
    assert_eq!(decimal(0), "0");
    assert_eq!(decimal(18446744073709551615), "18446744073709551615");
    assert_eq!(hex16(0xab), "00000000000000ab");
}
