use fishworker::error::AppError;
use fishworker::numbers::{int_to_text, parse_i32, parse_i64, parse_u32};
use fishworker::text::{
    contains_string, contains_text, has_prefix, is_blank, join_strings, replace_str, same_text,
    trim_str,
};

#[test]
fn trim_removes_unicode_whitespace_at_both_ends() {
    assert_eq!(trim_str("  hello \t\n"), "hello");
    assert_eq!(trim_str("\u{3000}词典\u{3000}"), "词典");
    assert_eq!(trim_str("   "), "");
    assert_eq!(trim_str("a b"), "a b");
}

#[test]
fn blank_texts() {
    assert!(is_blank(""));
    assert!(is_blank(" \t "));
    assert!(!is_blank(" x "));
}

#[test]
fn replace_every_match_left_to_right() {
    assert_eq!(replace_str("<b>go</b> <b>now</b>", "<b>", ""), "go</b> now</b>");
    assert_eq!(replace_str("aaa", "aa", "b"), "ba");
    assert_eq!(replace_str("《书名》", "《", ""), "书名》");
    assert_eq!(replace_str("nothing", "x", "y"), "nothing");
}

#[test]
fn join_with_separator() {
    let parts = vec!["a".to_string(), "b".to_string(), "c".to_string()];
    assert_eq!(join_strings(&parts, ", "), "a, b, c");
    assert_eq!(join_strings(&vec!["one".to_string()], "/"), "one");
    assert_eq!(join_strings(&Vec::new(), "/"), "");
}

#[test]
fn membership_and_substrings() {
    let list = vec!["n.".to_string(), "v.".to_string()];
    assert!(contains_string(&list, "v."));
    assert!(!contains_string(&list, "adj."));
    assert!(contains_text("database opened in File mode", "opened in File mode"));
    assert!(!contains_text("timeout", "opened in File mode"));
    assert!(contains_text("abc", ""));
    assert!(has_prefix("libsql://db", "libsql://"));
    assert!(!has_prefix("lib", "libsql://"));
    assert!(same_text("x", "x"));
    assert!(!same_text("x", "y"));
}

#[test]
fn integers_parse_as_rust_does() {
    assert_eq!(parse_i64("42"), Some(42));
    assert_eq!(parse_i64("-7"), Some(-7));
    assert_eq!(parse_i64("+5"), Some(5));
    assert_eq!(parse_i64(""), None);
    assert_eq!(parse_i64(" 1"), None);
    assert_eq!(parse_i64("9223372036854775807"), Some(i64::MAX));
    assert_eq!(parse_i64("9223372036854775808"), None);
    assert_eq!(parse_i64("-9223372036854775808"), Some(i64::MIN));
    assert_eq!(parse_i32("2147483648"), None);
    assert_eq!(parse_i32("-12"), Some(-12));
    assert_eq!(parse_u32("-1"), None);
    assert_eq!(parse_u32("07"), Some(7));
}

#[test]
fn integer_text_round_trip() {
    for n in [0i64, 5, -5, 10, 123456789, i64::MIN, i64::MAX] {
        let t = int_to_text(n);
        assert_eq!(t, n.to_string());
        assert_eq!(parse_i64(&t), Some(n));
    }
}

#[test]
fn error_kinds_and_display() {
    let e = AppError::NotFound("no row".to_string());
    assert_eq!(e.kind(), "not_found");
    assert_eq!(e.message(), "no row");
    assert_eq!(e.display_text(), "[not_found] no row");
    assert_eq!(AppError::Db("x".to_string()).kind(), "db");
    assert_eq!(AppError::Io("x".to_string()).kind(), "io");
    assert_eq!(AppError::Serde("x".to_string()).kind(), "serde");
    assert_eq!(AppError::Network("x".to_string()).kind(), "network");
    let from: AppError = String::from("plain").into();
    assert_eq!(from, AppError::Other("plain".to_string()));
    assert_eq!(from.display_text(), "[other] plain");
}
