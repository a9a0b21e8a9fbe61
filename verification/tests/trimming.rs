use conformance_sync::text::{str_eq, trim_ascii_whitespace};

fn trim_str(s: &str) -> Vec<u8> {
    trim_ascii_whitespace(&s.as_bytes().to_vec())
}

#[test]
fn a_trailing_newline_is_trimmed() {
    let hash = "a1b2c3d4e5f6a7b8c9d0a1b2c3d4e5f6a7b8c9d0";
    let raw = format!("{}\n", hash);
    let trimmed = trim_str(&raw);
    assert_eq!(trimmed, hash.as_bytes());
    assert_eq!(trimmed.len(), 40);
    assert!(trimmed.iter().all(|b| b.is_ascii_hexdigit()));
    assert!(!trimmed.iter().any(|b| b.is_ascii_whitespace()));
}

#[test]
fn whitespace_is_trimmed_from_both_ends() {
    assert_eq!(trim_str(" \t\r\nabc \n\t "), b"abc".to_vec());
}

#[test]
fn interior_whitespace_is_kept() {
    assert_eq!(trim_str("  a b\tc  "), b"a b\tc".to_vec());
}

#[test]
fn already_trimmed_output_is_unchanged() {
    assert_eq!(trim_str("abc"), b"abc".to_vec());
}

#[test]
fn empty_output_stays_empty() {
    assert_eq!(trim_str(""), Vec::<u8>::new());
}

#[test]
fn all_whitespace_output_becomes_empty() {
    assert_eq!(trim_str(" \n\t\r\n "), Vec::<u8>::new());
}

#[test]
fn string_comparison_agrees_with_equality() {
    assert!(str_eq("clean", "clean"));
    assert!(!str_eq("clean", "Clean"));
    assert!(!str_eq("clean", "clean "));
    assert!(!str_eq("", "a"));
    assert!(str_eq("", ""));
}
