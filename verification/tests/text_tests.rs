use whisper_cli::text::{is_control_token, trim};

#[test]
fn trim_removes_surrounding_whitespace() {
    assert_eq!(trim(" hello "), "hello");
    assert_eq!(trim("\t a b \r\n"), "a b");
    assert_eq!(trim("no-space"), "no-space");
    assert_eq!(trim(""), "");
    assert_eq!(trim(" \t\n "), "");
}

#[test]
fn trim_handles_unicode_whitespace() {
    assert_eq!(trim("\u{a0}\u{3000}wide\u{2003}"), "wide");
    assert_eq!(trim("\u{2028}x\u{2029}"), "x");
}

#[test]
fn trim_keeps_interior_whitespace() {
    assert_eq!(trim("  a  b  "), "a  b");
}

#[test]
fn control_token_marker_is_the_exact_prefix() {
    assert!(is_control_token("[_BEG_]"));
    assert!(is_control_token("[_"));
    assert!(!is_control_token("["));
    assert!(!is_control_token("[x"));
    assert!(!is_control_token("_["));
    assert!(!is_control_token(""));
    assert!(!is_control_token("hello"));
}
