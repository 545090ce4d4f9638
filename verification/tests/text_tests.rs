use workspace_panels::text::{
    clone_string_vec, str_contains_char, str_ends_with, str_eq, str_lex_leq, str_starts_with,
    usize_to_decimal,
};

#[test]
fn str_eq_basic() {
    assert!(str_eq("hello", "hello"));
    assert!(!str_eq("hello", "hellO"));
    assert!(!str_eq("hello", "hell"));
    assert!(str_eq("", ""));
}

#[test]
fn str_starts_with_basic() {
    assert!(str_starts_with("${FOO}", "${"));
    assert!(str_starts_with("$FOO", "$"));
    assert!(!str_starts_with("FOO", "$"));
    assert!(str_starts_with("abc", ""));
    assert!(!str_starts_with("ab", "abc"));
}

#[test]
fn str_ends_with_basic() {
    assert!(str_ends_with("powershell.exe", ".exe"));
    assert!(str_ends_with("cmd.exe", "cmd.exe"));
    assert!(!str_ends_with("cmd", "cmd.exe"));
    assert!(str_ends_with("x", ""));
}

#[test]
fn str_contains_char_basic() {
    assert!(str_contains_char("a:b", ':'));
    assert!(!str_contains_char("ab", ':'));
    assert!(!str_contains_char("", ':'));
}

#[test]
fn str_lex_leq_basic() {
    assert!(str_lex_leq("abc", "abd"));
    assert!(!str_lex_leq("abd", "abc"));
    assert!(str_lex_leq("ab", "abc"));
    assert!(!str_lex_leq("abc", "ab"));
    assert!(str_lex_leq("same", "same"));
    assert!(str_lex_leq("", "a"));
}

#[test]
fn usize_to_decimal_values() {
    assert_eq!(usize_to_decimal(0), "0");
    assert_eq!(usize_to_decimal(7), "7");
    assert_eq!(usize_to_decimal(10), "10");
    assert_eq!(usize_to_decimal(123), "123");
    assert_eq!(usize_to_decimal(9081), "9081");
}

#[test]
fn clone_string_vec_copies() {
    let v = vec!["a".to_string(), "b c".to_string()];
    let c = clone_string_vec(&v);
    assert_eq!(v, c);
}
