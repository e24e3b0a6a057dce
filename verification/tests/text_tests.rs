use sql_dispatch::text::{chars_string, normalize_chars, split_tokens, str_chars, u64_string};

fn normalize(s: &str) -> String {
    chars_string(&normalize_chars(&str_chars(s)))
}

fn tokens_of(s: &str) -> Vec<String> {
    split_tokens(&str_chars(s)).iter().map(chars_string).collect()
}

#[test]
fn normalize_trims_and_lowercases() {
    assert_eq!(normalize("  SeLeCt 1 \t\n"), "select 1");
}

#[test]
fn normalize_of_all_whitespace_is_empty() {
    assert_eq!(normalize(" \t \r\n "), "");
}

#[test]
fn normalize_of_empty_is_empty() {
    assert_eq!(normalize(""), "");
}

#[test]
fn normalize_keeps_inner_whitespace() {
    assert_eq!(normalize("A  B"), "a  b");
}

#[test]
fn split_on_single_spaces() {
    assert_eq!(tokens_of("create database sales;"), ["create", "database", "sales;"]);
}

#[test]
fn split_collapses_whitespace_runs() {
    assert_eq!(tokens_of("  a \t b\n\nc "), ["a", "b", "c"]);
}

#[test]
fn split_of_blank_text_has_no_tokens() {
    assert_eq!(tokens_of("   "), Vec::<String>::new());
    assert_eq!(tokens_of(""), Vec::<String>::new());
}

#[test]
fn decimal_rendering_exact_values() {
    assert_eq!(u64_string(0), "0");
    assert_eq!(u64_string(7), "7");
    assert_eq!(u64_string(65535), "65535");
    assert_eq!(u64_string(1234567890), "1234567890");
    assert_eq!(u64_string(u64::MAX), "18446744073709551615");
}
