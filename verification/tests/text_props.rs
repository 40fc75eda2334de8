use template_mcp_server::text::{join_strings, parse_u64, split_char, u64_to_string};

fn strings(items: &[&str]) -> Vec<String> {
    items.iter().map(|s| s.to_string()).collect()
}

#[test]
fn decimal_of_zero() {
    assert_eq!(u64_to_string(0), "0");
}

#[test]
fn decimal_of_single_digit() {
    assert_eq!(u64_to_string(7), "7");
}

#[test]
fn decimal_of_many_digits() {
    assert_eq!(u64_to_string(12345), "12345");
}

#[test]
fn decimal_of_largest() {
    assert_eq!(u64_to_string(u64::MAX), "18446744073709551615");
}

#[test]
fn parse_plain_number() {
    assert_eq!(parse_u64("42"), Some(42));
}

#[test]
fn parse_with_plus_sign() {
    assert_eq!(parse_u64("+7"), Some(7));
}

#[test]
fn parse_empty_is_none() {
    assert_eq!(parse_u64(""), None);
}

#[test]
fn parse_plus_alone_is_none() {
    assert_eq!(parse_u64("+"), None);
}

#[test]
fn parse_letters_is_none() {
    assert_eq!(parse_u64("abc"), None);
}

#[test]
fn parse_mixed_is_none() {
    assert_eq!(parse_u64("12x"), None);
}

#[test]
fn parse_largest_fits() {
    assert_eq!(parse_u64("18446744073709551615"), Some(u64::MAX));
}

#[test]
fn parse_overflow_is_none() {
    assert_eq!(parse_u64("18446744073709551616"), None);
}

#[test]
fn parse_round_trips_rendering() {
    for n in [0u64, 1, 9, 10, 99, 100, 4096, u64::MAX] {
        assert_eq!(parse_u64(&u64_to_string(n)), Some(n));
    }
}

#[test]
fn join_empty_list() {
    assert_eq!(join_strings(&strings(&[]), ", "), "");
}

#[test]
fn join_single_item() {
    assert_eq!(join_strings(&strings(&["a"]), ", "), "a");
}

#[test]
fn join_many_items() {
    assert_eq!(join_strings(&strings(&["a", "b", "c"]), ", "), "a, b, c");
}

#[test]
fn split_without_separator() {
    assert_eq!(split_char("abc", '/'), strings(&["abc"]));
}

#[test]
fn split_simple_path() {
    assert_eq!(split_char("a/b/c", '/'), strings(&["a", "b", "c"]));
}

#[test]
fn split_keeps_empty_segments() {
    assert_eq!(
        split_char("template://x", '/'),
        strings(&["template:", "", "x"])
    );
}

#[test]
fn split_trailing_separator() {
    assert_eq!(split_char("a/", '/'), strings(&["a", ""]));
}
