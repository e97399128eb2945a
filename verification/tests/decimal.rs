use wing::decimal::{decimal_text, parse_u64};

#[test]
fn decimal_text_of_single_digits() {
    assert_eq!(decimal_text(0), "0");
    assert_eq!(decimal_text(7), "7");
    assert_eq!(decimal_text(9), "9");
}

#[test]
fn decimal_text_of_longer_numbers() {
    assert_eq!(decimal_text(10), "10");
    assert_eq!(decimal_text(1234567890), "1234567890");
    assert_eq!(decimal_text(u64::MAX), "18446744073709551615");
}

#[test]
fn decimal_text_agrees_with_std() {
    for n in [0u64, 1, 9, 10, 99, 100, 101, 65535, 4294967296, u64::MAX - 1] {
        assert_eq!(decimal_text(n), n.to_string());
    }
}

#[test]
fn parse_u64_reads_plain_digits() {
    assert_eq!(parse_u64("0"), Some(0));
    assert_eq!(parse_u64("42"), Some(42));
    assert_eq!(parse_u64("1234567890"), Some(1234567890));
}

#[test]
fn parse_u64_reads_the_largest_value() {
    assert_eq!(parse_u64("18446744073709551615"), Some(u64::MAX));
}

#[test]
fn parse_u64_rejects_what_is_too_large() {
    assert_eq!(parse_u64("18446744073709551616"), None);
    assert_eq!(parse_u64("18446744073709551620"), None);
    assert_eq!(parse_u64("99999999999999999999999999"), None);
}

#[test]
fn parse_u64_accepts_a_plus_sign_and_leading_zeros() {
    assert_eq!(parse_u64("+5"), Some(5));
    assert_eq!(parse_u64("0007"), Some(7));
    assert_eq!(parse_u64("+000"), Some(0));
    assert_eq!(parse_u64("00000000000000000000000000001"), Some(1));
}

#[test]
fn parse_u64_rejects_text_without_digits() {
    assert_eq!(parse_u64(""), None);
    assert_eq!(parse_u64("+"), None);
    assert_eq!(parse_u64("abc"), None);
}

#[test]
fn parse_u64_rejects_other_characters_anywhere() {
    assert_eq!(parse_u64("-1"), None);
    assert_eq!(parse_u64("12a"), None);
    assert_eq!(parse_u64("a12"), None);
    assert_eq!(parse_u64(" 12"), None);
    assert_eq!(parse_u64("12 "), None);
    assert_eq!(parse_u64("1_000"), None);
    assert_eq!(parse_u64("++5"), None);
    assert_eq!(parse_u64("5+"), None);
    assert_eq!(parse_u64("1.5"), None);
}

#[test]
fn parse_u64_rejects_digits_outside_ascii() {
    assert_eq!(parse_u64("１２"), None);
    assert_eq!(parse_u64("1é"), None);
    assert_eq!(parse_u64("٣"), None);
}

#[test]
fn parse_u64_agrees_with_std() {
    let texts =
        ["0", "+0", "-0", "007", "18446744073709551615", "18446744073709551616", "", "+", "x"];
    for s in texts {
        assert_eq!(parse_u64(s), s.parse::<u64>().ok());
    }
}

#[test]
fn parsing_the_rendering_gives_the_number_back() {
    for n in [0u64, 5, 10, 12345, u64::MAX] {
        assert_eq!(parse_u64(&decimal_text(n)), Some(n));
    }
}
