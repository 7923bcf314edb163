use patterns::decimal::parse_u16;
use patterns::decimal::u64_to_string;

#[test]
fn renders_zero_and_small_numbers() {
    assert_eq!(u64_to_string(0), "0");
    assert_eq!(u64_to_string(7), "7");
    assert_eq!(u64_to_string(10), "10");
}

#[test]
fn renders_large_numbers() {
    assert_eq!(u64_to_string(12345), "12345");
    assert_eq!(u64_to_string(65535), "65535");
    assert_eq!(u64_to_string(u64::MAX), "18446744073709551615");
}

#[test]
fn parses_digit_strings() {
    assert_eq!(parse_u16("0"), Some(0));
    assert_eq!(parse_u16("42"), Some(42));
    assert_eq!(parse_u16("65535"), Some(65535));
    // Leading zeros are read as the same value.
    assert_eq!(parse_u16("007"), Some(7));
}

#[test]
fn rejects_non_digit_and_oversized_input() {
    assert_eq!(parse_u16(""), None);
    assert_eq!(parse_u16("12a"), None);
    assert_eq!(parse_u16("-3"), None);
    assert_eq!(parse_u16("65536"), None);
    assert_eq!(parse_u16("999999"), None);
}

#[test]
fn rendering_then_parsing_gives_the_number_back() {
    for n in [0u16, 1, 9, 10, 99, 255, 6553, 65535] {
        assert_eq!(parse_u16(&u64_to_string(n as u64)), Some(n));
    }
}
