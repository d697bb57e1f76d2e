use websocket_source_v1::decimal::{format_u64, parse_u64, parse_usize};

#[test]
fn parse_u64_accepts_plain_digits() {
    assert_eq!(parse_u64(b"0"), Some(0));
    assert_eq!(parse_u64(b"1234567890"), Some(1234567890));
    assert_eq!(parse_u64(b"0012"), Some(12));
}

#[test]
fn parse_u64_accepts_one_plus_sign() {
    assert_eq!(parse_u64(b"+7"), Some(7));
    assert_eq!(parse_u64(b"++7"), None);
    assert_eq!(parse_u64(b"+"), None);
}

#[test]
fn parse_u64_rejects_other_text() {
    assert_eq!(parse_u64(b""), None);
    assert_eq!(parse_u64(b"-1"), None);
    assert_eq!(parse_u64(b" 1"), None);
    assert_eq!(parse_u64(b"1 "), None);
    assert_eq!(parse_u64(b"1a"), None);
}

#[test]
fn parse_u64_range_edges() {
    assert_eq!(parse_u64(b"18446744073709551615"), Some(u64::MAX));
    assert_eq!(parse_u64(b"18446744073709551616"), None);
    assert_eq!(parse_u64(b"99999999999999999999999"), None);
}

#[test]
fn parse_matches_std_parse() {
    for text in ["0", "+0", "42", "007", "", "+", "-0", "x", "18446744073709551615", "18446744073709551616"] {
        assert_eq!(parse_u64(text.as_bytes()), text.parse::<u64>().ok(), "{text:?}");
        assert_eq!(parse_usize(text.as_bytes()), text.parse::<usize>().ok(), "{text:?}");
    }
}

#[test]
fn format_u64_writes_decimal() {
    assert_eq!(format_u64(0), "0");
    assert_eq!(format_u64(7), "7");
    assert_eq!(format_u64(1234567890), "1234567890");
    assert_eq!(format_u64(u64::MAX), "18446744073709551615");
}

#[test]
fn format_then_parse_gives_the_number_back() {
    for n in [0u64, 9, 10, 99, 100, 280_000_000, u64::MAX - 1, u64::MAX] {
        assert_eq!(parse_u64(format_u64(n).as_bytes()), Some(n));
    }
}
