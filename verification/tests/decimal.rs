use opentelemetry_datadog::decimal::i32_to_decimal;
use opentelemetry_datadog::decimal::parse_i32;
use opentelemetry_datadog::decimal::parse_u64;
use opentelemetry_datadog::decimal::u64_to_decimal;

const SAMPLES: &[&str] = &[
    "", "+", "-", "0", "+0", "-0", "7", "+7", "-7", "007", "42", "  42", "42 ", "4 2", "4_2", "0x1f",
    "1e3", "12a", "a12", "++1", "+-1", "-+1", "--1", "\u{0661}", "1\u{00e9}", "2147483647", "2147483648",
    "-2147483648", "-2147483649", "18446744073709551615", "18446744073709551616", "-18446744073709551615",
    "000000000000000000000000000018446744073709551615", "99999999999999999999999999",
];

#[test]
fn parse_u64_agrees_with_std() {
    for s in SAMPLES {
        assert_eq!(parse_u64(s), s.parse::<u64>().ok(), "input {:?}", s);
    }
}

#[test]
fn parse_i32_agrees_with_std() {
    for s in SAMPLES {
        assert_eq!(parse_i32(s), s.parse::<i32>().ok(), "input {:?}", s);
    }
}

#[test]
fn parse_u64_edges() {
    assert_eq!(parse_u64("18446744073709551615"), Some(u64::MAX));
    assert_eq!(parse_u64("18446744073709551616"), None);
    assert_eq!(parse_u64("+12"), Some(12));
    assert_eq!(parse_u64("-12"), None);
    assert_eq!(parse_u64(""), None);
}

#[test]
fn parse_i32_edges() {
    assert_eq!(parse_i32("-2147483648"), Some(i32::MIN));
    assert_eq!(parse_i32("2147483647"), Some(i32::MAX));
    assert_eq!(parse_i32("2147483648"), None);
    assert_eq!(parse_i32("-2147483649"), None);
    assert_eq!(parse_i32("-0"), Some(0));
}

#[test]
fn u64_to_decimal_agrees_with_std() {
    for n in [0u64, 1, 9, 10, 99, 100, 1234, 4660, u64::MAX / 10, u64::MAX] {
        assert_eq!(u64_to_decimal(n), n.to_string());
    }
}

#[test]
fn i32_to_decimal_agrees_with_std() {
    for v in [0i32, 1, -1, 2, 9, -10, 1234, i32::MAX, i32::MIN, i32::MIN + 1] {
        assert_eq!(i32_to_decimal(v), v.to_string());
    }
}

#[test]
fn decimal_round_trips() {
    for n in [0u64, 5, 10, 1234, u64::MAX] {
        assert_eq!(parse_u64(&u64_to_decimal(n)), Some(n));
    }
    for v in [i32::MIN, -1, 0, 1, i32::MAX] {
        assert_eq!(parse_i32(&i32_to_decimal(v)), Some(v));
    }
}
