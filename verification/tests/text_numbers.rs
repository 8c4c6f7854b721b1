use my_blockbuster::text::{format_i32, format_u32, format_u64, parse_u32};

#[test]
fn formats_unsigned_numbers() {
    assert_eq!(format_u32(0), "0");
    assert_eq!(format_u32(7), "7");
    assert_eq!(format_u32(10), "10");
    assert_eq!(format_u32(4294967295), "4294967295");
    assert_eq!(format_u64(18446744073709551615), "18446744073709551615");
}

#[test]
fn formats_signed_numbers() {
    assert_eq!(format_i32(0), "0");
    assert_eq!(format_i32(42), "42");
    assert_eq!(format_i32(-42), "-42");
    assert_eq!(format_i32(i32::MIN), "-2147483648");
    assert_eq!(format_i32(i32::MAX), "2147483647");
}

#[test]
fn formatting_agrees_with_to_string() {
    for n in [0i32, 1, -1, 9, -9, 10, 99, -100, 123456, i32::MIN, i32::MAX] {
        assert_eq!(format_i32(n), n.to_string());
    }
    for n in [0u32, 5, 19, 1000, 65535, u32::MAX] {
        assert_eq!(format_u32(n), n.to_string());
    }
}

#[test]
fn parses_decimal_counts() {
    assert_eq!(parse_u32("123"), Some(123));
    assert_eq!(parse_u32("0"), Some(0));
    assert_eq!(parse_u32("007"), Some(7));
    assert_eq!(parse_u32("+7"), Some(7));
    assert_eq!(parse_u32("4294967295"), Some(4294967295));
}

#[test]
fn rejects_what_parse_rejects() {
    assert_eq!(parse_u32(""), None);
    assert_eq!(parse_u32("+"), None);
    assert_eq!(parse_u32("-1"), None);
    assert_eq!(parse_u32("12a"), None);
    assert_eq!(parse_u32(" 1"), None);
    assert_eq!(parse_u32("1 "), None);
    assert_eq!(parse_u32("4294967296"), None);
    assert_eq!(parse_u32("99999999999999999999"), None);
    assert_eq!(parse_u32("N/A"), None);
    assert_eq!(parse_u32("１"), None);
}

#[test]
fn parsing_agrees_with_std() {
    for s in ["", "+", "-", "-0", "+0", "42", "00042", "4294967295", "4294967296", "1_000", "٣", "12 ", "++1"] {
        assert_eq!(parse_u32(s), s.parse::<u32>().ok(), "input {:?}", s);
    }
}

#[test]
fn parse_undoes_format() {
    for n in [0u32, 1, 9, 10, 4096, 1234567, u32::MAX] {
        assert_eq!(parse_u32(&format_u32(n)), Some(n));
    }
}
