use stockfish::decimal::{i32_text, parse_i32, parse_u32, u32_text};

#[test]
fn parse_i32_reads_plain_numbers() {
    assert_eq!(parse_i32("0"), Some(0));
    assert_eq!(parse_i32("25"), Some(25));
    assert_eq!(parse_i32("-37"), Some(-37));
    assert_eq!(parse_i32("+37"), Some(37));
    assert_eq!(parse_i32("007"), Some(7));
    assert_eq!(parse_i32("-0"), Some(0));
}

#[test]
fn parse_i32_reads_the_ends_of_the_range() {
    assert_eq!(parse_i32("2147483647"), Some(i32::MAX));
    assert_eq!(parse_i32("-2147483648"), Some(i32::MIN));
    assert_eq!(parse_i32("2147483648"), None);
    assert_eq!(parse_i32("-2147483649"), None);
    assert_eq!(parse_i32("99999999999999999999999999"), None);
    assert_eq!(parse_i32("000000000000000000000000001"), Some(1));
}

#[test]
fn parse_i32_refuses_what_is_no_numeral() {
    assert_eq!(parse_i32(""), None);
    assert_eq!(parse_i32("-"), None);
    assert_eq!(parse_i32("+"), None);
    assert_eq!(parse_i32("--1"), None);
    assert_eq!(parse_i32("+-1"), None);
    assert_eq!(parse_i32("1 "), None);
    assert_eq!(parse_i32(" 1"), None);
    assert_eq!(parse_i32("1.5"), None);
    assert_eq!(parse_i32("12a"), None);
    assert_eq!(parse_i32("cp"), None);
    assert_eq!(parse_i32("١٢"), None);
}

#[test]
fn parse_i32_agrees_with_std() {
    for s in [
        "", "0", "-0", "+0", "1", "-1", "+1", "25", "-37", "2147483647", "2147483648",
        "-2147483648", "-2147483649", "00012", "-", "+", "1-", "a", "1a", " 1", "1 ", "12345678901",
    ] {
        assert_eq!(parse_i32(s), s.parse::<i32>().ok(), "{s:?}");
    }
}

#[test]
fn parse_u32_reads_unsigned_numbers() {
    assert_eq!(parse_u32("0"), Some(0));
    assert_eq!(parse_u32("12"), Some(12));
    assert_eq!(parse_u32("+12"), Some(12));
    assert_eq!(parse_u32("4294967295"), Some(u32::MAX));
    assert_eq!(parse_u32("4294967296"), None);
    assert_eq!(parse_u32("-1"), None);
    assert_eq!(parse_u32("-0"), None);
    assert_eq!(parse_u32(""), None);
    assert_eq!(parse_u32("+"), None);
    assert_eq!(parse_u32("1x"), None);
}

#[test]
fn parse_u32_agrees_with_std() {
    for s in ["", "0", "-0", "+0", "7", "+7", "-7", "4294967295", "4294967296", "0004", "x", "4 "] {
        assert_eq!(parse_u32(s), s.parse::<u32>().ok(), "{s:?}");
    }
}

#[test]
fn u32_text_writes_base_ten() {
    assert_eq!(u32_text(0), "0");
    assert_eq!(u32_text(7), "7");
    assert_eq!(u32_text(10), "10");
    assert_eq!(u32_text(15), "15");
    assert_eq!(u32_text(50_000), "50000");
    assert_eq!(u32_text(u32::MAX), "4294967295");
}

#[test]
fn i32_text_writes_the_sign() {
    assert_eq!(i32_text(0), "0");
    assert_eq!(i32_text(25), "25");
    assert_eq!(i32_text(-3), "-3");
    assert_eq!(i32_text(i32::MAX), "2147483647");
    assert_eq!(i32_text(i32::MIN), "-2147483648");
}

#[test]
fn what_was_written_reads_back() {
    for v in [0, 1, -1, 9, 10, -10, 37, -37, 12345, i32::MAX, i32::MIN] {
        assert_eq!(parse_i32(&i32_text(v)), Some(v));
        assert_eq!(i32_text(v), v.to_string());
    }
    for n in [0, 1, 9, 10, 99, 100, 4_000_000_000, u32::MAX] {
        assert_eq!(parse_u32(&u32_text(n)), Some(n));
        assert_eq!(u32_text(n), n.to_string());
    }
}
