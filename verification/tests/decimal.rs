use browser_proxy::decimal::{parse_decimal, render_decimal};

#[test]
fn parses_plain_numerals() {
    assert_eq!(parse_decimal("0", 65535), Some(0));
    assert_eq!(parse_decimal("80", 65535), Some(80));
    assert_eq!(parse_decimal("65535", 65535), Some(65535));
    assert_eq!(parse_decimal("0080", 65535), Some(80));
}

#[test]
fn parses_a_leading_plus() {
    assert_eq!(parse_decimal("+80", 65535), Some(80));
    assert_eq!(parse_decimal("+", 65535), None);
    assert_eq!(parse_decimal("++80", 65535), None);
}

#[test]
fn refuses_what_is_no_numeral() {
    assert_eq!(parse_decimal("", 65535), None);
    assert_eq!(parse_decimal("-1", 65535), None);
    assert_eq!(parse_decimal(" 80", 65535), None);
    assert_eq!(parse_decimal("80 ", 65535), None);
    assert_eq!(parse_decimal("8o", 65535), None);
    assert_eq!(parse_decimal("8_0", 65535), None);
    assert_eq!(parse_decimal("٣", 65535), None);
}

#[test]
fn refuses_what_exceeds_the_bound() {
    assert_eq!(parse_decimal("65536", 65535), None);
    assert_eq!(parse_decimal("18446744073709551615", u64::MAX), Some(u64::MAX));
    assert_eq!(parse_decimal("18446744073709551616", u64::MAX), None);
    assert_eq!(parse_decimal("99999999999999999999999", u64::MAX), None);
    assert_eq!(parse_decimal("000000000000000000000000001", 5), Some(1));
    assert_eq!(parse_decimal("9", 5), None);
}

#[test]
fn agrees_with_the_standard_parser() {
    let samples = ["", "+", "0", "+0", "00", "7", "+7", "-7", "65535", "65536", "1e3", "12a", "٣"];
    for text in samples {
        assert_eq!(parse_decimal(text, 65535).map(|n| n as u16), text.parse::<u16>().ok());
        assert_eq!(parse_decimal(text, u64::MAX), text.parse::<u64>().ok());
    }
}

#[test]
fn renders_the_shortest_numeral() {
    assert_eq!(render_decimal(0), "0");
    assert_eq!(render_decimal(9), "9");
    assert_eq!(render_decimal(10), "10");
    assert_eq!(render_decimal(8080), "8080");
    assert_eq!(render_decimal(u64::MAX), "18446744073709551615");
}

#[test]
fn rendering_then_parsing_gives_the_number_back() {
    for n in [0u64, 1, 9, 10, 99, 100, 443, 65535, 1 << 40, u64::MAX] {
        assert_eq!(parse_decimal(&render_decimal(n), u64::MAX), Some(n));
    }
}
