use balancer::text::{decimal_string, parse_decimal_u16, str_eq, trim};

#[test]
fn trim_drops_whitespace_at_both_ends() {
    assert_eq!(trim("  host-1\n"), "host-1");
    assert_eq!(trim("host-1"), "host-1");
    assert_eq!(trim("\thost-1"), "host-1");
    assert_eq!(trim("host-1\r\n"), "host-1");
}

#[test]
fn trim_keeps_inner_whitespace() {
    assert_eq!(trim(" a b "), "a b");
    assert_eq!(trim("a\tb\n"), "a\tb");
}

#[test]
fn trim_of_whitespace_only_is_empty() {
    assert_eq!(trim(""), "");
    assert_eq!(trim(" "), "");
    assert_eq!(trim("\t\r\n "), "");
}

#[test]
fn trim_knows_unicode_whitespace() {
    assert_eq!(trim("\u{a0}host\u{3000}"), "host");
    assert_eq!(trim("\u{2003}h\u{e9}te\u{2028}"), "h\u{e9}te");
    // U+200B, the zero width space, is no whitespace.
    assert_eq!(trim("\u{200b}host"), "\u{200b}host");
}

#[test]
fn trim_agrees_with_the_standard_library() {
    let samples = [
        "",
        " ",
        "x",
        " x",
        "x ",
        "  x  y  ",
        "\n\n",
        "\u{85}node\u{1680}",
        "日本語 ",
        " \u{feff}x",
        "a\u{a0}",
    ];
    for sample in samples {
        assert_eq!(trim(sample), sample.trim(), "for {:?}", sample);
    }
}

#[test]
fn str_eq_compares_characters() {
    assert!(str_eq("", ""));
    assert!(str_eq("active", "active"));
    assert!(!str_eq("active", "Active"));
    assert!(!str_eq("active", "active "));
    assert!(!str_eq("a", ""));
}

#[test]
fn decimal_string_exact_values() {
    assert_eq!(decimal_string(0), "0");
    assert_eq!(decimal_string(7), "7");
    assert_eq!(decimal_string(10), "10");
    assert_eq!(decimal_string(80), "80");
    assert_eq!(decimal_string(3000), "3000");
    assert_eq!(decimal_string(8080), "8080");
    assert_eq!(decimal_string(65535), "65535");
}

#[test]
fn decimal_string_agrees_with_the_standard_library() {
    for n in 0..=u16::MAX {
        assert_eq!(decimal_string(n), n.to_string());
    }
}

#[test]
fn parse_decimal_u16_exact_values() {
    assert_eq!(parse_decimal_u16("0"), Some(0));
    assert_eq!(parse_decimal_u16("80"), Some(80));
    assert_eq!(parse_decimal_u16("3000"), Some(3000));
    assert_eq!(parse_decimal_u16("65535"), Some(65535));
}

#[test]
fn parse_decimal_u16_accepts_plus_and_leading_zeros() {
    assert_eq!(parse_decimal_u16("+80"), Some(80));
    assert_eq!(parse_decimal_u16("00080"), Some(80));
    assert_eq!(parse_decimal_u16("+0000000000000000000000065535"), Some(65535));
    assert_eq!(parse_decimal_u16("000"), Some(0));
}

#[test]
fn parse_decimal_u16_rejects_what_is_no_number() {
    assert_eq!(parse_decimal_u16(""), None);
    assert_eq!(parse_decimal_u16("+"), None);
    assert_eq!(parse_decimal_u16("++1"), None);
    assert_eq!(parse_decimal_u16("-1"), None);
    assert_eq!(parse_decimal_u16("-0"), None);
    assert_eq!(parse_decimal_u16(" 80"), None);
    assert_eq!(parse_decimal_u16("80 "), None);
    assert_eq!(parse_decimal_u16("8a"), None);
    assert_eq!(parse_decimal_u16("0x50"), None);
    assert_eq!(parse_decimal_u16("８０"), None);
    assert_eq!(parse_decimal_u16("1+1"), None);
}

#[test]
fn parse_decimal_u16_rejects_what_is_too_large() {
    assert_eq!(parse_decimal_u16("65536"), None);
    assert_eq!(parse_decimal_u16("70000"), None);
    assert_eq!(parse_decimal_u16("655350"), None);
    assert_eq!(parse_decimal_u16("4294967376"), None);
    assert_eq!(parse_decimal_u16("99999999999999999999999999"), None);
}

#[test]
fn parse_decimal_u16_agrees_with_the_standard_library() {
    let samples = [
        "", "+", "-", "0", "+0", "-0", "1", "01", "+01", "65535", "65536", "065535", "100000",
        "12 ", " 12", "1_000", "1e3", "٣", "+-1", "4294967296", "18446744073709551616",
    ];
    for sample in samples {
        assert_eq!(parse_decimal_u16(sample), sample.parse::<u16>().ok(), "for {:?}", sample);
    }
}

#[test]
fn parse_decimal_u16_reads_back_what_decimal_string_writes() {
    for n in 0..=u16::MAX {
        assert_eq!(parse_decimal_u16(&decimal_string(n)), Some(n));
    }
}
