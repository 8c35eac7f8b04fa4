use sidecar_supervisor::text::{
    append_decimal, append_signed_decimal, parse_port, port_text, seconds_text,
};

#[test]
fn port_text_writes_plain_decimal() {
    assert_eq!(port_text(0), "0");
    assert_eq!(port_text(7), "7");
    assert_eq!(port_text(80), "80");
    assert_eq!(port_text(6464), "6464");
    assert_eq!(port_text(10000), "10000");
    assert_eq!(port_text(65535), "65535");
}

#[test]
fn append_decimal_extends_what_is_there() {
    let mut out = String::from("n=");
    append_decimal(&mut out, 1234567890123);
    assert_eq!(out, "n=1234567890123");
    append_decimal(&mut out, 0);
    assert_eq!(out, "n=12345678901230");
    let mut max = String::new();
    append_decimal(&mut max, u64::MAX);
    assert_eq!(max, "18446744073709551615");
}

#[test]
fn append_signed_decimal_writes_the_sign() {
    let mut out = String::new();
    append_signed_decimal(&mut out, -15);
    assert_eq!(out, "-15");
    let mut zero = String::new();
    append_signed_decimal(&mut zero, 0);
    assert_eq!(zero, "0");
    let mut low = String::new();
    append_signed_decimal(&mut low, i32::MIN);
    assert_eq!(low, "-2147483648");
    let mut high = String::new();
    append_signed_decimal(&mut high, i32::MAX);
    assert_eq!(high, "2147483647");
}

#[test]
fn parse_port_reads_digits() {
    assert_eq!(parse_port("0"), Some(0));
    assert_eq!(parse_port("80"), Some(80));
    assert_eq!(parse_port("6464"), Some(6464));
    assert_eq!(parse_port("65535"), Some(65535));
    assert_eq!(parse_port("0080"), Some(80));
    assert_eq!(parse_port("000000000000000000000000065535"), Some(65535));
}

#[test]
fn parse_port_rejects_everything_else() {
    assert_eq!(parse_port(""), None);
    assert_eq!(parse_port("65536"), None);
    assert_eq!(parse_port("99999999999999999999"), None);
    assert_eq!(parse_port("+80"), None);
    assert_eq!(parse_port("-1"), None);
    assert_eq!(parse_port(" 80"), None);
    assert_eq!(parse_port("80 "), None);
    assert_eq!(parse_port("8o"), None);
    assert_eq!(parse_port("http"), None);
    assert_eq!(parse_port("８０"), None);
    assert_eq!(parse_port("80é"), None);
}

#[test]
fn every_port_survives_the_round_trip() {
    for port in 0..=u16::MAX {
        assert_eq!(parse_port(&port_text(port)), Some(port));
        assert_eq!(port_text(port), port.to_string());
    }
}

#[test]
fn parse_port_agrees_with_std_on_digit_strings() {
    for text in ["1", "12", "123", "1234", "12345", "123456", "65535", "65536", "70000"] {
        assert_eq!(parse_port(text), text.parse::<u16>().ok());
    }
}

#[test]
fn seconds_text_keeps_three_decimals() {
    assert_eq!(seconds_text(0), "0.000");
    assert_eq!(seconds_text(5), "0.005");
    assert_eq!(seconds_text(50), "0.050");
    assert_eq!(seconds_text(500), "0.500");
    assert_eq!(seconds_text(2000), "2.000");
    assert_eq!(seconds_text(12345), "12.345");
    assert_eq!(seconds_text(u64::MAX), "18446744073709551.615");
}
