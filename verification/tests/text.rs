use mfa_service::text::{parse_unsigned_text, render_u64};

#[test]
fn renders_decimal() {
    assert_eq!(render_u64(0), "0");
    assert_eq!(render_u64(7), "7");
    assert_eq!(render_u64(10), "10");
    assert_eq!(render_u64(30720), "30720");
    assert_eq!(render_u64(u64::MAX), u64::MAX.to_string());
}

#[test]
fn parses_like_str_parse() {
    assert_eq!(parse_unsigned_text("3000", 65535), Some(3000));
    assert_eq!(parse_unsigned_text("+587", 65535), Some(587));
    assert_eq!(parse_unsigned_text("007", 65535), Some(7));
    assert_eq!(parse_unsigned_text("65535", 65535), Some(65535));
    assert_eq!(parse_unsigned_text("65536", 65535), None);
    assert_eq!(parse_unsigned_text("", 65535), None);
    assert_eq!(parse_unsigned_text("+", 65535), None);
    assert_eq!(parse_unsigned_text("-1", 65535), None);
    assert_eq!(parse_unsigned_text("12a", 65535), None);
    assert_eq!(parse_unsigned_text(" 12", 65535), None);
    assert_eq!(parse_unsigned_text("18446744073709551615", u64::MAX), Some(u64::MAX));
    assert_eq!(parse_unsigned_text("18446744073709551616", u64::MAX), None);
    assert_eq!(parse_unsigned_text("99999999999999999999x", u64::MAX), None);
}

#[test]
fn parse_agrees_with_std() {
    for s in ["0", "1", "+1", "-0", "255", "256", "+", "", "1_0", "٣"] {
        assert_eq!(parse_unsigned_text(s, 255).map(|v| v as u8), s.parse::<u8>().ok(), "{s}");
    }
}
