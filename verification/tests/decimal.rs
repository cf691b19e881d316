use beginning_linux_programming::decimal::{
    append_decimal, format_decimal, is_whitespace_char, listen_backlog, parse_u16,
};

#[test]
fn format_decimal_values() {
    assert_eq!(format_decimal(0), b"0".to_vec());
    assert_eq!(format_decimal(7), b"7".to_vec());
    assert_eq!(format_decimal(10), b"10".to_vec());
    assert_eq!(format_decimal(8080), b"8080".to_vec());
    assert_eq!(format_decimal(u64::MAX), u64::MAX.to_string().into_bytes());
}

#[test]
fn append_decimal_keeps_prefix() {
    let mut out = b"n=".to_vec();
    append_decimal(&mut out, 305);
    assert_eq!(out, b"n=305".to_vec());
}

#[test]
fn parse_u16_accepts_what_std_accepts() {
    assert_eq!(parse_u16("128"), Some(128));
    assert_eq!(parse_u16("+5"), Some(5));
    assert_eq!(parse_u16("0"), Some(0));
    assert_eq!(parse_u16("007"), Some(7));
    assert_eq!(parse_u16("65535"), Some(65535));
}

#[test]
fn parse_u16_rejects_what_std_rejects() {
    assert_eq!(parse_u16(""), None);
    assert_eq!(parse_u16("+"), None);
    assert_eq!(parse_u16("-1"), None);
    assert_eq!(parse_u16("-0"), None);
    assert_eq!(parse_u16("65536"), None);
    assert_eq!(parse_u16("999999"), None);
    assert_eq!(parse_u16(" 1"), None);
    assert_eq!(parse_u16("12\n"), None);
    assert_eq!(parse_u16("1a"), None);
    assert_eq!(parse_u16("++1"), None);
}

#[test]
fn parse_u16_agrees_with_std() {
    for text in ["", "+", "-", "1", "+1", "-1", "00", "65535", "65536", "4096\n", " 9", "x", "١"] {
        assert_eq!(parse_u16(text), text.parse::<u16>().ok(), "{:?}", text);
    }
}

#[test]
fn listen_backlog_trims_trailing_whitespace() {
    assert_eq!(listen_backlog("4096\n"), Some(4096));
    assert_eq!(listen_backlog("128 \t\r\n"), Some(128));
    assert_eq!(listen_backlog("512\u{2003}"), Some(512));
    assert_eq!(listen_backlog("\n"), None);
    assert_eq!(listen_backlog(" 128\n"), None);
    assert_eq!(listen_backlog("70000\n"), None);
}

#[test]
fn listen_backlog_agrees_with_std() {
    for text in ["4096\n", "1\u{85}", "1\u{a0}\u{3000}", "12 3\n", "\t", "65535\r\n", "+7 "] {
        assert_eq!(listen_backlog(text), text.trim_end().parse::<u16>().ok(), "{:?}", text);
    }
}

#[test]
fn whitespace_matches_char_is_whitespace() {
    for c in ['\t', '\n', '\u{b}', '\u{c}', '\r', ' ', '\u{85}', '\u{a0}', '\u{1680}', '\u{2000}',
        '\u{200a}', '\u{2028}', '\u{2029}', '\u{202f}', '\u{205f}', '\u{3000}', 'a', '0', '\u{200b}',
        '\u{180e}', '\u{feff}', '\u{8}']
    {
        assert_eq!(is_whitespace_char(c), c.is_whitespace(), "{:?}", c);
    }
}

#[test]
fn format_then_parse_round_trips() {
    for x in (0..=u16::MAX).step_by(97).chain([u16::MAX]) {
        let text = String::from_utf8(format_decimal(u64::from(x))).unwrap();
        assert_eq!(parse_u16(&text), Some(x));
        assert_eq!(listen_backlog(&format!("{}\n", text)), Some(x));
    }
}
