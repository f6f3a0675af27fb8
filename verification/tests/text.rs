use pgdesk::text::{chars_of, parse_port, push_decimal, str_eq, trim_str, white_space};

#[test]
fn trim_removes_surrounding_white_space() {
    assert_eq!(trim_str("  prod \t\n"), "prod");
    assert_eq!(trim_str("inner space kept"), "inner space kept");
    assert_eq!(trim_str("   "), "");
    assert_eq!(trim_str(""), "");
    assert_eq!(trim_str("\u{3000}wide\u{00A0}"), "wide");
}

#[test]
fn trim_matches_std_trim() {
    for s in ["  a b  ", "\u{2028}x\u{85}", "\u{200B}zero-width stays\u{200B}", "\r\n", "ok"] {
        assert_eq!(trim_str(s), s.trim());
    }
}

#[test]
fn trim_twice_is_trim_once() {
    let once = trim_str(" \t value \n");
    assert_eq!(trim_str(&once), once);
}

#[test]
fn white_space_agrees_with_char_is_whitespace() {
    for u in 0u32..0x3100 {
        if let Some(c) = char::from_u32(u) {
            assert_eq!(white_space(c), c.is_whitespace(), "code point {u:#x}");
        }
    }
}

#[test]
fn parse_port_accepts_what_u16_from_str_accepts() {
    let cases = [
        "5432", "0", "65535", "65536", "+80", "+", "", "-1", " 80", "80 ", "00080", "8a", "١٢",
        "99999999999", "+0",
    ];
    for s in cases {
        assert_eq!(parse_port(s), s.parse::<u16>().ok(), "input {s:?}");
    }
}

#[test]
fn parse_port_values() {
    assert_eq!(parse_port("5432"), Some(5432));
    assert_eq!(parse_port("+80"), Some(80));
    assert_eq!(parse_port("65536"), None);
    assert_eq!(parse_port(""), None);
    assert_eq!(parse_port("+"), None);
}

#[test]
fn decimal_then_parse_round_trips() {
    for n in [0u16, 7, 10, 5432, 65535] {
        let mut s = String::new();
        push_decimal(&mut s, n as u64);
        assert_eq!(s, n.to_string());
        assert_eq!(parse_port(&s), Some(n));
    }
}

#[test]
fn push_decimal_appends() {
    let mut s = String::from("n=");
    push_decimal(&mut s, 18446744073709551615);
    assert_eq!(s, "n=18446744073709551615");
}

#[test]
fn chars_and_equality() {
    assert_eq!(chars_of("héllo"), vec!['h', 'é', 'l', 'l', 'o']);
    assert!(str_eq("abc", "abc"));
    assert!(!str_eq("abc", "abd"));
}
