use biometric_gateway::port::parse_port;

#[test]
fn plain_port() {
    assert_eq!(parse_port("1883"), Some(1883));
}

#[test]
fn surrounding_white_space_is_ignored() {
    assert_eq!(parse_port(" 8883\n"), Some(8883));
    assert_eq!(parse_port("\u{3000}42\u{a0}"), Some(42));
}

#[test]
fn plus_sign_is_accepted() {
    assert_eq!(parse_port("+80"), Some(80));
}

#[test]
fn leading_zeros_are_accepted() {
    assert_eq!(parse_port("007"), Some(7));
}

#[test]
fn limits() {
    assert_eq!(parse_port("0"), Some(0));
    assert_eq!(parse_port("65535"), Some(65535));
    assert_eq!(parse_port("65536"), None);
    assert_eq!(parse_port("99999999999999999999"), None);
}

#[test]
fn malformed_ports() {
    for text in ["", " ", "+", "-1", "-0", "12a", "1 2", "0x50", "++1"] {
        assert_eq!(parse_port(text), None, "{text:?}");
    }
}

#[test]
fn agrees_with_std_parse() {
    for text in ["1883", " 1 ", "+0", "65535", "65536", "-5", "", "\t\n7\r"] {
        assert_eq!(parse_port(text), text.trim().parse::<u16>().ok(), "{text:?}");
    }
}

#[test]
fn every_port_reads_back() {
    for port in [0u16, 1, 9, 10, 99, 100, 1883, 8883, 65535] {
        assert_eq!(parse_port(&port.to_string()), Some(port));
    }
}
