use wedding_backend::port::{parse_u16, resolve_port};

#[test]
fn non_numeric_port_falls_back_to_8000() {
    assert_eq!(resolve_port(Some("abc")), 8000);
}

#[test]
fn missing_port_defaults_to_8000() {
    assert_eq!(resolve_port(None), 8000);
}

#[test]
fn numeric_port_is_used() {
    assert_eq!(resolve_port(Some("8080")), 8080);
    assert_eq!(resolve_port(Some("1")), 1);
    assert_eq!(resolve_port(Some("65535")), 65535);
}

#[test]
fn out_of_range_port_falls_back() {
    assert_eq!(resolve_port(Some("65536")), 8000);
    assert_eq!(resolve_port(Some("99999999999999999999")), 8000);
}

#[test]
fn parse_matches_std_semantics() {
    // The same strings through std's parser, as the service originally
    // resolved its port.
    for s in ["", "+", "+123", "007", "65535", "65536", "-1", " 80", "80 ", "8_0", "abc", "0", "4294967296"] {
        assert_eq!(parse_u16(s), s.parse::<u16>().ok(), "input {:?}", s);
    }
}

#[test]
fn parse_accepts_plus_and_leading_zeros() {
    assert_eq!(parse_u16("+8000"), Some(8000));
    assert_eq!(parse_u16("007"), Some(7));
    assert_eq!(parse_u16("0"), Some(0));
}

#[test]
fn parse_rejects_empty_sign_and_spaces() {
    assert_eq!(parse_u16(""), None);
    assert_eq!(parse_u16("+"), None);
    assert_eq!(parse_u16("-1"), None);
    assert_eq!(parse_u16(" 80"), None);
    assert_eq!(parse_u16("80 "), None);
    assert_eq!(parse_u16("++1"), None);
}
