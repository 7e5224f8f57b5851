use rustyproxy::ports::{choose_port, parse_u16};
use rustyproxy::DEFAULT_PORT;

#[test]
fn missing_argument_uses_the_default_port() {
    assert_eq!(choose_port(None), DEFAULT_PORT);
    assert_eq!(choose_port(None), 8080);
}

#[test]
fn valid_argument_is_used() {
    assert_eq!(choose_port(Some(b"9000".as_slice())), 9000);
    assert_eq!(choose_port(Some(b"80".as_slice())), 80);
    assert_eq!(choose_port(Some(b"0".as_slice())), 0);
    assert_eq!(choose_port(Some(b"65535".as_slice())), 65535);
}

#[test]
fn plus_sign_is_accepted() {
    assert_eq!(choose_port(Some(b"+443".as_slice())), 443);
    assert_eq!(parse_u16(b"+0"), Some(0));
}

#[test]
fn invalid_argument_falls_back_to_the_default() {
    assert_eq!(choose_port(Some(b"abc".as_slice())), DEFAULT_PORT);
    assert_eq!(choose_port(Some(b"".as_slice())), DEFAULT_PORT);
    assert_eq!(choose_port(Some(b"12a".as_slice())), DEFAULT_PORT);
    assert_eq!(choose_port(Some(b" 80".as_slice())), DEFAULT_PORT);
    assert_eq!(choose_port(Some(b"-1".as_slice())), DEFAULT_PORT);
    assert_eq!(choose_port(Some(b"+".as_slice())), DEFAULT_PORT);
}

#[test]
fn too_large_values_fall_back_to_the_default() {
    assert_eq!(choose_port(Some(b"65536".as_slice())), DEFAULT_PORT);
    assert_eq!(choose_port(Some(b"99999999999999999999".as_slice())), DEFAULT_PORT);
}

#[test]
fn parse_u16_matches_the_grammar() {
    assert_eq!(parse_u16(b"8080"), Some(8080));
    assert_eq!(parse_u16(b"00022"), Some(22));
    assert_eq!(parse_u16(b"65535"), Some(65535));
    assert_eq!(parse_u16(b"65536"), None);
    assert_eq!(parse_u16(b""), None);
    assert_eq!(parse_u16(b"+"), None);
    assert_eq!(parse_u16(b"1 2"), None);
    assert_eq!(parse_u16(b"++1"), None);
}
