use lambda_operator::config::{parse_http_port, OperatorConfig, DEFAULT_HTTP_PORT};
use lambda_operator::error::OperatorError;

#[test]
fn nothing_set_gives_the_defaults() {
    let config = OperatorConfig::from_vars(None, None).expect("the defaults are valid");
    assert_eq!(config.http_port, 8080);
    assert_eq!(config.http_port, DEFAULT_HTTP_PORT);
    assert_eq!(config.default_namespace, "default");
}

#[test]
fn both_settings_are_taken_as_set() {
    let config = OperatorConfig::from_vars(Some("9090".to_string()), Some("lambdas".to_string()))
        .expect("the port is valid");
    assert_eq!(config.http_port, 9090);
    assert_eq!(config.default_namespace, "lambdas");
}

#[test]
fn an_empty_namespace_is_kept_empty() {
    let config = OperatorConfig::from_vars(None, Some(String::new())).expect("valid");
    assert_eq!(config.default_namespace, "");
}

#[test]
fn an_invalid_port_is_a_configuration_error() {
    for text in ["", "abc", "65536", "-1", " 80", "80 ", "8_080", "+", "0x50", "80.0"] {
        match OperatorConfig::from_vars(Some(text.to_string()), Some("ns".to_string())) {
            Err(OperatorError::ConfigError(message)) => assert_eq!(message, "Invalid HTTP_PORT"),
            other => panic!("expected ConfigError for {:?}, got {:?}", text, other),
        }
    }
}

#[test]
fn ports_parse_as_decimal_numbers() {
    assert_eq!(parse_http_port("8080"), Some(8080));
    assert_eq!(parse_http_port("0"), Some(0));
    assert_eq!(parse_http_port("65535"), Some(65535));
    assert_eq!(parse_http_port("+443"), Some(443));
    assert_eq!(parse_http_port("000080"), Some(80));
    assert_eq!(parse_http_port("0000000000000000000000000001"), Some(1));
}

#[test]
fn texts_that_are_no_port_parse_to_none() {
    assert_eq!(parse_http_port(""), None);
    assert_eq!(parse_http_port("+"), None);
    assert_eq!(parse_http_port("-"), None);
    assert_eq!(parse_http_port("++1"), None);
    assert_eq!(parse_http_port("-0"), None);
    assert_eq!(parse_http_port("65536"), None);
    assert_eq!(parse_http_port("99999999999999999999999999"), None);
    assert_eq!(parse_http_port("12a"), None);
    assert_eq!(parse_http_port("٣"), None);
    assert_eq!(parse_http_port("1 "), None);
}

#[test]
fn port_parsing_agrees_with_the_standard_parser() {
    let texts = [
        "", "0", "1", "9", "10", "80", "8080", "65535", "65536", "65540", "70000", "655350",
        "+", "-", "+0", "+65535", "+65536", "-1", "--1", "+-1", "++1", "1+", "0001", "00065535",
        "00065536", " 1", "1 ", "1_0", "1e3", "0x10", "१२", "18446744073709551616", "a", "/", ":",
    ];
    for text in texts {
        assert_eq!(parse_http_port(text), text.parse::<u16>().ok(), "for {:?}", text);
    }
}

#[test]
fn a_configuration_can_be_cloned() {
    let config = OperatorConfig::from_vars(Some("81".to_string()), None).expect("valid");
    let copy = config.clone();
    assert_eq!(copy.http_port, 81);
    assert_eq!(copy.default_namespace, "default");
}
