use search_gateway::config::{AppConfig, ConfigError, EnvVars};
use search_gateway::num::{parse_i32, parse_u64};

fn no_vars() -> EnvVars {
    EnvVars { host: None, port: None, connect_timeout_millis: None, engine_id: None, api_key: None }
}

#[test]
fn parse_i32_reads_signed_decimal() {
    assert_eq!(parse_i32("42"), Some(42));
    assert_eq!(parse_i32("+7"), Some(7));
    assert_eq!(parse_i32("-15"), Some(-15));
    assert_eq!(parse_i32("-0"), Some(0));
    assert_eq!(parse_i32("2147483647"), Some(i32::MAX));
    assert_eq!(parse_i32("-2147483648"), Some(i32::MIN));
}

#[test]
fn parse_i32_rejects_malformed_and_out_of_range() {
    assert_eq!(parse_i32(""), None);
    assert_eq!(parse_i32("-"), None);
    assert_eq!(parse_i32("+"), None);
    assert_eq!(parse_i32("abc"), None);
    assert_eq!(parse_i32("12a"), None);
    assert_eq!(parse_i32(" 1"), None);
    assert_eq!(parse_i32("2147483648"), None);
    assert_eq!(parse_i32("-2147483649"), None);
    assert_eq!(parse_i32("99999999999999999999x"), None);
}

#[test]
fn parse_u64_reads_unsigned_decimal() {
    assert_eq!(parse_u64("30000"), Some(30000));
    assert_eq!(parse_u64("+5"), Some(5));
    assert_eq!(parse_u64("18446744073709551615"), Some(u64::MAX));
    assert_eq!(parse_u64("18446744073709551616"), None);
    assert_eq!(parse_u64("-1"), None);
    assert_eq!(parse_u64(""), None);
}

#[test]
fn no_environment_gives_defaults() {
    let c = AppConfig::from_vars(&no_vars()).ok().unwrap();
    assert_eq!(c.host, "0.0.0.0");
    assert_eq!(c.port, 8080);
    assert_eq!(c.client_connect_timeout_millis, 30000);
    assert_eq!(c.google_search_api_engine_id, "");
    assert_eq!(c.google_search_api_key, "");
    assert_eq!(c.bind_address(), "0.0.0.0:8080");
}

#[test]
fn set_variables_are_used() {
    let vars = EnvVars {
        host: Some("127.0.0.1".to_string()),
        port: Some("3000".to_string()),
        connect_timeout_millis: Some("1500".to_string()),
        engine_id: Some("engine".to_string()),
        api_key: Some("SECRET-REDACTED".to_string()),
    };
    let c = AppConfig::from_vars(&vars).ok().unwrap();
    assert_eq!(c.host, "127.0.0.1");
    assert_eq!(c.port, 3000);
    assert_eq!(c.client_connect_timeout_millis, 1500);
    assert_eq!(c.google_search_api_engine_id, "engine");
    assert_eq!(c.google_search_api_key, "SECRET-REDACTED");
    assert_eq!(c.bind_address(), "127.0.0.1:3000");
}

#[test]
fn unparseable_port_is_an_error() {
    let mut vars = no_vars();
    vars.port = Some("abc".to_string());
    assert_eq!(AppConfig::from_vars(&vars).err(), Some(ConfigError::InvalidPort));
}

#[test]
fn unparseable_timeout_is_an_error_and_checked_first() {
    let mut vars = no_vars();
    vars.connect_timeout_millis = Some("soon".to_string());
    assert_eq!(AppConfig::from_vars(&vars).err(), Some(ConfigError::InvalidConnectTimeout));
    vars.port = Some("abc".to_string());
    assert_eq!(AppConfig::from_vars(&vars).err(), Some(ConfigError::InvalidConnectTimeout));
}

#[test]
fn bind_address_writes_negative_port() {
    let mut vars = no_vars();
    vars.host = Some("::1".to_string());
    vars.port = Some("-5".to_string());
    let c = AppConfig::from_vars(&vars).ok().unwrap();
    assert_eq!(c.bind_address(), "::1:-5");
}
