//! Startup configuration resolution: the TLS flag grammar, the port grammar,
//! the defaults, and the fatal errors.

use my_project_name::config::{
    parse_port, parse_tls_flag, resolve_config, BindMode, ConfigError,
};

#[test]
fn tls_flag_tokens() {
    assert_eq!(parse_tls_flag("true"), Ok(BindMode::Tls));
    assert_eq!(parse_tls_flag("false"), Ok(BindMode::Plain));
}

#[test]
fn invalid_tls_flag_is_fatal() {
    assert_eq!(
        parse_tls_flag("maybe"),
        Err(ConfigError::InvalidTlsFlag(String::from("maybe")))
    );
    assert!(parse_tls_flag("TRUE").is_err());
    assert!(parse_tls_flag("").is_err());
    assert!(parse_tls_flag("on").is_err());
}

#[test]
fn port_grammar() {
    assert_eq!(parse_port("8080"), Ok(8080));
    assert_eq!(parse_port("0"), Ok(0));
    assert_eq!(parse_port("65535"), Ok(65535));
    assert_eq!(
        parse_port("65536"),
        Err(ConfigError::InvalidBindPort(String::from("65536")))
    );
    assert!(parse_port("").is_err());
    assert!(parse_port("80a0").is_err());
    assert!(parse_port("-1").is_err());
    assert!(parse_port("+80").is_err());
    assert!(parse_port("999999999999999999999").is_err());
}

#[test]
fn defaults_apply_when_nothing_is_configured() {
    let config = resolve_config(
        Some(String::from("postgres://localhost/db")),
        None,
        None,
        None,
        None,
        None,
    )
    .expect("a database url alone is a complete configuration");
    assert_eq!(config.database_url, "postgres://localhost/db");
    assert_eq!(config.bind_host, "127.0.0.1");
    assert_eq!(config.bind_port, 8080);
    assert_eq!(config.bind_mode, BindMode::Plain);
    assert_eq!(config.tls_key_path, "key.pem");
    assert_eq!(config.tls_cert_path, "cert.pem");
}

#[test]
fn explicit_values_override_defaults() {
    let config = resolve_config(
        Some(String::from("postgres://db")),
        Some(String::from("0.0.0.0")),
        Some(String::from("9090")),
        Some(String::from("true")),
        Some(String::from("/etc/tls/server.key")),
        Some(String::from("/etc/tls/server.crt")),
    )
    .expect("a fully explicit configuration resolves");
    assert_eq!(config.bind_host, "0.0.0.0");
    assert_eq!(config.bind_port, 9090);
    assert_eq!(config.bind_mode, BindMode::Tls);
    assert_eq!(config.tls_key_path, "/etc/tls/server.key");
    assert_eq!(config.tls_cert_path, "/etc/tls/server.crt");
}

#[test]
fn missing_database_url_is_fatal() {
    let result = resolve_config(None, None, None, None, None, None);
    assert_eq!(result, Err(ConfigError::MissingDatabaseUrl));
}

#[test]
fn invalid_flag_rejected_at_startup() {
    let result = resolve_config(
        Some(String::from("postgres://db")),
        None,
        None,
        Some(String::from("maybe")),
        None,
        None,
    );
    assert_eq!(
        result,
        Err(ConfigError::InvalidTlsFlag(String::from("maybe")))
    );
}

#[test]
fn invalid_port_rejected_at_startup() {
    let result = resolve_config(
        Some(String::from("postgres://db")),
        None,
        Some(String::from("eighty")),
        None,
        None,
        None,
    );
    assert_eq!(
        result,
        Err(ConfigError::InvalidBindPort(String::from("eighty")))
    );
}
