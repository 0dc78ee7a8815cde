use api::config::{parse_port, AppConfig};
use api::types::ConfigError;

#[test]
fn load_assembles_both_settings() {
    let config = AppConfig::load(
        Some("http://127.0.0.1:8545".to_string()),
        Some("8080".to_string()),
    )
    .unwrap();
    assert_eq!(config.rpc_url, "http://127.0.0.1:8545");
    assert_eq!(config.port, 8080);
}

#[test]
fn load_names_the_missing_setting() {
    assert_eq!(
        AppConfig::load(None, Some("8080".to_string())).unwrap_err(),
        ConfigError::MissingRpcUrl
    );
    assert_eq!(
        AppConfig::load(Some("http://x".to_string()), None).unwrap_err(),
        ConfigError::MissingPort
    );
}

#[test]
fn load_refuses_a_port_that_is_not_a_number() {
    assert_eq!(
        AppConfig::load(Some("http://x".to_string()), Some("80a0".to_string())).unwrap_err(),
        ConfigError::InvalidPort
    );
    assert_eq!(
        AppConfig::load(Some("http://x".to_string()), Some("".to_string())).unwrap_err(),
        ConfigError::InvalidPort
    );
    assert_eq!(
        AppConfig::load(Some("http://x".to_string()), Some("-1".to_string())).unwrap_err(),
        ConfigError::InvalidPort
    );
}

#[test]
fn load_refuses_a_port_past_the_width() {
    assert_eq!(
        AppConfig::load(Some("http://x".to_string()), Some("65536".to_string())).unwrap_err(),
        ConfigError::InvalidPort
    );
    assert_eq!(
        AppConfig::load(Some("http://x".to_string()), Some("99999999999999".to_string()))
            .unwrap_err(),
        ConfigError::InvalidPort
    );
}

#[test]
fn parse_port_handles_bounds_and_leading_zeros() {
    assert_eq!(parse_port("0"), Some(0));
    assert_eq!(parse_port("65535"), Some(65535));
    assert_eq!(parse_port("0065535"), Some(65535));
    assert_eq!(parse_port("65536"), None);
    assert_eq!(parse_port(""), None);
    assert_eq!(parse_port("12 3"), None);
}
