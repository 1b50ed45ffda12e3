use circular_transaction_exporter::CircularExportConfig;
use circular_transaction_exporter::api_key::{API_KEY_HEADER, ApiKey, ApiKeyError};
use std::path::PathBuf;
use std::time::Duration;

#[test]
fn defaults_are_the_documented_ones() {
    let config = CircularExportConfig::default();
    assert_eq!(config.url, "http://cashback.circular.fi");
    assert_eq!(config.api_key, "");
    assert_eq!(config.queue_capacity, 8192);
    assert_eq!(config.max_in_flight, 1024);
    assert_eq!(config.connect_timeout, Duration::from_secs(5));
    assert_eq!(config.request_timeout, Duration::from_secs(2));
    assert_eq!(config.memo, None);
    assert_eq!(config.cashback_address, None);
    assert_eq!(config.tls_ca_path, None);
    assert!(!config.include_votes);
}

#[test]
fn a_copied_configuration_is_the_same() {
    let config = CircularExportConfig {
        url: "https://fast.example".to_string(),
        api_key: "key".to_string(),
        queue_capacity: 1,
        max_in_flight: 2,
        connect_timeout: Duration::from_millis(3),
        request_timeout: Duration::from_millis(4),
        memo: Some("memo".to_string()),
        cashback_address: Some("address".to_string()),
        tls_ca_path: Some(PathBuf::from("/etc/ca.pem")),
        include_votes: true,
    };
    let copy = config.clone();
    assert_eq!(copy.url, config.url);
    assert_eq!(copy.api_key, config.api_key);
    assert_eq!(copy.queue_capacity, config.queue_capacity);
    assert_eq!(copy.max_in_flight, config.max_in_flight);
    assert_eq!(copy.connect_timeout, config.connect_timeout);
    assert_eq!(copy.request_timeout, config.request_timeout);
    assert_eq!(copy.memo, config.memo);
    assert_eq!(copy.cashback_address, config.cashback_address);
    assert_eq!(copy.tls_ca_path, config.tls_ca_path);
    assert_eq!(copy.include_votes, config.include_votes);
}

#[test]
fn plain_endpoints_use_no_tls() {
    let config = CircularExportConfig::default();
    let plan = config.channel_plan("1.2.3").unwrap();
    assert_eq!(plan.url, config.url);
    assert_eq!(plan.connect_timeout, config.connect_timeout);
    assert_eq!(plan.user_agent, "circular-jito/1.2.3");
    assert!(plan.tcp_nodelay);
    assert!(!plan.tls);
    assert!(!plan.custom_ca);
    assert!(!plan.announce_tls);
}

#[test]
fn tls_endpoints_use_tls() {
    let config = CircularExportConfig {
        url: "https://fast.example".to_string(),
        ..CircularExportConfig::default()
    };
    let plan = config.channel_plan("0").unwrap();
    assert!(plan.tls);
    assert!(!plan.custom_ca);
    assert!(plan.announce_tls);
}

#[test]
fn a_root_certificate_asks_for_tls_on_any_endpoint() {
    let config = CircularExportConfig {
        url: "http://fast.example".to_string(),
        tls_ca_path: Some(PathBuf::from("/etc/ca.pem")),
        ..CircularExportConfig::default()
    };
    let plan = config.channel_plan("0").unwrap();
    assert!(plan.tls);
    assert!(plan.custom_ca);
    assert!(!plan.announce_tls);
}

#[test]
fn a_channel_takes_a_url_that_names_an_endpoint() {
    for url in ["", "http://bad host", "no\u{1}uri"] {
        let config = CircularExportConfig {
            url: url.to_string(),
            ..CircularExportConfig::default()
        };
        assert!(config.channel_plan("0").is_err());
    }
}

#[test]
fn api_keys_are_metadata_values() {
    assert_eq!(API_KEY_HEADER, "x-api-key");
    let key = ApiKey::parse("test-key").unwrap();
    assert_eq!(key.as_str(), "test-key");
    assert_eq!(key.clone().as_str(), "test-key");
    assert!(matches!(ApiKey::parse(""), Err(ApiKeyError::Missing)));
    assert_eq!(ApiKey::parse("a\tb ~").unwrap().as_str(), "a\tb ~");
}

#[test]
fn control_characters_are_turned_down() {
    for text in ["line\nbreak", "\u{7f}", "\0", "\u{1f}"] {
        assert!(matches!(ApiKey::parse(text), Err(ApiKeyError::Invalid(_))));
    }
}
