use chorus_config::config::FriendlyConfig;
use chorus_config::error::Error;
use chorus_config::level::LogLevel;

fn valid_key(pattern: &str) -> String {
    pattern.repeat(64 / pattern.len())
}

#[test]
fn default_fields_match_documented_values() {
    let f = FriendlyConfig::default();
    assert_eq!(f.data_directory, "/tmp");
    assert_eq!(f.ip_address, "127.0.0.1");
    assert_eq!(f.port, 80);
    assert_eq!(f.hostname, "localhost");
    assert!(!f.use_tls);
    assert_eq!(f.certchain_pem_path, "./tls/fullchain.pem");
    assert_eq!(f.key_pem_path, "./tls/privkey.pem");
    assert_eq!(f.name, None);
    assert_eq!(f.description, None);
    assert_eq!(f.contact, None);
    assert_eq!(f.public_key_hex, None);
    assert!(f.user_hex_keys.is_empty());
    assert!(f.verify_events);
    assert!(!f.allow_scraping);
    assert_eq!(f.max_subscriptions, 32);
    assert!(f.serve_ephemeral);
    assert!(f.serve_relay_lists);
    assert_eq!(f.server_log_level, "Info");
    assert_eq!(f.library_log_level, "Warn");
    assert_eq!(f.client_log_level, "Error");
}

#[test]
fn default_conversion_succeeds() {
    let c = FriendlyConfig::default().into_config().unwrap();
    assert_eq!(c.hostname.as_str(), "localhost");
    assert_eq!(c.port, 80);
    assert!(c.public_key.is_none());
    assert!(c.user_keys.is_empty());
    assert!(c.user_hex_keys.is_empty());
    assert_eq!(c.server_log_level, LogLevel::Info);
    assert_eq!(c.library_log_level, LogLevel::Warn);
    assert_eq!(c.client_log_level, LogLevel::Error);
}

#[test]
fn default_conversion_deterministic() {
    let a = FriendlyConfig::default().into_config().unwrap();
    let b = FriendlyConfig::default().into_config().unwrap();
    assert_eq!(a.data_directory, b.data_directory);
    assert_eq!(a.ip_address, b.ip_address);
    assert_eq!(a.port, b.port);
    assert_eq!(a.hostname.as_str(), b.hostname.as_str());
    assert_eq!(a.use_tls, b.use_tls);
    assert_eq!(a.certchain_pem_path, b.certchain_pem_path);
    assert_eq!(a.key_pem_path, b.key_pem_path);
    assert_eq!(a.name, b.name);
    assert_eq!(a.description, b.description);
    assert_eq!(a.contact, b.contact);
    assert!(a.public_key.is_none() && b.public_key.is_none());
    assert_eq!(a.user_keys.len(), b.user_keys.len());
    assert_eq!(a.user_hex_keys, b.user_hex_keys);
    assert_eq!(a.verify_events, b.verify_events);
    assert_eq!(a.allow_scraping, b.allow_scraping);
    assert_eq!(a.max_subscriptions, b.max_subscriptions);
    assert_eq!(a.serve_ephemeral, b.serve_ephemeral);
    assert_eq!(a.serve_relay_lists, b.serve_relay_lists);
    assert_eq!(a.server_log_level, b.server_log_level);
    assert_eq!(a.library_log_level, b.library_log_level);
    assert_eq!(a.client_log_level, b.client_log_level);
}

#[test]
fn default_config_builder_matches_converted_default() {
    let built = chorus_config::config::default_config();
    let converted = FriendlyConfig::default().into_config().unwrap();
    assert_eq!(built.hostname.as_str(), converted.hostname.as_str());
    assert_eq!(built.port, converted.port);
    assert_eq!(built.data_directory, converted.data_directory);
    assert_eq!(built.server_log_level, converted.server_log_level);
}

#[test]
fn operator_key_decoded_in_conversion() {
    let mut f = FriendlyConfig::default();
    f.public_key_hex = Some(valid_key("ab"));
    let c = f.into_config().unwrap();
    let key = c.public_key.unwrap();
    assert_eq!(key.as_bytes(), &[0xabu8; 32][..]);
    assert_eq!(key.write_hex(), valid_key("ab"));
}

#[test]
fn operator_key_malformed_fails_conversion() {
    let mut f = FriendlyConfig::default();
    f.public_key_hex = Some(valid_key("zz"));
    assert_eq!(f.into_config().unwrap_err(), Error::InvalidPublicKey);
}

#[test]
fn user_key_list_order_preserved() {
    let keys = vec![valid_key("01"), valid_key("ab"), valid_key("ff")];
    let mut f = FriendlyConfig::default();
    f.user_hex_keys = keys.clone();
    let c = f.into_config().unwrap();
    assert_eq!(c.user_keys.len(), 3);
    assert_eq!(c.user_hex_keys, keys);
    assert_eq!(c.user_keys[0].as_bytes(), &[0x01u8; 32][..]);
    assert_eq!(c.user_keys[1].as_bytes(), &[0xabu8; 32][..]);
    assert_eq!(c.user_keys[2].as_bytes(), &[0xffu8; 32][..]);
}

#[test]
fn user_key_list_fail_fast() {
    let mut f = FriendlyConfig::default();
    f.user_hex_keys = vec![valid_key("01"), "not hex at all".to_string(), valid_key("ff")];
    assert_eq!(f.into_config().unwrap_err(), Error::InvalidPublicKey);
}

#[test]
fn user_key_fail_takes_precedence_over_bad_hostname() {
    let mut f = FriendlyConfig::default();
    f.user_hex_keys = vec![valid_key("0g")];
    f.hostname = String::new();
    assert_eq!(f.into_config().unwrap_err(), Error::InvalidPublicKey);
}

#[test]
fn hostname_accepted_forms() {
    for host in ["localhost", "example.com", "127.0.0.1", "[::1]"] {
        let mut f = FriendlyConfig::default();
        f.hostname = host.to_string();
        let c = f.into_config().unwrap();
        assert_eq!(c.hostname.as_str(), host);
    }
}

#[test]
fn hostname_rejected_forms() {
    for host in ["", "exa\u{0}mple", "a b c"] {
        let mut f = FriendlyConfig::default();
        f.hostname = host.to_string();
        assert_eq!(f.into_config().unwrap_err(), Error::InvalidHostname);
    }
}

#[test]
fn unrecognized_levels_fall_back_per_scope() {
    let mut f = FriendlyConfig::default();
    f.server_log_level = "Chatty".to_string();
    f.library_log_level = "Chatty".to_string();
    f.client_log_level = "Chatty".to_string();
    let c = f.into_config().unwrap();
    assert_eq!(c.server_log_level, LogLevel::Error);
    assert_eq!(c.library_log_level, LogLevel::Warn);
    assert_eq!(c.client_log_level, LogLevel::Info);
}

#[test]
fn recognized_levels_resolve_exactly() {
    let mut f = FriendlyConfig::default();
    f.server_log_level = "trace".to_string();
    f.library_log_level = "OFF".to_string();
    f.client_log_level = "dEbUg".to_string();
    let c = f.into_config().unwrap();
    assert_eq!(c.server_log_level, LogLevel::Trace);
    assert_eq!(c.library_log_level, LogLevel::Off);
    assert_eq!(c.client_log_level, LogLevel::Debug);
}

#[test]
fn end_to_end_scenario() {
    let mut f = FriendlyConfig::default();
    f.public_key_hex = Some(valid_key("ab"));
    f.user_hex_keys = vec![];
    f.hostname = "relay.example.org".to_string();
    f.server_log_level = "Debug".to_string();
    let c = f.into_config().unwrap();
    let parsed = url::Host::parse("relay.example.org").unwrap();
    assert_eq!(c.hostname.as_str(), parsed.to_string());
    assert_eq!(c.public_key.unwrap().as_bytes(), &[0xabu8; 32][..]);
    assert_eq!(c.server_log_level, LogLevel::Debug);
}
