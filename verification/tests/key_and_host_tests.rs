use chorus_config::error::Error;
use chorus_config::hex::Pubkey;
use chorus_config::host::parse_hostname;
use chorus_config::level::LogLevel;
use chorus_config::level::resolve_level;

#[test]
fn key_round_trip_lowercase() {
    let hex = "0123456789abcdef".repeat(4);
    let key = Pubkey::read_hex(&hex).unwrap();
    assert_eq!(key.write_hex(), hex);
}

#[test]
fn key_round_trip_mixed_case_canonicalizes_to_lowercase() {
    let upper = "0123456789ABCDEF".repeat(4);
    let key = Pubkey::read_hex(&upper).unwrap();
    assert_eq!(key.write_hex(), upper.to_lowercase());
}

#[test]
fn key_decodes_expected_bytes() {
    let hex = "00ff".repeat(16);
    let key = Pubkey::read_hex(&hex).unwrap();
    let mut expected = Vec::new();
    for _ in 0..16 {
        expected.push(0x00u8);
        expected.push(0xffu8);
    }
    assert_eq!(key.as_bytes(), &expected[..]);
}

#[test]
fn key_wrong_length_rejected() {
    for bad in ["", "ab", &"ab".repeat(31), &"ab".repeat(33)] {
        assert_eq!(Pubkey::read_hex(bad).unwrap_err(), Error::InvalidPublicKey);
    }
}

#[test]
fn key_non_hex_character_rejected() {
    let mut bad = "ab".repeat(31);
    bad.push_str("g!");
    assert_eq!(bad.len(), 64);
    assert_eq!(Pubkey::read_hex(&bad).unwrap_err(), Error::InvalidPublicKey);
}

#[test]
fn hostname_parse_accepts_and_canonicalizes() {
    assert_eq!(parse_hostname("localhost").unwrap().as_str(), "localhost");
    assert_eq!(parse_hostname("example.com").unwrap().as_str(), "example.com");
    // The parser canonicalizes: the result is not the input echoed back.
    assert_eq!(parse_hostname("EXAMPLE.COM").unwrap().as_str(), "example.com");
    assert_eq!(
        parse_hostname("[0:0:0:0:0:0:0:1]").unwrap().as_str(),
        "[::1]"
    );
    let via_url = url::Host::parse("ExAmPlE.oRg").unwrap().to_string();
    assert_eq!(parse_hostname("ExAmPlE.oRg").unwrap().as_str(), via_url);
}

#[test]
fn hostname_parse_rejects() {
    assert_eq!(parse_hostname("").unwrap_err(), Error::InvalidHostname);
    assert_eq!(parse_hostname("bad\u{7}host").unwrap_err(), Error::InvalidHostname);
}

#[test]
fn level_names_resolve_case_insensitively() {
    assert_eq!(resolve_level("off", LogLevel::Info), LogLevel::Off);
    assert_eq!(resolve_level("ERROR", LogLevel::Info), LogLevel::Error);
    assert_eq!(resolve_level("Warn", LogLevel::Info), LogLevel::Warn);
    assert_eq!(resolve_level("info", LogLevel::Error), LogLevel::Info);
    assert_eq!(resolve_level("dEbUg", LogLevel::Info), LogLevel::Debug);
    assert_eq!(resolve_level("TRACE", LogLevel::Info), LogLevel::Trace);
}

#[test]
fn unknown_level_name_yields_fallback() {
    assert_eq!(resolve_level("Chatty", LogLevel::Warn), LogLevel::Warn);
    assert_eq!(resolve_level("", LogLevel::Debug), LogLevel::Debug);
    assert_eq!(resolve_level("Inform", LogLevel::Off), LogLevel::Off);
}
