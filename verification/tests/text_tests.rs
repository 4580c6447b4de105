use wvst_bridge_server::config::{BridgeConfig, BridgeEnvironment};
use wvst_bridge_server::text::{parse_unsigned, text_chars};

#[test]
fn parses_unsigned_decimal_text() {
    assert_eq!(parse_unsigned("42", u64::MAX), Some(42));
    assert_eq!(parse_unsigned("+7", u64::MAX), Some(7));
    assert_eq!(parse_unsigned("18446744073709551615", u64::MAX), Some(u64::MAX));
    assert_eq!(parse_unsigned("18446744073709551616", u64::MAX), None);
    assert_eq!(parse_unsigned("256", 255), None);
    assert_eq!(parse_unsigned("", u64::MAX), None);
    assert_eq!(parse_unsigned("+", u64::MAX), None);
    assert_eq!(parse_unsigned("-1", u64::MAX), None);
    assert_eq!(parse_unsigned(" 1", u64::MAX), None);
    assert_eq!(parse_unsigned("1a", u64::MAX), None);
}

#[test]
fn trims_splits_and_reads_characters() {
    let config = BridgeConfig::development("127.0.0.1:0").with_allowed_origins(&["\u{a0} a b \t", " \t "]);
    assert_eq!(config.allowed_origins(), ["a b"]);
    let env = BridgeEnvironment {
        allowed_origins: Some("a,,b,".to_string()),
        ..BridgeEnvironment::default()
    };
    let config = BridgeConfig::from_environment(env, false, true).expect("config");
    assert_eq!(config.allowed_origins(), ["a", "b"]);
    let env = BridgeEnvironment {
        allowed_origins: Some(String::new()),
        ..BridgeEnvironment::default()
    };
    let config = BridgeConfig::from_environment(env, false, true).expect("config");
    assert!(config.allowed_origins().is_empty());
    assert_eq!(text_chars("h\u{e9}llo"), vec!['h', '\u{e9}', 'l', 'l', 'o']);
}
