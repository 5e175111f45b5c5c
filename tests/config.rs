use journal::config::{parse_port, Config, ConfigError};

fn some(s: &str) -> Option<String> {
    Some(s.to_string())
}

#[test]
fn ports_read_as_decimal_numbers() {
    assert_eq!(parse_port("8080"), Some(8080));
    assert_eq!(parse_port("+80"), Some(80));
    assert_eq!(parse_port("0"), Some(0));
    assert_eq!(parse_port("065535"), Some(65535));
    assert_eq!(parse_port("65536"), None);
    assert_eq!(parse_port("99999999999999999999999"), None);
    assert_eq!(parse_port(""), None);
    assert_eq!(parse_port("+"), None);
    assert_eq!(parse_port("-1"), None);
    assert_eq!(parse_port("80a"), None);
    assert_eq!(parse_port(" 80"), None);
}

#[test]
fn settings_are_taken_when_all_are_present() {
    let c = Config::new(some("c.pem"), some("k.pem"), some("static"), some("assets"), some("8080"))
        .unwrap();
    assert_eq!(c.cert_path, "c.pem");
    assert_eq!(c.key_path, "k.pem");
    assert_eq!(c.static_path, "static");
    assert_eq!(c.assets_path, "assets");
    assert_eq!(c.port, 8080);
}

#[test]
fn the_first_missing_setting_is_reported() {
    assert_eq!(
        Config::new(None, None, None, None, None).unwrap_err(),
        ConfigError::Missing("CERT_PATH".to_string())
    );
    assert_eq!(
        Config::new(some("c"), None, None, None, None).unwrap_err(),
        ConfigError::Missing("KEY_PATH".to_string())
    );
    assert_eq!(
        Config::new(some("c"), some("k"), None, some("a"), some("1")).unwrap_err(),
        ConfigError::Missing("STATIC_PATH".to_string())
    );
    assert_eq!(
        Config::new(some("c"), some("k"), some("s"), None, some("1")).unwrap_err(),
        ConfigError::Missing("ASSETS_PATH".to_string())
    );
    assert_eq!(
        Config::new(some("c"), some("k"), some("s"), some("a"), None).unwrap_err(),
        ConfigError::Missing("SERVER_PORT".to_string())
    );
    assert_eq!(
        Config::new(some("c"), some("k"), some("s"), some("a"), some("http")).unwrap_err(),
        ConfigError::InvalidPort("http".to_string())
    );
}
