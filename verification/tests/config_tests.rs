use string_mem_test::config::{parse_u64, Config, ConfigError, MAX_INTERVAL_SECONDS};

#[test]
fn parse_simple_values() {
    assert_eq!(parse_u64("0"), Some(0));
    assert_eq!(parse_u64("7"), Some(7));
    assert_eq!(parse_u64("181"), Some(181));
    assert_eq!(parse_u64("007"), Some(7));
}

#[test]
fn parse_u64_boundary() {
    assert_eq!(parse_u64("18446744073709551615"), Some(u64::MAX));
    assert_eq!(parse_u64("18446744073709551616"), None);
    assert_eq!(parse_u64("99999999999999999999999"), None);
}

#[test]
fn parse_rejects_non_digits() {
    assert_eq!(parse_u64(""), None);
    assert_eq!(parse_u64("abc"), None);
    assert_eq!(parse_u64("12x"), None);
    assert_eq!(parse_u64("-1"), None);
    assert_eq!(parse_u64(" 1"), None);
    assert_eq!(parse_u64("1.5"), None);
}

#[test]
fn defaults_when_no_options() {
    let config = Config::from_options(None, None).unwrap();
    assert_eq!(config.interval_seconds, 0);
    assert!(config.file_path.is_none());
}

#[test]
fn both_options_given() {
    let config =
        Config::from_options(Some("181".to_string()), Some("./file_name".to_string())).unwrap();
    assert_eq!(config.interval_seconds, 181);
    assert_eq!(config.file_path.as_deref(), Some("./file_name"));
}

#[test]
fn invalid_interval_is_rejected() {
    let r = Config::from_options(Some("abc".to_string()), None);
    assert_eq!(r.unwrap_err(), ConfigError::InvalidInterval);
    let r = Config::from_options(Some("18446744073709551616".to_string()), None);
    assert_eq!(r.unwrap_err(), ConfigError::InvalidInterval);
}

#[test]
fn oversized_interval_is_rejected() {
    let r = Config::from_options(Some("18446744073709552".to_string()), None);
    assert_eq!(r.unwrap_err(), ConfigError::IntervalTooLarge);
}

#[test]
fn largest_interval_still_converts() {
    let config =
        Config::from_options(Some(MAX_INTERVAL_SECONDS.to_string()), None).unwrap();
    assert_eq!(config.interval_seconds, MAX_INTERVAL_SECONDS);
    assert_eq!(config.interval_millis(), MAX_INTERVAL_SECONDS * 1000);
}

#[test]
fn interval_converts_to_milliseconds() {
    let config = Config::from_options(Some("181".to_string()), None).unwrap();
    assert_eq!(config.interval_millis(), 181_000);
    let config = Config::from_options(None, None).unwrap();
    assert_eq!(config.interval_millis(), 0);
}
