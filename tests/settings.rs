use qr_payment::config::{config_from_settings, parse_decimal, parse_i64, DEFAULT_PORT, DEFAULT_TTL_SECS};

fn settings(host: Option<&str>, port: Option<&str>, ttl: Option<&str>) -> Option<qr_payment::model::Config> {
    config_from_settings(
        "postgres://db".to_string(),
        "redis://cache".to_string(),
        "SECRET-REDACTED".to_string(),
        host.map(|s| s.to_string()),
        port.map(|s| s.to_string()),
        ttl.map(|s| s.to_string()),
    )
}

#[test]
fn decimal_numerals() {
    assert_eq!(parse_decimal("8080", 65535), Some(8080));
    assert_eq!(parse_decimal("+42", 65535), Some(42));
    assert_eq!(parse_decimal("0", 10), Some(0));
    assert_eq!(parse_decimal("65535", 65535), Some(65535));
    assert_eq!(parse_decimal("65536", 65535), None);
    assert_eq!(parse_decimal("", 10), None);
    assert_eq!(parse_decimal("+", 10), None);
    assert_eq!(parse_decimal("12a", 1000), None);
    assert_eq!(parse_decimal("-1", 1000), None);
    assert_eq!(parse_decimal(" 1", 1000), None);
    assert_eq!(parse_decimal("18446744073709551615", u64::MAX), Some(u64::MAX));
    assert_eq!(parse_decimal("18446744073709551616", u64::MAX), None);
}

#[test]
fn settings_defaults() {
    let c = settings(None, None, None).unwrap();
    assert_eq!(c.server_host, "127.0.0.1");
    assert_eq!(c.server_port, DEFAULT_PORT);
    assert_eq!(c.server_port, 8080);
    assert_eq!(c.jwt_ttl_seconds, DEFAULT_TTL_SECS);
    assert_eq!(c.jwt_ttl_seconds, 86400);
    assert_eq!(c.database_url, "postgres://db");
}

#[test]
fn settings_given() {
    let c = settings(Some("0.0.0.0"), Some("9000"), Some("3600")).unwrap();
    assert_eq!(c.server_host, "0.0.0.0");
    assert_eq!(c.server_port, 9000);
    assert_eq!(c.jwt_ttl_seconds, 3600);
}

#[test]
fn settings_bad_values() {
    assert!(settings(None, Some("http"), None).is_none());
    assert!(settings(None, Some("70000"), None).is_none());
    let c = settings(None, None, Some("soon")).unwrap();
    assert_eq!(c.jwt_ttl_seconds, 86400);
}

#[test]
fn signed_numerals() {
    assert_eq!(parse_i64("-5"), Some(-5));
    assert_eq!(parse_i64("+7"), Some(7));
    assert_eq!(parse_i64("0"), Some(0));
    assert_eq!(parse_i64("-0"), Some(0));
    assert_eq!(parse_i64("-9223372036854775808"), Some(i64::MIN));
    assert_eq!(parse_i64("9223372036854775807"), Some(i64::MAX));
    assert_eq!(parse_i64("9223372036854775808"), None);
    assert_eq!(parse_i64("-9223372036854775809"), None);
    assert_eq!(parse_i64("-"), None);
    assert_eq!(parse_i64("-+5"), None);
    assert_eq!(parse_i64("--5"), None);
    assert_eq!(parse_i64(""), None);
}

#[test]
fn negative_ttl_is_kept() {
    let c = settings(None, None, Some("-5")).unwrap();
    assert_eq!(c.jwt_ttl_seconds, -5);
    let c = settings(None, None, Some("-")).unwrap();
    assert_eq!(c.jwt_ttl_seconds, 86400);
}
