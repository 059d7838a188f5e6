use mfa_service::config::{Config, ConfigError, ConfigVar, RawEnv};

fn minimal() -> RawEnv {
    RawEnv {
        port: None,
        redis_url: Some("redis://127.0.0.1:6379".into()),
        smtp_host: Some("localhost".into()),
        smtp_port: None,
        smtp_user: None,
        smtp_password: None,
        smtp_use_tls: None,
        from_address: None,
        smtp_from: None,
        jwt_private_key_path: None,
        jwt_public_key_path: None,
        jwt_expiration_hours: None,
        otp_expiration_minutes: None,
        otp_length: None,
        rate_limit_reset_hours: None,
        max_verify_attempts: None,
        rate_limit_base_delay_seconds: None,
    }
}

fn error_text(raw: RawEnv) -> String {
    match Config::check(&raw) {
        Some(e) => e.message(),
        None => panic!("accepted"),
    }
}

#[test]
fn defaults() {
    let c = Config::from_raw(&minimal());
    assert_eq!(c.port, 3000);
    assert_eq!(c.redis_url, "redis://127.0.0.1:6379");
    assert_eq!(c.smtp_host, "localhost");
    assert_eq!(c.smtp_port, 587);
    assert_eq!(c.smtp_user, "");
    assert_eq!(c.smtp_password, "");
    assert!(!c.smtp_use_tls);
    assert_eq!(c.from_address, "noreply@example.com");
    assert_eq!(c.jwt_private_key_path, "keys/private.pem");
    assert_eq!(c.jwt_public_key_path, "keys/public.pem");
    assert_eq!(c.jwt_expiration_hours, 24);
    assert_eq!(c.otp_expiration_minutes, 10);
    assert_eq!(c.otp_length, 6);
    assert_eq!(c.rate_limit_reset_seconds, 86400);
    assert_eq!(c.max_verify_attempts, 10);
    assert_eq!(c.rate_limit_base_delay_seconds, 30);
}

#[test]
fn values_are_read() {
    let mut raw = minimal();
    raw.port = Some("8080".into());
    raw.smtp_use_tls = Some("1".into());
    raw.smtp_from = Some("otp@example.org".into());
    raw.rate_limit_reset_hours = Some("2".into());
    raw.otp_length = Some("8".into());
    let c = Config::from_raw(&raw);
    assert_eq!(c.port, 8080);
    assert!(c.smtp_use_tls);
    assert_eq!(c.from_address, "otp@example.org");
    assert_eq!(c.rate_limit_reset_seconds, 7200);
    assert_eq!(c.otp_length, 8);
    raw.from_address = Some("first@example.org".into());
    raw.smtp_use_tls = Some("TRUE".into());
    let c = Config::from_raw(&raw);
    assert_eq!(c.from_address, "first@example.org");
    assert!(!c.smtp_use_tls);
}

#[test]
fn required_and_malformed_variables() {
    let mut raw = minimal();
    raw.redis_url = None;
    assert!(Config::check(&raw).is_some());
    assert_eq!(error_text(raw), "REDIS_URL must be set");
    let mut raw = minimal();
    raw.smtp_host = None;
    assert_eq!(error_text(raw), "SMTP_HOST must be set");
    let mut raw = minimal();
    raw.port = Some("70000".into());
    assert_eq!(error_text(raw), "PORT must be a number");
    let mut raw = minimal();
    raw.max_verify_attempts = Some("ten".into());
    assert_eq!(error_text(raw), "MAX_VERIFY_ATTEMPTS must be a number");
    let mut raw = minimal();
    raw.rate_limit_reset_hours = Some("18446744073709551615".into());
    assert_eq!(error_text(raw), "RATE_LIMIT_RESET_HOURS must be a number");
    let mut raw = minimal();
    raw.port = Some("x".into());
    raw.redis_url = None;
    assert!(matches!(Config::check(&raw), Some(ConfigError::NotANumber(ConfigVar::Port))));
}
