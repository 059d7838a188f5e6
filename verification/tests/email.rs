use mfa_service::config::{Config, RawEnv};
use mfa_service::error::AppError;
use mfa_service::services::email::{tls_mode, EmailService, EmailSetupError, OtpMessage, TlsChoice, TlsMode};

fn config(from: &str, use_tls: &str, port: &str) -> Config {
    let raw = RawEnv {
        port: None,
        redis_url: Some("redis://127.0.0.1:6379".into()),
        smtp_host: Some("localhost".into()),
        smtp_port: Some(port.into()),
        smtp_user: Some("mailer".into()),
        smtp_password: Some("pw".into()),
        smtp_use_tls: Some(use_tls.into()),
        from_address: Some(from.into()),
        smtp_from: None,
        jwt_private_key_path: None,
        jwt_public_key_path: None,
        jwt_expiration_hours: None,
        otp_expiration_minutes: None,
        otp_length: None,
        rate_limit_reset_hours: None,
        max_verify_attempts: None,
        rate_limit_base_delay_seconds: None,
    };
    Config::from_raw(&raw)
}

#[test]
fn tls_choice() {
    assert!(matches!(tls_mode(false, 465), TlsMode::Plain));
    assert!(matches!(tls_mode(true, 465), TlsMode::Wrapper));
    assert!(matches!(tls_mode(true, 587), TlsMode::Required));
    assert!(matches!(tls_mode(false, 587), TlsMode::Plain));
}

#[test]
fn service_setup() {
    for (tls, port) in [("false", "1025"), ("true", "465"), ("true", "587")] {
        let service = EmailService::new(&config("noreply@example.com", tls, port)).ok().unwrap();
        assert_eq!(service.from_address(), "noreply@example.com");
        let settings = service.settings();
        assert_eq!(settings.host, "localhost");
        assert_eq!(settings.port, port.parse::<u16>().unwrap());
        match (&settings.tls, tls, port) {
            (TlsChoice::Plain, "false", _) => {}
            (TlsChoice::Wrapper { domain }, "true", "465") => assert_eq!(domain, "localhost"),
            (TlsChoice::Required { domain }, "true", "587") => assert_eq!(domain, "localhost"),
            _ => panic!("wrong security for {tls} on {port}"),
        }
        match &settings.credentials {
            Some((user, password)) => {
                assert_eq!(user, "mailer");
                assert_eq!(password, "pw");
            }
            None => panic!("expected a login"),
        }
    }
}

#[test]
fn no_login_without_a_user() {
    let mut c = config("noreply@example.com", "false", "1025");
    c.smtp_user = String::new();
    c.smtp_password = "ignored".to_string();
    let service = EmailService::new(&c).ok().unwrap();
    assert!(service.settings().credentials.is_none());
}

fn formatted(message: &OtpMessage) -> String {
    String::from_utf8(message.message().formatted()).unwrap()
}

#[test]
fn composes_html_message() {
    let service = EmailService::new(&config("noreply@example.com", "false", "1025")).ok().unwrap();
    let message = service.compose_otp_email("user@example.com", "<p>123456</p>".to_string()).ok().unwrap();
    let text = formatted(&message);
    assert!(text.contains("Subject: Your One-Time Password"));
    assert!(text.contains("To: user@example.com"));
    assert!(text.contains("From: noreply@example.com"));
    assert!(text.contains("text/html"));
    assert!(text.contains("<p>123456</p>"));
}

#[test]
fn address_errors() {
    let service = EmailService::new(&config("noreply@example.com", "false", "1025")).ok().unwrap();
    match service.compose_otp_email("not an address", String::new()) {
        Err(AppError::EmailError(m)) => assert_eq!(m, "Invalid email"),
        _ => panic!(),
    }
    let service = EmailService::new(&config("bad sender", "false", "1025")).ok().unwrap();
    assert!(service.try_compose_otp_email("user@example.com", String::new()).is_none());
    let service = EmailService::new(&config("noreply@example.com", "false", "1025")).ok().unwrap();
    assert!(matches!(service.try_compose_otp_email("user@example.com", String::new()), Some(Ok(_))));
}

#[test]
fn setup_from_lettre_answers() {
    let plain = config("noreply@example.com", "false", "1025");
    let relay = EmailService::open_relay("localhost");
    let service = EmailService::from_relay(&plain, relay, None).ok().unwrap();
    assert_eq!(service.from_address(), "noreply@example.com");
    assert!(matches!(service.settings().tls, TlsChoice::Plain));

    let wrapped = config("alerts@example.com", "true", "465");
    let relay = EmailService::open_relay("localhost");
    let tls = Some(EmailService::open_tls_parameters("localhost"));
    let service = EmailService::from_relay(&wrapped, relay, tls).ok().unwrap();
    assert_eq!(service.from_address(), "alerts@example.com");
    assert_eq!(service.settings().port, 465);

    assert!(matches!(
        EmailService::from_relay(&wrapped, Err(EmailSetupError::Relay), None),
        Err(EmailSetupError::Relay)
    ));
    let relay = EmailService::open_relay("localhost");
    assert!(matches!(
        EmailService::from_relay(&wrapped, relay, Some(Err(EmailSetupError::TlsParameters))),
        Err(EmailSetupError::TlsParameters)
    ));
}
