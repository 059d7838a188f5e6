use mfa_service::error::{AppError, ErrorBody, ValidationFailure};
use mfa_service::models::{GenerateOtpRequest, VerifyOtpRequest};

#[test]
fn error_texts() {
    assert_eq!(AppError::InternalError("x".into()).message(), "Internal server error");
    assert_eq!(AppError::RedisError("conn refused".into()).message(), "Redis error: conn refused");
    assert_eq!(AppError::RedisPoolError("x".into()).message(), "Redis pool error");
    assert_eq!(AppError::EmailError("bad".into()).message(), "Email delivery failed: bad");
    assert_eq!(AppError::InvalidOtp.message(), "Invalid OTP or email");
    assert_eq!(AppError::OtpExpired.message(), "OTP expired");
    assert_eq!(
        AppError::RateLimited { reset_in_seconds: 120 }.message(),
        "Rate limited. Please try again in 120 seconds."
    );
}

#[test]
fn validation_error_text_is_the_validator_report() {
    let e = AppError::ValidationError(ValidationFailure::InvalidEmail { value: "nope".into() });
    assert_eq!(
        e.message(),
        "Validation error: email: Validation error: email [{\"value\": String(\"nope\")}]"
    );
}

#[test]
fn rate_limited_reply_is_429_with_wait() {
    let reply = AppError::RateLimited { reset_in_seconds: 60 }.into_response();
    assert_eq!(reply.status, 429);
    match reply.body {
        ErrorBody::RateLimited(r) => {
            assert_eq!(r.error, "Too many requests");
            assert_eq!(r.retry_after_seconds, 60);
        }
        _ => panic!(),
    }
}

fn plain(e: AppError) -> (u16, String) {
    let reply = e.into_response();
    match reply.body {
        ErrorBody::Plain(r) => (reply.status, r.error),
        _ => panic!("expected a plain body"),
    }
}

#[test]
fn code_errors_are_401_with_their_text() {
    assert_eq!(plain(AppError::InvalidOtp), (401, "Invalid OTP or email".to_string()));
    assert_eq!(plain(AppError::OtpExpired), (401, "OTP expired".to_string()));
}

#[test]
fn server_errors_hide_details() {
    assert_eq!(plain(AppError::EmailError("smtp down".into())), (500, "Failed to send email".to_string()));
    assert_eq!(plain(AppError::InternalError("x".into())), (500, "Internal server error".to_string()));
    assert_eq!(plain(AppError::RedisError("x".into())), (500, "Internal server error".to_string()));
    assert_eq!(plain(AppError::RedisPoolError("x".into())), (500, "Internal server error".to_string()));
}

#[test]
fn validation_reply_is_400_with_details() {
    let reply = AppError::ValidationError(ValidationFailure::InvalidEmail { value: "bad".into() }).into_response();
    assert_eq!(reply.status, 400);
    match reply.body {
        ErrorBody::Validation(r) => {
            assert_eq!(r.error, "Validation failed");
            let ValidationFailure::InvalidEmail { value } = r.details;
            assert_eq!(value, "bad");
        }
        _ => panic!(),
    }
}

#[test]
fn email_validation() {
    assert!(GenerateOtpRequest { email: "user@example.com".into() }.validate().is_ok());
    assert!(GenerateOtpRequest { email: "email@[127.0.0.1]".into() }.validate().is_ok());
    for bad in ["", "not-an-email", "a@", "@b.com", "a b@c.com"] {
        match (GenerateOtpRequest { email: bad.into() }).validate() {
            Err(ValidationFailure::InvalidEmail { value }) => assert_eq!(value, bad),
            Ok(()) => panic!("{bad} accepted"),
        }
    }
    let v = VerifyOtpRequest { email: "user@example.com".into(), code: "".into() };
    assert!(v.validate().is_ok());
    let v = VerifyOtpRequest { email: "x".into(), code: "123456".into() };
    assert!(v.validate().is_err());
}
