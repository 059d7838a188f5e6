//! Errors of the service, their display text, and the HTTP reply each one
//! is answered with.
use vstd::prelude::*;
use vstd::string::*;
use crate::text::{decimal, render_u64};
use crate::models::{ErrorResponse, RateLimitResponse, ValidationErrorResponse};

verus! {

/// A request payload that did not pass validation.
#[derive(Clone, Debug)]
pub enum ValidationFailure {
    /// The `email` field is not an e-mail address; `value` is what was sent.
    InvalidEmail { value: String },
}

/// The display text that the `validator` crate gives the errors of a payload
/// whose `email` field failed its `email` check with the given value.
pub uninterp spec fn validator_email_report(value: Seq<char>) -> Seq<char>;

/// Calls `Display` of `validator::ValidationErrors` on the errors that
/// `#[derive(Validate)]` builds when the `email` check of field `email`
/// fails on `value`: one `ValidationError` with code `email` and the
/// parameter `value`, filed under `email`.
/// Trusted: the text equals `validator_email_report(value@)`; nothing more
/// is claimed of it.
#[verifier::external_body]
fn invalid_email_report(value: &str) -> (text: String)
    ensures
        text@ == validator_email_report(value@),
{
    let mut err = validator::ValidationError::new("email");
    err.add_param(std::borrow::Cow::from("value"), &value);
    let mut errors = validator::ValidationErrors::new();
    errors.add("email", err);
    errors.to_string()
}

impl ValidationFailure {
    /// The display text of the failure.
    pub fn describe(&self) -> (text: String)
        ensures
            match self {
                ValidationFailure::InvalidEmail { value } => text@ == validator_email_report(value@),
            },
    {
        match self {
            ValidationFailure::InvalidEmail { value } => invalid_email_report(value.as_str()),
        }
    }
}

/// An error of the service.
#[derive(Clone, Debug)]
pub enum AppError {
    /// An unexpected failure; the text describes it for the log.
    InternalError(String),
    /// The store answered with an error; the text is its description.
    RedisError(String),
    /// No store connection could be had; the text describes why.
    RedisPoolError(String),
    /// The e-mail could not be built or delivered.
    EmailError(String),
    /// The code does not match the one stored for the address.
    InvalidOtp,
    /// No code is stored for the address (never sent, used, or expired).
    OtpExpired,
    /// Too many requests; another may be made after `reset_in_seconds`.
    RateLimited { reset_in_seconds: u64 },
    /// The request payload failed validation.
    ValidationError(ValidationFailure),
}

/// The display text of each error.
pub open spec fn app_error_text(e: AppError) -> Seq<char> {
    match e {
        AppError::InternalError(_) => "Internal server error"@,
        AppError::RedisError(m) => "Redis error: "@ + m@,
        AppError::RedisPoolError(_) => "Redis pool error"@,
        AppError::EmailError(m) => "Email delivery failed: "@ + m@,
        AppError::InvalidOtp => "Invalid OTP or email"@,
        AppError::OtpExpired => "OTP expired"@,
        AppError::RateLimited { reset_in_seconds } =>
            "Rate limited. Please try again in "@ + decimal(reset_in_seconds as nat) + " seconds."@,
        AppError::ValidationError(ValidationFailure::InvalidEmail { value }) =>
            "Validation error: "@ + validator_email_report(value@),
    }
}

/// The body of an error reply.
pub enum ErrorBody {
    /// `{"error": ...}`
    Plain(ErrorResponse),
    /// `{"error": ..., "retry_after_seconds": ...}`
    RateLimited(RateLimitResponse),
    /// `{"error": ..., "details": ...}`
    Validation(ValidationErrorResponse),
}

/// The HTTP status and body that answer an error.
pub struct ErrorReply {
    pub status: u16,
    pub body: ErrorBody,
}

impl AppError {
    /// The display text of the error.
    pub fn message(&self) -> (text: String)
        ensures
            text@ == app_error_text(*self),
    {
        match self {
            AppError::InternalError(_) => String::from_str("Internal server error"),
            AppError::RedisError(m) => String::from_str("Redis error: ").concat(m.as_str()),
            AppError::RedisPoolError(_) => String::from_str("Redis pool error"),
            AppError::EmailError(m) => String::from_str("Email delivery failed: ").concat(m.as_str()),
            AppError::InvalidOtp => String::from_str("Invalid OTP or email"),
            AppError::OtpExpired => String::from_str("OTP expired"),
            AppError::RateLimited { reset_in_seconds } => {
                let n = render_u64(*reset_in_seconds);
                String::from_str("Rate limited. Please try again in ").concat(n.as_str()).concat(
                    " seconds.",
                )
            },
            AppError::ValidationError(f) => String::from_str("Validation error: ").concat(
                f.describe().as_str(),
            ),
        }
    }

    /// The reply that answers the error: 429 with the seconds to wait for a
    /// rate limit, 400 with the details for a validation failure, 401 with
    /// the display text for a wrong or missing code, and 500 with a fixed
    /// text for everything else.
    pub fn into_response(self) -> (reply: ErrorReply)
        ensures
            error_reply_matches(self, reply),
    {
        match self {
            AppError::RateLimited { reset_in_seconds } => ErrorReply {
                status: 429,
                body: ErrorBody::RateLimited(RateLimitResponse {
                    error: String::from_str("Too many requests"),
                    retry_after_seconds: reset_in_seconds,
                }),
            },
            AppError::InvalidOtp | AppError::OtpExpired => {
                let text = self.message();
                ErrorReply { status: 401, body: ErrorBody::Plain(ErrorResponse { error: text }) }
            },
            AppError::ValidationError(details) => ErrorReply {
                status: 400,
                body: ErrorBody::Validation(ValidationErrorResponse {
                    error: String::from_str("Validation failed"),
                    details,
                }),
            },
            AppError::EmailError(_) => ErrorReply {
                status: 500,
                body: ErrorBody::Plain(
                    ErrorResponse { error: String::from_str("Failed to send email") },
                ),
            },
            AppError::InternalError(_) | AppError::RedisError(_) | AppError::RedisPoolError(_) => {
                ErrorReply {
                    status: 500,
                    body: ErrorBody::Plain(
                        ErrorResponse { error: String::from_str("Internal server error") },
                    ),
                }
            },
        }
    }
}

/// The reply for each error, with the texts as character sequences.
pub open spec fn error_reply_matches(e: AppError, reply: ErrorReply) -> bool {
    match e {
        AppError::RateLimited { reset_in_seconds } => {
            &&& reply.status == 429
            &&& reply.body matches ErrorBody::RateLimited(r)
            &&& r.error@ == "Too many requests"@
            &&& r.retry_after_seconds == reset_in_seconds
        },
        AppError::InvalidOtp | AppError::OtpExpired => {
            &&& reply.status == 401
            &&& reply.body matches ErrorBody::Plain(r)
            &&& r.error@ == app_error_text(e)
        },
        AppError::ValidationError(details) => {
            &&& reply.status == 400
            &&& reply.body matches ErrorBody::Validation(r)
            &&& r.error@ == "Validation failed"@
            &&& r.details == details
        },
        AppError::EmailError(_) => {
            &&& reply.status == 500
            &&& reply.body matches ErrorBody::Plain(r)
            &&& r.error@ == "Failed to send email"@
        },
        _ => {
            &&& reply.status == 500
            &&& reply.body matches ErrorBody::Plain(r)
            &&& r.error@ == "Internal server error"@
        },
    }
}

} // verus!
