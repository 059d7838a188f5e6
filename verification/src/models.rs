//! Request and response payloads of the service, and the claims of the
//! issued token.
use vstd::prelude::*;
use crate::error::ValidationFailure;

verus! {

/// Whether the `validator` crate's `email` check accepts `s`.
pub uninterp spec fn validator_accepts_email(s: Seq<char>) -> bool;

/// Calls `validator::ValidateEmail::validate_email` on `s`.
/// Trusted: the answer is `validator_accepts_email(s@)`, and, as the first
/// test of that function reads, an empty text or one without `@` is refused.
#[verifier::external_body]
fn email_is_valid(s: &str) -> (ok: bool)
    ensures
        ok == validator_accepts_email(s@),
        (s@.len() == 0 || !s@.contains('@')) ==> !ok,
{
    validator::ValidateEmail::validate_email(&s)
}

/// Checks the `email` field as `#[validate(email)]` does.
fn validate_email_field(email: &String) -> (r: Result<(), ValidationFailure>)
    ensures
        r is Ok <==> validator_accepts_email(email@),
        r matches Err(f) ==> f == (ValidationFailure::InvalidEmail { value: *email }),
{
    if email_is_valid(email.as_str()) {
        Ok(())
    } else {
        Err(ValidationFailure::InvalidEmail { value: email.clone() })
    }
}

/// Body of a request for a code.
#[derive(Clone, Debug)]
pub struct GenerateOtpRequest {
    pub email: String,
}

impl GenerateOtpRequest {
    /// Validates the payload: the e-mail address must pass the `email` check.
    pub fn validate(&self) -> (r: Result<(), ValidationFailure>)
        ensures
            r is Ok <==> validator_accepts_email(self.email@),
            r matches Err(f) ==> f == (ValidationFailure::InvalidEmail { value: self.email }),
    {
        validate_email_field(&self.email)
    }
}

/// Body of the answer to a granted request for a code.
#[derive(Clone, Debug)]
pub struct GenerateOtpResponse {
    pub message: String,
    pub expires_in_minutes: u64,
    pub retry_after_seconds: u64,
}

/// Body of a request to check a code.
#[derive(Clone, Debug)]
pub struct VerifyOtpRequest {
    pub email: String,
    pub code: String,
}

impl VerifyOtpRequest {
    /// Validates the payload: the e-mail address must pass the `email` check;
    /// the code is not checked.
    pub fn validate(&self) -> (r: Result<(), ValidationFailure>)
        ensures
            r is Ok <==> validator_accepts_email(self.email@),
            r matches Err(f) ==> f == (ValidationFailure::InvalidEmail { value: self.email }),
    {
        validate_email_field(&self.email)
    }
}

/// Body of the answer to an accepted code.
#[derive(Clone, Debug)]
pub struct VerifyOtpResponse {
    pub message: String,
    pub token: String,
}

/// Claims of the issued token: the subject and the expiry as seconds since
/// the Unix epoch.
#[derive(Clone, Debug)]
pub struct JwtClaims {
    pub sub: String,
    pub exp: usize,
}

/// Body of an error answer.
#[derive(Clone, Debug)]
pub struct ErrorResponse {
    pub error: String,
}

/// Body of the answer to a refused, rate-limited request.
#[derive(Clone, Debug)]
pub struct RateLimitResponse {
    pub error: String,
    pub retry_after_seconds: u64,
}

/// Body of the answer to a payload that failed validation.
#[derive(Clone, Debug)]
pub struct ValidationErrorResponse {
    pub error: String,
    pub details: ValidationFailure,
}

} // verus!
