//! Handling of the two requests of the service. Each handler is a state
//! machine: it names the next action (a store command, or sending the
//! e-mail), takes the outcome of that action, and finally gives the answer.
//! The caller performs the actions.
use vstd::prelude::*;
use vstd::string::*;
use crate::text::{digit_char, digit_str, all_digits, is_digit};
use crate::error::{AppError, ValidationFailure};
use crate::models::{GenerateOtpRequest, GenerateOtpResponse, VerifyOtpRequest, VerifyOtpResponse, JwtClaims, validator_accepts_email};
use crate::config::Config;
use crate::services::redis::{
    StoreCommand, StoreReply, CommandView, ReplyView, Progress, Outcome, RateLimitCheck, RateLimitState,
    rate_limit_start, rate_limit_step, rate_limit_awaits, OtpSave, otp_save_command, otp_save_step,
    OtpCheck, OtpCheckState, RedisService, otp_check_start, otp_check_step, otp_check_awaits, answers,
};

verus! {

// ---------------------------------------------------------------------------
// Codes
// ---------------------------------------------------------------------------

/// Calls `rand::Rng::gen_range(0..10)` on the thread's random generator.
/// Trusted: the digit is below ten (the range that `gen_range` samples);
/// which digit comes out is left open.
#[verifier::external_body]
fn random_digit() -> (d: u8)
    ensures
        d < 10,
{
    rand::Rng::gen_range(&mut rand::thread_rng(), 0..10u8)
}

/// Whether `code` is a code of `length` decimal digits.
pub open spec fn is_otp_code(code: Seq<char>, length: nat) -> bool {
    code.len() == length && all_digits(code)
}

/// A code is exactly `length` characters long, each a decimal digit from
/// `0` to `9`.
pub proof fn law_otp_code_shape(code: Seq<char>, length: nat)
    requires
        is_otp_code(code, length),
    ensures
        code.len() == length,
        forall|k: int| 0 <= k < code.len() ==> '0' <= #[trigger] code[k] <= '9',
{
    assert forall|k: int| 0 <= k < code.len() implies '0' <= #[trigger] code[k] <= '9' by {
        assert(is_digit(code[k]));
    }
}

/// Draws a code of `length` random decimal digits.
pub fn generate_random_otp(length: usize) -> (code: String)
    ensures
        is_otp_code(code@, length as nat),
{
    let mut code = String::new();
    let mut i: usize = 0;
    while i < length
        invariant
            i <= length,
            is_otp_code(code@, i as nat),
        decreases length - i,
    {
        let d = random_digit();
        let digit = digit_str(d as u64);
        assert(is_digit(digit_char(d as int)));
        let ghost before = code@;
        code.append(digit);
        assert(code@ == before.push(digit_char(d as int)));
        assert forall|k: int| 0 <= k < code@.len() implies is_digit(#[trigger] code@[k]) by {
            if k < before.len() {
                assert(code@[k] == before[k]);
            }
        }
        i = i + 1;
    }
    code
}

// ---------------------------------------------------------------------------
// Tokens
// ---------------------------------------------------------------------------

/// Calls `chrono::Utc::now()` and takes its `timestamp()`.
/// Trusted: the seconds since the Unix epoch are not negative (`Utc::now`
/// panics on a clock before the epoch); the value depends on the clock and
/// is otherwise left open.
#[verifier::external_body]
fn unix_now() -> (t: i64)
    ensures
        t >= 0,
{
    chrono::Utc::now().timestamp()
}

/// The earliest Unix timestamp that `chrono` holds as a `DateTime<Utc>`
/// (`NaiveDate::MIN`, -262143-01-01, at midnight).
pub open spec fn chrono_min_timestamp() -> int {
    -8334601315200
}

/// The latest Unix timestamp in whole seconds that `chrono` holds as a
/// `DateTime<Utc>` (`NaiveDate::MAX`, +262142-12-31, at 23:59:59).
pub open spec fn chrono_max_timestamp() -> int {
    8210266876799
}

/// The most seconds that a `chrono::TimeDelta` holds either way
/// (`i64::MAX` milliseconds, in whole seconds).
pub open spec fn chrono_max_delta_seconds() -> int {
    9223372036854775
}

/// The timestamp `hours` hours after `timestamp`, where the start, the
/// duration and the sum are all within `chrono`'s range; none otherwise.
pub open spec fn hours_later(timestamp: int, hours: int) -> Option<int> {
    let end = timestamp + hours * 3600;
    if chrono_min_timestamp() <= timestamp <= chrono_max_timestamp()
        && -chrono_max_delta_seconds() <= hours * 3600 <= chrono_max_delta_seconds()
        && chrono_min_timestamp() <= end <= chrono_max_timestamp() {
        Some(end)
    } else {
        None
    }
}

/// Calls `chrono::DateTime::<Utc>::from_timestamp(timestamp, 0)`, adds
/// `chrono::TimeDelta::try_hours(hours)` with `checked_add_signed` and takes
/// the `timestamp()` of the sum.
/// Trusted: the answer is `hours_later(timestamp, hours)`: `from_timestamp`
/// gives a date between `NaiveDate::MIN` and `NaiveDate::MAX` or none,
/// `try_hours` a delta of at most `i64::MAX` milliseconds or none, and
/// `checked_add_signed` a sum within the date range or none.
#[verifier::external_body]
fn timestamp_after_hours(timestamp: i64, hours: i64) -> (r: Option<i64>)
    ensures
        match r {
            Some(t) => hours_later(timestamp as int, hours as int) == Some(t as int),
            None => hours_later(timestamp as int, hours as int) is None,
        },
{
    let start = chrono::DateTime::<chrono::Utc>::from_timestamp(timestamp, 0)?;
    let delta = chrono::TimeDelta::try_hours(hours)?;
    Some(start.checked_add_signed(delta)?.timestamp())
}

/// The RS256 token that `jsonwebtoken` signs with the RSA private key in
/// PEM `private_key_pem` for the claims `{"sub": sub, "exp": exp}`.
pub uninterp spec fn rs256_jwt(private_key_pem: Seq<u8>, sub: Seq<char>, exp: nat) -> Seq<char>;

/// Whether `jsonwebtoken` signs with `private_key_pem`: it reads as an RSA
/// private key in PEM that the RS256 signer takes.
pub uninterp spec fn rs256_key_usable(private_key_pem: Seq<u8>) -> bool;

/// Calls `jsonwebtoken::EncodingKey::from_rsa_pem` on the key, then
/// `jsonwebtoken::encode` with `Header::new(Algorithm::RS256)` on the
/// claims, which are handed over as the JSON object `{"sub": .., "exp": ..}`
/// in that order, as the claims struct serialises; an error is handed back
/// as its display text.
/// Trusted: a token is `rs256_jwt(private_key_pem@, claims.sub@, claims.exp)`,
/// and a token comes back exactly when `rs256_key_usable(private_key_pem@)`:
/// the key is read from the PEM (`EncodingKey::from_rsa_pem`) and the
/// signature is made with it (`crypto/rsa.rs`), and the claims object always
/// serialises. The signer draws blinding randomness from the system; that
/// draw is taken to succeed.
#[verifier::external_body]
fn sign_rs256(private_key_pem: &[u8], claims: &JwtClaims) -> (r: Result<String, String>)
    ensures
        r is Ok <==> rs256_key_usable(private_key_pem@),
        r matches Ok(token) ==> token@ == rs256_jwt(private_key_pem@, claims.sub@, claims.exp as nat),
{
    let key = match jsonwebtoken::EncodingKey::from_rsa_pem(private_key_pem) {
        Ok(key) => key,
        Err(e) => return Err(e.to_string()),
    };
    let mut object = serde_json::Map::new();
    object.insert("sub".to_string(), serde_json::Value::from(claims.sub.as_str()));
    object.insert("exp".to_string(), serde_json::Value::from(claims.exp));
    let header = jsonwebtoken::Header::new(jsonwebtoken::Algorithm::RS256);
    match jsonwebtoken::encode(&header, &object, &key) {
        Ok(token) => Ok(token),
        Err(e) => Err(e.to_string()),
    }
}

/// Whether `r` is the answer that issuing a token for `email` at the time
/// `now` gives: no expiry in range is an internal error; otherwise the
/// expiry is `hours` hours after `now` (the hours taken as `i64`), and the
/// answer is the token signed for the subject `email` with that expiry when
/// the key is usable, else an internal error.
pub open spec fn token_reply(
    r: Result<VerifyOtpResponse, AppError>,
    email: Seq<char>,
    now: int,
    hours: u64,
    private_key_pem: Seq<u8>,
) -> bool {
    match hours_later(now, hours as i64 as int) {
        None => r matches Err(AppError::InternalError(_)),
        Some(exp) => {
            &&& if rs256_key_usable(private_key_pem) {
                &&& r matches Ok(reply)
                &&& reply.message@ == "OTP verified successfully"@
                &&& reply.token@ == rs256_jwt(private_key_pem, email, exp as usize as nat)
            } else {
                r matches Err(AppError::InternalError(_))
            }
        },
    }
}

/// Issues the token for `email` at the time `now` (seconds since the epoch):
/// it expires `hours` hours later and is signed with the RSA key.
pub fn issue_token_at(email: &str, now: i64, hours: u64, private_key_pem: &[u8]) -> (r: Result<VerifyOtpResponse, AppError>)
    ensures
        token_reply(r, email@, now as int, hours, private_key_pem@),
{
    let expiration = match timestamp_after_hours(now, hours as i64) {
        Some(t) => t,
        None => return Err(AppError::InternalError(String::from_str("token expiry out of range"))),
    };
    let claims = JwtClaims { sub: String::from_str(email), exp: expiration as usize };
    match sign_rs256(private_key_pem, &claims) {
        Ok(token) => Ok(VerifyOtpResponse { message: String::from_str("OTP verified successfully"), token }),
        Err(e) => Err(AppError::InternalError(e)),
    }
}

/// Issues the token for `email` now, and gives the clock reading (seconds
/// since the epoch) that it was issued at: the token expires `hours` hours
/// after that reading.
pub fn issue_token(email: &str, hours: u64, private_key_pem: &[u8]) -> (out: (Result<VerifyOtpResponse, AppError>, i64))
    ensures
        out.1 >= 0,
        token_reply(out.0, email@, out.1 as int, hours, private_key_pem@),
        exists|now: int| now >= 0 && #[trigger] token_reply(out.0, email@, now, hours, private_key_pem@),
{
    let now = unix_now();
    let out = (issue_token_at(email, now, hours, private_key_pem), now);
    assert(token_reply(out.0, email@, out.1 as int, hours, private_key_pem@));
    out
}

/// An issued token is signed for the address and expires exactly `hours`
/// hours (taken as `i64`) after the time it is issued at; with a usable key
/// and an expiry that `chrono` holds, a token is issued; a key that
/// `jsonwebtoken` does not sign with gives an internal error.
pub proof fn law_token_expires_hours_after_issue(
    r: Result<VerifyOtpResponse, AppError>,
    email: Seq<char>,
    now: int,
    hours: u64,
    private_key_pem: Seq<u8>,
)
    requires
        token_reply(r, email, now, hours, private_key_pem),
    ensures
        r matches Ok(reply) ==> {
            &&& reply.message@ == "OTP verified successfully"@
            &&& reply.token@ == rs256_jwt(private_key_pem, email, (now + (hours as i64) * 3600) as usize as nat)
        },
        hours <= i64::MAX ==> (r matches Ok(reply) ==> reply.token@ == rs256_jwt(
            private_key_pem,
            email,
            (now + hours * 3600) as usize as nat,
        )),
        !rs256_key_usable(private_key_pem) ==> r matches Err(AppError::InternalError(_)),
        rs256_key_usable(private_key_pem) && hours <= i64::MAX
            && chrono_min_timestamp() <= now && now + hours * 3600 <= chrono_max_timestamp() ==> r is Ok,
{
}


// ---------------------------------------------------------------------------
// Handler steps
// ---------------------------------------------------------------------------

/// What a handler does next: an action for the caller to perform, or the
/// answer.
pub enum FlowStep<F, T, A> {
    Continue(F, A),
    Finished(Result<T, AppError>),
}

/// A handler step, with the handler, the answer and the action taken by
/// their views.
pub enum FlowOutcome<S, T, A> {
    Continue(S, A),
    Finished(Result<T, AppError>),
}

impl<F: View, T: View, A: View> View for FlowStep<F, T, A> {
    type V = FlowOutcome<F::V, T::V, A::V>;

    open spec fn view(&self) -> FlowOutcome<F::V, T::V, A::V> {
        match self {
            FlowStep::Continue(f, a) => FlowOutcome::Continue(f@, a@),
            FlowStep::Finished(Ok(t)) => FlowOutcome::Finished(Ok(t@)),
            FlowStep::Finished(Err(e)) => FlowOutcome::Finished(Err(*e)),
        }
    }
}

// ---------------------------------------------------------------------------
// Requesting a code
// ---------------------------------------------------------------------------

/// The answer to a granted request, with its text as a character sequence.
pub struct GenerateOtpResponseView {
    pub message: Seq<char>,
    pub expires_in_minutes: u64,
    pub retry_after_seconds: u64,
}

impl View for GenerateOtpResponse {
    type V = GenerateOtpResponseView;

    open spec fn view(&self) -> GenerateOtpResponseView {
        GenerateOtpResponseView {
            message: self.message@,
            expires_in_minutes: self.expires_in_minutes,
            retry_after_seconds: self.retry_after_seconds,
        }
    }
}

/// An action of the request handler.
pub enum GenerateAction {
    /// Send a command to the store.
    Store(StoreCommand),
    /// E-mail the code to the address, saying how long it lives.
    SendEmail { to: String, otp: String, expiration_minutes: u64 },
}

/// An action of the request handler, with its texts as character sequences.
pub enum GenerateActionView {
    Store(CommandView),
    SendEmail { to: Seq<char>, otp: Seq<char>, expiration_minutes: u64 },
}

impl View for GenerateAction {
    type V = GenerateActionView;

    open spec fn view(&self) -> GenerateActionView {
        match self {
            GenerateAction::Store(c) => GenerateActionView::Store(c@),
            GenerateAction::SendEmail { to, otp, expiration_minutes } => GenerateActionView::SendEmail {
                to: to@,
                otp: otp@,
                expiration_minutes: *expiration_minutes,
            },
        }
    }
}

/// The outcome of an action of the request handler.
pub enum GenerateEvent {
    /// The store's reply to the command.
    Store(StoreReply),
    /// Whether the e-mail went out.
    EmailSent(Result<(), AppError>),
}

/// The outcome of an action, with the reply taken by its view.
pub enum GenerateEventView {
    Store(ReplyView),
    EmailSent(Result<(), AppError>),
}

impl View for GenerateEvent {
    type V = GenerateEventView;

    open spec fn view(&self) -> GenerateEventView {
        match self {
            GenerateEvent::Store(r) => GenerateEventView::Store(r@),
            GenerateEvent::EmailSent(r) => GenerateEventView::EmailSent(*r),
        }
    }
}

/// Where the request handler stands.
enum GenerateStage {
    RateLimit(RateLimitCheck),
    Save { retry_after_seconds: u64, otp: String },
    Email { retry_after_seconds: u64 },
}

/// Where the request handler stands, by views.
pub enum GenerateStageView {
    /// The rate-limit check runs.
    RateLimit(RateLimitState),
    /// The code `otp` is being stored.
    Save { retry_after_seconds: u64, otp: Seq<char> },
    /// The e-mail is being sent.
    Email { retry_after_seconds: u64 },
}

/// Handles a request for a code: validate the address, check the rate
/// limit, draw a code, store it, e-mail it, and answer with its lifetime
/// and the cool-down before the next request.
pub struct GenerateOtp {
    email: String,
    expiration_minutes: u64,
    otp_length: usize,
    stage: GenerateStage,
}

/// The request handler, by views.
pub struct GenerateOtpState {
    pub email: Seq<char>,
    pub expiration_minutes: u64,
    pub otp_length: usize,
    pub stage: GenerateStageView,
}

impl View for GenerateOtp {
    type V = GenerateOtpState;

    closed spec fn view(&self) -> GenerateOtpState {
        GenerateOtpState {
            email: self.email@,
            expiration_minutes: self.expiration_minutes,
            otp_length: self.otp_length,
            stage: match self.stage {
                GenerateStage::RateLimit(r) => GenerateStageView::RateLimit(r@),
                GenerateStage::Save { retry_after_seconds, otp } => GenerateStageView::Save {
                    retry_after_seconds,
                    otp: otp@,
                },
                GenerateStage::Email { retry_after_seconds } => GenerateStageView::Email { retry_after_seconds },
            },
        }
    }
}

/// The first step of the request handler: a payload that fails validation
/// is answered with the failure; otherwise the rate-limit check starts.
pub open spec fn generate_start(request: GenerateOtpRequest, config: Config) -> FlowOutcome<GenerateOtpState, GenerateOtpResponseView, GenerateActionView> {
    if !validator_accepts_email(request.email@) {
        FlowOutcome::Finished(Err(AppError::ValidationError(ValidationFailure::InvalidEmail { value: request.email })))
    } else {
        let (check, command) = rate_limit_start(
            request.email@,
            config.rate_limit_reset_seconds,
            config.rate_limit_base_delay_seconds,
        );
        FlowOutcome::Continue(
            GenerateOtpState {
                email: request.email@,
                expiration_minutes: config.otp_expiration_minutes,
                otp_length: config.otp_length,
                stage: GenerateStageView::RateLimit(check),
            },
            GenerateActionView::Store(command),
        )
    }
}

/// Whether `event` is the outcome of the action that the handler awaits.
pub open spec fn generate_awaits(s: GenerateOtpState, event: GenerateEventView) -> bool {
    match s.stage {
        GenerateStageView::RateLimit(check) => event matches GenerateEventView::Store(reply)
            && answers(rate_limit_awaits(check), reply),
        GenerateStageView::Save { otp, .. } => event matches GenerateEventView::Store(reply)
            && answers(otp_save_command(s.email, otp, s.expiration_minutes), reply),
        GenerateStageView::Email { .. } => event is EmailSent,
    }
}

/// One step of the request handler, where `otp` is the code drawn if the
/// step draws one: a granted rate-limit check is followed by storing the
/// drawn code, the stored code is e-mailed, and a sent e-mail is answered
/// with the code's lifetime and the cool-down; any error is the answer.
pub open spec fn generate_step(s: GenerateOtpState, event: GenerateEventView, otp: Seq<char>) -> FlowOutcome<GenerateOtpState, GenerateOtpResponseView, GenerateActionView> {
    match s.stage {
        GenerateStageView::RateLimit(check) => match rate_limit_step(check, event->Store_0) {
            Outcome::Continue(next, command) => FlowOutcome::Continue(
                GenerateOtpState { stage: GenerateStageView::RateLimit(next), ..s },
                GenerateActionView::Store(command),
            ),
            Outcome::Finished(Err(e)) => FlowOutcome::Finished(Err(e)),
            Outcome::Finished(Ok(wait)) => FlowOutcome::Continue(
                GenerateOtpState { stage: GenerateStageView::Save { retry_after_seconds: wait, otp }, ..s },
                GenerateActionView::Store(otp_save_command(s.email, otp, s.expiration_minutes)),
            ),
        },
        GenerateStageView::Save { retry_after_seconds, otp: saved } => match otp_save_step(event->Store_0) {
            Outcome::Finished(Err(e)) => FlowOutcome::Finished(Err(e)),
            _ => FlowOutcome::Continue(
                GenerateOtpState { stage: GenerateStageView::Email { retry_after_seconds }, ..s },
                GenerateActionView::SendEmail { to: s.email, otp: saved, expiration_minutes: s.expiration_minutes },
            ),
        },
        GenerateStageView::Email { retry_after_seconds } => match event->EmailSent_0 {
            Err(e) => FlowOutcome::Finished(Err(e)),
            Ok(()) => FlowOutcome::Finished(Ok(GenerateOtpResponseView {
                message: "OTP sent successfully"@,
                expires_in_minutes: s.expiration_minutes,
                retry_after_seconds,
            })),
        },
    }
}

/// Whether the step drew no code, or drew `otp`, a code of the configured
/// length.
pub open spec fn drawn_code_fits(s: GenerateOtpState, event: GenerateEventView, otp: Seq<char>) -> bool {
    (s.stage is RateLimit && rate_limit_step(s.stage->RateLimit_0, event->Store_0) matches Outcome::Finished(Ok(_)))
        ==> is_otp_code(otp, s.otp_length as nat)
}

/// Starts handling a request for a code.
pub fn generate_otp(request: &GenerateOtpRequest, config: &Config) -> (p: FlowStep<GenerateOtp, GenerateOtpResponse, GenerateAction>)
    ensures
        p@ == generate_start(*request, *config),
{
    match request.validate() {
        Err(failure) => FlowStep::Finished(Err(AppError::ValidationError(failure))),
        Ok(()) => {
            let (check, command) = RedisService::check_rate_limit(
                request.email.as_str(),
                config.rate_limit_reset_seconds,
                config.rate_limit_base_delay_seconds,
            );
            let flow = GenerateOtp {
                email: request.email.clone(),
                expiration_minutes: config.otp_expiration_minutes,
                otp_length: config.otp_length,
                stage: GenerateStage::RateLimit(check),
            };
            FlowStep::Continue(flow, GenerateAction::Store(command))
        },
    }
}

impl GenerateOtp {
    /// Takes the outcome of the awaited action.
    pub fn step(self, event: GenerateEvent) -> (p: FlowStep<GenerateOtp, GenerateOtpResponse, GenerateAction>)
        requires
            generate_awaits(self@, event@),
            self@.expiration_minutes * 60 <= u64::MAX,
        ensures
            exists|otp: Seq<char>| drawn_code_fits(self@, event@, otp) && p@ == generate_step(self@, event@, otp),
    {
        let ghost old_self = self@;
        let ghost mut drawn: Seq<char> = Seq::empty();
        let GenerateOtp { email, expiration_minutes, otp_length, stage } = self;
        let p = match stage {
            GenerateStage::RateLimit(check) => {
                let reply = match event {
                    GenerateEvent::Store(reply) => reply,
                    GenerateEvent::EmailSent(_) => StoreReply::Done,
                };
                match check.step(reply) {
                    Progress::Continue(next, command) => {
                        let flow = GenerateOtp { email, expiration_minutes, otp_length, stage: GenerateStage::RateLimit(next) };
                        FlowStep::Continue(flow, GenerateAction::Store(command))
                    },
                    Progress::Finished(Err(e)) => FlowStep::Finished(Err(e)),
                    Progress::Finished(Ok(wait)) => {
                        let otp = generate_random_otp(otp_length);
                        proof {
                            drawn = otp@;
                        }
                        let (_save, command) = RedisService::save_otp(email.as_str(), otp.as_str(), expiration_minutes);
                        let flow = GenerateOtp {
                            email,
                            expiration_minutes,
                            otp_length,
                            stage: GenerateStage::Save { retry_after_seconds: wait, otp },
                        };
                        FlowStep::Continue(flow, GenerateAction::Store(command))
                    },
                }
            },
            GenerateStage::Save { retry_after_seconds, otp } => {
                let reply = match event {
                    GenerateEvent::Store(reply) => reply,
                    GenerateEvent::EmailSent(_) => StoreReply::Done,
                };
                let save = OtpSave {};
                match save.step(reply) {
                    Progress::Finished(Err(e)) => FlowStep::Finished(Err(e)),
                    _ => {
                        let to = email.clone();
                        let flow = GenerateOtp {
                            email,
                            expiration_minutes,
                            otp_length,
                            stage: GenerateStage::Email { retry_after_seconds },
                        };
                        FlowStep::Continue(flow, GenerateAction::SendEmail { to, otp, expiration_minutes })
                    },
                }
            },
            GenerateStage::Email { retry_after_seconds } => match event {
                GenerateEvent::EmailSent(Err(e)) => FlowStep::Finished(Err(e)),
                _ => FlowStep::Finished(Ok(GenerateOtpResponse {
                    message: String::from_str("OTP sent successfully"),
                    expires_in_minutes: expiration_minutes,
                    retry_after_seconds,
                })),
            },
        };
        assert(drawn_code_fits(old_self, event@, drawn) && p@ == generate_step(old_self, event@, drawn));
        p
    }
}


// ---------------------------------------------------------------------------
// Checking a code
// ---------------------------------------------------------------------------

/// Handles a check of a code: validate the address, check the code against
/// the stored one, and answer an accepted code with a signed token.
pub struct VerifyOtp {
    email: String,
    jwt_expiration_hours: u64,
    private_key_pem: Vec<u8>,
    check: OtpCheck,
}

/// The check handler, by views.
pub struct VerifyOtpState {
    pub email: Seq<char>,
    pub jwt_expiration_hours: u64,
    pub private_key_pem: Seq<u8>,
    pub check: OtpCheckState,
}

impl View for VerifyOtp {
    type V = VerifyOtpState;

    closed spec fn view(&self) -> VerifyOtpState {
        VerifyOtpState {
            email: self.email@,
            jwt_expiration_hours: self.jwt_expiration_hours,
            private_key_pem: self.private_key_pem@,
            check: self.check@,
        }
    }
}

/// Whether `r` is the answer of issuing a token for `email` at some time.
pub open spec fn token_issued(r: Result<VerifyOtpResponse, AppError>, email: Seq<char>, hours: u64, private_key_pem: Seq<u8>) -> bool {
    exists|now: int| now >= 0 && token_reply(r, email, now, hours, private_key_pem)
}

/// Starts handling a check of a code; the token is signed with the RSA
/// private key in PEM `private_key_pem`.
pub fn verify_otp(request: &VerifyOtpRequest, config: &Config, private_key_pem: &[u8]) -> (p: FlowStep<VerifyOtp, VerifyOtpResponse, StoreCommand>)
    ensures
        !validator_accepts_email(request.email@) ==> (p matches FlowStep::Finished(Err(e))
            && e == AppError::ValidationError(ValidationFailure::InvalidEmail { value: request.email })),
        validator_accepts_email(request.email@)
            ==> (p matches FlowStep::Continue(flow, command) && flow@ == (VerifyOtpState {
                email: request.email@,
                jwt_expiration_hours: config.jwt_expiration_hours,
                private_key_pem: private_key_pem@,
                check: otp_check_start(request.email@, request.code@, config.max_verify_attempts).0,
            }) && command@ == otp_check_start(request.email@, request.code@, config.max_verify_attempts).1),
{
    if let Err(failure) = request.validate() {
        return FlowStep::Finished(Err(AppError::ValidationError(failure)));
    }
    let (check, command) = RedisService::verify_otp(request.email.as_str(), request.code.as_str(), config.max_verify_attempts);
    let flow = VerifyOtp {
        email: request.email.clone(),
        jwt_expiration_hours: config.jwt_expiration_hours,
        private_key_pem: vstd::slice::slice_to_vec(private_key_pem),
        check,
    };
    FlowStep::Continue(flow, command)
}

impl VerifyOtp {
    /// Takes the store's reply to the awaited command: the check goes on,
    /// or its error is the answer, or an accepted code is answered with a
    /// token.
    pub fn step(self, reply: StoreReply) -> (p: FlowStep<VerifyOtp, VerifyOtpResponse, StoreCommand>)
        requires
            answers(otp_check_awaits(self@.check), reply@),
        ensures
            match otp_check_step(self@.check, reply@) {
                Outcome::Continue(next, next_command) => (p matches FlowStep::Continue(flow, command)
                    && flow@ == (VerifyOtpState { check: next, ..self@ }) && command@ == next_command),
                Outcome::Finished(Err(e)) => (p matches FlowStep::Finished(Err(e2)) && e2 == e),
                Outcome::Finished(Ok(())) => (p matches FlowStep::Finished(r)
                    && token_issued(r, self@.email, self@.jwt_expiration_hours, self@.private_key_pem)),
            },
    {
        let VerifyOtp { email, jwt_expiration_hours, private_key_pem, check } = self;
        match check.step(reply) {
            Progress::Continue(next, command) => {
                FlowStep::Continue(VerifyOtp { email, jwt_expiration_hours, private_key_pem, check: next }, command)
            },
            Progress::Finished(Err(e)) => FlowStep::Finished(Err(e)),
            Progress::Finished(Ok(())) => {
                let (answer, _issued_at) = issue_token(email.as_str(), jwt_expiration_hours, private_key_pem.as_slice());
                FlowStep::Finished(answer)
            },
        }
    }
}

} // verus!
