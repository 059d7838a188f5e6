//! The store protocols of the service. Each operation on the key-value store
//! is a state machine: it names the next command to send to the store, takes
//! the store's reply, and either names the next command or finishes with its
//! result. The caller performs the commands.
use vstd::prelude::*;
use vstd::string::*;
use crate::error::AppError;

verus! {

// ---------------------------------------------------------------------------
// Keys
// ---------------------------------------------------------------------------

/// Key of the code stored for an address.
pub open spec fn otp_key(email: Seq<char>) -> Seq<char> {
    "otp:"@ + email
}

/// Key of the counter of requests for a code.
pub open spec fn attempts_key(email: Seq<char>) -> Seq<char> {
    "ratelimit:attempts:"@ + email
}

/// Key whose remaining lifetime is the cool-down before the next request.
pub open spec fn cooldown_key(email: Seq<char>) -> Seq<char> {
    "ratelimit:cooldown:"@ + email
}

/// Key of the counter of attempts to check a code.
pub open spec fn verify_attempts_key(email: Seq<char>) -> Seq<char> {
    "ratelimit:verify:"@ + email
}

fn make_key(prefix: &str, email: &str) -> (key: String)
    ensures
        key@ == prefix@ + email@,
{
    String::from_str(prefix).concat(email)
}

// ---------------------------------------------------------------------------
// Back-off
// ---------------------------------------------------------------------------

/// Largest exponent of the doubling.
pub const MAX_BACKOFF_EXPONENT: u32 = 10;

/// `2` to the power `e`.
pub open spec fn power_of_two(e: nat) -> nat
    decreases e,
{
    if e == 0 {
        1
    } else {
        2 * power_of_two((e - 1) as nat)
    }
}

/// The doubling exponent for the `count`-th request: one less than the
/// count (not below zero), capped at `MAX_BACKOFF_EXPONENT`.
pub open spec fn backoff_exponent(count: nat) -> nat {
    let e: nat = if count >= 1 { (count - 1) as nat } else { 0 };
    if e < MAX_BACKOFF_EXPONENT as nat {
        e
    } else {
        MAX_BACKOFF_EXPONENT as nat
    }
}

/// The cool-down imposed after the `count`-th request when the first one
/// lasts `base` seconds: `base`, then twice that, four times that, ..., up
/// to `base * 2^10`. The growth factor is fixed at 2.
pub open spec fn cooldown_seconds(base: nat, count: nat) -> nat {
    base * power_of_two(backoff_exponent(count))
}

/// The cool-down as a number of seconds in `u64`: the largest such number
/// where the cool-down itself does not fit.
pub open spec fn capped_cooldown(base: u64, count: nat) -> u64 {
    if cooldown_seconds(base as nat, count) <= u64::MAX {
        cooldown_seconds(base as nat, count) as u64
    } else {
        u64::MAX
    }
}

proof fn lemma_power_of_two_bound(e: nat)
    requires
        e <= 10,
    ensures
        1 <= power_of_two(e) <= 1024,
    decreases e,
{
    reveal_with_fuel(power_of_two, 11);
    if e > 0 {
        lemma_power_of_two_bound((e - 1) as nat);
    }
}

/// Every cool-down lies between the first one and 2^10 times it.
pub proof fn lemma_cooldown_bounds(base: nat, count: nat)
    ensures
        base <= cooldown_seconds(base, count) <= base * 1024,
{
    let p = power_of_two(backoff_exponent(count));
    lemma_power_of_two_bound(backoff_exponent(count));
    assert(base <= base * p <= base * 1024) by (nonlinear_arith)
        requires
            1 <= p <= 1024,
    ;
}

/// The first request imposes `base` seconds, and each later one doubles the
/// previous cool-down until the tenth doubling; from the eleventh request on
/// the cool-down stays at `base * 2^10` (8.5 hours for a base of 30 s).
pub proof fn law_backoff_schedule(base: nat, count: nat)
    ensures
        cooldown_seconds(base, 0) == base,
        cooldown_seconds(base, 1) == base,
        1 <= count <= 10 ==> cooldown_seconds(base, count + 1) == 2 * cooldown_seconds(base, count),
        count >= 11 ==> cooldown_seconds(base, count) == base * 1024,
{
    reveal_with_fuel(power_of_two, 11);
    if 1 <= count <= 10 {
        let e = backoff_exponent(count);
        assert(backoff_exponent(count + 1) == e + 1);
        assert(power_of_two(e + 1) == 2 * power_of_two(e));
        assert(base * (2 * power_of_two(e)) == 2 * (base * power_of_two(e))) by (nonlinear_arith);
    }
}

/// A later request never gets a shorter cool-down.
pub proof fn law_backoff_monotone(base: nat, earlier: nat, later: nat)
    requires
        earlier <= later,
    ensures
        cooldown_seconds(base, earlier) <= cooldown_seconds(base, later),
    decreases later - earlier,
{
    if earlier < later {
        law_backoff_monotone(base, earlier, (later - 1) as nat);
        law_backoff_schedule(base, (later - 1) as nat);
        lemma_cooldown_bounds(base, (later - 1) as nat);
        if later - 1 >= 11 {
            law_backoff_schedule(base, later);
        }
    }
}

/// The cool-down that a granted request is answered with is at least the
/// configured first one, is the first one for the first request, and is
/// the doubled schedule itself whenever `base * 2^10` fits in `u64`.
pub proof fn law_answered_cooldown(base: u64, count: nat)
    ensures
        base <= capped_cooldown(base, count),
        capped_cooldown(base, 0) == base,
        capped_cooldown(base, 1) == base,
        base as nat * 1024 <= u64::MAX ==> capped_cooldown(base, count) as nat == cooldown_seconds(base as nat, count),
{
    lemma_cooldown_bounds(base as nat, count);
    law_backoff_schedule(base as nat, count);
}

/// The cool-down, in seconds, imposed after the `count`-th request when
/// the first one lasts `base` seconds (`u64::MAX` where it does not fit).
pub fn next_cooldown(base: u64, count: u32) -> (seconds: u64)
    ensures
        seconds == capped_cooldown(base, count as nat),
{
    let exponent_uncapped = count.saturating_sub(1);
    let exponent = if exponent_uncapped < MAX_BACKOFF_EXPONENT {
        exponent_uncapped
    } else {
        MAX_BACKOFF_EXPONENT
    };
    let mut multiplier: u64 = 1;
    let mut i: u32 = 0;
    while i < exponent
        invariant
            i <= exponent <= 10,
            multiplier == power_of_two(i as nat),
        decreases exponent - i,
    {
        proof {
            lemma_power_of_two_bound(i as nat);
            assert(power_of_two((i + 1) as nat) == 2 * power_of_two(i as nat));
        }
        multiplier = multiplier * 2;
        i = i + 1;
    }
    match base.checked_mul(multiplier) {
        Some(seconds) => seconds,
        None => u64::MAX,
    }
}

// ---------------------------------------------------------------------------
// Commands and replies
// ---------------------------------------------------------------------------

/// A command to the store.
pub enum StoreCommand {
    /// Remaining lifetime of a key in seconds: -2 if absent, -1 if it has none.
    Ttl { key: String },
    /// Adds one to a counter (an absent counter counts from zero).
    Increment { key: String },
    /// Sets the lifetime of a key.
    Expire { key: String, seconds: i64 },
    /// Stores a text with a lifetime.
    SetWithExpiry { key: String, value: String, seconds: u64 },
    /// Stores a text with a lifetime only if the key is absent, in one step
    /// of the store.
    SetIfAbsent { key: String, value: String, seconds: u64 },
    /// Reads a text.
    GetText { key: String },
    /// Removes a key.
    Delete { key: String },
}

/// A store command, with its texts as character sequences.
pub enum CommandView {
    Ttl { key: Seq<char> },
    Increment { key: Seq<char> },
    Expire { key: Seq<char>, seconds: int },
    SetWithExpiry { key: Seq<char>, value: Seq<char>, seconds: nat },
    SetIfAbsent { key: Seq<char>, value: Seq<char>, seconds: nat },
    GetText { key: Seq<char> },
    Delete { key: Seq<char> },
}

impl View for StoreCommand {
    type V = CommandView;

    open spec fn view(&self) -> CommandView {
        match self {
            StoreCommand::Ttl { key } => CommandView::Ttl { key: key@ },
            StoreCommand::Increment { key } => CommandView::Increment { key: key@ },
            StoreCommand::Expire { key, seconds } => CommandView::Expire {
                key: key@,
                seconds: *seconds as int,
            },
            StoreCommand::SetWithExpiry { key, value, seconds } => CommandView::SetWithExpiry {
                key: key@,
                value: value@,
                seconds: *seconds as nat,
            },
            StoreCommand::SetIfAbsent { key, value, seconds } => CommandView::SetIfAbsent {
                key: key@,
                value: value@,
                seconds: *seconds as nat,
            },
            StoreCommand::GetText { key } => CommandView::GetText { key: key@ },
            StoreCommand::Delete { key } => CommandView::Delete { key: key@ },
        }
    }
}

/// Why the store could not carry out a command.
pub enum StoreFailure {
    /// No connection could be taken from the pool.
    Pool(String),
    /// The store answered with an error.
    Redis(String),
}

/// The error that a store failure is reported as.
pub open spec fn store_failure_error(f: StoreFailure) -> AppError {
    match f {
        StoreFailure::Pool(m) => AppError::RedisPoolError(m),
        StoreFailure::Redis(m) => AppError::RedisError(m),
    }
}

impl StoreFailure {
    /// The error that the failure is reported as.
    pub fn into_app_error(self) -> (e: AppError)
        ensures
            e == store_failure_error(self),
    {
        match self {
            StoreFailure::Pool(m) => AppError::RedisPoolError(m),
            StoreFailure::Redis(m) => AppError::RedisError(m),
        }
    }
}

/// The store's reply to a command.
pub enum StoreReply {
    /// To `Ttl`.
    Ttl(i64),
    /// To `Increment`: the new count.
    Count(u32),
    /// To `SetIfAbsent`: whether the key was absent and is now set.
    Claimed(bool),
    /// To `GetText`.
    MaybeText(Option<String>),
    /// To `Expire`, `SetWithExpiry` and `Delete`.
    Done,
    /// To any command that failed.
    Failed(StoreFailure),
}

/// A reply, with its numbers as integers and its texts as character sequences.
pub enum ReplyView {
    Ttl(int),
    Count(nat),
    Claimed(bool),
    MaybeText(Option<Seq<char>>),
    Done,
    Failed(StoreFailure),
}

impl View for StoreReply {
    type V = ReplyView;

    open spec fn view(&self) -> ReplyView {
        match self {
            StoreReply::Ttl(t) => ReplyView::Ttl(*t as int),
            StoreReply::Count(c) => ReplyView::Count(*c as nat),
            StoreReply::Claimed(b) => ReplyView::Claimed(*b),
            StoreReply::MaybeText(t) => ReplyView::MaybeText(
                match t {
                    Some(s) => Some(s@),
                    None => None,
                },
            ),
            StoreReply::Done => ReplyView::Done,
            StoreReply::Failed(f) => ReplyView::Failed(*f),
        }
    }
}

/// Whether `reply` is of the kind that answers `command`.
pub open spec fn answers(command: CommandView, reply: ReplyView) -> bool {
    match reply {
        ReplyView::Failed(_) => true,
        ReplyView::Ttl(_) => command is Ttl,
        ReplyView::Count(_) => command is Increment,
        ReplyView::Claimed(_) => command is SetIfAbsent,
        ReplyView::MaybeText(_) => command is GetText,
        ReplyView::Done => command is Expire || command is SetWithExpiry || command is Delete,
    }
}

/// Whether `reply` is of the kind that answers `command`.
pub fn reply_answers(command: &StoreCommand, reply: &StoreReply) -> (ok: bool)
    ensures
        ok == answers(command@, reply@),
{
    match reply {
        StoreReply::Failed(_) => true,
        StoreReply::Ttl(_) => matches!(command, StoreCommand::Ttl { .. }),
        StoreReply::Count(_) => matches!(command, StoreCommand::Increment { .. }),
        StoreReply::Claimed(_) => matches!(command, StoreCommand::SetIfAbsent { .. }),
        StoreReply::MaybeText(_) => matches!(command, StoreCommand::GetText { .. }),
        StoreReply::Done => matches!(
            command,
            StoreCommand::Expire { .. } | StoreCommand::SetWithExpiry { .. } | StoreCommand::Delete { .. }
        ),
    }
}

/// What a protocol does after a reply: send another command, or finish.
pub enum Progress<M, T> {
    Continue(M, StoreCommand),
    Finished(Result<T, AppError>),
}

/// A protocol step, with the machine and command taken by their views.
pub enum Outcome<S, T> {
    Continue(S, CommandView),
    Finished(Result<T, AppError>),
}

impl<M: View, T> View for Progress<M, T> {
    type V = Outcome<M::V, T>;

    open spec fn view(&self) -> Outcome<M::V, T> {
        match self {
            Progress::Continue(m, c) => Outcome::Continue(m@, c@),
            Progress::Finished(r) => Outcome::Finished(*r),
        }
    }
}


// ---------------------------------------------------------------------------
// Rate limit on requests for a code
// ---------------------------------------------------------------------------

/// Where a rate-limit check stands.
pub enum RateLimitStage {
    /// Awaits the claim of the cool-down key.
    AwaitClaim,
    /// Awaits the remaining cool-down, after the claim found it held.
    AwaitCooldownTtl,
    /// Awaits the new request count.
    AwaitIncrement,
    /// Awaits the new lifetime of the request counter.
    AwaitExpire { cooldown: u64 },
    /// Awaits the storing of the new cool-down.
    AwaitSetCooldown { cooldown: u64 },
}

/// Decides whether a code may be sent to an address now, and if so imposes
/// the next cool-down. The request first claims the cool-down key for the
/// first cool-down (`base_delay` seconds) in one step of the store; a key
/// that is already held refuses the request with its remaining seconds.
/// A granted request adds one to the request counter (which lives
/// `reset_seconds`) and sets the cool-down to
/// `capped_cooldown(base_delay, count)`.
pub struct RateLimitCheck {
    email: String,
    reset_seconds: u64,
    base_delay: u64,
    stage: RateLimitStage,
}

/// A rate-limit check, with the address as a character sequence.
pub struct RateLimitState {
    pub email: Seq<char>,
    pub reset_seconds: u64,
    pub base_delay: u64,
    pub stage: RateLimitStage,
}

impl View for RateLimitCheck {
    type V = RateLimitState;

    closed spec fn view(&self) -> RateLimitState {
        RateLimitState {
            email: self.email@,
            reset_seconds: self.reset_seconds,
            base_delay: self.base_delay,
            stage: self.stage,
        }
    }
}

/// The first command of a rate-limit check: claim the cool-down key.
pub open spec fn rate_limit_start(email: Seq<char>, reset_seconds: u64, base_delay: u64) -> (RateLimitState, CommandView) {
    let s = RateLimitState { email, reset_seconds, base_delay, stage: RateLimitStage::AwaitClaim };
    (s, rate_limit_awaits(s))
}

/// The command whose reply the check awaits.
pub open spec fn rate_limit_awaits(s: RateLimitState) -> CommandView {
    match s.stage {
        RateLimitStage::AwaitClaim => CommandView::SetIfAbsent {
            key: cooldown_key(s.email),
            value: "1"@,
            seconds: s.base_delay as nat,
        },
        RateLimitStage::AwaitCooldownTtl => CommandView::Ttl { key: cooldown_key(s.email) },
        RateLimitStage::AwaitIncrement => CommandView::Increment { key: attempts_key(s.email) },
        RateLimitStage::AwaitExpire { .. } => CommandView::Expire {
            key: attempts_key(s.email),
            seconds: s.reset_seconds as i64 as int,
        },
        RateLimitStage::AwaitSetCooldown { cooldown } => CommandView::SetWithExpiry {
            key: cooldown_key(s.email),
            value: "1"@,
            seconds: cooldown as nat,
        },
    }
}

/// Moves the check to `stage` and awaits that stage's command.
pub open spec fn rate_limit_goto(s: RateLimitState, stage: RateLimitStage) -> Outcome<RateLimitState, u64> {
    let next = RateLimitState { stage, ..s };
    Outcome::Continue(next, rate_limit_awaits(next))
}

/// One step of a rate-limit check.
pub open spec fn rate_limit_step(s: RateLimitState, reply: ReplyView) -> Outcome<RateLimitState, u64> {
    match reply {
        ReplyView::Failed(f) => Outcome::Finished(Err(store_failure_error(f))),
        _ => match s.stage {
            RateLimitStage::AwaitClaim => if reply->Claimed_0 {
                rate_limit_goto(s, RateLimitStage::AwaitIncrement)
            } else {
                rate_limit_goto(s, RateLimitStage::AwaitCooldownTtl)
            },
            RateLimitStage::AwaitCooldownTtl => {
                let ttl = reply->Ttl_0;
                Outcome::Finished(
                    Err(AppError::RateLimited { reset_in_seconds: if ttl > 0 { ttl as u64 } else { 0 } }),
                )
            },
            RateLimitStage::AwaitIncrement => rate_limit_goto(
                s,
                RateLimitStage::AwaitExpire { cooldown: capped_cooldown(s.base_delay, reply->Count_0) },
            ),
            RateLimitStage::AwaitExpire { cooldown } => rate_limit_goto(s, RateLimitStage::AwaitSetCooldown { cooldown }),
            RateLimitStage::AwaitSetCooldown { cooldown } => Outcome::Finished(Ok(cooldown)),
        },
    }
}

impl RateLimitCheck {
    /// The command that the check awaits the reply to, for a check at `stage`.
    fn command_for(&self, stage: &RateLimitStage) -> (c: StoreCommand)
        ensures
            c@ == rate_limit_awaits(RateLimitState { stage: *stage, ..self@ }),
    {
        let email = self.email.as_str();
        match stage {
            RateLimitStage::AwaitClaim => StoreCommand::SetIfAbsent {
                key: make_key("ratelimit:cooldown:", email),
                value: String::from_str("1"),
                seconds: self.base_delay,
            },
            RateLimitStage::AwaitCooldownTtl => StoreCommand::Ttl { key: make_key("ratelimit:cooldown:", email) },
            RateLimitStage::AwaitIncrement => StoreCommand::Increment { key: make_key("ratelimit:attempts:", email) },
            RateLimitStage::AwaitExpire { .. } => StoreCommand::Expire {
                key: make_key("ratelimit:attempts:", email),
                seconds: self.reset_seconds as i64,
            },
            RateLimitStage::AwaitSetCooldown { cooldown } => StoreCommand::SetWithExpiry {
                key: make_key("ratelimit:cooldown:", email),
                value: String::from_str("1"),
                seconds: *cooldown,
            },
        }
    }

    fn goto(self, stage: RateLimitStage) -> (p: Progress<RateLimitCheck, u64>)
        ensures
            p@ == rate_limit_goto(self@, stage),
    {
        let command = self.command_for(&stage);
        Progress::Continue(RateLimitCheck { stage, ..self }, command)
    }

    /// Takes the store's reply to the awaited command.
    pub fn step(self, reply: StoreReply) -> (p: Progress<RateLimitCheck, u64>)
        requires
            answers(rate_limit_awaits(self@), reply@),
        ensures
            p@ == rate_limit_step(self@, reply@),
    {
        match reply {
            StoreReply::Failed(f) => Progress::Finished(Err(f.into_app_error())),
            StoreReply::Claimed(claimed) => if claimed {
                self.goto(RateLimitStage::AwaitIncrement)
            } else {
                self.goto(RateLimitStage::AwaitCooldownTtl)
            },
            StoreReply::Ttl(ttl) => {
                let seconds: u64 = if ttl > 0 { ttl as u64 } else { 0 };
                Progress::Finished(Err(AppError::RateLimited { reset_in_seconds: seconds }))
            },
            StoreReply::Count(count) => {
                let cooldown = next_cooldown(self.base_delay, count);
                self.goto(RateLimitStage::AwaitExpire { cooldown })
            },
            _ => match self.stage {
                RateLimitStage::AwaitExpire { cooldown } => self.goto(RateLimitStage::AwaitSetCooldown { cooldown }),
                RateLimitStage::AwaitSetCooldown { cooldown } => Progress::Finished(Ok(cooldown)),
                _ => vstd::pervasive::unreached(),
            },
        }
    }
}


// ---------------------------------------------------------------------------
// Storing a code
// ---------------------------------------------------------------------------

/// Stores a code for an address; it lives the given number of minutes.
pub struct OtpSave {}

impl View for OtpSave {
    type V = ();

    open spec fn view(&self) -> () {
        ()
    }
}

/// The only command of storing a code.
pub open spec fn otp_save_command(email: Seq<char>, code: Seq<char>, expiration_minutes: u64) -> CommandView {
    CommandView::SetWithExpiry {
        key: otp_key(email),
        value: code,
        seconds: (expiration_minutes * 60) as nat,
    }
}

/// The step of storing a code: the store's acknowledgement finishes it.
pub open spec fn otp_save_step(reply: ReplyView) -> Outcome<(), ()> {
    match reply {
        ReplyView::Failed(f) => Outcome::Finished(Err(store_failure_error(f))),
        _ => Outcome::Finished(Ok(())),
    }
}

impl OtpSave {
    /// Takes the store's reply to the command.
    pub fn step(self, reply: StoreReply) -> (p: Progress<OtpSave, ()>)
        ensures
            p@ == otp_save_step(reply@),
    {
        match reply {
            StoreReply::Failed(f) => Progress::Finished(Err(f.into_app_error())),
            _ => Progress::Finished(Ok(())),
        }
    }
}

// ---------------------------------------------------------------------------
// Checking a code
// ---------------------------------------------------------------------------

/// Seconds that a counter of attempts to check a code lives, counted from
/// the first attempt.
pub const VERIFY_WINDOW_SECONDS: i64 = 60;

/// Where a check of a code stands.
pub enum OtpCheckStage {
    /// Awaits the new number of attempts.
    AwaitIncrement,
    /// Awaits the lifetime set on a fresh counter; `allowed` says whether
    /// the attempt is within the allowance.
    AwaitExpire { allowed: bool },
    /// Awaits the remaining lifetime of the exhausted counter.
    AwaitLockTtl,
    /// Awaits the stored code.
    AwaitStoredCode,
    /// Awaits the removal of the used code.
    AwaitDeleteCode,
    /// Awaits the removal of the counter.
    AwaitDeleteAttempts,
}

/// Checks a code sent for an address. The attempt is counted first, in one
/// step of the store, and the decision is taken on the count that step
/// gives back: only the attempts counted up to `max_attempts` in a window
/// (and always the first) go on to compare the code; a matching code is removed so that it cannot
/// be used again, and the counter is cleared.
pub struct OtpCheck {
    email: String,
    code: String,
    max_attempts: u32,
    stage: OtpCheckStage,
}

/// A check of a code, with its texts as character sequences.
pub struct OtpCheckState {
    pub email: Seq<char>,
    pub code: Seq<char>,
    pub max_attempts: u32,
    pub stage: OtpCheckStage,
}

impl View for OtpCheck {
    type V = OtpCheckState;

    closed spec fn view(&self) -> OtpCheckState {
        OtpCheckState {
            email: self.email@,
            code: self.code@,
            max_attempts: self.max_attempts,
            stage: self.stage,
        }
    }
}

/// The first command of a check: count the attempt.
pub open spec fn otp_check_start(email: Seq<char>, code: Seq<char>, max_attempts: u32) -> (OtpCheckState, CommandView) {
    let s = OtpCheckState { email, code, max_attempts, stage: OtpCheckStage::AwaitIncrement };
    (s, otp_check_awaits(s))
}

/// The command whose reply the check awaits.
pub open spec fn otp_check_awaits(s: OtpCheckState) -> CommandView {
    match s.stage {
        OtpCheckStage::AwaitIncrement => CommandView::Increment { key: verify_attempts_key(s.email) },
        OtpCheckStage::AwaitExpire { .. } => CommandView::Expire {
            key: verify_attempts_key(s.email),
            seconds: VERIFY_WINDOW_SECONDS as int,
        },
        OtpCheckStage::AwaitLockTtl => CommandView::Ttl { key: verify_attempts_key(s.email) },
        OtpCheckStage::AwaitStoredCode => CommandView::GetText { key: otp_key(s.email) },
        OtpCheckStage::AwaitDeleteCode => CommandView::Delete { key: otp_key(s.email) },
        OtpCheckStage::AwaitDeleteAttempts => CommandView::Delete { key: verify_attempts_key(s.email) },
    }
}

/// Moves the check to `stage` and awaits that stage's command.
pub open spec fn otp_check_goto(s: OtpCheckState, stage: OtpCheckStage) -> Outcome<OtpCheckState, ()> {
    let next = OtpCheckState { stage, ..s };
    Outcome::Continue(next, otp_check_awaits(next))
}

/// Whether the attempt that brought the counter to `count` is let through
/// to compare its code: it is within `max_attempts`, or it is the first of
/// its window.
pub open spec fn attempt_allowed(count: nat, max_attempts: u32) -> bool {
    count <= max_attempts || count == 1
}

/// Where a counted attempt goes: on to the stored code when it is within
/// the allowance, else to the remaining lifetime of the counter.
pub open spec fn after_counting(allowed: bool) -> OtpCheckStage {
    if allowed {
        OtpCheckStage::AwaitStoredCode
    } else {
        OtpCheckStage::AwaitLockTtl
    }
}

/// One step of a check.
pub open spec fn otp_check_step(s: OtpCheckState, reply: ReplyView) -> Outcome<OtpCheckState, ()> {
    match reply {
        ReplyView::Failed(f) => Outcome::Finished(Err(store_failure_error(f))),
        _ => match s.stage {
            OtpCheckStage::AwaitIncrement => {
                let count = reply->Count_0;
                let allowed = attempt_allowed(count, s.max_attempts);
                if count == 1 {
                    otp_check_goto(s, OtpCheckStage::AwaitExpire { allowed })
                } else {
                    otp_check_goto(s, after_counting(allowed))
                }
            },
            OtpCheckStage::AwaitExpire { allowed } => otp_check_goto(s, after_counting(allowed)),
            OtpCheckStage::AwaitLockTtl => {
                let ttl = reply->Ttl_0;
                Outcome::Finished(
                    Err(AppError::RateLimited { reset_in_seconds: if ttl > 0 { ttl as u64 } else { 0 } }),
                )
            },
            OtpCheckStage::AwaitStoredCode => match reply->MaybeText_0 {
                Some(stored) => if stored == s.code {
                    otp_check_goto(s, OtpCheckStage::AwaitDeleteCode)
                } else {
                    Outcome::Finished(Err(AppError::InvalidOtp))
                },
                None => Outcome::Finished(Err(AppError::OtpExpired)),
            },
            OtpCheckStage::AwaitDeleteCode => otp_check_goto(s, OtpCheckStage::AwaitDeleteAttempts),
            OtpCheckStage::AwaitDeleteAttempts => Outcome::Finished(Ok(())),
        },
    }
}

impl OtpCheck {
    /// The command that the check awaits the reply to, for a check at `stage`.
    fn command_for(&self, stage: &OtpCheckStage) -> (c: StoreCommand)
        ensures
            c@ == otp_check_awaits(OtpCheckState { stage: *stage, ..self@ }),
    {
        let email = self.email.as_str();
        match stage {
            OtpCheckStage::AwaitIncrement => StoreCommand::Increment { key: make_key("ratelimit:verify:", email) },
            OtpCheckStage::AwaitExpire { .. } => StoreCommand::Expire {
                key: make_key("ratelimit:verify:", email),
                seconds: VERIFY_WINDOW_SECONDS,
            },
            OtpCheckStage::AwaitLockTtl => StoreCommand::Ttl { key: make_key("ratelimit:verify:", email) },
            OtpCheckStage::AwaitStoredCode => StoreCommand::GetText { key: make_key("otp:", email) },
            OtpCheckStage::AwaitDeleteCode => StoreCommand::Delete { key: make_key("otp:", email) },
            OtpCheckStage::AwaitDeleteAttempts => StoreCommand::Delete { key: make_key("ratelimit:verify:", email) },
        }
    }

    fn goto(self, stage: OtpCheckStage) -> (p: Progress<OtpCheck, ()>)
        ensures
            p@ == otp_check_goto(self@, stage),
    {
        let command = self.command_for(&stage);
        Progress::Continue(OtpCheck { stage, ..self }, command)
    }

    /// Takes the store's reply to the awaited command.
    pub fn step(self, reply: StoreReply) -> (p: Progress<OtpCheck, ()>)
        requires
            answers(otp_check_awaits(self@), reply@),
        ensures
            p@ == otp_check_step(self@, reply@),
    {
        match reply {
            StoreReply::Failed(f) => Progress::Finished(Err(f.into_app_error())),
            StoreReply::Count(count) => {
                let allowed = count <= self.max_attempts || count == 1;
                if count == 1 {
                    self.goto(OtpCheckStage::AwaitExpire { allowed })
                } else if allowed {
                    self.goto(OtpCheckStage::AwaitStoredCode)
                } else {
                    self.goto(OtpCheckStage::AwaitLockTtl)
                }
            },
            StoreReply::Ttl(ttl) => {
                let seconds: u64 = if ttl > 0 { ttl as u64 } else { 0 };
                Progress::Finished(Err(AppError::RateLimited { reset_in_seconds: seconds }))
            },
            StoreReply::MaybeText(stored) => match stored {
                Some(stored) => if stored == self.code {
                    self.goto(OtpCheckStage::AwaitDeleteCode)
                } else {
                    Progress::Finished(Err(AppError::InvalidOtp))
                },
                None => Progress::Finished(Err(AppError::OtpExpired)),
            },
            _ => match self.stage {
                OtpCheckStage::AwaitExpire { allowed } => if allowed {
                    self.goto(OtpCheckStage::AwaitStoredCode)
                } else {
                    self.goto(OtpCheckStage::AwaitLockTtl)
                },
                OtpCheckStage::AwaitDeleteCode => self.goto(OtpCheckStage::AwaitDeleteAttempts),
                _ => Progress::Finished(Ok(())),
            },
        }
    }
}

// ---------------------------------------------------------------------------
// The operations
// ---------------------------------------------------------------------------

/// The store operations of the service; each starts its protocol and names
/// the first command to send.
pub struct RedisService {}

impl RedisService {
    /// Starts a check for `email`; a counter of requests lives
    /// `reset_seconds`, and the first cool-down lasts `base_delay` seconds.
    pub fn check_rate_limit(email: &str, reset_seconds: u64, base_delay: u64) -> (r: (RateLimitCheck, StoreCommand))
        ensures
            (r.0@, r.1@) == rate_limit_start(email@, reset_seconds, base_delay),
    {
        let check = RateLimitCheck {
            email: String::from_str(email),
            reset_seconds,
            base_delay,
            stage: RateLimitStage::AwaitClaim,
        };
        let command = check.command_for(&RateLimitStage::AwaitClaim);
        (check, command)
    }

    /// Starts storing `code` for `email`, to live `expiration_minutes`.
    pub fn save_otp(email: &str, code: &str, expiration_minutes: u64) -> (r: (OtpSave, StoreCommand))
        requires
            expiration_minutes * 60 <= u64::MAX,
        ensures
            r.1@ == otp_save_command(email@, code@, expiration_minutes),
    {
        let command = StoreCommand::SetWithExpiry {
            key: make_key("otp:", email),
            value: String::from_str(code),
            seconds: expiration_minutes * 60,
        };
        (OtpSave {}, command)
    }

    /// Starts checking `code` for `email`, letting through at most
    /// `max_attempts` attempts in a window.
    pub fn verify_otp(email: &str, code: &str, max_attempts: u32) -> (r: (OtpCheck, StoreCommand))
        ensures
            (r.0@, r.1@) == otp_check_start(email@, code@, max_attempts),
    {
        let check = OtpCheck {
            email: String::from_str(email),
            code: String::from_str(code),
            max_attempts,
            stage: OtpCheckStage::AwaitIncrement,
        };
        let command = check.command_for(&OtpCheckStage::AwaitIncrement);
        (check, command)
    }
}

} // verus!
