//! A model of the key-value store, for stating what the store protocols do
//! to it: each command changes the store and yields a reply as the store
//! does, with no time passing between commands.
use vstd::prelude::*;
use crate::error::AppError;
use crate::text::decimal;
use crate::services::redis::{
    CommandView, ReplyView, Outcome, RateLimitState, rate_limit_start, rate_limit_step, otp_save_command,
    otp_save_step, OtpCheckState, otp_check_start, otp_check_step,
};

verus! {

/// A stored value.
pub enum StoredValue {
    Text(Seq<char>),
    Count(nat),
}

/// A stored key: its value and its remaining lifetime (none if it has none).
pub struct StoreEntry {
    pub value: StoredValue,
    pub ttl: Option<nat>,
}

/// The contents of the store.
pub type Store = Map<Seq<char>, StoreEntry>;

/// A reply that reports a failed command.
pub open spec fn failure() -> ReplyView {
    ReplyView::Failed(vstd::pervasive::arbitrary())
}

/// What a command does to the store, and the store's reply.
pub open spec fn apply(store: Store, command: CommandView) -> (Store, ReplyView) {
    match command {
        CommandView::Ttl { key } => {
            let ttl = if !store.dom().contains(key) {
                -2
            } else {
                match store[key].ttl {
                    Some(t) => t as int,
                    None => -1,
                }
            };
            (store, ReplyView::Ttl(ttl))
        },
        CommandView::Increment { key } => {
            if !store.dom().contains(key) {
                (store.insert(key, StoreEntry { value: StoredValue::Count(1), ttl: None }), ReplyView::Count(1))
            } else {
                match store[key].value {
                    StoredValue::Count(n) => {
                        let next = store.insert(key, StoreEntry { value: StoredValue::Count(n + 1), ..store[key] });
                        if n + 1 <= u32::MAX {
                            (next, ReplyView::Count(n + 1))
                        } else {
                            (next, failure())
                        }
                    },
                    StoredValue::Text(_) => (store, failure()),
                }
            }
        },
        CommandView::Expire { key, seconds } => {
            if !store.dom().contains(key) {
                (store, ReplyView::Done)
            } else if seconds <= 0 {
                (store.remove(key), ReplyView::Done)
            } else {
                (store.insert(key, StoreEntry { ttl: Some(seconds as nat), ..store[key] }), ReplyView::Done)
            }
        },
        CommandView::SetWithExpiry { key, value, seconds } => {
            if seconds == 0 {
                (store, failure())
            } else {
                (
                    store.insert(key, StoreEntry { value: StoredValue::Text(value), ttl: Some(seconds) }),
                    ReplyView::Done,
                )
            }
        },
        CommandView::SetIfAbsent { key, value, seconds } => {
            if seconds == 0 {
                (store, failure())
            } else if store.dom().contains(key) {
                (store, ReplyView::Claimed(false))
            } else {
                (
                    store.insert(key, StoreEntry { value: StoredValue::Text(value), ttl: Some(seconds) }),
                    ReplyView::Claimed(true),
                )
            }
        },
        CommandView::GetText { key } => {
            if !store.dom().contains(key) {
                (store, ReplyView::MaybeText(None))
            } else {
                match store[key].value {
                    StoredValue::Text(t) => (store, ReplyView::MaybeText(Some(t))),
                    StoredValue::Count(n) => (store, ReplyView::MaybeText(Some(decimal(n)))),
                }
            }
        },
        CommandView::Delete { key } => (store.remove(key), ReplyView::Done),
    }
}

/// The store after `seconds` pass: every lifetime shrinks by that much, and
/// the keys whose lifetime runs out are gone.
pub open spec fn elapse(store: Store, seconds: nat) -> Store {
    Map::new(
        |k: Seq<char>| store.dom().contains(k) && !(store[k].ttl matches Some(t) && t <= seconds),
        |k: Seq<char>| StoreEntry {
            ttl: match store[k].ttl {
                Some(t) => Some((t - seconds) as nat),
                None => None,
            },
            ..store[k]
        },
    )
}

/// Runs a rate-limit check against the store, from the command `command`,
/// for at most `fuel` further commands.
pub open spec fn drive_rate_limit(store: Store, s: RateLimitState, command: CommandView, fuel: nat) -> (Store, Option<Result<u64, AppError>>)
    decreases fuel,
{
    let (next_store, reply) = apply(store, command);
    match rate_limit_step(s, reply) {
        Outcome::Finished(r) => (next_store, Some(r)),
        Outcome::Continue(next, c) => if fuel == 0 {
            (next_store, None)
        } else {
            drive_rate_limit(next_store, next, c, (fuel - 1) as nat)
        },
    }
}

/// A whole rate-limit check of `email` against the store.
pub open spec fn rate_limit_in(store: Store, email: Seq<char>, reset_seconds: u64, base_delay: u64) -> (Store, Option<Result<u64, AppError>>) {
    let (s, c) = rate_limit_start(email, reset_seconds, base_delay);
    drive_rate_limit(store, s, c, 3)
}

/// Storing `code` for `email` in the store.
pub open spec fn save_in(store: Store, email: Seq<char>, code: Seq<char>, expiration_minutes: u64) -> (Store, Result<(), AppError>) {
    let (next_store, reply) = apply(store, otp_save_command(email, code, expiration_minutes));
    (next_store, otp_save_step(reply)->Finished_0)
}

/// Runs a check of a code against the store, from the command `command`,
/// for at most `fuel` further commands.
pub open spec fn drive_otp_check(store: Store, s: OtpCheckState, command: CommandView, fuel: nat) -> (Store, Option<Result<(), AppError>>)
    decreases fuel,
{
    let (next_store, reply) = apply(store, command);
    match otp_check_step(s, reply) {
        Outcome::Finished(r) => (next_store, Some(r)),
        Outcome::Continue(next, c) => if fuel == 0 {
            (next_store, None)
        } else {
            drive_otp_check(next_store, next, c, (fuel - 1) as nat)
        },
    }
}

/// A whole check of `code` for `email` against the store.
pub open spec fn otp_check_in(store: Store, email: Seq<char>, code: Seq<char>, max_attempts: u32) -> (Store, Option<Result<(), AppError>>) {
    let (s, c) = otp_check_start(email, code, max_attempts);
    drive_otp_check(store, s, c, 4)
}

/// A run of a protocol: awaiting the reply to a command, or finished.
pub enum Run<S, T> {
    Pending(S, CommandView),
    Done(Result<T, AppError>),
}

/// A rate-limit run carries out its next command against the store.
pub open spec fn advance_rate_limit(store: Store, run: Run<RateLimitState, u64>) -> (Store, Run<RateLimitState, u64>) {
    match run {
        Run::Pending(s, c) => {
            let (next_store, reply) = apply(store, c);
            match rate_limit_step(s, reply) {
                Outcome::Continue(next, next_command) => (next_store, Run::Pending(next, next_command)),
                Outcome::Finished(r) => (next_store, Run::Done(r)),
            }
        },
        Run::Done(_) => (store, run),
    }
}

/// Two rate-limit runs against the same store, their commands interleaved
/// as `schedule` says: at each turn `true` lets the first run carry out its
/// next command, and `false` the second.
pub open spec fn interleave_rate_limits(
    store: Store,
    first: Run<RateLimitState, u64>,
    second: Run<RateLimitState, u64>,
    schedule: Seq<bool>,
) -> (Store, Run<RateLimitState, u64>, Run<RateLimitState, u64>)
    decreases schedule.len(),
{
    if schedule.len() == 0 {
        (store, first, second)
    } else if schedule[0] {
        let (next_store, next_first) = advance_rate_limit(store, first);
        interleave_rate_limits(next_store, next_first, second, schedule.drop_first())
    } else {
        let (next_store, next_second) = advance_rate_limit(store, second);
        interleave_rate_limits(next_store, first, next_second, schedule.drop_first())
    }
}

/// A check of a code carries out its next command against the store.
pub open spec fn advance_otp_check(store: Store, run: Run<OtpCheckState, ()>) -> (Store, Run<OtpCheckState, ()>) {
    match run {
        Run::Pending(s, c) => {
            let (next_store, reply) = apply(store, c);
            match otp_check_step(s, reply) {
                Outcome::Continue(next, next_command) => (next_store, Run::Pending(next, next_command)),
                Outcome::Finished(r) => (next_store, Run::Done(r)),
            }
        },
        Run::Done(_) => (store, run),
    }
}

/// Two checks of codes against the same store, their commands interleaved
/// as `schedule` says: at each turn `true` lets the first check carry out
/// its next command, and `false` the second.
pub open spec fn interleave_otp_checks(
    store: Store,
    first: Run<OtpCheckState, ()>,
    second: Run<OtpCheckState, ()>,
    schedule: Seq<bool>,
) -> (Store, Run<OtpCheckState, ()>, Run<OtpCheckState, ()>)
    decreases schedule.len(),
{
    if schedule.len() == 0 {
        (store, first, second)
    } else if schedule[0] {
        let (next_store, next_first) = advance_otp_check(store, first);
        interleave_otp_checks(next_store, next_first, second, schedule.drop_first())
    } else {
        let (next_store, next_second) = advance_otp_check(store, second);
        interleave_otp_checks(next_store, first, next_second, schedule.drop_first())
    }
}

} // verus!
