//! What the store protocols do to the store: the laws of rate limiting and
//! of storing and checking codes, proved over the store model.
use vstd::prelude::*;
use crate::error::AppError;
use crate::services::redis::{
    otp_key, attempts_key, cooldown_key, verify_attempts_key, capped_cooldown, lemma_cooldown_bounds,
};
use crate::services::redis::{
    CommandView, ReplyView, Outcome, RateLimitState, RateLimitStage, rate_limit_start, rate_limit_step,
    rate_limit_awaits, OtpCheckState, OtpCheckStage, otp_check_start, otp_check_step, otp_check_awaits,
    VERIFY_WINDOW_SECONDS,
};
use crate::services::store_model::{
    Store, StoreEntry, StoredValue, Run, apply, elapse, rate_limit_in, save_in, otp_check_in,
    advance_rate_limit, interleave_rate_limits, advance_otp_check, interleave_otp_checks,
};

verus! {

/// The keys that the service uses for one address are pairwise distinct.
pub proof fn lemma_keys_distinct(email: Seq<char>)
    ensures
        otp_key(email) != attempts_key(email),
        otp_key(email) != cooldown_key(email),
        otp_key(email) != verify_attempts_key(email),
        attempts_key(email) != cooldown_key(email),
        attempts_key(email) != verify_attempts_key(email),
        cooldown_key(email) != verify_attempts_key(email),
{
    reveal_strlit("otp:");
    reveal_strlit("ratelimit:attempts:");
    reveal_strlit("ratelimit:cooldown:");
    reveal_strlit("ratelimit:verify:");
    assert(otp_key(email)[0] != attempts_key(email)[0]);
    assert(otp_key(email)[0] != cooldown_key(email)[0]);
    assert(otp_key(email)[0] != verify_attempts_key(email)[0]);
    assert(attempts_key(email)[10] != cooldown_key(email)[10]);
    assert(attempts_key(email)[10] != verify_attempts_key(email)[10]);
    assert(cooldown_key(email)[10] != verify_attempts_key(email)[10]);
}

/// The remaining lifetime that the store reports for `key`: -2 if absent,
/// -1 if it has none.
pub open spec fn remaining_ttl(store: Store, key: Seq<char>) -> int {
    if !store.dom().contains(key) {
        -2
    } else {
        match store[key].ttl {
            Some(t) => t as int,
            None => -1,
        }
    }
}

/// The counter under `key`: zero if absent.
pub open spec fn counter(store: Store, key: Seq<char>) -> nat {
    if store.dom().contains(key) && store[key].value is Count {
        store[key].value->Count_0
    } else {
        0
    }
}

/// Whether `key` is absent or holds a counter.
pub open spec fn absent_or_counter(store: Store, key: Seq<char>) -> bool {
    store.dom().contains(key) ==> store[key].value is Count
}

/// The seconds that a refusal reports for a remaining lifetime `ttl`: the
/// lifetime where it is positive, else zero.
pub open spec fn seconds_left(ttl: int) -> u64 {
    if ttl > 0 {
        ttl as u64
    } else {
        0
    }
}

/// Every cool-down in `u64` is at least the first one.
pub proof fn lemma_capped_cooldown_at_least_base(base: u64, count: nat)
    ensures
        base <= capped_cooldown(base, count),
{
    lemma_cooldown_bounds(base as nat, count);
}

/// While a cool-down runs, a request for a code is refused with the seconds
/// left, and the store is left as it was.
pub proof fn law_request_refused_during_cooldown(store: Store, email: Seq<char>, reset_seconds: u64, base_delay: u64)
    requires
        store.dom().contains(cooldown_key(email)),
        0 < base_delay,
        remaining_ttl(store, cooldown_key(email)) <= u64::MAX,
    ensures
        rate_limit_in(store, email, reset_seconds, base_delay) == (
            store,
            Some(Err::<u64, AppError>(AppError::RateLimited {
                reset_in_seconds: seconds_left(remaining_ttl(store, cooldown_key(email))),
            })),
        ),
{
    reveal_with_fuel(crate::services::store_model::drive_rate_limit, 2);
}

/// With no cool-down running, a request for a code is granted: the request
/// counter grows by one and lives `reset_seconds` again, and a cool-down of
/// `capped_cooldown(base_delay, count)` starts, which is also the answer.
pub proof fn law_request_granted(store: Store, email: Seq<char>, reset_seconds: u64, base_delay: u64)
    requires
        !store.dom().contains(cooldown_key(email)),
        absent_or_counter(store, attempts_key(email)),
        counter(store, attempts_key(email)) + 1 <= u32::MAX,
        0 < reset_seconds <= i64::MAX,
        0 < base_delay,
    ensures
        ({
            let count = counter(store, attempts_key(email)) + 1;
            let cooldown = capped_cooldown(base_delay, count);
            rate_limit_in(store, email, reset_seconds, base_delay) == (
                store.insert(
                    attempts_key(email),
                    StoreEntry { value: StoredValue::Count(count), ttl: Some(reset_seconds as nat) },
                ).insert(
                    cooldown_key(email),
                    StoreEntry { value: StoredValue::Text("1"@), ttl: Some(cooldown as nat) },
                ),
                Some(Ok::<u64, AppError>(cooldown)),
            )
        }),
{
    lemma_keys_distinct(email);
    let count = counter(store, attempts_key(email)) + 1;
    let cooldown = capped_cooldown(base_delay, count);
    lemma_capped_cooldown_at_least_base(base_delay, count);
    let ak = attempts_key(email);
    let ck = cooldown_key(email);
    let (s0, c0) = rate_limit_start(email, reset_seconds, base_delay);
    let (st1, r1) = apply(store, c0);
    assert(r1 == ReplyView::Claimed(true));
    let o1 = rate_limit_step(s0, r1);
    let s1 = o1->Continue_0;
    let c1 = o1->Continue_1;
    assert(c1 == CommandView::Increment { key: ak });
    let (st2, r2) = apply(st1, c1);
    assert(st1.dom().contains(ak) == store.dom().contains(ak));
    assert(r2 == ReplyView::Count(count));
    let o2 = rate_limit_step(s1, r2);
    let s2 = o2->Continue_0;
    let c2 = o2->Continue_1;
    assert(c2 == CommandView::Expire { key: ak, seconds: reset_seconds as int });
    let (st3, r3) = apply(st2, c2);
    let o3 = rate_limit_step(s2, r3);
    let s3 = o3->Continue_0;
    let c3 = o3->Continue_1;
    assert(c3 == CommandView::SetWithExpiry { key: ck, value: "1"@, seconds: cooldown as nat });
    let (st4, r4) = apply(st3, c3);
    assert(r4 == ReplyView::Done);
    assert(st4 =~= store.insert(
        ak,
        StoreEntry { value: StoredValue::Count(count), ttl: Some(reset_seconds as nat) },
    ).insert(ck, StoreEntry { value: StoredValue::Text("1"@), ttl: Some(cooldown as nat) }));
    assert(rate_limit_step(s3, r4) == Outcome::<RateLimitState, u64>::Finished(Ok(cooldown)));
    reveal_with_fuel(crate::services::store_model::drive_rate_limit, 4);
}

/// A request for a code made right after a granted one is refused, with
/// the cool-down that the granted one announced.
pub proof fn law_immediate_repeat_refused(store: Store, email: Seq<char>, reset_seconds: u64, base_delay: u64)
    requires
        !store.dom().contains(cooldown_key(email)),
        absent_or_counter(store, attempts_key(email)),
        counter(store, attempts_key(email)) + 1 <= u32::MAX,
        0 < reset_seconds <= i64::MAX,
        0 < base_delay,
    ensures
        ({
            let (after, granted) = rate_limit_in(store, email, reset_seconds, base_delay);
            &&& granted matches Some(Ok(wait))
            &&& rate_limit_in(after, email, reset_seconds, base_delay) == (
                after,
                Some(Err::<u64, AppError>(AppError::RateLimited { reset_in_seconds: granted->Some_0->Ok_0 })),
            )
        }),
{
    law_request_granted(store, email, reset_seconds, base_delay);
    let count = counter(store, attempts_key(email)) + 1;
    lemma_capped_cooldown_at_least_base(base_delay, count);
    let after = rate_limit_in(store, email, reset_seconds, base_delay).0;
    assert(remaining_ttl(after, cooldown_key(email)) == capped_cooldown(base_delay, count));
    law_request_refused_during_cooldown(after, email, reset_seconds, base_delay);
}

/// At any time after the announced cool-down has passed, the next request
/// is granted: it counts on from the previous count while the request
/// counter lives, and from one once the counter has lapsed.
pub proof fn law_request_granted_after_cooldown(
    store: Store,
    email: Seq<char>,
    reset_seconds: u64,
    base_delay: u64,
    elapsed: nat,
)
    requires
        !store.dom().contains(cooldown_key(email)),
        absent_or_counter(store, attempts_key(email)),
        counter(store, attempts_key(email)) + 2 <= u32::MAX,
        0 < reset_seconds <= i64::MAX,
        0 < base_delay,
        elapsed >= capped_cooldown(base_delay, counter(store, attempts_key(email)) + 1),
    ensures
        ({
            let (after, granted) = rate_limit_in(store, email, reset_seconds, base_delay);
            let count = counter(store, attempts_key(email)) + 1;
            let next = if reset_seconds > elapsed { count + 1 } else { 1 };
            &&& granted == Some(Ok::<u64, AppError>(capped_cooldown(base_delay, count)))
            &&& rate_limit_in(elapse(after, elapsed), email, reset_seconds, base_delay).1 == Some(
                Ok::<u64, AppError>(capped_cooldown(base_delay, next)),
            )
        }),
{
    lemma_keys_distinct(email);
    law_request_granted(store, email, reset_seconds, base_delay);
    let count = counter(store, attempts_key(email)) + 1;
    let (after, granted) = rate_limit_in(store, email, reset_seconds, base_delay);
    let later = elapse(after, elapsed);
    let ak = attempts_key(email);
    let ck = cooldown_key(email);
    assert(!later.dom().contains(ck));
    if reset_seconds > elapsed {
        assert(later.dom().contains(ak));
        assert(later[ak].value == StoredValue::Count(count));
    } else {
        assert(!later.dom().contains(ak));
    }
    law_request_granted(later, email, reset_seconds, base_delay);
}

/// Storing a code keeps it, as text, under the address's code key for the
/// given minutes; nothing else changes.
pub proof fn law_code_saved(store: Store, email: Seq<char>, code: Seq<char>, expiration_minutes: u64)
    requires
        0 < expiration_minutes,
        expiration_minutes * 60 <= u64::MAX,
    ensures
        save_in(store, email, code, expiration_minutes) == (
            store.insert(
                otp_key(email),
                StoreEntry { value: StoredValue::Text(code), ttl: Some((expiration_minutes * 60) as nat) },
            ),
            Ok::<(), AppError>(()),
        ),
{
}

/// How many attempts a window lets through: `max_attempts`, and at least
/// the first.
pub open spec fn allowance(max_attempts: u32) -> nat {
    if max_attempts == 0 {
        1
    } else {
        max_attempts as nat
    }
}

/// Whether a check of a code for `email` is let through to the stored
/// code: fewer attempts are counted than the window lets through.
pub open spec fn attempts_left(store: Store, email: Seq<char>, max_attempts: u32) -> bool {
    &&& absent_or_counter(store, verify_attempts_key(email))
    &&& counter(store, verify_attempts_key(email)) < allowance(max_attempts)
}

/// The lifetime of the counter of attempts once an attempt is counted: a
/// fresh counter gets the window's lifetime, a running one keeps its own.
pub open spec fn window_ttl(store: Store, email: Seq<char>) -> Option<nat> {
    let vk = verify_attempts_key(email);
    if counter(store, vk) == 0 {
        Some(VERIFY_WINDOW_SECONDS as nat)
    } else {
        store[vk].ttl
    }
}

/// The store after an attempt is counted: the counter grows by one, and a
/// fresh counter gets the window's lifetime.
pub open spec fn attempt_counted(store: Store, email: Seq<char>) -> Store {
    let vk = verify_attempts_key(email);
    store.insert(
        vk,
        StoreEntry { value: StoredValue::Count(counter(store, vk) + 1), ttl: window_ttl(store, email) },
    )
}

/// A check counts its attempt first; the counting leaves the store as
/// `attempt_counted` says and the check goes on to the stored code when the
/// new count is within `max_attempts`, else to the counter's lifetime.
proof fn lemma_attempt_counted(store: Store, email: Seq<char>, code: Seq<char>, max_attempts: u32)
    requires
        absent_or_counter(store, verify_attempts_key(email)),
        counter(store, verify_attempts_key(email)) + 1 <= u32::MAX,
    ensures
        ({
            let (s0, c0) = otp_check_start(email, code, max_attempts);
            let count = counter(store, verify_attempts_key(email)) + 1;
            let next = OtpCheckState {
                stage: if count <= allowance(max_attempts) { OtpCheckStage::AwaitStoredCode } else { OtpCheckStage::AwaitLockTtl },
                ..s0
            };
            crate::services::store_model::drive_otp_check(store, s0, c0, 4)
                == crate::services::store_model::drive_otp_check(attempt_counted(store, email), next, otp_check_awaits(next), 3)
                || (count == 1 && crate::services::store_model::drive_otp_check(store, s0, c0, 4)
                == crate::services::store_model::drive_otp_check(attempt_counted(store, email), next, otp_check_awaits(next), 2))
        }),
{
    let vk = verify_attempts_key(email);
    let (s0, c0) = otp_check_start(email, code, max_attempts);
    let n = counter(store, vk);
    let (st1, r1) = apply(store, c0);
    assert(r1 == ReplyView::Count(n + 1));
    let o1 = otp_check_step(s0, r1);
    reveal_with_fuel(crate::services::store_model::drive_otp_check, 2);
    if n + 1 == 1 {
        let s1 = o1->Continue_0;
        let c1 = o1->Continue_1;
        let (st2, r2) = apply(st1, c1);
        assert(st2 =~= attempt_counted(store, email));
    } else {
        assert(st1 =~= attempt_counted(store, email));
    }
}

/// A check that is let through counts the attempt, then compares the code
/// with the stored one: no stored code gives `OtpExpired`, a different one
/// gives `InvalidOtp`, and the same one removes both the code and the
/// counter and succeeds.
pub proof fn lemma_check_let_through(store: Store, email: Seq<char>, code: Seq<char>, max_attempts: u32)
    requires
        attempts_left(store, email, max_attempts),
        store.dom().contains(otp_key(email)) ==> store[otp_key(email)].value is Text,
    ensures
        ({
            let counted = attempt_counted(store, email);
            let ok = otp_key(email);
            otp_check_in(store, email, code, max_attempts) == if !store.dom().contains(ok) {
                (counted, Some(Err::<(), AppError>(AppError::OtpExpired)))
            } else if store[ok].value->Text_0 == code {
                (counted.remove(ok).remove(verify_attempts_key(email)), Some(Ok::<(), AppError>(())))
            } else {
                (counted, Some(Err::<(), AppError>(AppError::InvalidOtp)))
            }
        }),
{
    lemma_keys_distinct(email);
    lemma_attempt_counted(store, email, code, max_attempts);
    let vk = verify_attempts_key(email);
    let ok = otp_key(email);
    let counted = attempt_counted(store, email);
    let (s0, c0) = otp_check_start(email, code, max_attempts);
    let s3 = OtpCheckState { stage: OtpCheckStage::AwaitStoredCode, ..s0 };
    let c3 = otp_check_awaits(s3);
    assert(c3 == CommandView::GetText { key: ok });
    assert(counted.dom().contains(ok) == store.dom().contains(ok));
    let (st4, r4) = apply(counted, c3);
    let o4 = otp_check_step(s3, r4);
    if store.dom().contains(ok) && store[ok].value->Text_0 == code {
        let s4 = o4->Continue_0;
        let c4 = o4->Continue_1;
        assert(c4 == CommandView::Delete { key: ok });
        let (st5, r5) = apply(st4, c4);
        let o5 = otp_check_step(s4, r5);
        let s5 = o5->Continue_0;
        let c5 = o5->Continue_1;
        assert(c5 == CommandView::Delete { key: vk });
        let (st6, r6) = apply(st5, c5);
        assert(otp_check_step(s5, r6) == Outcome::<OtpCheckState, ()>::Finished(Ok(())));
    }
    reveal_with_fuel(crate::services::store_model::drive_otp_check, 4);
}

/// A code that was just stored is accepted by a check that is let through,
/// and the check removes it together with the counter of attempts.
pub proof fn law_saved_code_accepted(
    store: Store,
    email: Seq<char>,
    code: Seq<char>,
    expiration_minutes: u64,
    max_attempts: u32,
)
    requires
        0 < expiration_minutes,
        expiration_minutes * 60 <= u64::MAX,
        attempts_left(store, email, max_attempts),
    ensures
        ({
            let saved = save_in(store, email, code, expiration_minutes).0;
            let (after, checked) = otp_check_in(saved, email, code, max_attempts);
            &&& checked == Some(Ok::<(), AppError>(()))
            &&& !after.dom().contains(otp_key(email))
            &&& !after.dom().contains(verify_attempts_key(email))
        }),
{
    lemma_keys_distinct(email);
    law_code_saved(store, email, code, expiration_minutes);
    let saved = save_in(store, email, code, expiration_minutes).0;
    assert(saved[verify_attempts_key(email)] == store[verify_attempts_key(email)]);
    lemma_check_let_through(saved, email, code, max_attempts);
}

/// A code is good for one check only: once accepted, checking it again
/// finds no code (`OtpExpired`).
pub proof fn law_code_single_use(store: Store, email: Seq<char>, code: Seq<char>, max_attempts: u32)
    requires
        attempts_left(store, email, max_attempts),
        store.dom().contains(otp_key(email)),
        store[otp_key(email)].value == StoredValue::Text(code),
    ensures
        ({
            let (after, first) = otp_check_in(store, email, code, max_attempts);
            &&& first == Some(Ok::<(), AppError>(()))
            &&& otp_check_in(after, email, code, max_attempts).1 == Some(
                Err::<(), AppError>(AppError::OtpExpired),
            )
        }),
{
    lemma_check_let_through(store, email, code, max_attempts);
    let after = otp_check_in(store, email, code, max_attempts).0;
    lemma_check_let_through(after, email, code, max_attempts);
}

/// A check with a code other than the stored one is answered `InvalidOtp`;
/// the stored code stays and the attempt is counted.
pub proof fn law_wrong_code_rejected(store: Store, email: Seq<char>, code: Seq<char>, max_attempts: u32)
    requires
        attempts_left(store, email, max_attempts),
        store.dom().contains(otp_key(email)),
        store[otp_key(email)].value is Text,
        store[otp_key(email)].value->Text_0 != code,
    ensures
        otp_check_in(store, email, code, max_attempts) == (
            attempt_counted(store, email),
            Some(Err::<(), AppError>(AppError::InvalidOtp)),
        ),
{
    lemma_check_let_through(store, email, code, max_attempts);
}

/// Once the window's allowance is counted, a check is refused before the
/// code is looked at, with the seconds left of the counter's window; the
/// attempt is counted all the same.
pub proof fn law_check_refused_when_attempts_exhausted(
    store: Store,
    email: Seq<char>,
    code: Seq<char>,
    max_attempts: u32,
)
    requires
        absent_or_counter(store, verify_attempts_key(email)),
        allowance(max_attempts) <= counter(store, verify_attempts_key(email)),
        counter(store, verify_attempts_key(email)) + 1 <= u32::MAX,
    ensures
        ({
            let counted = attempt_counted(store, email);
            otp_check_in(store, email, code, max_attempts) == (
                counted,
                Some(Err::<(), AppError>(AppError::RateLimited {
                    reset_in_seconds: seconds_left(remaining_ttl(counted, verify_attempts_key(email))),
                })),
            )
        }),
{
    lemma_attempt_counted(store, email, code, max_attempts);
    reveal_with_fuel(crate::services::store_model::drive_otp_check, 2);
}

/// The store after `k` checks of `code` for `email`, one after another.
pub open spec fn checked_repeatedly(store: Store, email: Seq<char>, code: Seq<char>, max_attempts: u32, k: nat) -> Store
    decreases k,
{
    if k == 0 {
        store
    } else {
        otp_check_in(checked_repeatedly(store, email, code, max_attempts, (k - 1) as nat), email, code, max_attempts).0
    }
}

proof fn lemma_failed_checks_counted(
    store: Store,
    email: Seq<char>,
    wrong: Seq<char>,
    max_attempts: u32,
    k: nat,
)
    requires
        absent_or_counter(store, verify_attempts_key(email)),
        1 <= k,
        counter(store, verify_attempts_key(email)) + k <= allowance(max_attempts),
        allowance(max_attempts) < u32::MAX,
        store.dom().contains(otp_key(email)) ==> store[otp_key(email)].value is Text,
        store.dom().contains(otp_key(email)) ==> store[otp_key(email)].value->Text_0 != wrong,
    ensures
        checked_repeatedly(store, email, wrong, max_attempts, k) == store.insert(
            verify_attempts_key(email),
            StoreEntry {
                value: StoredValue::Count(counter(store, verify_attempts_key(email)) + k),
                ttl: window_ttl(store, email),
            },
        ),
    decreases k,
{
    lemma_keys_distinct(email);
    let vk = verify_attempts_key(email);
    let n = counter(store, vk);
    let before = checked_repeatedly(store, email, wrong, max_attempts, (k - 1) as nat);
    if k == 1 {
        assert(before == store);
    } else {
        lemma_failed_checks_counted(store, email, wrong, max_attempts, (k - 1) as nat);
        assert(counter(before, vk) == n + k - 1);
        assert(window_ttl(before, email) == window_ttl(store, email));
    }
    assert(before.dom().contains(otp_key(email)) == store.dom().contains(otp_key(email)));
    lemma_check_let_through(before, email, wrong, max_attempts);
    assert(attempt_counted(before, email) =~= store.insert(
        vk,
        StoreEntry { value: StoredValue::Count(n + k), ttl: window_ttl(store, email) },
    ));
}

/// At most `max_attempts` failed checks (at least one) are let through in a
/// window: from any count `n` of attempts within the window, after
/// `allowance(max_attempts) - n` checks with a wrong code the next check is
/// refused, even with the right code.
pub proof fn law_failed_checks_lock_out(
    store: Store,
    email: Seq<char>,
    wrong: Seq<char>,
    code: Seq<char>,
    max_attempts: u32,
)
    requires
        absent_or_counter(store, verify_attempts_key(email)),
        counter(store, verify_attempts_key(email)) < allowance(max_attempts) < u32::MAX,
        store.dom().contains(otp_key(email)) ==> store[otp_key(email)].value is Text,
        store.dom().contains(otp_key(email)) ==> store[otp_key(email)].value->Text_0 != wrong,
    ensures
        ({
            let n = counter(store, verify_attempts_key(email));
            let after = checked_repeatedly(store, email, wrong, max_attempts, (allowance(max_attempts) - n) as nat);
            &&& counter(after, verify_attempts_key(email)) == allowance(max_attempts)
            &&& otp_check_in(after, email, code, max_attempts).1 matches Some(Err(AppError::RateLimited { .. }))
        }),
{
    let n = counter(store, verify_attempts_key(email));
    lemma_failed_checks_counted(store, email, wrong, max_attempts, (allowance(max_attempts) - n) as nat);
    let after = checked_repeatedly(store, email, wrong, max_attempts, (allowance(max_attempts) - n) as nat);
    law_check_refused_when_attempts_exhausted(after, email, code, max_attempts);
}

/// Once the window of the counter of attempts has passed, checks are let
/// through again: a check is not refused for too many attempts.
pub proof fn law_checks_resume_after_window(
    store: Store,
    email: Seq<char>,
    wrong: Seq<char>,
    code: Seq<char>,
    max_attempts: u32,
)
    requires
        !store.dom().contains(verify_attempts_key(email)),
        allowance(max_attempts) < u32::MAX,
        store.dom().contains(otp_key(email)) ==> store[otp_key(email)].value is Text,
        store.dom().contains(otp_key(email)) ==> store[otp_key(email)].value->Text_0 != wrong,
    ensures
        ({
            let locked = checked_repeatedly(store, email, wrong, max_attempts, allowance(max_attempts));
            let later = elapse(locked, VERIFY_WINDOW_SECONDS as nat);
            &&& !later.dom().contains(verify_attempts_key(email))
            &&& !(otp_check_in(later, email, code, max_attempts).1 matches Some(Err(AppError::RateLimited { .. })))
        }),
{
    lemma_keys_distinct(email);
    lemma_failed_checks_counted(store, email, wrong, max_attempts, allowance(max_attempts));
    let locked = checked_repeatedly(store, email, wrong, max_attempts, allowance(max_attempts));
    let later = elapse(locked, VERIFY_WINDOW_SECONDS as nat);
    let ok = otp_key(email);
    assert(!later.dom().contains(verify_attempts_key(email)));
    assert(later.dom().contains(ok) ==> locked.dom().contains(ok));
    assert(later.dom().contains(ok) ==> later[ok].value == store[ok].value);
    lemma_check_let_through(later, email, code, max_attempts);
}

/// A stored code lives its minutes: once they have passed, checking it finds
/// no code (`OtpExpired`).
pub proof fn law_code_expires(
    store: Store,
    email: Seq<char>,
    code: Seq<char>,
    expiration_minutes: u64,
    max_attempts: u32,
)
    requires
        0 < expiration_minutes,
        expiration_minutes * 60 <= u64::MAX,
        !store.dom().contains(verify_attempts_key(email)),
    ensures
        ({
            let saved = save_in(store, email, code, expiration_minutes).0;
            let later = elapse(saved, (expiration_minutes * 60) as nat);
            otp_check_in(later, email, code, max_attempts).1 == Some(Err::<(), AppError>(AppError::OtpExpired))
        }),
{
    lemma_keys_distinct(email);
    law_code_saved(store, email, code, expiration_minutes);
    let saved = save_in(store, email, code, expiration_minutes).0;
    let later = elapse(saved, (expiration_minutes * 60) as nat);
    assert(!later.dom().contains(otp_key(email)));
    assert(!later.dom().contains(verify_attempts_key(email)));
    lemma_check_let_through(later, email, code, max_attempts);
}

// ---------------------------------------------------------------------------
// Requests and checks that run at the same time
// ---------------------------------------------------------------------------

/// Whether `run` is a rate-limit check of `email` with these settings:
/// finished, or awaiting the reply to the command of its stage.
pub open spec fn rate_limit_run_of(run: Run<RateLimitState, u64>, email: Seq<char>, reset_seconds: u64, base_delay: u64) -> bool {
    match run {
        Run::Pending(s, c) => {
            &&& s.email == email
            &&& s.reset_seconds == reset_seconds
            &&& s.base_delay == base_delay
            &&& c == rate_limit_awaits(s)
        },
        Run::Done(_) => true,
    }
}

/// Whether a rate-limit check holds the cool-down key: it claimed it and
/// has neither been refused nor failed since.
pub open spec fn holds_cooldown(run: Run<RateLimitState, u64>) -> bool {
    match run {
        Run::Pending(s, _) => s.stage is AwaitIncrement || s.stage is AwaitExpire || s.stage is AwaitSetCooldown,
        Run::Done(r) => r is Ok,
    }
}

/// What two rate-limit checks of `email` keep true while they run: at most
/// one of them holds the cool-down key, and the key is in the store while
/// one does.
pub open spec fn rate_limit_pair(
    store: Store,
    first: Run<RateLimitState, u64>,
    second: Run<RateLimitState, u64>,
    email: Seq<char>,
    reset_seconds: u64,
    base_delay: u64,
) -> bool {
    &&& rate_limit_run_of(first, email, reset_seconds, base_delay)
    &&& rate_limit_run_of(second, email, reset_seconds, base_delay)
    &&& !(holds_cooldown(first) && holds_cooldown(second))
    &&& (holds_cooldown(first) || holds_cooldown(second)) ==> store.dom().contains(cooldown_key(email))
}

proof fn lemma_rate_limit_pair_advance(
    store: Store,
    moving: Run<RateLimitState, u64>,
    other: Run<RateLimitState, u64>,
    email: Seq<char>,
    reset_seconds: u64,
    base_delay: u64,
)
    requires
        rate_limit_pair(store, moving, other, email, reset_seconds, base_delay),
    ensures
        ({
            let (next_store, moved) = advance_rate_limit(store, moving);
            rate_limit_pair(next_store, moved, other, email, reset_seconds, base_delay)
        }),
{
    lemma_keys_distinct(email);
}

proof fn lemma_rate_limit_pair_interleave(
    store: Store,
    first: Run<RateLimitState, u64>,
    second: Run<RateLimitState, u64>,
    schedule: Seq<bool>,
    email: Seq<char>,
    reset_seconds: u64,
    base_delay: u64,
)
    requires
        rate_limit_pair(store, first, second, email, reset_seconds, base_delay),
    ensures
        ({
            let (end, a, b) = interleave_rate_limits(store, first, second, schedule);
            rate_limit_pair(end, a, b, email, reset_seconds, base_delay)
        }),
    decreases schedule.len(),
{
    if schedule.len() > 0 {
        if schedule[0] {
            lemma_rate_limit_pair_advance(store, first, second, email, reset_seconds, base_delay);
            let (next_store, moved) = advance_rate_limit(store, first);
            lemma_rate_limit_pair_interleave(next_store, moved, second, schedule.drop_first(), email, reset_seconds, base_delay);
        } else {
            lemma_rate_limit_pair_advance(store, second, first, email, reset_seconds, base_delay);
            let (next_store, moved) = advance_rate_limit(store, second);
            lemma_rate_limit_pair_interleave(next_store, first, moved, schedule.drop_first(), email, reset_seconds, base_delay);
        }
    }
}

/// Of two requests for a code for the same address that run at the same
/// time, their store commands interleaved in any order, at most one is
/// granted: the cool-down key is claimed in one step of the store, and only
/// the request that claimed it goes on.
pub proof fn law_concurrent_requests_at_most_one_granted(
    store: Store,
    email: Seq<char>,
    reset_seconds: u64,
    base_delay: u64,
    schedule: Seq<bool>,
)
    ensures
        ({
            let (s, c) = rate_limit_start(email, reset_seconds, base_delay);
            let (_, first, second) = interleave_rate_limits(store, Run::Pending(s, c), Run::Pending(s, c), schedule);
            !(first matches Run::Done(Ok(_)) && second matches Run::Done(Ok(_)))
        }),
{
    let (s, c) = rate_limit_start(email, reset_seconds, base_delay);
    lemma_rate_limit_pair_interleave(store, Run::Pending(s, c), Run::Pending(s, c), schedule, email, reset_seconds, base_delay);
}

/// Whether `run` is a check of `code` for `email`: finished, or awaiting the
/// reply to the command of its stage.
pub open spec fn otp_check_run_of(run: Run<OtpCheckState, ()>, email: Seq<char>, code: Seq<char>, max_attempts: u32) -> bool {
    match run {
        Run::Pending(s, c) => {
            &&& s.email == email
            &&& s.code == code
            &&& s.max_attempts == max_attempts
            &&& c == otp_check_awaits(s)
        },
        Run::Done(_) => true,
    }
}

/// Whether a check has counted its attempt.
pub open spec fn attempt_made(run: Run<OtpCheckState, ()>) -> bool {
    !(run matches Run::Pending(s, _) && s.stage is AwaitIncrement)
}

/// Whether a check was let through to compare its code: its counted attempt
/// was within the allowance.
pub open spec fn compares_code(run: Run<OtpCheckState, ()>) -> bool {
    match run {
        Run::Pending(s, _) => match s.stage {
            OtpCheckStage::AwaitExpire { allowed } => allowed,
            OtpCheckStage::AwaitStoredCode => true,
            OtpCheckStage::AwaitDeleteCode => true,
            OtpCheckStage::AwaitDeleteAttempts => true,
            _ => false,
        },
        Run::Done(r) => r is Ok || r matches Err(AppError::InvalidOtp) || r matches Err(AppError::OtpExpired),
    }
}

/// How many of two checks were let through to compare their code.
pub open spec fn comparing(first: Run<OtpCheckState, ()>, second: Run<OtpCheckState, ()>) -> int {
    (if compares_code(first) { 1int } else { 0int }) + (if compares_code(second) { 1int } else { 0int })
}

/// How many of two checks have counted their attempt.
pub open spec fn attempts_made(first: Run<OtpCheckState, ()>, second: Run<OtpCheckState, ()>) -> int {
    (if attempt_made(first) { 1int } else { 0int }) + (if attempt_made(second) { 1int } else { 0int })
}

/// Whether the check has found its code accepted.
pub open spec fn accepted(run: Run<OtpCheckState, ()>) -> bool {
    match run {
        Run::Pending(s, _) => s.stage is AwaitDeleteCode || s.stage is AwaitDeleteAttempts,
        Run::Done(r) => r is Ok,
    }
}

/// What two checks of wrong codes for `email` keep true while they run,
/// starting from `n` counted attempts: the counter is `n` plus the attempts
/// they have made, and no more of them compare their code than
/// `allowance(max_attempts) - n`.
pub open spec fn otp_check_pair(
    store: Store,
    first: Run<OtpCheckState, ()>,
    second: Run<OtpCheckState, ()>,
    email: Seq<char>,
    first_code: Seq<char>,
    second_code: Seq<char>,
    max_attempts: u32,
    n: nat,
) -> bool {
    let vk = verify_attempts_key(email);
    let ok = otp_key(email);
    &&& otp_check_run_of(first, email, first_code, max_attempts)
    &&& otp_check_run_of(second, email, second_code, max_attempts)
    &&& absent_or_counter(store, vk)
    &&& counter(store, vk) == n + attempts_made(first, second)
    &&& n + 2 <= u32::MAX
    &&& compares_code(first) ==> attempt_made(first)
    &&& compares_code(second) ==> attempt_made(second)
    &&& comparing(first, second) <= allowance(max_attempts) - n
    &&& !accepted(first)
    &&& !accepted(second)
    &&& store.dom().contains(ok) ==> {
        &&& store[ok].value is Text
        &&& store[ok].value->Text_0 != first_code
        &&& store[ok].value->Text_0 != second_code
    }
}

proof fn lemma_otp_check_pair_advance(
    store: Store,
    moving: Run<OtpCheckState, ()>,
    other: Run<OtpCheckState, ()>,
    email: Seq<char>,
    moving_code: Seq<char>,
    other_code: Seq<char>,
    max_attempts: u32,
    n: nat,
)
    requires
        otp_check_pair(store, moving, other, email, moving_code, other_code, max_attempts, n),
    ensures
        ({
            let (next_store, moved) = advance_otp_check(store, moving);
            otp_check_pair(next_store, moved, other, email, moving_code, other_code, max_attempts, n)
        }),
{
    lemma_keys_distinct(email);
}

proof fn lemma_otp_check_pair_interleave(
    store: Store,
    first: Run<OtpCheckState, ()>,
    second: Run<OtpCheckState, ()>,
    schedule: Seq<bool>,
    email: Seq<char>,
    first_code: Seq<char>,
    second_code: Seq<char>,
    max_attempts: u32,
    n: nat,
)
    requires
        otp_check_pair(store, first, second, email, first_code, second_code, max_attempts, n),
    ensures
        ({
            let (end, a, b) = interleave_otp_checks(store, first, second, schedule);
            otp_check_pair(end, a, b, email, first_code, second_code, max_attempts, n)
        }),
    decreases schedule.len(),
{
    if schedule.len() > 0 {
        if schedule[0] {
            lemma_otp_check_pair_advance(store, first, second, email, first_code, second_code, max_attempts, n);
            let (next_store, moved) = advance_otp_check(store, first);
            lemma_otp_check_pair_interleave(
                next_store, moved, second, schedule.drop_first(), email, first_code, second_code, max_attempts, n);
        } else {
            lemma_otp_check_pair_advance(store, second, first, email, second_code, first_code, max_attempts, n);
            let (next_store, moved) = advance_otp_check(store, second);
            lemma_otp_check_pair_interleave(
                next_store, first, moved, schedule.drop_first(), email, first_code, second_code, max_attempts, n);
        }
    }
}

/// Of two checks of wrong codes for the same address that run at the same
/// time, their store commands interleaved in any order, no more go on to
/// compare their code than the attempts left in the window: with `n`
/// attempts counted, at most `allowance(max_attempts) - n` of them. Each check counts
/// its attempt in one step of the store and decides on the count that step
/// gives back.
pub proof fn law_concurrent_checks_within_allowance(
    store: Store,
    email: Seq<char>,
    first_code: Seq<char>,
    second_code: Seq<char>,
    max_attempts: u32,
    schedule: Seq<bool>,
)
    requires
        absent_or_counter(store, verify_attempts_key(email)),
        counter(store, verify_attempts_key(email)) <= allowance(max_attempts),
        counter(store, verify_attempts_key(email)) + 2 <= u32::MAX,
        store.dom().contains(otp_key(email)) ==> {
            &&& store[otp_key(email)].value is Text
            &&& store[otp_key(email)].value->Text_0 != first_code
            &&& store[otp_key(email)].value->Text_0 != second_code
        },
    ensures
        ({
            let (s1, c1) = otp_check_start(email, first_code, max_attempts);
            let (s2, c2) = otp_check_start(email, second_code, max_attempts);
            let (_, first, second) = interleave_otp_checks(store, Run::Pending(s1, c1), Run::Pending(s2, c2), schedule);
            comparing(first, second) <= allowance(max_attempts) - counter(store, verify_attempts_key(email))
        }),
{
    let n = counter(store, verify_attempts_key(email));
    let (s1, c1) = otp_check_start(email, first_code, max_attempts);
    let (s2, c2) = otp_check_start(email, second_code, max_attempts);
    lemma_otp_check_pair_interleave(
        store, Run::Pending(s1, c1), Run::Pending(s2, c2), schedule, email, first_code, second_code, max_attempts, n);
}

} // verus!
