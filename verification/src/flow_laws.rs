//! Laws of the request handlers, proved over the store model: the code that
//! is e-mailed is the code that is stored, and it is accepted when checked.
use vstd::prelude::*;
use crate::error::AppError;
use crate::models::{GenerateOtpRequest, validator_accepts_email};
use crate::config::Config;
use crate::handlers::{
    GenerateOtpState, GenerateStageView, GenerateActionView, GenerateEventView, GenerateOtpResponseView,
    FlowOutcome, generate_start, generate_step, is_otp_code,
};
use crate::services::redis::{CommandView, ReplyView, otp_save_command, otp_key, attempts_key, cooldown_key, verify_attempts_key, capped_cooldown};
use crate::services::store_model::{Store, StoredValue, apply, otp_check_in};
use crate::services::store_laws::{
    counter, absent_or_counter, attempts_left, lemma_check_let_through, lemma_keys_distinct,
    lemma_capped_cooldown_at_least_base,
};

verus! {

/// Runs the request handler against the store from the action `action`:
/// store commands are applied to the store, the e-mail step is answered
/// with `sent`, and `otp` is the code that the handler draws. Gives the
/// store, the answer if one came within `fuel` steps, and the code e-mailed
/// if any.
pub open spec fn drive_generate(
    store: Store,
    s: GenerateOtpState,
    action: GenerateActionView,
    otp: Seq<char>,
    sent: Result<(), AppError>,
    emailed: Option<Seq<char>>,
    fuel: nat,
) -> (Store, Option<Result<GenerateOtpResponseView, AppError>>, Option<Seq<char>>)
    decreases fuel,
{
    let (next_store, event, next_emailed) = match action {
        GenerateActionView::Store(command) => {
            let (st, reply) = apply(store, command);
            (st, GenerateEventView::Store(reply), emailed)
        },
        GenerateActionView::SendEmail { otp: code, .. } => (store, GenerateEventView::EmailSent(sent), Some(code)),
    };
    match generate_step(s, event, otp) {
        FlowOutcome::Finished(r) => (next_store, Some(r), next_emailed),
        FlowOutcome::Continue(next, a) => if fuel == 0 {
            (next_store, None, next_emailed)
        } else {
            drive_generate(next_store, next, a, otp, sent, next_emailed, (fuel - 1) as nat)
        },
    }
}

/// A whole request for a code against the store, drawing `otp`, with the
/// e-mail step answered by `sent`.
pub open spec fn generate_in(
    store: Store,
    request: GenerateOtpRequest,
    config: Config,
    otp: Seq<char>,
    sent: Result<(), AppError>,
) -> (Store, Option<Result<GenerateOtpResponseView, AppError>>, Option<Seq<char>>) {
    match generate_start(request, config) {
        FlowOutcome::Finished(r) => (store, Some(r), None),
        FlowOutcome::Continue(s, a) => drive_generate(store, s, a, otp, sent, None, 5),
    }
}

/// A granted request for a code stores the drawn code for the address,
/// e-mails that same code, and answers with its lifetime and the cool-down;
/// checking the e-mailed code afterwards (with attempts left) accepts it.
pub proof fn law_emailed_code_is_accepted(
    store: Store,
    request: GenerateOtpRequest,
    config: Config,
    otp: Seq<char>,
    max_attempts: u32,
)
    requires
        validator_accepts_email(request.email@),
        is_otp_code(otp, config.otp_length as nat),
        !store.dom().contains(cooldown_key(request.email@)),
        absent_or_counter(store, attempts_key(request.email@)),
        counter(store, attempts_key(request.email@)) + 1 <= u32::MAX,
        0 < config.rate_limit_reset_seconds <= i64::MAX,
        0 < config.rate_limit_base_delay_seconds,
        0 < config.otp_expiration_minutes,
        config.otp_expiration_minutes * 60 <= u64::MAX,
        attempts_left(store, request.email@, max_attempts),
    ensures
        ({
            let email = request.email@;
            let (after, answer, emailed) = generate_in(store, request, config, otp, Ok(()));
            &&& emailed == Some(otp)
            &&& answer == Some(Ok::<GenerateOtpResponseView, AppError>(GenerateOtpResponseView {
                message: "OTP sent successfully"@,
                expires_in_minutes: config.otp_expiration_minutes,
                retry_after_seconds: capped_cooldown(
                    config.rate_limit_base_delay_seconds,
                    counter(store, attempts_key(email)) + 1,
                ),
            }))
            &&& after.dom().contains(otp_key(email))
            &&& after[otp_key(email)].value == StoredValue::Text(otp)
            &&& otp_check_in(after, email, otp, max_attempts).1 == Some(Ok::<(), AppError>(()))
        }),
{
    let email = request.email@;
    lemma_keys_distinct(email);
    let count = counter(store, attempts_key(email)) + 1;
    let cooldown = capped_cooldown(config.rate_limit_base_delay_seconds, count);
    lemma_capped_cooldown_at_least_base(config.rate_limit_base_delay_seconds, count);
    let ak = attempts_key(email);
    let ck = cooldown_key(email);
    let minutes = config.otp_expiration_minutes;
    // the rate-limit check, step by step
    let g0 = generate_start(request, config);
    let s0 = g0->Continue_0;
    let a0 = g0->Continue_1;
    assert(a0 == GenerateActionView::Store(
        CommandView::SetIfAbsent { key: ck, value: "1"@, seconds: config.rate_limit_base_delay_seconds as nat },
    ));
    let (st1, r1) = apply(store, a0->Store_0);
    let g1 = generate_step(s0, GenerateEventView::Store(r1), otp);
    let s1 = g1->Continue_0;
    let a1 = g1->Continue_1;
    assert(a1 == GenerateActionView::Store(CommandView::Increment { key: ak }));
    assert(st1.dom().contains(ak) == store.dom().contains(ak));
    let (st2, r2) = apply(st1, a1->Store_0);
    assert(r2 == ReplyView::Count(count));
    let g2 = generate_step(s1, GenerateEventView::Store(r2), otp);
    let s2 = g2->Continue_0;
    let a2 = g2->Continue_1;
    assert(a2 == GenerateActionView::Store(CommandView::Expire { key: ak, seconds: config.rate_limit_reset_seconds as int }));
    let (st3, r3) = apply(st2, a2->Store_0);
    let g3 = generate_step(s2, GenerateEventView::Store(r3), otp);
    let s3 = g3->Continue_0;
    let a3 = g3->Continue_1;
    assert(a3 == GenerateActionView::Store(CommandView::SetWithExpiry { key: ck, value: "1"@, seconds: cooldown as nat }));
    let (st4, r4) = apply(st3, a3->Store_0);
    assert(r4 == ReplyView::Done);
    let g4 = generate_step(s3, GenerateEventView::Store(r4), otp);
    let s4 = g4->Continue_0;
    let a4 = g4->Continue_1;
    assert(s4.stage == GenerateStageView::Save { retry_after_seconds: cooldown, otp });
    assert(a4 == GenerateActionView::Store(otp_save_command(email, otp, minutes)));
    let (st5, r5) = apply(st4, a4->Store_0);
    assert(r5 == ReplyView::Done);
    let g5 = generate_step(s4, GenerateEventView::Store(r5), otp);
    let s5 = g5->Continue_0;
    let a5 = g5->Continue_1;
    assert(a5 == GenerateActionView::SendEmail { to: email, otp, expiration_minutes: minutes });
    let g6 = generate_step(s5, GenerateEventView::EmailSent(Ok(())), otp);
    assert(g6 == FlowOutcome::<GenerateOtpState, GenerateOtpResponseView, GenerateActionView>::Finished(Ok(GenerateOtpResponseView {
        message: "OTP sent successfully"@,
        expires_in_minutes: minutes,
        retry_after_seconds: cooldown,
    })));
    reveal_with_fuel(drive_generate, 6);
    assert(generate_in(store, request, config, otp, Ok(())).0 == st5);
    // the stored code is then accepted
    assert(st5[otp_key(email)].value == StoredValue::Text(otp));
    assert(st5.dom().contains(verify_attempts_key(email)) == store.dom().contains(verify_attempts_key(email)));
    assert(st5[verify_attempts_key(email)] == store[verify_attempts_key(email)]);
    lemma_check_let_through(st5, email, otp, max_attempts);
}

} // verus!
