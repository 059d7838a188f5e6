use mfa_service::error::AppError;
use mfa_service::services::redis::{
    next_cooldown, reply_answers, OtpCheck, Progress, RedisService, StoreCommand, StoreFailure,
    StoreReply,
};

fn key_of(c: &StoreCommand) -> &str {
    match c {
        StoreCommand::Ttl { key }
        | StoreCommand::Increment { key }
        | StoreCommand::Expire { key, .. }
        | StoreCommand::SetWithExpiry { key, .. }
        | StoreCommand::SetIfAbsent { key, .. }
        | StoreCommand::GetText { key }
        | StoreCommand::Delete { key } => key,
    }
}

#[test]
fn backoff_doubles_from_the_base_delay_and_caps() {
    assert_eq!(next_cooldown(30, 0), 30);
    assert_eq!(next_cooldown(30, 1), 30);
    assert_eq!(next_cooldown(30, 2), 60);
    assert_eq!(next_cooldown(30, 3), 120);
    assert_eq!(next_cooldown(30, 4), 240);
    assert_eq!(next_cooldown(30, 10), 15360);
    assert_eq!(next_cooldown(30, 11), 30720);
    assert_eq!(next_cooldown(30, 12), 30720);
    assert_eq!(next_cooldown(30, u32::MAX), 30720);
    assert_eq!(next_cooldown(45, 1), 45);
    assert_eq!(next_cooldown(45, 3), 180);
    assert_eq!(next_cooldown(5, 20), 5120);
    assert_eq!(next_cooldown(u64::MAX / 2, 3), u64::MAX);
}

#[test]
fn running_cooldown_refuses_request() {
    let (check, cmd) = RedisService::check_rate_limit("a@b.co", 86400, 30);
    match &cmd {
        StoreCommand::SetIfAbsent { key, value, seconds } => {
            assert_eq!(key, "ratelimit:cooldown:a@b.co");
            assert_eq!(value, "1");
            assert_eq!(*seconds, 30);
        }
        _ => panic!("expected a claim"),
    }
    let (check, cmd) = match check.step(StoreReply::Claimed(false)) {
        Progress::Continue(c, cmd) => (c, cmd),
        _ => panic!("expected the remaining cool-down"),
    };
    assert!(matches!(&cmd, StoreCommand::Ttl { .. }));
    assert_eq!(key_of(&cmd), "ratelimit:cooldown:a@b.co");
    match check.step(StoreReply::Ttl(25)) {
        Progress::Finished(Err(AppError::RateLimited { reset_in_seconds })) => assert_eq!(reset_in_seconds, 25),
        _ => panic!("expected a refusal"),
    }
}

#[test]
fn granted_request_counts_and_starts_cooldown() {
    let (check, _) = RedisService::check_rate_limit("a@b.co", 7200, 30);
    let (check, cmd) = match check.step(StoreReply::Claimed(true)) {
        Progress::Continue(c, cmd) => (c, cmd),
        _ => panic!("expected increment"),
    };
    assert!(matches!(&cmd, StoreCommand::Increment { key } if key == "ratelimit:attempts:a@b.co"));
    let (check, cmd) = match check.step(StoreReply::Count(3)) {
        Progress::Continue(c, cmd) => (c, cmd),
        _ => panic!("expected expire"),
    };
    assert!(matches!(&cmd, StoreCommand::Expire { key, seconds: 7200 } if key == "ratelimit:attempts:a@b.co"));
    let (check, cmd) = match check.step(StoreReply::Done) {
        Progress::Continue(c, cmd) => (c, cmd),
        _ => panic!("expected set"),
    };
    match &cmd {
        StoreCommand::SetWithExpiry { key, value, seconds } => {
            assert_eq!(key, "ratelimit:cooldown:a@b.co");
            assert_eq!(value, "1");
            assert_eq!(*seconds, 120);
        }
        _ => panic!("expected set"),
    }
    assert!(matches!(check.step(StoreReply::Done), Progress::Finished(Ok(120))));
}

#[test]
fn configured_base_delay_is_the_first_cooldown() {
    let (check, cmd) = RedisService::check_rate_limit("a@b.co", 7200, 45);
    assert!(matches!(&cmd, StoreCommand::SetIfAbsent { seconds: 45, .. }));
    let check = match check.step(StoreReply::Claimed(true)) {
        Progress::Continue(c, _) => c,
        _ => panic!(),
    };
    let check = match check.step(StoreReply::Count(1)) {
        Progress::Continue(c, _) => c,
        _ => panic!(),
    };
    let (check, cmd) = match check.step(StoreReply::Done) {
        Progress::Continue(c, cmd) => (c, cmd),
        _ => panic!(),
    };
    assert!(matches!(&cmd, StoreCommand::SetWithExpiry { seconds: 45, .. }));
    assert!(matches!(check.step(StoreReply::Done), Progress::Finished(Ok(45))));
}

#[test]
fn held_key_without_lifetime_refuses_with_zero() {
    let (check, _) = RedisService::check_rate_limit("x@y.z", 60, 30);
    let check = match check.step(StoreReply::Claimed(false)) {
        Progress::Continue(c, _) => c,
        _ => panic!(),
    };
    assert!(matches!(
        check.step(StoreReply::Ttl(-1)),
        Progress::Finished(Err(AppError::RateLimited { reset_in_seconds: 0 }))
    ));
}

#[test]
fn store_failures_become_errors() {
    let (check, _) = RedisService::check_rate_limit("x@y.z", 60, 30);
    match check.step(StoreReply::Failed(StoreFailure::Pool("timeout".to_string()))) {
        Progress::Finished(Err(AppError::RedisPoolError(m))) => assert_eq!(m, "timeout"),
        _ => panic!(),
    }
    let (check, _) = RedisService::verify_otp("x@y.z", "123456", 10);
    match check.step(StoreReply::Failed(StoreFailure::Redis("boom".to_string()))) {
        Progress::Finished(Err(AppError::RedisError(m))) => assert_eq!(m, "boom"),
        _ => panic!(),
    }
}

#[test]
fn save_stores_code_for_minutes() {
    let (save, cmd) = RedisService::save_otp("x@y.z", "042917", 10);
    match &cmd {
        StoreCommand::SetWithExpiry { key, value, seconds } => {
            assert_eq!(key, "otp:x@y.z");
            assert_eq!(value, "042917");
            assert_eq!(*seconds, 600);
        }
        _ => panic!(),
    }
    assert!(matches!(save.step(StoreReply::Done), Progress::Finished(Ok(()))));
}

fn advance(check: OtpCheck, reply: StoreReply) -> (OtpCheck, StoreCommand) {
    match check.step(reply) {
        Progress::Continue(c, cmd) => (c, cmd),
        Progress::Finished(r) => panic!("finished early: {}", r.err().map(|e| e.message()).unwrap_or_default()),
    }
}

#[test]
fn matching_code_is_accepted_and_removed() {
    let (check, cmd) = RedisService::verify_otp("x@y.z", "123456", 10);
    assert!(matches!(&cmd, StoreCommand::Increment { key } if key == "ratelimit:verify:x@y.z"));
    let (check, cmd) = advance(check, StoreReply::Count(1));
    assert!(matches!(&cmd, StoreCommand::Expire { key, seconds: 60 } if key == "ratelimit:verify:x@y.z"));
    let (check, cmd) = advance(check, StoreReply::Done);
    assert!(matches!(&cmd, StoreCommand::GetText { key } if key == "otp:x@y.z"));
    let (check, cmd) = advance(check, StoreReply::MaybeText(Some("123456".to_string())));
    assert!(matches!(&cmd, StoreCommand::Delete { key } if key == "otp:x@y.z"));
    let (check, cmd) = advance(check, StoreReply::Done);
    assert!(matches!(&cmd, StoreCommand::Delete { key } if key == "ratelimit:verify:x@y.z"));
    assert!(matches!(check.step(StoreReply::Done), Progress::Finished(Ok(()))));
}

#[test]
fn later_attempt_skips_expire() {
    let (check, _) = RedisService::verify_otp("x@y.z", "123456", 10);
    let (_, cmd) = advance(check, StoreReply::Count(5));
    assert!(matches!(&cmd, StoreCommand::GetText { key } if key == "otp:x@y.z"));
}

#[test]
fn wrong_or_missing_code_is_rejected() {
    let (check, _) = RedisService::verify_otp("x@y.z", "123456", 10);
    let (check, _) = advance(check, StoreReply::Count(3));
    assert!(matches!(
        check.step(StoreReply::MaybeText(Some("654321".to_string()))),
        Progress::Finished(Err(AppError::InvalidOtp))
    ));
    let (check, _) = RedisService::verify_otp("x@y.z", "123456", 10);
    let (check, _) = advance(check, StoreReply::Count(1));
    let (check, _) = advance(check, StoreReply::Done);
    assert!(matches!(check.step(StoreReply::MaybeText(None)), Progress::Finished(Err(AppError::OtpExpired))));
}

#[test]
fn attempt_beyond_allowance_is_refused_with_remaining_window() {
    let (check, _) = RedisService::verify_otp("x@y.z", "123456", 10);
    let (check, cmd) = advance(check, StoreReply::Count(10));
    assert!(matches!(&cmd, StoreCommand::GetText { .. }));
    drop(check);
    let (check, _) = RedisService::verify_otp("x@y.z", "123456", 10);
    let (check, cmd) = advance(check, StoreReply::Count(11));
    assert!(matches!(&cmd, StoreCommand::Ttl { key } if key == "ratelimit:verify:x@y.z"));
    assert!(matches!(
        check.step(StoreReply::Ttl(42)),
        Progress::Finished(Err(AppError::RateLimited { reset_in_seconds: 42 }))
    ));
    let (check, _) = RedisService::verify_otp("x@y.z", "123456", 10);
    let (check, _) = advance(check, StoreReply::Count(12));
    assert!(matches!(
        check.step(StoreReply::Ttl(-1)),
        Progress::Finished(Err(AppError::RateLimited { reset_in_seconds: 0 }))
    ));
}

#[test]
fn zero_max_attempts_still_lets_first_check_through() {
    let (check, _) = RedisService::verify_otp("x@y.z", "1", 0);
    let (check, cmd) = advance(check, StoreReply::Count(1));
    assert!(matches!(cmd, StoreCommand::Expire { .. }));
    let (_, cmd) = advance(check, StoreReply::Done);
    assert!(matches!(cmd, StoreCommand::GetText { .. }));
    let (check, _) = RedisService::verify_otp("x@y.z", "1", 0);
    let (_, cmd) = advance(check, StoreReply::Count(2));
    assert!(matches!(cmd, StoreCommand::Ttl { .. }));
}

#[test]
fn reply_kinds_match_commands() {
    let ttl = StoreCommand::Ttl { key: "k".to_string() };
    assert!(reply_answers(&ttl, &StoreReply::Ttl(3)));
    assert!(!reply_answers(&ttl, &StoreReply::Done));
    assert!(reply_answers(&ttl, &StoreReply::Failed(StoreFailure::Redis(String::new()))));
    let del = StoreCommand::Delete { key: "k".to_string() };
    assert!(reply_answers(&del, &StoreReply::Done));
    assert!(!reply_answers(&del, &StoreReply::Count(1)));
    let claim = StoreCommand::SetIfAbsent { key: "k".to_string(), value: "1".to_string(), seconds: 3 };
    assert!(reply_answers(&claim, &StoreReply::Claimed(true)));
    assert!(!reply_answers(&claim, &StoreReply::Done));
}
