use fossdeck_core::auth_store::{AuthorizedDevice, AuthorizedStore};
use fossdeck_core::clock::{
    clamp_millis, clamp_unix, now_unix, secs_since_epoch, unix_secs, Clock, Reading,
};
use fossdeck_core::digest::sha256_hex;
use fossdeck_core::pairing::{
    generate_pairing_code, pairing_code_from_secs, AuthOutcome, PairingOutcome, PairingState,
    PairingVerdict, WatchdogStep, PAIRING_IDLE_TIMEOUT_MS, PAIRING_TTL_MS, WATCHDOG_PERIOD_MS,
};
use fossdeck_core::rate_limit::SourceAddr;
use std::time::{Duration, UNIX_EPOCH};

const PHONE: SourceAddr = SourceAddr::V4(0x0a00_0001);
const LAPTOP: SourceAddr = SourceAddr::V4(0x0a00_0002);

fn at(mono_ms: u64, unix_secs: u64) -> Reading {
    Reading { mono_ms, unix_secs }
}

fn fresh(code: &str, created_at: u64) -> PairingState {
    PairingState::new_at(code.to_string(), AuthorizedStore::new(), created_at)
}

fn pair(state: &mut PairingState, code: &str, id: &str, source: SourceAddr, token: &str, when: Reading) -> PairingOutcome {
    state.attempt_pairing_at(code, id.to_string(), None, source, token.to_string(), when)
}

#[test]
fn timeouts_are_as_documented() {
    assert_eq!(PAIRING_TTL_MS, 300_000);
    assert_eq!(PAIRING_IDLE_TIMEOUT_MS, 10_000);
    assert_eq!(WATCHDOG_PERIOD_MS, 5_000);
}

#[test]
fn pairing_code_is_the_last_six_digits_of_the_seconds() {
    assert_eq!(pairing_code_from_secs(1_234_567_890), "567890");
    assert_eq!(pairing_code_from_secs(5), "000005");
    assert_eq!(pairing_code_from_secs(0), "000000");
    assert_eq!(pairing_code_from_secs(999_999), "999999");
    assert_eq!(pairing_code_from_secs(1_000_000), "000000");
    assert_eq!(pairing_code_from_secs(u64::MAX), "551615");
}

#[test]
fn generated_pairing_code_has_six_digits() {
    let code = generate_pairing_code();
    assert_eq!(code.len(), 6);
    assert!(code.chars().all(|c| c.is_ascii_digit()));
}

#[test]
fn clock_conversions() {
    assert_eq!(clamp_millis(0), 0);
    assert_eq!(clamp_millis(u64::MAX as u128), u64::MAX);
    assert_eq!(clamp_millis(u64::MAX as u128 + 1), u64::MAX);
    assert_eq!(clamp_unix(17), 17);
    assert_eq!(clamp_unix(i64::MAX as u64), i64::MAX);
    assert_eq!(clamp_unix(u64::MAX), i64::MAX);
    assert_eq!(at(0, 99).unix(), 99);
    assert_eq!(at(0, u64::MAX).unix(), i64::MAX);
}

#[test]
fn clocks_can_be_read() {
    let clock = Clock::new();
    let first = clock.now_ms();
    let second = clock.read();
    assert!(second.mono_ms >= first);
    assert!(now_unix() >= 0);
    assert!(unix_secs() > 1_600_000_000);
    assert!(second.unix_secs > 1_600_000_000);
}

#[test]
fn new_state_has_no_session() {
    let state = fresh("123456", 50);
    assert_eq!(state.code(), "123456");
    assert_eq!(state.created_at(), 50);
    assert_eq!(state.active_device_id(), None);
    assert_eq!(state.active_client_ip(), None);
    assert_eq!(state.last_seen(), None);
    assert_eq!(state.authorized_count(), 0);
    assert!(!state.is_session_owner("phone"));
}

#[test]
fn new_state_keeps_the_store_it_is_given() {
    let mut store = AuthorizedStore::new();
    store.upsert("phone".to_string(), None, sha256_hex("t"), 1);
    let state = PairingState::new_at("000000".to_string(), store, 0);
    assert_eq!(state.authorized_count(), 1);
    assert!(state.is_authorized("phone", "t"));
}

#[test]
fn code_expires_after_more_than_five_minutes() {
    let state = fresh("123456", 1_000);
    assert!(!state.is_expired_at(1_000));
    assert!(!state.is_expired_at(301_000));
    assert!(state.is_expired_at(301_001));
    assert!(!state.is_expired_at(0));
}

#[test]
fn state_made_now_is_not_expired() {
    let mut state = PairingState::new("123456".to_string(), AuthorizedStore::new());
    assert!(!state.is_expired());
    assert!(!state.is_idle_too_long());
    assert!(!state.expire_idle_if_needed());
    assert!(!state.mark_seen());
    assert_eq!(state.rl_is_locked(PHONE), None);
    state.rl_register_failure(PHONE);
    state.rl_register_success(PHONE);
    assert_eq!(state.rl_is_locked(PHONE), None);
    state.upsert_authorized("phone".to_string(), sha256_hex("t"), None);
    assert_eq!(state.authorized_count(), 1);
    assert!(state.touch("phone"));
    assert!(!state.touch("ghost"));
    let records = state.list_authorized();
    assert!(records[0].1.added_at >= 1_600_000_000);
    assert_eq!(records[0].1.added_at, records[0].1.last_seen);
}

#[test]
fn pairing_with_the_right_code_issues_the_token_and_keeps_its_hash() {
    let mut state = fresh("123456", 0);
    let outcome = state.attempt_pairing_at(
        "123456",
        "phone".to_string(),
        Some("Pixel".to_string()),
        PHONE,
        "tok-1".to_string(),
        at(1_000, 1_700_000_000),
    );
    assert_eq!(outcome, PairingOutcome::Paired("tok-1".to_string()));
    assert_eq!(state.authorized_count(), 1);
    let records = state.list_authorized();
    assert_eq!(
        records,
        vec![(
            "phone".to_string(),
            AuthorizedDevice {
                name: Some("Pixel".to_string()),
                token_hash: sha256_hex("tok-1"),
                added_at: 1_700_000_000,
                last_seen: 1_700_000_000,
            }
        )]
    );
    assert_ne!(records[0].1.token_hash, "tok-1");
    assert!(state.is_authorized("phone", "tok-1"));
    assert!(state.is_session_owner("phone"));
    assert_eq!(state.active_device_id(), Some("phone".to_string()));
    assert_eq!(state.active_client_ip(), Some(PHONE));
    assert_eq!(state.last_seen(), Some(1_000));
    assert_eq!(state.code(), "123456");
}

#[test]
fn pairing_with_a_wrong_code_counts_a_failure() {
    let mut state = fresh("123456", 0);
    for _ in 0..4 {
        assert_eq!(pair(&mut state, "000000", "phone", PHONE, "t", at(10, 0)), PairingOutcome::InvalidCode);
    }
    assert_eq!(state.rl_is_locked_at(PHONE, 10), None);
    assert_eq!(pair(&mut state, "000000", "phone", PHONE, "t", at(10, 0)), PairingOutcome::InvalidCode);
    assert_eq!(state.rl_is_locked_at(PHONE, 10), Some(30));
    assert_eq!(state.authorized_count(), 0);
    assert_eq!(state.active_device_id(), None);
    // even the right code is turned away while the source is locked
    assert_eq!(pair(&mut state, "123456", "phone", PHONE, "t", at(20_010, 0)), PairingOutcome::RateLimited(10));
    assert_eq!(state.authorized_count(), 0);
    // another source is not affected
    assert_eq!(pair(&mut state, "123456", "laptop", LAPTOP, "t", at(20_010, 0)), PairingOutcome::Paired("t".to_string()));
    // and the lockout runs out
    assert_eq!(pair(&mut state, "123456", "phone", PHONE, "u", at(30_010, 0)), PairingOutcome::Paired("u".to_string()));
}

#[test]
fn pairing_success_resets_the_failure_count() {
    let mut state = fresh("123456", 0);
    for _ in 0..4 {
        pair(&mut state, "bad", "phone", PHONE, "t", at(1, 0));
    }
    assert_eq!(pair(&mut state, "123456", "phone", PHONE, "t", at(2, 0)), PairingOutcome::Paired("t".to_string()));
    for _ in 0..4 {
        assert_eq!(pair(&mut state, "bad", "phone", PHONE, "t", at(3, 0)), PairingOutcome::InvalidCode);
    }
    assert_eq!(state.rl_is_locked_at(PHONE, 3), None);
}

#[test]
fn expired_code_is_rotated_when_no_session_is_active() {
    let mut state = fresh("123456", 0);
    // the old code no longer works once expired: a new one took its place
    let outcome = pair(&mut state, "123456", "phone", PHONE, "t", at(300_001, 1_234_567_890));
    assert_eq!(outcome, PairingOutcome::InvalidCode);
    assert_eq!(state.code(), "567890");
    assert_eq!(state.created_at(), 300_001);
    assert!(!state.is_expired_at(300_001));
    // the new code is accepted
    let outcome = pair(&mut state, "567890", "phone", PHONE, "t", at(300_002, 1_234_567_891));
    assert_eq!(outcome, PairingOutcome::Paired("t".to_string()));
    assert_eq!(state.code(), "567890");
}

#[test]
fn pairing_with_the_code_that_rotation_brings_is_accepted() {
    let mut state = fresh("123456", 0);
    let when = at(400_000, 42);
    assert_eq!(state.pairing_verdict_at("000042", PHONE, when), PairingVerdict::Accepted);
    assert_eq!(state.code(), "123456");
    assert_eq!(pair(&mut state, "000042", "phone", PHONE, "t", when), PairingOutcome::Paired("t".to_string()));
    assert_eq!(state.code(), "000042");
}

#[test]
fn expired_code_is_kept_while_a_session_is_active() {
    let mut state = fresh("123456", 0);
    assert_eq!(pair(&mut state, "123456", "phone", PHONE, "t", at(299_000, 1)), PairingOutcome::Paired("t".to_string()));
    // long after the code's lifetime, with the session still held
    assert!(state.is_expired_at(400_000));
    let outcome = pair(&mut state, "123456", "laptop", LAPTOP, "u", at(400_000, 1_234_567_890));
    assert_eq!(outcome, PairingOutcome::Paired("u".to_string()));
    assert_eq!(state.code(), "123456");
    assert_eq!(state.created_at(), 0);
    assert!(state.is_session_owner("laptop"));
    assert!(!state.is_session_owner("phone"));
}

#[test]
fn verdict_is_what_the_attempt_returns() {
    let state = fresh("123456", 0);
    assert_eq!(state.pairing_verdict_at("123456", PHONE, at(5, 0)), PairingVerdict::Accepted);
    assert_eq!(state.pairing_verdict_at("12345", PHONE, at(5, 0)), PairingVerdict::InvalidCode);
    let mut locked = fresh("123456", 0);
    for _ in 0..5 {
        locked.rl_register_failure_at(PHONE, 0);
    }
    assert_eq!(locked.pairing_verdict_at("123456", PHONE, at(5, 0)), PairingVerdict::RateLimited(29));
}

#[test]
fn re_pairing_rotates_the_credential() {
    let mut state = fresh("123456", 0);
    pair(&mut state, "123456", "phone", PHONE, "first", at(1, 100));
    pair(&mut state, "123456", "phone", PHONE, "second", at(2, 200));
    assert_eq!(state.authorized_count(), 1);
    assert!(!state.is_authorized("phone", "first"));
    assert!(state.is_authorized("phone", "second"));
    let records = state.list_authorized();
    assert_eq!(records[0].1.added_at, 200);
}

#[test]
fn auth_with_the_right_token_takes_the_session() {
    let mut state = fresh("123456", 0);
    pair(&mut state, "123456", "phone", PHONE, "tp", at(1, 100));
    pair(&mut state, "123456", "laptop", LAPTOP, "tl", at(2, 200));
    assert!(state.is_session_owner("laptop"));
    let outcome = state.attempt_auth_at("phone", "tp", PHONE, at(3, 300));
    assert_eq!(outcome, AuthOutcome::Authenticated);
    assert!(state.is_session_owner("phone"));
    assert!(!state.is_session_owner("laptop"));
    assert_eq!(state.active_client_ip(), Some(PHONE));
    assert_eq!(state.last_seen(), Some(3));
    let records = state.list_authorized();
    assert_eq!(records[0].0, "phone");
    assert_eq!(records[0].1.last_seen, 300);
    assert_eq!(records[0].1.added_at, 100);
    assert_eq!(records[1].1.last_seen, 200);
}

#[test]
fn auth_with_a_wrong_token_counts_a_failure_and_keeps_the_session() {
    let mut state = fresh("123456", 0);
    pair(&mut state, "123456", "phone", PHONE, "tp", at(1, 100));
    assert_eq!(state.attempt_auth_at("phone", "nope", LAPTOP, at(2, 0)), AuthOutcome::InvalidCredential);
    assert_eq!(state.attempt_auth_at("ghost", "tp", LAPTOP, at(2, 0)), AuthOutcome::InvalidCredential);
    assert!(state.is_session_owner("phone"));
    assert_eq!(state.last_seen(), Some(1));
    for _ in 0..3 {
        state.attempt_auth_at("phone", "nope", LAPTOP, at(2, 0));
    }
    assert_eq!(state.attempt_auth_at("phone", "tp", LAPTOP, at(3, 0)), AuthOutcome::RateLimited(29));
    assert!(state.is_session_owner("phone"));
    assert_eq!(state.active_client_ip(), Some(PHONE));
    assert_eq!(state.attempt_auth_at("phone", "tp", LAPTOP, at(30_002, 0)), AuthOutcome::Authenticated);
    assert_eq!(state.active_client_ip(), Some(LAPTOP));
}

#[test]
fn touch_refreshes_the_session_and_dates_the_record() {
    let mut state = fresh("123456", 0);
    pair(&mut state, "123456", "phone", PHONE, "tp", at(1, 100));
    assert!(state.touch_at("phone", at(5_000, 105)));
    assert_eq!(state.last_seen(), Some(5_000));
    assert_eq!(state.list_authorized()[0].1.last_seen, 105);
    assert_eq!(state.list_authorized()[0].1.added_at, 100);
    // a device without a record changes no record
    assert!(!state.touch_at("ghost", at(6_000, 106)));
    assert_eq!(state.authorized_count(), 1);
    assert_eq!(state.list_authorized()[0].1.last_seen, 105);
}

#[test]
fn touch_without_a_session_sets_no_last_seen() {
    let mut store = AuthorizedStore::new();
    store.upsert("phone".to_string(), None, sha256_hex("t"), 1);
    let mut state = PairingState::new_at("123456".to_string(), store, 0);
    assert!(state.touch_at("phone", at(10, 50)));
    assert_eq!(state.last_seen(), None);
    assert_eq!(state.active_device_id(), None);
    assert_eq!(state.list_authorized()[0].1.last_seen, 50);
    assert!(!state.mark_seen_at(at(11, 60)));
    assert_eq!(state.list_authorized()[0].1.last_seen, 50);
}

#[test]
fn mark_seen_is_a_sign_of_life_of_the_holder() {
    let mut state = fresh("123456", 0);
    pair(&mut state, "123456", "phone", PHONE, "tp", at(1, 100));
    assert!(state.mark_seen_at(at(9_000, 109)));
    assert_eq!(state.last_seen(), Some(9_000));
    assert_eq!(state.list_authorized()[0].1.last_seen, 109);
    state.revoke_device("phone");
    assert!(!state.mark_seen_at(at(9_500, 110)));
}

#[test]
fn idle_session_is_cleared_after_more_than_ten_seconds() {
    let mut state = fresh("123456", 0);
    pair(&mut state, "123456", "phone", PHONE, "tp", at(1_000, 100));
    assert!(!state.is_idle_too_long_at(1_000));
    assert!(!state.is_idle_too_long_at(11_000));
    assert!(!state.expire_idle_if_needed_at(11_000));
    assert!(state.is_session_owner("phone"));
    assert!(state.is_idle_too_long_at(11_001));
    assert!(state.expire_idle_if_needed_at(11_001));
    assert_eq!(state.active_device_id(), None);
    assert_eq!(state.active_client_ip(), None);
    assert_eq!(state.last_seen(), None);
    // the device stays on the allow-list and can authenticate again
    assert_eq!(state.authorized_count(), 1);
    assert!(!state.expire_idle_if_needed_at(50_000));
    assert_eq!(state.attempt_auth_at("phone", "tp", PHONE, at(60_000, 0)), AuthOutcome::Authenticated);
}

#[test]
fn heartbeat_keeps_the_session_alive() {
    let mut state = fresh("123456", 0);
    pair(&mut state, "123456", "phone", PHONE, "tp", at(0, 0));
    let mut now: u64 = 0;
    while now < 60_000 {
        now += 5_000;
        state.touch_at("phone", at(now, 0));
        assert!(!state.expire_idle_if_needed_at(now + 5_000));
    }
    assert!(state.is_session_owner("phone"));
    assert!(state.expire_idle_if_needed_at(now + 10_001));
}

#[test]
fn revoking_the_active_device_ends_the_session() {
    let mut state = fresh("123456", 0);
    pair(&mut state, "123456", "phone", PHONE, "tp", at(1, 0));
    state.revoke_device("phone");
    assert_eq!(state.active_device_id(), None);
    assert_eq!(state.last_seen(), None);
    assert_eq!(state.authorized_count(), 0);
    assert!(!state.is_authorized("phone", "tp"));
    assert_eq!(state.attempt_auth_at("phone", "tp", PHONE, at(2, 0)), AuthOutcome::InvalidCredential);
}

#[test]
fn revoking_another_device_leaves_the_session() {
    let mut state = fresh("123456", 0);
    pair(&mut state, "123456", "laptop", LAPTOP, "tl", at(1, 0));
    pair(&mut state, "123456", "phone", PHONE, "tp", at(2, 0));
    state.revoke_device("laptop");
    assert!(state.is_session_owner("phone"));
    assert_eq!(state.active_client_ip(), Some(PHONE));
    assert_eq!(state.last_seen(), Some(2));
    assert_eq!(state.authorized_count(), 1);
    state.revoke_device("nobody");
    assert!(state.is_session_owner("phone"));
    assert_eq!(state.authorized_count(), 1);
}

#[test]
fn clear_active_ends_the_session_only() {
    let mut state = fresh("123456", 0);
    pair(&mut state, "123456", "phone", PHONE, "tp", at(1, 0));
    state.clear_active();
    assert_eq!(state.active_device_id(), None);
    assert_eq!(state.authorized_count(), 1);
    assert_eq!(state.code(), "123456");
}

#[test]
fn upsert_authorized_at_dates_the_record() {
    let mut state = fresh("123456", 0);
    state.upsert_authorized_at("phone".to_string(), "hash".to_string(), Some("P".to_string()), 77);
    assert_eq!(
        state.list_authorized(),
        vec![(
            "phone".to_string(),
            AuthorizedDevice {
                name: Some("P".to_string()),
                token_hash: "hash".to_string(),
                added_at: 77,
                last_seen: 77,
            }
        )]
    );
    assert_eq!(state.active_device_id(), None);
}

#[test]
fn rate_limit_entry_points_of_the_state() {
    let mut state = fresh("123456", 0);
    for _ in 0..5 {
        state.rl_register_failure_at(PHONE, 1_000);
    }
    assert_eq!(state.rl_is_locked_at(PHONE, 1_000), Some(30));
    assert_eq!(state.rl_is_locked_at(PHONE, 30_999), Some(0));
    assert_eq!(state.rl_is_locked_at(PHONE, 31_000), None);
    assert_eq!(state.rl_is_locked_at(LAPTOP, 1_000), None);
    state.rl_register_success_at(PHONE, 2_000);
    assert_eq!(state.rl_is_locked_at(PHONE, 2_000), None);
}

#[test]
fn watchdog_reclaims_a_silent_session_without_any_traffic() {
    let mut state = fresh("123456", 0);
    pair(&mut state, "123456", "phone", PHONE, "tp", at(2_000, 0));
    let mut now: u64 = 0;
    let mut rounds: u32 = 0;
    while state.active_device_id().is_some() {
        assert_eq!(state.watchdog_step_at(false, now), WatchdogStep::Sleep(5_000));
        now += 5_000;
        rounds += 1;
        assert!(rounds < 10);
    }
    // looked at 0, 5 s, 10 s (silent for 8 s) and 15 s (silent for 13 s)
    assert_eq!(rounds, 4);
    assert_eq!(state.last_seen(), None);
    assert_eq!(state.authorized_count(), 1);
}

#[test]
fn watchdog_ends_on_cancellation_and_changes_nothing() {
    let mut state = fresh("123456", 0);
    pair(&mut state, "123456", "phone", PHONE, "tp", at(0, 0));
    assert_eq!(state.watchdog_step_at(true, 1_000_000), WatchdogStep::Stop);
    assert!(state.is_session_owner("phone"));
    assert_eq!(state.watchdog_step(true), WatchdogStep::Stop);
    assert_eq!(state.watchdog_step(false), WatchdogStep::Sleep(5_000));
}

#[test]
fn attempts_as_of_now() {
    let mut state = PairingState::new("123456".to_string(), AuthorizedStore::new());
    let outcome = state
        .attempt_pairing("000000", "phone".to_string(), None, PHONE)
        .expect("no token needed");
    assert_eq!(outcome, PairingOutcome::InvalidCode);
    let outcome = state
        .attempt_pairing("123456", "phone".to_string(), Some("Pixel".to_string()), PHONE)
        .expect("randomness");
    let token = match outcome {
        PairingOutcome::Paired(token) => token,
        other => panic!("unexpected outcome {:?}", other),
    };
    assert_eq!(token.len(), 64);
    assert_eq!(state.list_authorized()[0].1.token_hash, sha256_hex(&token));
    assert!(state.is_session_owner("phone"));
    assert_eq!(state.attempt_auth("phone", "wrong", LAPTOP), AuthOutcome::InvalidCredential);
    assert!(state.is_session_owner("phone"));
    assert_eq!(state.attempt_auth("phone", &token, LAPTOP), AuthOutcome::Authenticated);
    assert_eq!(state.active_client_ip(), Some(LAPTOP));
    for _ in 0..5 {
        state.attempt_auth("phone", "wrong", PHONE);
    }
    assert!(matches!(state.attempt_auth("phone", &token, PHONE), AuthOutcome::RateLimited(_)));
    let outcome = state
        .attempt_pairing("123456", "phone".to_string(), None, PHONE)
        .expect("no token needed");
    assert!(matches!(outcome, PairingOutcome::RateLimited(_)));
}

#[test]
fn wall_clock_before_the_epoch_reads_as_zero() {
    let before = UNIX_EPOCH - Duration::from_secs(5);
    assert!(before.duration_since(UNIX_EPOCH).is_err());
    assert_eq!(secs_since_epoch(before.duration_since(UNIX_EPOCH)), 0);
    let after = UNIX_EPOCH + Duration::from_millis(77_900);
    assert_eq!(secs_since_epoch(after.duration_since(UNIX_EPOCH)), 77);
    assert_eq!(secs_since_epoch(UNIX_EPOCH.duration_since(UNIX_EPOCH)), 0);
}
