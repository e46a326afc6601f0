//! Surface lifecycle, isolation tokens, and profile-deletion retry.

use sweetshark_host::devices::DevicePreference;
use sweetshark_host::isolation::uuid_to_bytes;
use sweetshark_host::profile::{
    deletion_step, evaluate_removal_trace, RemovalOutcome, RetryDecision, DELETE_RETRY_INTERVAL_MS,
    MAX_DELETE_ATTEMPTS,
};
use sweetshark_host::surfaces::{prepare_surface, CreationError, SurfaceError, SurfaceManager};

fn no_prefs() -> DevicePreference {
    DevicePreference { mic: None, cam: None, speaker: None }
}

#[test]
fn isolation_token_parses_hex_pairs() {
    let token = uuid_to_bytes("01020304-0506-0708-090a-0b0c0d0e0f10");
    assert_eq!(
        token,
        [1, 2, 3, 4, 5, 6, 7, 8, 9, 10, 11, 12, 13, 14, 15, 16]
    );
}

#[test]
fn isolation_token_is_case_insensitive_hex() {
    assert_eq!(uuid_to_bytes("FF")[0], 0xFF);
    assert_eq!(uuid_to_bytes("ff")[0], 0xFF);
}

#[test]
fn isolation_token_zero_fills_unparsable_bytes() {
    // Too short: missing pairs become zero.
    let token = uuid_to_bytes("ab");
    assert_eq!(token[0], 0xAB);
    assert!(token[1..].iter().all(|b| *b == 0));
    // Not hexadecimal at all.
    assert_eq!(uuid_to_bytes("zz-yy"), [0u8; 16]);
    // A pair with one bad digit is zero-filled, later pairs still parse.
    let token = uuid_to_bytes("0gff");
    assert_eq!(token[0], 0);
    assert_eq!(token[1], 0xFF);
}

#[test]
fn prepare_rejects_unparsable_urls() {
    let r = prepare_surface("not a url", "abc", &no_prefs(), "");
    assert_eq!(r.err(), Some(CreationError::InvalidUrl));
}

#[test]
fn prepare_computes_profile_subpath_and_token() {
    let plan = prepare_surface(
        "https://chat.example.net/",
        "01020304-0506-0708-090a-0b0c0d0e0f10",
        &no_prefs(),
        "/* menu */",
    )
    .expect("a parsable URL must yield a plan");
    assert_eq!(plan.profile_subpath, "servers/01020304-0506-0708-090a-0b0c0d0e0f10");
    assert_eq!(
        plan.isolation_token,
        [1, 2, 3, 4, 5, 6, 7, 8, 9, 10, 11, 12, 13, 14, 15, 16]
    );
    assert!(plan.init_script.starts_with("/* menu */\n"));
}

/// Creating over an existing label closes the old surface first: two
/// consecutive creations with one label never leave two live surfaces.
#[test]
fn create_or_replace_keeps_one_surface_per_label() {
    let mut m = SurfaceManager::new();
    assert!(m
        .create_or_replace(String::from("srv-1"), String::from("account-a"), true)
        .is_ok());
    assert!(m
        .create_or_replace(String::from("srv-1"), String::from("account-b"), true)
        .is_ok());
    assert_eq!(m.surfaces.len(), 1);
    assert_eq!(m.surfaces[0].label, "srv-1");
    assert_eq!(m.surfaces[0].server_id, "account-b");
}

#[test]
fn failed_close_is_propagated_and_keeps_the_old_surface() {
    let mut m = SurfaceManager::new();
    assert!(m
        .create_or_replace(String::from("srv-1"), String::from("account-a"), true)
        .is_ok());
    let r = m.create_or_replace(String::from("srv-1"), String::from("account-b"), false);
    assert_eq!(r, Err(CreationError::CloseFailed));
    assert_eq!(m.surfaces.len(), 1);
    assert_eq!(m.surfaces[0].server_id, "account-a");
    // With no existing surface the close outcome is irrelevant.
    let r = m.create_or_replace(String::from("srv-2"), String::from("account-c"), false);
    assert!(r.is_ok());
    assert_eq!(m.surfaces.len(), 2);
}

#[test]
fn reload_requires_a_live_surface() {
    let mut m = SurfaceManager::new();
    assert_eq!(m.reload_surface("srv-1"), Err(SurfaceError::NotFound));
    let _ = m.create_or_replace(String::from("srv-1"), String::from("account-a"), true);
    assert_eq!(m.reload_surface("srv-1"), Ok(()));
    assert!(m.remove_surface("srv-1"));
    assert_eq!(m.reload_surface("srv-1"), Err(SurfaceError::NotFound));
    assert!(!m.remove_surface("srv-1"));
}

#[test]
fn deletion_policy_constants() {
    assert_eq!(MAX_DELETE_ATTEMPTS, 15);
    assert_eq!(DELETE_RETRY_INTERVAL_MS, 200);
}

#[test]
fn deletion_step_decides_retry_and_give_up() {
    assert_eq!(deletion_step(0, &RemovalOutcome::Removed), RetryDecision::Finished);
    let blocked = RemovalOutcome::Blocked(String::from("locked"));
    assert_eq!(deletion_step(0, &blocked), RetryDecision::SleepAndRetry);
    assert_eq!(deletion_step(13, &blocked), RetryDecision::SleepAndRetry);
    assert_eq!(deletion_step(14, &blocked), RetryDecision::GiveUp);
}

fn blocked_trace(n: usize) -> Vec<RemovalOutcome> {
    (0..n)
        .map(|i| RemovalOutcome::Blocked(format!("locked {i}")))
        .collect()
}

/// A directory that becomes deletable within the window is deleted the
/// moment an attempt succeeds.
#[test]
fn deletion_succeeds_at_first_removable_attempt() {
    let mut outcomes = blocked_trace(15);
    outcomes[3] = RemovalOutcome::Removed;
    assert_eq!(evaluate_removal_trace(&outcomes), Ok(4));

    let mut at_once = blocked_trace(15);
    at_once[0] = RemovalOutcome::Removed;
    assert_eq!(evaluate_removal_trace(&at_once), Ok(1));

    // Deletable only at the last attempt of the window still succeeds.
    let mut last = blocked_trace(15);
    last[14] = RemovalOutcome::Removed;
    assert_eq!(evaluate_removal_trace(&last), Ok(15));
}

/// A directory that never becomes deletable fails after exactly 15
/// attempts, carrying the last underlying cause.
#[test]
fn deletion_gives_up_after_exactly_fifteen_attempts() {
    let outcomes = blocked_trace(20);
    let e = evaluate_removal_trace(&outcomes).unwrap_err();
    assert_eq!(e.attempts, 15);
    assert_eq!(e.last_cause, "locked 14");
}
