use backend::errors::{ErrorDetails, LoginError};
use backend::login::{
    login_after_check, login_after_lookup, login_begin, login_refusal, record_failure,
    record_success, AccountRecord, LoginRequest, LoginStep, LOCKOUT_MICROS,
};

const NOW: i64 = 1_700_000_000_000_000;

fn account(failures: i32, locked_until: Option<i64>, hash: Option<&str>) -> AccountRecord {
    AccountRecord {
        id: 42,
        permission_level: "User".to_string(),
        password_hash: hash.map(|h| h.to_string()),
        failed_login_count: failures,
        locked_until,
        last_login_at: None,
    }
}

#[test]
fn login_looks_up_the_lowercased_name() {
    let req = LoginRequest { username: "Alice@Example.COM".to_string(), password: "x".to_string() };
    match login_begin(&req) {
        LoginStep::FindAccount { login_id } => assert_eq!(login_id, "alice@example.com"),
        _ => panic!("expected a lookup"),
    }
}

#[test]
fn lowercasing_follows_unicode() {
    let req = LoginRequest { username: "ÉMILE".to_string(), password: String::new() };
    match login_begin(&req) {
        LoginStep::FindAccount { login_id } => assert_eq!(login_id, "émile"),
        _ => panic!("expected a lookup"),
    }
}

#[test]
fn unknown_account_is_refused() {
    let step = login_after_lookup(None, NOW);
    assert!(matches!(step, LoginStep::RejectUnknownAccount));
    let b = login_refusal(&step).unwrap();
    assert_eq!(b.kind, LoginError::InvalidCredentials);
    assert!(matches!(b.details, Some(ErrorDetails::Description(ref d)) if d == "User not found"));
}

#[test]
fn locked_account_is_refused() {
    let step = login_after_lookup(Some(account(10, Some(NOW + 1), Some("h"))), NOW);
    assert!(matches!(step, LoginStep::RejectLockedAccount));
    let b = login_refusal(&step).unwrap();
    assert!(matches!(b.details, Some(ErrorDetails::Description(ref d)) if d == "Account locked"));
}

#[test]
fn expired_lock_lets_the_password_be_checked() {
    let step = login_after_lookup(Some(account(10, Some(NOW), Some("hash"))), NOW);
    match step {
        LoginStep::VerifyPassword { account, hash } => {
            assert_eq!(hash, "hash");
            assert_eq!(account.failed_login_count, 10);
        }
        _ => panic!("expected a password check"),
    }
}

#[test]
fn account_without_password_counts_a_failure() {
    let step = login_after_lookup(Some(account(3, None, None)), NOW);
    match &step {
        LoginStep::RecordFailure { account } => {
            assert_eq!(account.failed_login_count, 4);
            assert_eq!(account.locked_until, None);
        }
        _ => panic!("expected a failure"),
    }
    let b = login_refusal(&step).unwrap();
    assert!(b.details.is_none());
}

#[test]
fn wrong_password_counts_a_failure() {
    match login_after_check(account(0, None, Some("h")), false, NOW) {
        LoginStep::RecordFailure { account } => {
            assert_eq!(account.failed_login_count, 1);
            assert_eq!(account.locked_until, None);
            assert_eq!(account.last_login_at, None);
        }
        _ => panic!("expected a failure"),
    }
}

#[test]
fn tenth_failure_locks_for_fifteen_minutes() {
    let mut acc = account(0, None, Some("h"));
    for attempt in 1..=10 {
        let step = login_after_lookup(Some(acc), NOW);
        let checked = match step {
            LoginStep::VerifyPassword { account, .. } => account,
            _ => panic!("attempt {} should reach the password check", attempt),
        };
        acc = match login_after_check(checked, false, NOW) {
            LoginStep::RecordFailure { account } => account,
            _ => panic!("expected a failure"),
        };
        assert_eq!(acc.failed_login_count, attempt);
        if attempt < 10 {
            assert_eq!(acc.locked_until, None);
        }
    }
    assert_eq!(acc.locked_until, Some(NOW + 900_000_000));
    assert_eq!(LOCKOUT_MICROS, 900_000_000);
    let refused = login_after_lookup(Some(acc), NOW + LOCKOUT_MICROS - 1);
    assert!(matches!(refused, LoginStep::RejectLockedAccount));
}

#[test]
fn lock_ends_after_fifteen_minutes() {
    let acc = record_failure(account(9, None, Some("h")), NOW);
    let step = login_after_lookup(Some(acc), NOW + LOCKOUT_MICROS);
    assert!(matches!(step, LoginStep::VerifyPassword { .. }));
}

#[test]
fn success_resets_failures_and_lock() {
    match login_after_check(account(7, Some(NOW - 5), Some("h")), true, NOW) {
        LoginStep::Grant { account } => {
            assert_eq!(account.failed_login_count, 0);
            assert_eq!(account.locked_until, None);
            assert_eq!(account.last_login_at, Some(NOW));
            assert_eq!(account.id, 42);
            assert_eq!(account.permission_level, "User");
        }
        _ => panic!("expected a grant"),
    }
    let grant = login_after_check(account(0, None, Some("h")), true, NOW);
    assert!(login_refusal(&grant).is_none());
}

#[test]
fn record_success_sets_last_login() {
    let acc = record_success(account(2, None, None), NOW + 7);
    assert_eq!(acc.last_login_at, Some(NOW + 7));
    assert_eq!(acc.failed_login_count, 0);
}
