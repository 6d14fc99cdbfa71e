//! The login flow: the decisions between the account lookup, the password
//! check and the update of the account, with the lockout rule.

use vstd::prelude::*;
use crate::errors::{ErrorBuilder, ErrorDetails, LoginError};

verus! {

/// Failed attempts after which an account is locked.
pub const LOCKOUT_THRESHOLD: i32 = 10;

/// How long a lockout lasts, in microseconds (15 minutes).
pub const LOCKOUT_MICROS: i64 = 900_000_000;

/// A login request as the client submits it.
pub struct LoginRequest {
    pub username: String,
    pub password: String,
}

/// The answer to a successful login.
pub struct LoginToken {
    pub access_token: String,
}

/// What the login flow reads and writes of a stored account. Instants are
/// microseconds since the Unix epoch.
pub struct AccountRecord {
    pub id: u128,
    pub permission_level: String,
    pub password_hash: Option<String>,
    pub failed_login_count: i32,
    pub locked_until: Option<i64>,
    pub last_login_at: Option<i64>,
}

/// The next thing the login flow needs done.
pub enum LoginStep {
    /// Look up the account whose username or email equals `login_id`.
    FindAccount { login_id: String },
    /// Check the submitted password against `hash`, the stored hash of `account`.
    VerifyPassword { account: AccountRecord, hash: String },
    /// No account matches: refuse.
    RejectUnknownAccount,
    /// The account is locked: refuse, and change nothing.
    RejectLockedAccount,
    /// The password did not match: store `account`, then refuse.
    RecordFailure { account: AccountRecord },
    /// The password matched: store `account` and issue a token for its id
    /// and permission level.
    Grant { account: AccountRecord },
}

/// The lowercase form of `text` that `str::to_lowercase` gives (Unicode case mapping).
pub uninterp spec fn unicode_lowercase_text(text: Seq<char>) -> Seq<char>;

/// Calls `str::to_lowercase`; the Unicode case mapping is named, not spelled out.
#[verifier::external_body]
fn to_lowercase(text: &str) -> (r: String)
    ensures
        r@ == unicode_lowercase_text(text@),
{
    text.to_lowercase()
}

/// Whether `account` is locked at instant `now`.
pub open spec fn is_locked(account: AccountRecord, now: i64) -> bool {
    account.locked_until matches Some(t) && t > now
}

/// `account` after a failed attempt at `now`: one more failure, and a
/// lockout from `now` once the threshold is reached.
pub open spec fn after_failure(account: AccountRecord, now: i64) -> AccountRecord {
    let count = account.failed_login_count + 1;
    AccountRecord {
        failed_login_count: count as i32,
        locked_until: if count >= LOCKOUT_THRESHOLD { Some((now + LOCKOUT_MICROS) as i64) } else { account.locked_until },
        ..account
    }
}

/// `account` after a successful login at `now`: no failures, no lockout,
/// last login at `now`.
pub open spec fn after_success(account: AccountRecord, now: i64) -> AccountRecord {
    AccountRecord {
        failed_login_count: 0,
        locked_until: None,
        last_login_at: Some(now),
        ..account
    }
}

/// Whether the arithmetic of a failed attempt stays in range: the count can
/// grow by one, and where it reaches the threshold the end of the lockout is
/// an instant that can be represented.
pub open spec fn failure_in_range(account: AccountRecord, now: i64) -> bool {
    &&& account.failed_login_count < i32::MAX
    &&& account.failed_login_count + 1 >= LOCKOUT_THRESHOLD ==> now <= i64::MAX - LOCKOUT_MICROS
}

/// The step after looking up the account, at instant `now`.
pub open spec fn step_after_lookup(found: Option<AccountRecord>, now: i64) -> LoginStep {
    match found {
        None => LoginStep::RejectUnknownAccount,
        Some(account) => if is_locked(account, now) {
            LoginStep::RejectLockedAccount
        } else {
            match account.password_hash {
                None => LoginStep::RecordFailure { account: after_failure(account, now) },
                Some(hash) => LoginStep::VerifyPassword { account, hash },
            }
        },
    }
}

/// The step after checking the password of `account`, at instant `now`.
pub open spec fn step_after_check(account: AccountRecord, matched: bool, now: i64) -> LoginStep {
    if matched {
        LoginStep::Grant { account: after_success(account, now) }
    } else {
        LoginStep::RecordFailure { account: after_failure(account, now) }
    }
}

/// `account` after a failed attempt at `now`.
pub fn record_failure(account: AccountRecord, now: i64) -> (r: AccountRecord)
    requires
        failure_in_range(account, now),
    ensures
        r == after_failure(account, now),
{
    let count = account.failed_login_count + 1;
    let locked_until = if count >= LOCKOUT_THRESHOLD {
        Some(now + LOCKOUT_MICROS)
    } else {
        account.locked_until
    };
    AccountRecord { failed_login_count: count, locked_until, ..account }
}

/// `account` after a successful login at `now`.
pub fn record_success(account: AccountRecord, now: i64) -> (r: AccountRecord)
    ensures
        r == after_success(account, now),
{
    AccountRecord { failed_login_count: 0, locked_until: None, last_login_at: Some(now), ..account }
}

/// The first step of a login: look the account up by the submitted name,
/// lowercased; it may be a username or an email address.
pub fn login_begin(request: &LoginRequest) -> (r: LoginStep)
    ensures
        r matches LoginStep::FindAccount { login_id } && login_id@ == unicode_lowercase_text(request.username@),
{
    LoginStep::FindAccount { login_id: to_lowercase(request.username.as_str()) }
}

/// The step after the lookup: refuse an unknown or locked account, count a
/// failure for an account without a password, else check the password.
pub fn login_after_lookup(found: Option<AccountRecord>, now: i64) -> (r: LoginStep)
    requires
        found matches Some(a) ==> (!is_locked(a, now) && a.password_hash is None ==> failure_in_range(a, now)),
    ensures
        r == step_after_lookup(found, now),
{
    match found {
        None => LoginStep::RejectUnknownAccount,
        Some(account) => {
            let locked = match account.locked_until {
                Some(t) => t > now,
                None => false,
            };
            if locked {
                LoginStep::RejectLockedAccount
            } else {
                match account.password_hash {
                    None => LoginStep::RecordFailure { account: record_failure(account, now) },
                    Some(ref hash) => {
                        let hash = hash.clone();
                        LoginStep::VerifyPassword { account, hash }
                    },
                }
            }
        },
    }
}

/// The step after the password of `account` was checked at `now`.
pub fn login_after_check(account: AccountRecord, matched: bool, now: i64) -> (r: LoginStep)
    requires
        !matched ==> failure_in_range(account, now),
    ensures
        r == step_after_check(account, matched, now),
{
    if matched {
        LoginStep::Grant { account: record_success(account, now) }
    } else {
        LoginStep::RecordFailure { account: record_failure(account, now) }
    }
}

/// The error answer of a refusing step, or `None` for a step that does not refuse.
pub fn login_refusal(step: &LoginStep) -> (r: Option<ErrorBuilder<LoginError>>)
    ensures
        match step {
            LoginStep::RejectUnknownAccount => (r matches Some(b) && b.kind == LoginError::InvalidCredentials
                && (b.details matches Some(ErrorDetails::Description(d)) && d@ == "User not found"@)),
            LoginStep::RejectLockedAccount => (r matches Some(b) && b.kind == LoginError::InvalidCredentials
                && (b.details matches Some(ErrorDetails::Description(d)) && d@ == "Account locked"@)),
            LoginStep::RecordFailure { .. } => (r matches Some(b) && b.kind == LoginError::InvalidCredentials
                && b.details is None),
            _ => r is None,
        },
{
    match step {
        LoginStep::RejectUnknownAccount => Some(
            LoginError::invalid_credentials().description("User not found".to_owned()),
        ),
        LoginStep::RejectLockedAccount => Some(
            LoginError::invalid_credentials().description("Account locked".to_owned()),
        ),
        LoginStep::RecordFailure { .. } => Some(LoginError::invalid_credentials()),
        _ => None,
    }
}

/// `account` after `n` failed attempts, all at instant `now`.
pub open spec fn after_failures(account: AccountRecord, n: nat, now: i64) -> AccountRecord
    decreases n,
{
    if n == 0 {
        account
    } else {
        after_failure(after_failures(account, (n - 1) as nat, now), now)
    }
}

/// A locked account is refused whatever password is submitted: the flow
/// stops before the password is checked.
pub proof fn law_locked_account_refused(account: AccountRecord, now: i64)
    requires
        is_locked(account, now),
    ensures
        step_after_lookup(Some(account), now) == LoginStep::RejectLockedAccount,
{
}

/// A failed attempt counts one more failure and leaves the rest of the
/// account as it was; below the threshold it leaves the lockout alone.
pub proof fn law_failure_counts_one(account: AccountRecord, now: i64)
    requires
        failure_in_range(account, now),
    ensures
        after_failure(account, now).failed_login_count == account.failed_login_count + 1,
        account.failed_login_count + 1 < LOCKOUT_THRESHOLD ==> after_failure(account, now).locked_until
            == account.locked_until,
        after_failure(account, now).id == account.id,
        after_failure(account, now).permission_level == account.permission_level,
        after_failure(account, now).password_hash == account.password_hash,
        after_failure(account, now).last_login_at == account.last_login_at,
{
}

/// The failure that reaches the threshold locks the account for the next
/// 15 minutes: every attempt in that window is refused as locked.
pub proof fn law_threshold_failure_locks(account: AccountRecord, now: i64, later: i64)
    requires
        failure_in_range(account, now),
        account.failed_login_count >= LOCKOUT_THRESHOLD - 1,
        now <= later < now + LOCKOUT_MICROS,
    ensures
        is_locked(after_failure(account, now), later),
        step_after_lookup(Some(after_failure(account, now)), later) == LoginStep::RejectLockedAccount,
{
}

/// Once the 15 minutes have passed, a lockout no longer refuses attempts.
pub proof fn law_lockout_expires(account: AccountRecord, now: i64, later: i64)
    requires
        failure_in_range(account, now),
        account.failed_login_count >= LOCKOUT_THRESHOLD - 1,
        later >= now + LOCKOUT_MICROS,
    ensures
        !is_locked(after_failure(account, now), later),
{
}

/// A successful login clears the failures and the lockout: the account is
/// not locked at any instant afterwards.
pub proof fn law_success_clears_lockout(account: AccountRecord, now: i64, later: i64)
    ensures
        after_success(account, now).failed_login_count == 0,
        !is_locked(after_success(account, now), later),
        after_success(account, now).last_login_at == Some(now),
{
}

/// Starting from an account with no failures and no lockout, the first nine
/// failed attempts leave it unlocked, with one failure more each time, and the
/// tenth locks it for 15 minutes.
pub proof fn law_tenth_failure_locks(account: AccountRecord, now: i64)
    requires
        account.failed_login_count == 0,
        account.locked_until is None,
        now <= i64::MAX - LOCKOUT_MICROS,
    ensures
        forall|k: nat| k < LOCKOUT_THRESHOLD ==> (#[trigger] after_failures(account, k, now)).failed_login_count == k
            && after_failures(account, k, now).locked_until is None,
        after_failures(account, LOCKOUT_THRESHOLD as nat, now).locked_until == Some((now + LOCKOUT_MICROS) as i64),
{
    assert forall|k: nat| k < LOCKOUT_THRESHOLD implies (#[trigger] after_failures(account, k, now)).failed_login_count == k
        && after_failures(account, k, now).locked_until is None by {
        lemma_failures_below_threshold(account, k, now);
    }
    lemma_failures_below_threshold(account, 9, now);
}

proof fn lemma_failures_below_threshold(account: AccountRecord, k: nat, now: i64)
    requires
        account.failed_login_count == 0,
        account.locked_until is None,
        k < LOCKOUT_THRESHOLD,
    ensures
        after_failures(account, k, now).failed_login_count == k,
        after_failures(account, k, now).locked_until is None,
    decreases k,
{
    if k > 0 {
        lemma_failures_below_threshold(account, (k - 1) as nat, now);
    }
}

/// Access is granted only through a password check: the lookup never
/// grants, and after it the check grants exactly when the password matched,
/// on an account that was found, not locked and has a stored hash.
pub proof fn law_only_matching_password_grants(found: Option<AccountRecord>, now: i64, matched: bool, later: i64)
    ensures
        !(step_after_lookup(found, now) is Grant),
        step_after_lookup(found, now) matches LoginStep::VerifyPassword { account, hash } ==> {
            &&& found == Some(account)
            &&& !is_locked(account, now)
            &&& account.password_hash == Some(hash)
            &&& (step_after_check(account, matched, later) is Grant <==> matched)
        },
{
}

/// What the lookup decides depends on the lock and the stored hash alone:
/// an unknown account is refused; an account whose lock runs past `now` is
/// refused as locked; any other account with a stored hash goes on to the
/// password check with that hash, whatever its failures and last login; one
/// without a hash counts a failure.
pub proof fn law_lookup_decides_by_lock_and_hash(found: Option<AccountRecord>, now: i64)
    ensures
        found is None ==> step_after_lookup(found, now) == LoginStep::RejectUnknownAccount,
        found matches Some(a) ==> (a.locked_until matches Some(t) ==> (t > now ==> step_after_lookup(found, now)
            == LoginStep::RejectLockedAccount)),
        found matches Some(a) ==> ((a.locked_until is None || a.locked_until->0 <= now) ==> (a.password_hash matches Some(
            h,
        ) ==> step_after_lookup(found, now) == (LoginStep::VerifyPassword { account: a, hash: h }))),
        found matches Some(a) ==> ((a.locked_until is None || a.locked_until->0 <= now) ==> (a.password_hash is None
            ==> step_after_lookup(found, now) is RecordFailure)),
{
}

} // verus!
