//! The registration flow: the decisions between the password rules, the two
//! uniqueness lookups, the insertion of the account and the token.

use vstd::prelude::*;
use crate::errors::{ErrorBuilder, ErrorDetails, RegisterError};
use crate::ids::{is_random_uuid, new_random_uuid};
use crate::password::{missing_requirements, validate_password, weakness_message};

verus! {

/// A registration request as the client submits it.
pub struct UserRegistrationRequest {
    pub first_name: String,
    pub last_name: String,
    pub email: String,
    pub username: String,
    pub password: String,
}

/// The account that a registration creates (besides the password hash,
/// which is derived from the submitted password when it is stored).
pub struct NewAccount {
    pub id: u128,
    pub first_name: String,
    pub last_name: String,
    pub email: String,
    pub email_verified: bool,
    pub username: String,
    pub permission_level: String,
    pub failed_login_count: i32,
    pub two_factor_enabled: bool,
    pub must_change_password: bool,
}

/// The next thing the registration flow needs done.
pub enum RegisterStep {
    /// Find out whether an account already has `username`.
    CheckUsername { username: String },
    /// Find out whether an account already has `email`.
    CheckEmail { email: String },
    /// Store `account`, with the hash of `password`.
    CreateAccount { account: NewAccount, password: String },
    /// Refuse with `error`, and `description` where there is one.
    Reject { error: RegisterError, description: Option<String> },
    /// Issue a token for `user_id` with `permission_level`.
    IssueToken { user_id: u128, permission_level: String },
}

/// The permission level of a newly registered account.
pub open spec fn new_user_level() -> Seq<char> {
    "User"@
}

/// The account that `request` creates, under `id`.
pub open spec fn is_new_account_for(account: NewAccount, request: UserRegistrationRequest, id: u128) -> bool {
    &&& account.id == id
    &&& account.first_name == request.first_name
    &&& account.last_name == request.last_name
    &&& account.email == request.email
    &&& account.username == request.username
    &&& !account.email_verified
    &&& account.permission_level@ == new_user_level()
    &&& account.failed_login_count == 0
    &&& !account.two_factor_enabled
    &&& !account.must_change_password
}

/// The first step of a registration: refuse a weak password, with the list
/// of what it lacks, before anything is looked up; else check the username.
pub fn register_begin(request: &UserRegistrationRequest) -> (r: RegisterStep)
    ensures
        missing_requirements(request.password@).len() != 0 ==> (r matches RegisterStep::Reject { error, description }
            && error == RegisterError::PasswordTooWeak
            && (description matches Some(d) && d@ == weakness_message(request.password@))),
        missing_requirements(request.password@).len() == 0 ==> (r matches RegisterStep::CheckUsername { username }
            && username@ == request.username@),
{
    match validate_password(request.password.as_str()) {
        Err(msg) => RegisterStep::Reject { error: RegisterError::PasswordTooWeak, description: Some(msg) },
        Ok(()) => RegisterStep::CheckUsername { username: request.username.clone() },
    }
}

/// The step after the username lookup: refuse a taken username, else check
/// the email address.
pub fn register_after_username(request: &UserRegistrationRequest, taken: bool) -> (r: RegisterStep)
    ensures
        taken ==> (r matches RegisterStep::Reject { error, description } && error == RegisterError::UsernameTaken
            && description is None),
        !taken ==> (r matches RegisterStep::CheckEmail { email } && email@ == request.email@),
{
    if taken {
        RegisterStep::Reject { error: RegisterError::UsernameTaken, description: None }
    } else {
        RegisterStep::CheckEmail { email: request.email.clone() }
    }
}

/// The account that `request` creates, under `id`: unverified email, no
/// failed logins, no second factor, the `User` permission level.
pub fn new_account(request: UserRegistrationRequest, id: u128) -> (r: (NewAccount, String))
    ensures
        is_new_account_for(r.0, request, id),
        r.1 == request.password,
{
    let account = NewAccount {
        id,
        first_name: request.first_name,
        last_name: request.last_name,
        email: request.email,
        email_verified: false,
        username: request.username,
        permission_level: "User".to_owned(),
        failed_login_count: 0,
        two_factor_enabled: false,
        must_change_password: false,
    };
    (account, request.password)
}

/// The step after the email lookup: refuse a taken email address, else
/// create the account under a fresh random id.
pub fn register_after_email(request: UserRegistrationRequest, taken: bool) -> (r: RegisterStep)
    ensures
        taken ==> (r matches RegisterStep::Reject { error, description } && error == RegisterError::EmailTaken
            && description is None),
        !taken ==> (r matches RegisterStep::CreateAccount { account, password }
            && is_new_account_for(account, request, account.id) && is_random_uuid(account.id)
            && password == request.password),
{
    if taken {
        RegisterStep::Reject { error: RegisterError::EmailTaken, description: None }
    } else {
        let id = new_random_uuid();
        let (account, password) = new_account(request, id);
        RegisterStep::CreateAccount { account, password }
    }
}

/// The step after storing the account `user_id`: refuse if it could not be
/// stored, else issue a token with the `User` permission level.
pub fn register_after_insert(user_id: u128, stored: bool) -> (r: RegisterStep)
    ensures
        !stored ==> (r matches RegisterStep::Reject { error, description } && error == RegisterError::InternalError
            && description is None),
        stored ==> (r matches RegisterStep::IssueToken { user_id: id, permission_level }
            && id == user_id && permission_level@ == new_user_level()),
{
    if stored {
        RegisterStep::IssueToken { user_id, permission_level: "User".to_owned() }
    } else {
        RegisterStep::Reject { error: RegisterError::InternalError, description: None }
    }
}

/// The error answer of a refusing step, or `None` for a step that does not refuse.
pub fn register_refusal(step: RegisterStep) -> (r: Option<ErrorBuilder<RegisterError>>)
    ensures
        match step {
            RegisterStep::Reject { error, description } => (r matches Some(b) && b.kind == error
                && match description {
                    None => b.details is None,
                    Some(d) => b.details == Some(ErrorDetails::Description(d)),
                }),
            _ => r is None,
        },
{
    match step {
        RegisterStep::Reject { error, description } => {
            let builder = ErrorBuilder::new(error);
            match description {
                None => Some(builder),
                Some(d) => Some(builder.description(d)),
            }
        },
        _ => None,
    }
}

} // verus!
