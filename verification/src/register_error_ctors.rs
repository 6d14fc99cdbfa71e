//! One type per kind of `RegisterError`, each building that kind and converting into it.

use vstd::prelude::*;
use crate::errors::{ErrorBuilder, RegisterError};

verus! {

/// Stands for the `PasswordTooWeak` kind of `RegisterError`.
pub struct PasswordTooWeak;

impl PasswordTooWeak {
    /// A builder for an answer of kind `PasswordTooWeak`, with no details.
    pub fn new() -> (r: ErrorBuilder<RegisterError>)
        ensures
            r.kind == RegisterError::PasswordTooWeak,
            r.details is None,
    {
        ErrorBuilder::new(RegisterError::PasswordTooWeak)
    }
}

impl From<PasswordTooWeak> for RegisterError {
    fn from(kind: PasswordTooWeak) -> (r: Self) {
        RegisterError::PasswordTooWeak
    }
}

impl vstd::std_specs::convert::FromSpecImpl<PasswordTooWeak> for RegisterError {
    open spec fn obeys_from_spec() -> bool {
        true
    }

    open spec fn from_spec(kind: PasswordTooWeak) -> Self {
        RegisterError::PasswordTooWeak
    }
}

/// Stands for the `UsernameTaken` kind of `RegisterError`.
pub struct UsernameTaken;

impl UsernameTaken {
    /// A builder for an answer of kind `UsernameTaken`, with no details.
    pub fn new() -> (r: ErrorBuilder<RegisterError>)
        ensures
            r.kind == RegisterError::UsernameTaken,
            r.details is None,
    {
        ErrorBuilder::new(RegisterError::UsernameTaken)
    }
}

impl From<UsernameTaken> for RegisterError {
    fn from(kind: UsernameTaken) -> (r: Self) {
        RegisterError::UsernameTaken
    }
}

impl vstd::std_specs::convert::FromSpecImpl<UsernameTaken> for RegisterError {
    open spec fn obeys_from_spec() -> bool {
        true
    }

    open spec fn from_spec(kind: UsernameTaken) -> Self {
        RegisterError::UsernameTaken
    }
}

/// Stands for the `EmailTaken` kind of `RegisterError`.
pub struct EmailTaken;

impl EmailTaken {
    /// A builder for an answer of kind `EmailTaken`, with no details.
    pub fn new() -> (r: ErrorBuilder<RegisterError>)
        ensures
            r.kind == RegisterError::EmailTaken,
            r.details is None,
    {
        ErrorBuilder::new(RegisterError::EmailTaken)
    }
}

impl From<EmailTaken> for RegisterError {
    fn from(kind: EmailTaken) -> (r: Self) {
        RegisterError::EmailTaken
    }
}

impl vstd::std_specs::convert::FromSpecImpl<EmailTaken> for RegisterError {
    open spec fn obeys_from_spec() -> bool {
        true
    }

    open spec fn from_spec(kind: EmailTaken) -> Self {
        RegisterError::EmailTaken
    }
}

/// Stands for the `InternalError` kind of `RegisterError`.
pub struct InternalError;

impl InternalError {
    /// A builder for an answer of kind `InternalError`, with no details.
    pub fn new() -> (r: ErrorBuilder<RegisterError>)
        ensures
            r.kind == RegisterError::InternalError,
            r.details is None,
    {
        ErrorBuilder::new(RegisterError::InternalError)
    }
}

impl From<InternalError> for RegisterError {
    fn from(kind: InternalError) -> (r: Self) {
        RegisterError::InternalError
    }
}

impl vstd::std_specs::convert::FromSpecImpl<InternalError> for RegisterError {
    open spec fn obeys_from_spec() -> bool {
        true
    }

    open spec fn from_spec(kind: InternalError) -> Self {
        RegisterError::InternalError
    }
}

} // verus!
