//! One type per kind of `LoginError`, each building that kind and converting into it.

use vstd::prelude::*;
use crate::errors::{ErrorBuilder, LoginError};

verus! {

/// Stands for the `InvalidCredentials` kind of `LoginError`.
pub struct InvalidCredentials;

impl InvalidCredentials {
    /// A builder for an answer of kind `InvalidCredentials`, with no details.
    pub fn new() -> (r: ErrorBuilder<LoginError>)
        ensures
            r.kind == LoginError::InvalidCredentials,
            r.details is None,
    {
        ErrorBuilder::new(LoginError::InvalidCredentials)
    }
}

impl From<InvalidCredentials> for LoginError {
    fn from(kind: InvalidCredentials) -> (r: Self) {
        LoginError::InvalidCredentials
    }
}

impl vstd::std_specs::convert::FromSpecImpl<InvalidCredentials> for LoginError {
    open spec fn obeys_from_spec() -> bool {
        true
    }

    open spec fn from_spec(kind: InvalidCredentials) -> Self {
        LoginError::InvalidCredentials
    }
}

/// Stands for the `Error2` kind of `LoginError`.
pub struct Error2;

impl Error2 {
    /// A builder for an answer of kind `Error2`, with no details.
    pub fn new() -> (r: ErrorBuilder<LoginError>)
        ensures
            r.kind == LoginError::Error2,
            r.details is None,
    {
        ErrorBuilder::new(LoginError::Error2)
    }
}

impl From<Error2> for LoginError {
    fn from(kind: Error2) -> (r: Self) {
        LoginError::Error2
    }
}

impl vstd::std_specs::convert::FromSpecImpl<Error2> for LoginError {
    open spec fn obeys_from_spec() -> bool {
        true
    }

    open spec fn from_spec(kind: Error2) -> Self {
        LoginError::Error2
    }
}

/// Stands for the `Error3` kind of `LoginError`.
pub struct Error3;

impl Error3 {
    /// A builder for an answer of kind `Error3`, with no details.
    pub fn new() -> (r: ErrorBuilder<LoginError>)
        ensures
            r.kind == LoginError::Error3,
            r.details is None,
    {
        ErrorBuilder::new(LoginError::Error3)
    }
}

impl From<Error3> for LoginError {
    fn from(kind: Error3) -> (r: Self) {
        LoginError::Error3
    }
}

impl vstd::std_specs::convert::FromSpecImpl<Error3> for LoginError {
    open spec fn obeys_from_spec() -> bool {
        true
    }

    open spec fn from_spec(kind: Error3) -> Self {
        LoginError::Error3
    }
}

} // verus!
