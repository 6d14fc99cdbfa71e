//! The error catalogue of the API: what each error kind answers, and the
//! error values that handlers build from a kind and optional details.

use vstd::prelude::*;
use crate::ids::{is_random_uuid, new_random_uuid};

verus! {

#[verifier::external_type_specification]
#[verifier::external_body]
pub struct ExJsonValue(serde_json::Value);

/// An error kind that an endpoint can answer with.
pub trait ApiError: Sized {
    /// The HTTP status code of this kind.
    spec fn status_of(&self) -> u16;

    /// The message of this kind.
    spec fn message_of(&self) -> Seq<char>;

    fn status_code(&self) -> (r: u16)
        ensures
            r == self.status_of(),
    ;

    fn message(&self) -> (r: &'static str)
        ensures
            r@ == self.message_of(),
    ;
}

/// An error kind whose status codes are documented for its endpoint.
pub trait GeneratedDocs: ApiError {
    /// The status codes documented for the kind, in increasing order.
    spec fn documented_codes() -> Seq<u16>;

    fn generated_error_docs() -> (r: Vec<u16>)
        ensures
            r@ == Self::documented_codes(),
    ;
}

/// Whether `codes` is strictly increasing.
pub open spec fn strictly_increasing(codes: Seq<u16>) -> bool {
    forall|i: int, j: int| 0 <= i < j < codes.len() ==> codes[i] < codes[j]
}

/// Extra detail attached to an error answer.
pub enum ErrorDetails {
    /// A human-readable description; answered as `{"description": text}`.
    Description(String),
    /// Arbitrary JSON, answered as it stands.
    Value(serde_json::Value),
}

/// An error answer: the kind, its message and status, a fresh id and details.
pub struct AppError<E> {
    pub error: String,
    pub error_id: u128,
    pub error_details: Option<ErrorDetails>,
    pub status: u16,
    pub kind: E,
}

impl<E: ApiError> AppError<E> {
    /// The answer for `kind`, with its message and status, a fresh random id
    /// and no details.
    pub fn from_kind(kind: E) -> (r: Self)
        ensures
            r.error@ == kind.message_of(),
            r.status == kind.status_of(),
            r.error_details is None,
            r.kind == kind,
            is_random_uuid(r.error_id),
    {
        let message = kind.message().to_owned();
        let status = kind.status_code();
        AppError {
            error: message,
            error_id: new_random_uuid(),
            error_details: None,
            status,
            kind,
        }
    }

    /// The same answer with `details` attached as JSON.
    pub fn with_details(self, details: serde_json::Value) -> (r: Self)
        ensures
            r.error == self.error,
            r.error_id == self.error_id,
            r.status == self.status,
            r.kind == self.kind,
            r.error_details == Some(ErrorDetails::Value(details)),
    {
        let mut this = self;
        this.error_details = Some(ErrorDetails::Value(details));
        this
    }

    /// The same answer with its details replaced by `details`.
    pub fn with_details_opt(self, details: Option<ErrorDetails>) -> (r: Self)
        ensures
            r.error == self.error,
            r.error_id == self.error_id,
            r.status == self.status,
            r.kind == self.kind,
            r.error_details == details,
    {
        let mut this = self;
        this.error_details = details;
        this
    }
}

impl<E: GeneratedDocs> AppError<E> {
    /// The error statuses documented for answers of kind `E`.
    pub fn error_docs() -> (r: Vec<u16>)
        ensures
            r@ == E::documented_codes(),
    {
        E::generated_error_docs()
    }
}

/// Collects the kind and details of an error answer before it is built.
pub struct ErrorBuilder<E> {
    pub kind: E,
    pub details: Option<ErrorDetails>,
}

impl<E: ApiError> ErrorBuilder<E> {
    pub fn new(kind: E) -> (r: Self)
        ensures
            r.kind == kind,
            r.details is None,
    {
        ErrorBuilder { kind, details: None }
    }

    /// Attaches a human-readable description, replacing earlier details.
    pub fn description(self, text: String) -> (r: Self)
        ensures
            r.kind == self.kind,
            r.details == Some(ErrorDetails::Description(text)),
    {
        ErrorBuilder { kind: self.kind, details: Some(ErrorDetails::Description(text)) }
    }

    /// Attaches arbitrary JSON details, replacing earlier details.
    pub fn details(self, details: serde_json::Value) -> (r: Self)
        ensures
            r.kind == self.kind,
            r.details == Some(ErrorDetails::Value(details)),
    {
        ErrorBuilder { kind: self.kind, details: Some(ErrorDetails::Value(details)) }
    }

    /// The answer for the collected kind and details.
    pub fn build(self) -> (r: AppError<E>)
        ensures
            r.error@ == self.kind.message_of(),
            r.status == self.kind.status_of(),
            r.kind == self.kind,
            r.error_details == self.details,
            is_random_uuid(r.error_id),
    {
        AppError::from_kind(self.kind).with_details_opt(self.details)
    }
}

/// Errors of the login endpoint.
#[derive(Debug, Clone, Copy, PartialEq, Eq, Structural)]
pub enum LoginError {
    InvalidCredentials,
    Error2,
    Error3,
}

impl ApiError for LoginError {
    open spec fn status_of(&self) -> u16 {
        match self {
            LoginError::InvalidCredentials => 401,
            LoginError::Error2 => 500,
            LoginError::Error3 => 500,
        }
    }

    open spec fn message_of(&self) -> Seq<char> {
        match self {
            LoginError::InvalidCredentials => "InvalidCredentials"@,
            LoginError::Error2 => "Error2"@,
            LoginError::Error3 => "Error3"@,
        }
    }

    fn status_code(&self) -> (r: u16) {
        match self {
            LoginError::InvalidCredentials => 401,
            LoginError::Error2 => 500,
            LoginError::Error3 => 500,
        }
    }

    fn message(&self) -> (r: &'static str) {
        match self {
            LoginError::InvalidCredentials => "InvalidCredentials",
            LoginError::Error2 => "Error2",
            LoginError::Error3 => "Error3",
        }
    }
}

impl GeneratedDocs for LoginError {
    open spec fn documented_codes() -> Seq<u16> {
        seq![401u16, 500u16]
    }

    fn generated_error_docs() -> (r: Vec<u16>) {
        vec![401, 500]
    }
}

impl LoginError {
    pub fn invalid_credentials() -> (r: ErrorBuilder<LoginError>)
        ensures
            r.kind == LoginError::InvalidCredentials,
            r.details is None,
    {
        ErrorBuilder::new(LoginError::InvalidCredentials)
    }

    pub fn error2() -> (r: ErrorBuilder<LoginError>)
        ensures
            r.kind == LoginError::Error2,
            r.details is None,
    {
        ErrorBuilder::new(LoginError::Error2)
    }

    pub fn error3() -> (r: ErrorBuilder<LoginError>)
        ensures
            r.kind == LoginError::Error3,
            r.details is None,
    {
        ErrorBuilder::new(LoginError::Error3)
    }
}

/// Errors of the registration endpoint.
#[derive(Debug, Clone, Copy, PartialEq, Eq, Structural)]
pub enum RegisterError {
    PasswordTooWeak,
    UsernameTaken,
    EmailTaken,
    InternalError,
}

impl ApiError for RegisterError {
    open spec fn status_of(&self) -> u16 {
        match self {
            RegisterError::PasswordTooWeak => 400,
            RegisterError::UsernameTaken => 409,
            RegisterError::EmailTaken => 409,
            RegisterError::InternalError => 500,
        }
    }

    open spec fn message_of(&self) -> Seq<char> {
        match self {
            RegisterError::PasswordTooWeak => "PasswordTooWeak"@,
            RegisterError::UsernameTaken => "UsernameTaken"@,
            RegisterError::EmailTaken => "EmailTaken"@,
            RegisterError::InternalError => "InternalError"@,
        }
    }

    fn status_code(&self) -> (r: u16) {
        match self {
            RegisterError::PasswordTooWeak => 400,
            RegisterError::UsernameTaken => 409,
            RegisterError::EmailTaken => 409,
            RegisterError::InternalError => 500,
        }
    }

    fn message(&self) -> (r: &'static str) {
        match self {
            RegisterError::PasswordTooWeak => "PasswordTooWeak",
            RegisterError::UsernameTaken => "UsernameTaken",
            RegisterError::EmailTaken => "EmailTaken",
            RegisterError::InternalError => "InternalError",
        }
    }
}

impl GeneratedDocs for RegisterError {
    open spec fn documented_codes() -> Seq<u16> {
        seq![400u16, 409u16, 500u16]
    }

    fn generated_error_docs() -> (r: Vec<u16>) {
        vec![400, 409, 500]
    }
}

impl RegisterError {
    pub fn password_too_weak() -> (r: ErrorBuilder<RegisterError>)
        ensures
            r.kind == RegisterError::PasswordTooWeak,
            r.details is None,
    {
        ErrorBuilder::new(RegisterError::PasswordTooWeak)
    }

    pub fn username_taken() -> (r: ErrorBuilder<RegisterError>)
        ensures
            r.kind == RegisterError::UsernameTaken,
            r.details is None,
    {
        ErrorBuilder::new(RegisterError::UsernameTaken)
    }

    pub fn email_taken() -> (r: ErrorBuilder<RegisterError>)
        ensures
            r.kind == RegisterError::EmailTaken,
            r.details is None,
    {
        ErrorBuilder::new(RegisterError::EmailTaken)
    }

    pub fn internal_error() -> (r: ErrorBuilder<RegisterError>)
        ensures
            r.kind == RegisterError::InternalError,
            r.details is None,
    {
        ErrorBuilder::new(RegisterError::InternalError)
    }
}

/// The documented codes of login errors are exactly the statuses its kinds
/// answer with, each once, in increasing order.
pub proof fn law_login_codes_cover_kinds(kind: LoginError)
    ensures
        LoginError::documented_codes().contains(kind.status_of()),
        strictly_increasing(LoginError::documented_codes()),
        forall|i: int| 0 <= i < LoginError::documented_codes().len() ==> exists|k: LoginError|
            #[trigger] LoginError::documented_codes()[i] == k.status_of(),
{
    let codes = LoginError::documented_codes();
    assert(codes[0] == LoginError::InvalidCredentials.status_of());
    assert(codes[1] == LoginError::Error2.status_of());
    match kind {
        LoginError::InvalidCredentials => assert(codes[0] == kind.status_of()),
        _ => assert(codes[1] == kind.status_of()),
    }
}

/// The documented codes of registration errors are exactly the statuses its
/// kinds answer with, each once, in increasing order.
pub proof fn law_register_codes_cover_kinds(kind: RegisterError)
    ensures
        RegisterError::documented_codes().contains(kind.status_of()),
        strictly_increasing(RegisterError::documented_codes()),
        forall|i: int| 0 <= i < RegisterError::documented_codes().len() ==> exists|k: RegisterError|
            #[trigger] RegisterError::documented_codes()[i] == k.status_of(),
{
    let codes = RegisterError::documented_codes();
    assert(codes[0] == RegisterError::PasswordTooWeak.status_of());
    assert(codes[1] == RegisterError::UsernameTaken.status_of());
    assert(codes[2] == RegisterError::InternalError.status_of());
    match kind {
        RegisterError::PasswordTooWeak => assert(codes[0] == kind.status_of()),
        RegisterError::InternalError => assert(codes[2] == kind.status_of()),
        _ => assert(codes[1] == kind.status_of()),
    }
}

} // verus!
