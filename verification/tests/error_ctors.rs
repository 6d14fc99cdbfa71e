use backend::errors::{LoginError, RegisterError};
use backend::{login_error_ctors, register_error_ctors};

#[test]
fn register_ctor_types_build_and_convert() {
    assert_eq!(register_error_ctors::EmailTaken::new().kind, RegisterError::EmailTaken);
    assert!(register_error_ctors::EmailTaken::new().details.is_none());
    assert_eq!(RegisterError::from(register_error_ctors::EmailTaken), RegisterError::EmailTaken);
    assert_eq!(RegisterError::from(register_error_ctors::PasswordTooWeak), RegisterError::PasswordTooWeak);
    assert_eq!(RegisterError::from(register_error_ctors::UsernameTaken), RegisterError::UsernameTaken);
    assert_eq!(RegisterError::from(register_error_ctors::InternalError), RegisterError::InternalError);
    assert_eq!(register_error_ctors::InternalError::new().kind, RegisterError::InternalError);
}

#[test]
fn login_ctor_types_build_and_convert() {
    assert_eq!(login_error_ctors::InvalidCredentials::new().kind, LoginError::InvalidCredentials);
    assert_eq!(LoginError::from(login_error_ctors::InvalidCredentials), LoginError::InvalidCredentials);
    assert_eq!(LoginError::from(login_error_ctors::Error2), LoginError::Error2);
    assert_eq!(LoginError::from(login_error_ctors::Error3), LoginError::Error3);
    assert_eq!(login_error_ctors::Error3::new().kind, LoginError::Error3);
}

#[test]
fn snake_case_constructors_match_register_kinds() {
    assert_eq!(RegisterError::password_too_weak().kind, RegisterError::PasswordTooWeak);
    assert_eq!(RegisterError::username_taken().kind, RegisterError::UsernameTaken);
    assert_eq!(RegisterError::email_taken().kind, RegisterError::EmailTaken);
    assert_eq!(RegisterError::internal_error().kind, RegisterError::InternalError);
    assert!(RegisterError::internal_error().details.is_none());
}
