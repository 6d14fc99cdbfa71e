use backend::errors::{
    ApiError, AppError, ErrorBuilder, ErrorDetails, GeneratedDocs, LoginError, RegisterError,
};
use backend::user_auth::AuthError;

fn is_random_v4(id: u128) -> bool {
    (id >> 76) & 0xf == 4 && (id >> 62) & 0x3 == 2
}

#[test]
fn login_error_statuses_and_messages() {
    assert_eq!(LoginError::InvalidCredentials.status_code(), 401);
    assert_eq!(LoginError::Error2.status_code(), 500);
    assert_eq!(LoginError::Error3.status_code(), 500);
    assert_eq!(LoginError::InvalidCredentials.message(), "InvalidCredentials");
    assert_eq!(LoginError::Error2.message(), "Error2");
    assert_eq!(LoginError::Error3.message(), "Error3");
}

#[test]
fn register_error_statuses_and_messages() {
    assert_eq!(RegisterError::PasswordTooWeak.status_code(), 400);
    assert_eq!(RegisterError::UsernameTaken.status_code(), 409);
    assert_eq!(RegisterError::EmailTaken.status_code(), 409);
    assert_eq!(RegisterError::InternalError.status_code(), 500);
    assert_eq!(RegisterError::PasswordTooWeak.message(), "PasswordTooWeak");
    assert_eq!(RegisterError::UsernameTaken.message(), "UsernameTaken");
    assert_eq!(RegisterError::EmailTaken.message(), "EmailTaken");
    assert_eq!(RegisterError::InternalError.message(), "InternalError");
}

#[test]
fn documented_codes_are_sorted_and_distinct() {
    assert_eq!(LoginError::generated_error_docs(), vec![401, 500]);
    assert_eq!(RegisterError::generated_error_docs(), vec![400, 409, 500]);
}

#[test]
fn from_kind_takes_message_and_status() {
    let e = AppError::from_kind(RegisterError::UsernameTaken);
    assert_eq!(e.error, "UsernameTaken");
    assert_eq!(e.status, 409);
    assert_eq!(e.kind, RegisterError::UsernameTaken);
    assert!(e.error_details.is_none());
    assert!(is_random_v4(e.error_id));
}

#[test]
fn error_ids_are_fresh() {
    let a = AppError::from_kind(LoginError::Error2);
    let b = AppError::from_kind(LoginError::Error2);
    assert_ne!(a.error_id, b.error_id);
}

#[test]
fn builder_with_description() {
    let e = LoginError::invalid_credentials().description("User not found".to_string()).build();
    assert_eq!(e.status, 401);
    assert_eq!(e.error, "InvalidCredentials");
    match e.error_details {
        Some(ErrorDetails::Description(d)) => assert_eq!(d, "User not found"),
        _ => panic!("expected a description"),
    }
}

#[test]
fn builder_without_details() {
    let e = RegisterError::internal_error().build();
    assert_eq!(e.status, 500);
    assert_eq!(e.kind, RegisterError::InternalError);
    assert!(e.error_details.is_none());
}

#[test]
fn builder_with_json_details_replaces_description() {
    let value = serde_json::Value::Bool(true);
    let b = ErrorBuilder::new(RegisterError::EmailTaken)
        .description("first".to_string())
        .details(value.clone());
    match b.build().error_details {
        Some(ErrorDetails::Value(v)) => assert_eq!(v, value),
        _ => panic!("expected JSON details"),
    }
}

#[test]
fn with_details_and_with_details_opt() {
    let e = AppError::from_kind(LoginError::Error3).with_details(serde_json::Value::Null);
    assert!(matches!(e.error_details, Some(ErrorDetails::Value(serde_json::Value::Null))));
    let id = e.error_id;
    let e = e.with_details_opt(None);
    assert!(e.error_details.is_none());
    assert_eq!(e.error_id, id);
    assert_eq!(e.error, "Error3");
}

#[test]
fn constructors_pick_their_kind() {
    assert_eq!(LoginError::error2().kind, LoginError::Error2);
    assert_eq!(LoginError::error3().kind, LoginError::Error3);
    assert_eq!(RegisterError::password_too_weak().kind, RegisterError::PasswordTooWeak);
    assert_eq!(RegisterError::username_taken().kind, RegisterError::UsernameTaken);
    assert_eq!(RegisterError::email_taken().kind, RegisterError::EmailTaken);
}

#[test]
fn auth_error_responses() {
    assert_eq!(AuthError::WrongCredentials.response_parts(), (401, "Wrong credentials"));
    assert_eq!(AuthError::MissingCredentials.response_parts(), (400, "Missing credentials"));
    assert_eq!(AuthError::TokenCreation.response_parts(), (500, "Token creation error"));
    assert_eq!(AuthError::InvalidToken.response_parts(), (400, "Invalid token"));
}

#[test]
fn app_error_docs_follow_the_kind() {
    assert_eq!(AppError::<LoginError>::error_docs(), vec![401, 500]);
    assert_eq!(AppError::<RegisterError>::error_docs(), vec![400, 409, 500]);
}
