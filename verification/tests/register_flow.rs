use backend::errors::{ErrorDetails, RegisterError};
use backend::register::{
    new_account, register_after_email, register_after_insert, register_after_username,
    register_begin, register_refusal, RegisterStep, UserRegistrationRequest,
};

fn request(password: &str) -> UserRegistrationRequest {
    UserRegistrationRequest {
        first_name: "Ada".to_string(),
        last_name: "Lovelace".to_string(),
        email: "ada@example.com".to_string(),
        username: "ada".to_string(),
        password: password.to_string(),
    }
}

#[test]
fn weak_password_is_refused_first() {
    let step = register_begin(&request("short"));
    match &step {
        RegisterStep::Reject { error, description } => {
            assert_eq!(*error, RegisterError::PasswordTooWeak);
            assert_eq!(
                description.as_deref(),
                Some("Password must contain: at least 8 characters, an uppercase letter, a number, a special character")
            );
        }
        _ => panic!("expected a refusal"),
    }
    let b = register_refusal(step).unwrap();
    assert_eq!(b.kind, RegisterError::PasswordTooWeak);
    assert!(matches!(b.details, Some(ErrorDetails::Description(_))));
}

#[test]
fn strong_password_leads_to_username_check() {
    match register_begin(&request("Secr3t!pw")) {
        RegisterStep::CheckUsername { username } => assert_eq!(username, "ada"),
        _ => panic!("expected a username check"),
    }
}

#[test]
fn taken_username_is_refused() {
    let step = register_after_username(&request("Secr3t!pw"), true);
    assert!(matches!(step, RegisterStep::Reject { error: RegisterError::UsernameTaken, description: None }));
    let b = register_refusal(step).unwrap();
    assert_eq!(b.kind, RegisterError::UsernameTaken);
    assert!(b.details.is_none());
}

#[test]
fn free_username_leads_to_email_check() {
    match register_after_username(&request("Secr3t!pw"), false) {
        RegisterStep::CheckEmail { email } => assert_eq!(email, "ada@example.com"),
        _ => panic!("expected an email check"),
    }
}

#[test]
fn taken_email_is_refused() {
    let step = register_after_email(request("Secr3t!pw"), true);
    assert!(matches!(step, RegisterStep::Reject { error: RegisterError::EmailTaken, description: None }));
}

#[test]
fn free_email_creates_the_account() {
    match register_after_email(request("Secr3t!pw"), false) {
        RegisterStep::CreateAccount { account, password } => {
            assert_eq!(password, "Secr3t!pw");
            assert_eq!(account.username, "ada");
            assert_eq!(account.email, "ada@example.com");
            assert_eq!(account.first_name, "Ada");
            assert_eq!(account.last_name, "Lovelace");
            assert_eq!(account.permission_level, "User");
            assert!(!account.email_verified);
            assert_eq!(account.failed_login_count, 0);
            assert!(!account.two_factor_enabled);
            assert!(!account.must_change_password);
            assert_eq!((account.id >> 76) & 0xf, 4);
            assert_eq!((account.id >> 62) & 0x3, 2);
        }
        _ => panic!("expected an account"),
    }
}

#[test]
fn new_account_uses_the_given_id() {
    let (account, password) = new_account(request("pw"), 7);
    assert_eq!(account.id, 7);
    assert_eq!(password, "pw");
}

#[test]
fn failed_insert_is_an_internal_error() {
    let step = register_after_insert(9, false);
    assert!(matches!(step, RegisterStep::Reject { error: RegisterError::InternalError, description: None }));
    assert_eq!(register_refusal(step).unwrap().kind, RegisterError::InternalError);
}

#[test]
fn stored_account_gets_a_user_token() {
    let step = register_after_insert(9, true);
    match &step {
        RegisterStep::IssueToken { user_id, permission_level } => {
            assert_eq!(*user_id, 9);
            assert_eq!(permission_level, "User");
        }
        _ => panic!("expected a token"),
    }
    assert!(register_refusal(step).is_none());
}
