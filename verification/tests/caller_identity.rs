use backend::user_auth::{bearer_token, AuthError, Claims, UserAuth};

fn caller(sub: &str, level: &str) -> UserAuth {
    UserAuth::authenticate(
        "tok".to_string(),
        Some(Claims { sub: sub.to_string(), permission_level: level.to_string() }),
    )
    .unwrap()
}

#[test]
fn bearer_token_is_read() {
    assert_eq!(bearer_token(Some("Bearer abc.def")), Ok("abc.def".to_string()));
}

#[test]
fn bearer_scheme_ignores_ascii_case() {
    assert_eq!(bearer_token(Some("bEaReR xyz")), Ok("xyz".to_string()));
}

#[test]
fn bearer_token_leading_blanks_are_trimmed() {
    assert_eq!(bearer_token(Some("Bearer  \t tok ")), Ok("tok ".to_string()));
}

#[test]
fn bearer_token_may_be_empty() {
    assert_eq!(bearer_token(Some("Bearer ")), Ok(String::new()));
}

#[test]
fn missing_header_is_an_invalid_token() {
    assert_eq!(bearer_token(None), Err(AuthError::InvalidToken));
}

#[test]
fn other_schemes_are_invalid_tokens() {
    assert_eq!(bearer_token(Some("Basic dXNlcjpwYXNz")), Err(AuthError::InvalidToken));
    assert_eq!(bearer_token(Some("Bearer")), Err(AuthError::InvalidToken));
    assert_eq!(bearer_token(Some("Bearer\tabc")), Err(AuthError::InvalidToken));
    assert_eq!(bearer_token(Some("Bearerabc")), Err(AuthError::InvalidToken));
}

#[test]
fn non_text_header_values_are_invalid_tokens() {
    assert_eq!(bearer_token(Some("Bearer tök")), Err(AuthError::InvalidToken));
    assert_eq!(bearer_token(Some("Bearer a\u{1}b")), Err(AuthError::InvalidToken));
}

#[test]
fn unverified_token_is_wrong_credentials() {
    assert_eq!(UserAuth::authenticate("t".to_string(), None).err(), Some(AuthError::WrongCredentials));
}

#[test]
fn verified_token_keeps_its_claims() {
    let u = caller("s", "Admin");
    assert_eq!(u.token, "tok");
    assert_eq!(u.claims.as_ref().unwrap().sub, "s");
}

#[test]
fn user_id_is_the_subject_uuid() {
    let u = caller("67e55044-10b1-426f-9247-bb680e5fe0c8", "User");
    assert_eq!(u.request_user_id(), 0x67e55044_10b1_426f_9247_bb680e5fe0c8);
    assert_eq!(u.try_request_user_id(), Some(0x67e55044_10b1_426f_9247_bb680e5fe0c8));
}

#[test]
fn user_id_accepts_other_uuid_forms() {
    let simple = caller("67e5504410b1426f9247bb680e5fe0c8", "User");
    assert_eq!(simple.try_request_user_id(), Some(0x67e55044_10b1_426f_9247_bb680e5fe0c8));
    let braced = caller("{67e55044-10b1-426f-9247-bb680e5fe0c8}", "User");
    assert_eq!(braced.try_request_user_id(), Some(0x67e55044_10b1_426f_9247_bb680e5fe0c8));
}

#[test]
fn non_uuid_subject_has_no_user_id() {
    assert_eq!(caller("not-a-uuid", "User").try_request_user_id(), None);
    let no_claims = UserAuth { token: "t".to_string(), claims: None };
    assert_eq!(no_claims.try_request_user_id(), None);
}

#[test]
fn permission_level_and_check() {
    let u = caller("s", "Admin");
    assert_eq!(u.permission_level(), "Admin");
    assert!(u.check_permission("Admin"));
    assert!(!u.check_permission("admin"));
    assert!(!u.check_permission("User"));
}

#[test]
fn caller_displays_its_token() {
    assert_eq!(caller("s", "User").to_display_string(), "Token:tok");
}

#[test]
fn logout_answers_ok_without_body() {
    let answer = backend::session::logout(&caller("u", "user"));
    assert_eq!((answer.status, answer.body), (200, None));
}

#[test]
fn check_session_answers_true() {
    let answer = backend::session::check_session(&caller("u", "user"));
    assert_eq!((answer.status, answer.body), (200, Some(true)));
}

#[test]
fn user_id_reads_urn_form_in_any_case_and_mixed_case_digits() {
    let urn = caller("URN:Uuid:67E55044-10b1-426F-9247-bb680e5fe0c8", "User");
    assert_eq!(urn.try_request_user_id(), Some(0x67e55044_10b1_426f_9247_bb680e5fe0c8));
}

#[test]
fn user_id_refuses_misplaced_hyphens_and_non_hex_digits() {
    assert_eq!(caller("67e5504410-b1-426f-9247-bb680e5fe0c8", "User").try_request_user_id(), None);
    assert_eq!(caller("67e55044-10b1-426f-9247-bb680e5fe0cg", "User").try_request_user_id(), None);
    assert_eq!(caller("(67e55044-10b1-426f-9247-bb680e5fe0c8)", "User").try_request_user_id(), None);
    assert_eq!(caller("urx:uuid:67e55044-10b1-426f-9247-bb680e5fe0c8", "User").try_request_user_id(), None);
}
