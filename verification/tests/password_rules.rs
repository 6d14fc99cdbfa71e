use backend::password::{password_verdict, validate_password};

#[test]
fn strong_password_is_accepted() {
    assert_eq!(validate_password("Abcdef1!"), Ok(()));
}

#[test]
fn empty_password_lacks_everything() {
    assert_eq!(
        validate_password(""),
        Err("Password must contain: at least 8 characters, an uppercase letter, a lowercase letter, a number, a special character".to_string())
    );
}

#[test]
fn short_password_reports_length_only() {
    assert_eq!(
        validate_password("Ab1!"),
        Err("Password must contain: at least 8 characters".to_string())
    );
}

#[test]
fn length_counts_utf8_bytes() {
    // five characters, eight bytes of UTF-8
    assert_eq!(validate_password("Éé1!é"), Ok(()));
}

#[test]
fn missing_special_character_is_reported() {
    assert_eq!(
        validate_password("Abcdefg1"),
        Err("Password must contain: a special character".to_string())
    );
}

#[test]
fn several_missing_classes_are_joined_in_order() {
    assert_eq!(
        validate_password("abcdefgh"),
        Err("Password must contain: an uppercase letter, a number, a special character".to_string())
    );
}

#[test]
fn non_ascii_digits_do_not_count_as_numbers() {
    assert_eq!(
        validate_password("Abcdefg٣!"),
        Err("Password must contain: a number".to_string())
    );
}

#[test]
fn unicode_letters_count_for_case_classes() {
    assert_eq!(validate_password("ÄÖÜäöü1?"), Ok(()));
}

#[test]
fn added_text_keeps_a_strong_password_strong() {
    assert_eq!(validate_password("Abcdef1!"), Ok(()));
    assert_eq!(validate_password("xyAbcdef1!"), Ok(()));
    assert_eq!(validate_password("Abcdef1!zz"), Ok(()));
}

#[test]
fn added_text_only_removes_failures() {
    assert_eq!(
        validate_password("abc"),
        Err("Password must contain: at least 8 characters, an uppercase letter, a number, a special character".to_string())
    );
    assert_eq!(
        validate_password("abcXYZ12"),
        Err("Password must contain: a special character".to_string())
    );
}

#[test]
fn verdict_with_every_class_and_enough_bytes_is_ok() {
    assert_eq!(password_verdict(8, true, true, true, true), Ok(()));
    assert_eq!(password_verdict(100, true, true, true, true), Ok(()));
}

#[test]
fn verdict_names_each_failed_rule_in_order() {
    assert_eq!(
        password_verdict(7, true, true, true, true),
        Err("Password must contain: at least 8 characters".to_string())
    );
    assert_eq!(
        password_verdict(3, true, false, true, false),
        Err("Password must contain: at least 8 characters, a lowercase letter, a special character".to_string())
    );
    assert_eq!(
        password_verdict(0, false, false, false, false),
        Err("Password must contain: at least 8 characters, an uppercase letter, a lowercase letter, a number, a special character".to_string())
    );
    assert_eq!(
        password_verdict(12, true, true, false, true),
        Err("Password must contain: a number".to_string())
    );
}
