use backend::catalog::{parse_error_catalog, ErrorCatalog, MacroToken, SpecError, SpecErrorKind};
use backend::errors::{ApiError, GeneratedDocs, LoginError, RegisterError};

fn id(s: &str) -> MacroToken {
    MacroToken::Ident(s.to_string())
}
fn p(c: char) -> MacroToken {
    MacroToken::Punct(c, false)
}
fn pj(c: char) -> MacroToken {
    MacroToken::Punct(c, true)
}
fn lit(v: u128) -> MacroToken {
    MacroToken::Int(v)
}
fn braces(kinds: &[&str]) -> MacroToken {
    let mut inner = Vec::new();
    for (i, k) in kinds.iter().enumerate() {
        if i > 0 {
            inner.push(p(','));
        }
        inner.push(id(k));
    }
    MacroToken::Braces(inner)
}

/// `LoginError, 401 = { InvalidCredentials}; 500 = { Error2, Error3 }`
fn login_declaration() -> Vec<MacroToken> {
    vec![
        id("LoginError"), p(','),
        lit(401), p('='), braces(&["InvalidCredentials"]), p(';'),
        lit(500), p('='), braces(&["Error2", "Error3"]),
    ]
}

/// `RegisterError, 400 = { PasswordTooWeak }; 409 = { UsernameTaken, EmailTaken }; 500 = { InternalError }`
fn register_declaration() -> Vec<MacroToken> {
    vec![
        id("RegisterError"), p(','),
        lit(400), p('='), braces(&["PasswordTooWeak"]), p(';'),
        lit(409), p('='), braces(&["UsernameTaken", "EmailTaken"]), p(';'),
        lit(500), p('='), braces(&["InternalError"]),
    ]
}

fn codes_and_kinds(c: &ErrorCatalog) -> Vec<(u16, Vec<String>)> {
    c.status_groups().into_iter().map(|g| (g.status, g.kinds)).collect()
}

#[test]
fn login_declaration_matches_login_errors() {
    let c = parse_error_catalog(&login_declaration()).unwrap();
    assert_eq!(c.name, "LoginError");
    assert!(c.root.is_none());
    assert_eq!(c.kinds(), vec!["InvalidCredentials", "Error2", "Error3"]);
    for kind in [LoginError::InvalidCredentials, LoginError::Error2, LoginError::Error3] {
        assert_eq!(c.status_of(kind.message()), Some(kind.status_code()));
    }
    assert_eq!(c.documented_codes(), LoginError::generated_error_docs());
}

#[test]
fn register_declaration_matches_register_errors() {
    let c = parse_error_catalog(&register_declaration()).unwrap();
    for kind in [
        RegisterError::PasswordTooWeak,
        RegisterError::UsernameTaken,
        RegisterError::EmailTaken,
        RegisterError::InternalError,
    ] {
        assert_eq!(c.status_of(kind.message()), Some(kind.status_code()));
    }
    assert_eq!(c.documented_codes(), RegisterError::generated_error_docs());
    assert_eq!(
        codes_and_kinds(&c),
        vec![
            (400, vec!["PasswordTooWeak".to_string()]),
            (409, vec!["UsernameTaken".to_string(), "EmailTaken".to_string()]),
            (500, vec!["InternalError".to_string()]),
        ]
    );
}

#[test]
fn groups_merge_repeated_statuses_in_increasing_order() {
    let t = vec![
        id("E"), p(','),
        lit(500), p('='), braces(&["A"]), p(','),
        lit(404), p('='), braces(&["B"]),
        lit(500), p('='), braces(&["C", "D"]), p(';'), p(','),
    ];
    let c = parse_error_catalog(&t).unwrap();
    assert_eq!(c.documented_codes(), vec![404, 500]);
    assert_eq!(
        codes_and_kinds(&c),
        vec![
            (404, vec!["B".to_string()]),
            (500, vec!["A".to_string(), "C".to_string(), "D".to_string()]),
        ]
    );
    assert_eq!(c.status_of("C"), Some(500));
    assert_eq!(c.status_of("Z"), None);
}

#[test]
fn root_path_is_read() {
    let t = vec![
        id("E"), p(','), id("root"), p('='),
        id("crate"), pj(':'), p(':'), id("errors"), p(','),
        lit(400), p('='), braces(&["Bad"]),
    ];
    let c = parse_error_catalog(&t).unwrap();
    let root = c.root.unwrap();
    assert!(!root.leading_colon);
    let names: Vec<String> = root.segments.into_iter().map(|s| s.name).collect();
    assert_eq!(names, vec!["crate", "errors"]);
    assert_eq!(c.blocks.len(), 1);
}

#[test]
fn trailing_comma_and_empty_braces_are_accepted() {
    let t = vec![
        id("E"), p(','),
        lit(400), p('='), MacroToken::Braces(vec![id("A"), p(',')]),
        lit(401), p('='), MacroToken::Braces(vec![]),
    ];
    let c = parse_error_catalog(&t).unwrap();
    assert_eq!(c.kinds(), vec!["A"]);
    assert_eq!(c.documented_codes(), vec![400, 401]);
}

fn err(kind: SpecErrorKind, at: usize) -> Option<SpecError> {
    Some(SpecError { kind, at, within: None })
}

#[test]
fn malformed_declarations_are_refused() {
    let e = |t: Vec<MacroToken>| parse_error_catalog(&t).err();
    assert_eq!(e(vec![]), err(SpecErrorKind::ExpectedIdent, 0));
    assert_eq!(e(vec![id("struct"), p(',')]), err(SpecErrorKind::ExpectedIdent, 0));
    assert_eq!(e(vec![id("E")]), err(SpecErrorKind::ExpectedComma, 1));
    assert_eq!(e(vec![id("E"), p(','), lit(70000), p('='), braces(&["A"])]), err(SpecErrorKind::StatusOutOfRange, 2));
    assert_eq!(e(vec![id("E"), p(','), lit(400), braces(&["A"])]), err(SpecErrorKind::ExpectedEquals, 3));
    assert_eq!(e(vec![id("E"), p(','), lit(400), p('='), id("A")]), err(SpecErrorKind::ExpectedBraces, 4));
    assert_eq!(e(vec![id("E"), p(','), lit(400), p('=')]), err(SpecErrorKind::ExpectedBraces, 4));
    assert_eq!(
        e(vec![id("E"), p(','), lit(400), p('='), MacroToken::Braces(vec![id("A"), id("B")])]),
        Some(SpecError { kind: SpecErrorKind::ExpectedComma, at: 1, within: Some(4) })
    );
    assert_eq!(e(vec![id("E"), p(','), p(';')]), err(SpecErrorKind::ExpectedInteger, 2));
    assert_eq!(
        e(vec![id("E"), p(','), id("root"), p('='), id("m"), p('<'), id("T"), p(',')]),
        err(SpecErrorKind::UnclosedGenericArguments, 8)
    );
}

#[test]
fn other_word_after_the_name_is_refused_with_its_message() {
    let t = vec![id("E"), p(','), id("foo"), p('='), id("x"), p(','), lit(400), p('='), braces(&["A"])];
    let e = parse_error_catalog(&t).err().unwrap();
    assert_eq!(e, SpecError { kind: SpecErrorKind::ExpectedRootOrStatus, at: 2, within: None });
    assert_eq!(e.message(), "expected `root = <path>,` or a status code");
}

#[test]
fn messages_of_the_other_faults() {
    let m = |kind| SpecError { kind, at: 0, within: None }.message();
    assert_eq!(m(SpecErrorKind::ExpectedIdent), "expected identifier");
    assert_eq!(m(SpecErrorKind::ExpectedComma), "expected `,`");
    assert_eq!(m(SpecErrorKind::ExpectedEquals), "expected `=`");
    assert_eq!(m(SpecErrorKind::ExpectedInteger), "expected integer literal");
    assert_eq!(m(SpecErrorKind::StatusOutOfRange), "number too large to fit in target type");
    assert_eq!(m(SpecErrorKind::ExpectedBraces), "expected curly braces");
    assert_eq!(m(SpecErrorKind::UnclosedGenericArguments), "expected `>`");
}

#[test]
fn generic_root_paths_are_accepted() {
    // root = a::b<Vec<u8>, fn() -> u8>::c ,
    let t = vec![
        id("E"), p(','), id("root"), p('='),
        id("a"), pj(':'), p(':'), id("b"), p('<'), id("Vec"), p('<'), id("u8"), pj('>'), p(','),
        id("fn"), MacroToken::Other, pj('-'), p('>'), id("u8"), p('>'),
        pj(':'), p(':'), id("c"), p(','),
        lit(400), p('='), braces(&["A"]),
    ];
    let c = parse_error_catalog(&t).unwrap();
    assert_eq!(c.kinds(), vec!["A"]);
    let root = c.root.unwrap();
    let segs: Vec<(String, Option<(usize, usize)>)> =
        root.segments.into_iter().map(|s| (s.name, s.arguments)).collect();
    assert_eq!(
        segs,
        vec![("a".to_string(), None), ("b".to_string(), Some((8, 19))), ("c".to_string(), None)]
    );
}

#[test]
fn statuses_outside_the_http_range_are_read() {
    let t = vec![id("E"), p(','), lit(99), p('='), braces(&["A"]), lit(1000), p('='), braces(&["B"])];
    let c = parse_error_catalog(&t).unwrap();
    assert_eq!(c.documented_codes(), vec![99, 1000]);
}

#[test]
fn statuses_at_the_ends_of_the_http_range_are_accepted() {
    let t = vec![id("E"), p(','), lit(100), p('='), braces(&["A"]), lit(999), p('='), braces(&["B"])];
    let c = parse_error_catalog(&t).unwrap();
    assert_eq!(c.status_of("A"), Some(100));
    assert_eq!(c.status_of("B"), Some(999));
}
