use backend::docs::{doc_redirect, docs_routes, openapi_path, DocsPage, OAuth2FlowKind};
use backend::docs::{
    check_session_docs, login_docs, logout_docs, register_auth_routes, register_docs, ApiTags,
    Endpoint, Method, ResponseBody,
};

#[test]
fn tag_names() {
    assert_eq!(ApiTags::Auth.as_str(), "Auth");
    assert_eq!(ApiTags::Auth.to_owned_name(), "Auth".to_string());
}

#[test]
fn session_and_logout_docs() {
    let d = check_session_docs();
    assert_eq!((d.description, d.id, d.security), ("CheckSession", "checkSession", Some("ApiKey")));
    assert_eq!((d.success_status, d.success_body), (204, ResponseBody::Boolean));
    assert!(d.error_statuses.is_empty());
    let d = logout_docs();
    assert_eq!((d.description, d.id, d.security), ("LogoutRequest", "logout", Some("ApiKey")));
    assert_eq!((d.success_status, d.success_body), (204, ResponseBody::Empty));
    assert_eq!(d.tag, ApiTags::Auth);
}

#[test]
fn login_and_register_docs_list_their_errors() {
    let d = login_docs();
    assert_eq!((d.description, d.id, d.security), ("Login", "login", None));
    assert_eq!((d.success_status, d.success_body), (200, ResponseBody::Token));
    assert_eq!(d.error_statuses, vec![401, 500]);
    let d = register_docs();
    assert_eq!((d.description, d.id, d.security), ("Register a new user", "register", None));
    assert_eq!(d.error_statuses, vec![400, 409, 500]);
}

#[test]
fn auth_route_table() {
    let routes = register_auth_routes();
    let table: Vec<(Method, &str, Endpoint)> =
        routes.iter().map(|r| (r.method, r.path, r.endpoint)).collect();
    assert_eq!(
        table,
        vec![
            (Method::Post, "/oauth2/login", Endpoint::Login),
            (Method::Post, "/oauth2/logout", Endpoint::Logout),
            (Method::Post, "/oauth2/register", Endpoint::Register),
            (Method::Get, "/oauth2/check_session", Endpoint::CheckSession),
        ]
    );
}

#[test]
fn api_information() {
    let info = backend::docs::api_docs();
    assert_eq!(info.title, "Backend");
    assert_eq!(info.summary, "The Documentation for the Backend API.");
    assert_eq!(info.tag_description, "User Authentication");
    assert_eq!((info.security_scheme, info.token_url), ("ApiKey", "/oauth2/login"));
    assert_eq!(info.flow, OAuth2FlowKind::Password);
    assert_eq!(info.refresh_url, None);
    assert!(info.scopes.is_empty());
    assert_eq!(info.servers, vec!["http://localhost:3000", "https://api.example.com"]);
}

#[test]
fn documentation_site_routes() {
    let table: Vec<(&str, DocsPage)> = docs_routes(true).iter().map(|r| (r.path, r.page)).collect();
    assert_eq!(
        table,
        vec![
            ("/docs", DocsPage::Redirect),
            ("/openapi.json", DocsPage::OpenApiJson),
            ("/redoc", DocsPage::Redoc),
            ("/swagger", DocsPage::Swagger),
            ("/", DocsPage::Index),
        ]
    );
    assert_eq!(openapi_path(true), "/docs/openapi.json");
    assert_eq!(openapi_path(false), "/api/docs/openapi.json");
    let redirect = doc_redirect();
    assert_eq!((redirect.status, redirect.location), (307, "/docs/"));
}

#[test]
fn documentation_viewers_read_the_openapi_document() {
    for (debug_build, url) in [(true, "/docs/openapi.json"), (false, "/api/docs/openapi.json")] {
        let routes = docs_routes(debug_build);
        let viewers: Vec<(&str, Option<&str>, Option<&str>)> =
            routes.iter().map(|r| (r.path, r.spec_url, r.title)).collect();
        assert_eq!(
            viewers,
            vec![
                ("/docs", None, None),
                ("/openapi.json", None, None),
                ("/redoc", Some(url), Some("Backend")),
                ("/swagger", Some(url), Some("Backend")),
                ("/", None, None),
            ]
        );
        assert_eq!(routes[1].tag, Some("docs"));
        assert!(routes.iter().enumerate().all(|(i, r)| i == 1 || r.tag.is_none()));
    }
}
