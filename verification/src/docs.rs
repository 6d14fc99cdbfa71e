//! The documented surface of the auth endpoints: tags, the documentation of
//! each operation and the route table.

use vstd::prelude::*;
use crate::errors::{GeneratedDocs, LoginError, RegisterError};

verus! {

/// The tags under which operations are grouped in the API documentation.
#[derive(Debug, Clone, Copy, PartialEq, Eq, Structural)]
pub enum ApiTags {
    Auth,
}

impl ApiTags {
    pub open spec fn name(&self) -> Seq<char> {
        match self {
            ApiTags::Auth => "Auth"@,
        }
    }

    /// The tag's name as it appears in the documentation.
    pub fn as_str(&self) -> (r: &'static str)
        ensures
            r@ == self.name(),
    {
        match self {
            ApiTags::Auth => "Auth",
        }
    }

    /// The tag's name as an owned string.
    pub fn to_owned_name(self) -> (r: String)
        ensures
            r@ == self.name(),
    {
        self.as_str().to_owned()
    }
}

/// The body that an operation answers with on success.
#[derive(Debug, Clone, Copy, PartialEq, Eq, Structural)]
pub enum ResponseBody {
    /// JSON `{"access_token": ...}`.
    Token,
    /// A JSON boolean.
    Boolean,
    /// No body.
    Empty,
}

/// The HTTP method of a route.
#[derive(Debug, Clone, Copy, PartialEq, Eq, Structural)]
pub enum Method {
    Get,
    Post,
}

/// The handler that serves a route.
#[derive(Debug, Clone, Copy, PartialEq, Eq, Structural)]
pub enum Endpoint {
    Login,
    Logout,
    Register,
    CheckSession,
}

/// The documentation of one operation.
pub struct OperationDoc {
    pub description: &'static str,
    pub id: &'static str,
    pub tag: ApiTags,
    /// The security scheme the operation requires, if any.
    pub security: Option<&'static str>,
    pub success_status: u16,
    pub success_body: ResponseBody,
    /// The statuses of the error answers, in increasing order.
    pub error_statuses: Vec<u16>,
}

/// A route of the auth router.
pub struct Route {
    pub method: Method,
    pub path: &'static str,
    pub endpoint: Endpoint,
    pub doc: OperationDoc,
}

pub fn check_session_docs() -> (r: OperationDoc)
    ensures
        r.description@ == "CheckSession"@,
        r.id@ == "checkSession"@,
        r.tag == ApiTags::Auth,
        r.security matches Some(s) && s@ == "ApiKey"@,
        r.success_status == 204,
        r.success_body == ResponseBody::Boolean,
        r.error_statuses@ == Seq::<u16>::empty(),
{
    OperationDoc {
        description: "CheckSession",
        id: "checkSession",
        tag: ApiTags::Auth,
        security: Some("ApiKey"),
        success_status: 204,
        success_body: ResponseBody::Boolean,
        error_statuses: Vec::new(),
    }
}

pub fn logout_docs() -> (r: OperationDoc)
    ensures
        r.description@ == "LogoutRequest"@,
        r.id@ == "logout"@,
        r.tag == ApiTags::Auth,
        r.security matches Some(s) && s@ == "ApiKey"@,
        r.success_status == 204,
        r.success_body == ResponseBody::Empty,
        r.error_statuses@ == Seq::<u16>::empty(),
{
    OperationDoc {
        description: "LogoutRequest",
        id: "logout",
        tag: ApiTags::Auth,
        security: Some("ApiKey"),
        success_status: 204,
        success_body: ResponseBody::Empty,
        error_statuses: Vec::new(),
    }
}

/// The login operation, with the error statuses of `LoginError`.
pub fn login_docs() -> (r: OperationDoc)
    ensures
        r.description@ == "Login"@,
        r.id@ == "login"@,
        r.tag == ApiTags::Auth,
        r.security is None,
        r.success_status == 200,
        r.success_body == ResponseBody::Token,
        r.error_statuses@ == LoginError::documented_codes(),
{
    OperationDoc {
        description: "Login",
        id: "login",
        tag: ApiTags::Auth,
        security: None,
        success_status: 200,
        success_body: ResponseBody::Token,
        error_statuses: LoginError::generated_error_docs(),
    }
}

/// The registration operation, with the error statuses of `RegisterError`.
pub fn register_docs() -> (r: OperationDoc)
    ensures
        r.description@ == "Register a new user"@,
        r.id@ == "register"@,
        r.tag == ApiTags::Auth,
        r.security is None,
        r.success_status == 200,
        r.success_body == ResponseBody::Token,
        r.error_statuses@ == RegisterError::documented_codes(),
{
    OperationDoc {
        description: "Register a new user",
        id: "register",
        tag: ApiTags::Auth,
        security: None,
        success_status: 200,
        success_body: ResponseBody::Token,
        error_statuses: RegisterError::generated_error_docs(),
    }
}

/// The routes of the auth router, each with its documentation.
pub fn register_auth_routes() -> (r: Vec<Route>)
    ensures
        r.len() == 4,
        r[0].method == Method::Post && r[0].path@ == "/oauth2/login"@ && r[0].endpoint == Endpoint::Login
            && r[0].doc.id@ == "login"@,
        r[1].method == Method::Post && r[1].path@ == "/oauth2/logout"@ && r[1].endpoint == Endpoint::Logout
            && r[1].doc.id@ == "logout"@,
        r[2].method == Method::Post && r[2].path@ == "/oauth2/register"@ && r[2].endpoint == Endpoint::Register
            && r[2].doc.id@ == "register"@,
        r[3].method == Method::Get && r[3].path@ == "/oauth2/check_session"@ && r[3].endpoint
            == Endpoint::CheckSession && r[3].doc.id@ == "checkSession"@,
{
    let mut routes: Vec<Route> = Vec::new();
    routes.push(Route { method: Method::Post, path: "/oauth2/login", endpoint: Endpoint::Login, doc: login_docs() });
    routes.push(Route { method: Method::Post, path: "/oauth2/logout", endpoint: Endpoint::Logout, doc: logout_docs() });
    routes.push(Route { method: Method::Post, path: "/oauth2/register", endpoint: Endpoint::Register, doc: register_docs() });
    routes.push(
        Route { method: Method::Get, path: "/oauth2/check_session", endpoint: Endpoint::CheckSession, doc: check_session_docs() },
    );
    routes
}

/// The kind of an OAuth2 flow.
#[derive(Debug, Clone, Copy, PartialEq, Eq, Structural)]
pub enum OAuth2FlowKind {
    Implicit,
    Password,
    ClientCredentials,
    AuthorizationCode,
}

/// The general information of the API documentation.
pub struct ApiInfo {
    pub title: &'static str,
    pub summary: &'static str,
    pub tag: ApiTags,
    pub tag_description: &'static str,
    /// The name of the security scheme: OAuth2 with the password flow.
    pub security_scheme: &'static str,
    /// The one OAuth2 flow that the scheme offers.
    pub flow: OAuth2FlowKind,
    pub token_url: &'static str,
    pub refresh_url: Option<&'static str>,
    /// The scopes that the flow offers.
    pub scopes: Vec<&'static str>,
    pub security_description: &'static str,
    /// The servers that serve the API, in order.
    pub servers: Vec<&'static str>,
}

pub fn api_docs() -> (r: ApiInfo)
    ensures
        r.title@ == "Backend"@,
        r.summary@ == "The Documentation for the Backend API."@,
        r.tag == ApiTags::Auth,
        r.tag_description@ == "User Authentication"@,
        r.security_scheme@ == "ApiKey"@,
        r.flow == OAuth2FlowKind::Password,
        r.token_url@ == "/oauth2/login"@,
        r.refresh_url is None,
        r.scopes.len() == 0,
        r.security_description@ == ""@,
        r.servers.len() == 2,
        r.servers[0]@ == "http://localhost:3000"@,
        r.servers[1]@ == "https://api.example.com"@,
{
    let mut servers: Vec<&'static str> = Vec::new();
    servers.push("http://localhost:3000");
    servers.push("https://api.example.com");
    ApiInfo {
        title: "Backend",
        summary: "The Documentation for the Backend API.",
        tag: ApiTags::Auth,
        tag_description: "User Authentication",
        security_scheme: "ApiKey",
        flow: OAuth2FlowKind::Password,
        token_url: "/oauth2/login",
        refresh_url: None,
        scopes: Vec::new(),
        security_description: "",
        servers,
    }
}

/// The pages of the documentation site.
#[derive(Debug, Clone, Copy, PartialEq, Eq, Structural)]
pub enum DocsPage {
    /// Redirects to `/docs/`.
    Redirect,
    /// The OpenAPI document as JSON.
    OpenApiJson,
    /// Redoc, titled `Backend`, reading the OpenAPI document.
    Redoc,
    /// Swagger UI, titled `Backend`, reading the OpenAPI document.
    Swagger,
    /// The index page.
    Index,
}

/// A route of the documentation site.
pub struct DocsRoute {
    pub path: &'static str,
    pub page: DocsPage,
    /// The tag under which the route is documented, if any.
    pub tag: Option<&'static str>,
    /// Where a viewer page reads the OpenAPI document.
    pub spec_url: Option<&'static str>,
    /// The title of a viewer page.
    pub title: Option<&'static str>,
}

/// Where the documentation site finds the OpenAPI document: under `/docs`
/// in a debug build, under `/api/docs` otherwise.
pub fn openapi_path(debug_build: bool) -> (r: &'static str)
    ensures
        debug_build ==> r@ == "/docs/openapi.json"@,
        !debug_build ==> r@ == "/api/docs/openapi.json"@,
{
    if debug_build {
        "/docs/openapi.json"
    } else {
        "/api/docs/openapi.json"
    }
}

/// A redirect answer: its status and the `Location` it names; it has no body.
pub struct RedirectAnswer {
    pub status: u16,
    pub location: &'static str,
}

/// The answer of the redirect page: a temporary redirect (307) to `/docs/`.
pub fn doc_redirect() -> (r: RedirectAnswer)
    ensures
        r.status == 307,
        r.location@ == "/docs/"@,
{
    RedirectAnswer { status: 307, location: "/docs/" }
}

/// Whether `o` holds a text whose characters are `text`.
pub open spec fn holds_text(o: Option<&str>, text: Seq<char>) -> bool {
    match o {
        Some(t) => t@ == text,
        None => false,
    }
}

/// A page of the documentation site with neither tag nor viewer settings.
fn plain_route(path: &'static str, page: DocsPage) -> (r: DocsRoute)
    ensures
        r.path == path && r.page == page && r.tag is None && r.spec_url is None && r.title is None,
{
    DocsRoute { path, page, tag: None, spec_url: None, title: None }
}

/// A viewer page titled `Backend` that reads the OpenAPI document at `spec_url`.
fn viewer_route(path: &'static str, page: DocsPage, spec_url: &'static str) -> (r: DocsRoute)
    ensures
        r.path == path && r.page == page && r.tag is None && r.spec_url == Some(spec_url),
        holds_text(r.title, "Backend"@),
{
    DocsRoute { path, page, tag: None, spec_url: Some(spec_url), title: Some("Backend") }
}

/// The routes of the documentation site; the viewers read the OpenAPI
/// document where `openapi_path(debug_build)` says.
pub fn docs_routes(debug_build: bool) -> (r: Vec<DocsRoute>)
    ensures
        r.len() == 5,
        r[0].path@ == "/docs"@ && r[0].page == DocsPage::Redirect && r[0].tag is None
            && r[0].spec_url is None && r[0].title is None,
        r[1].path@ == "/openapi.json"@ && r[1].page == DocsPage::OpenApiJson
            && holds_text(r[1].tag, "docs"@) && r[1].spec_url is None && r[1].title is None,
        r[2].path@ == "/redoc"@ && r[2].page == DocsPage::Redoc && r[2].tag is None,
        r[3].path@ == "/swagger"@ && r[3].page == DocsPage::Swagger && r[3].tag is None,
        forall|i: int|
            2 <= i < 4 ==> holds_text(
                (#[trigger] r[i]).spec_url,
                if debug_build {
                    "/docs/openapi.json"@
                } else {
                    "/api/docs/openapi.json"@
                },
            ) && holds_text(r[i].title, "Backend"@),
        r[4].path@ == "/"@ && r[4].page == DocsPage::Index && r[4].tag is None
            && r[4].spec_url is None && r[4].title is None,
{
    let spec_url = openapi_path(debug_build);
    let mut routes: Vec<DocsRoute> = Vec::new();
    routes.push(plain_route("/docs", DocsPage::Redirect));
    routes.push(
        DocsRoute { path: "/openapi.json", page: DocsPage::OpenApiJson, tag: Some("docs"), spec_url: None, title: None },
    );
    routes.push(viewer_route("/redoc", DocsPage::Redoc, spec_url));
    routes.push(viewer_route("/swagger", DocsPage::Swagger, spec_url));
    routes.push(plain_route("/", DocsPage::Index));
    routes
}

} // verus!
