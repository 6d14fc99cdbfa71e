//! Account rules of the backend: password strength, the login and
//! registration flows, the error catalogue of the auth endpoints, bearer
//! tokens and the route and documentation tables.

pub mod password;
pub mod text;
pub mod ids;
pub mod errors;
pub mod login_error_ctors;
pub mod register_error_ctors;
pub mod user_auth;
pub mod login;
pub mod register;
pub mod docs;
pub mod catalog;
pub mod schema;
pub mod session;
