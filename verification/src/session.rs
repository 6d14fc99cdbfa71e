//! The answers of the endpoints that only need an authenticated caller.

use vstd::prelude::*;

use crate::user_auth::UserAuth;

verus! {

/// A successful answer: its status and, where it has one, its JSON boolean
/// body (`None` is an empty body).
#[derive(Debug, Clone, Copy, PartialEq, Eq, Structural)]
pub struct SessionAnswer {
    pub status: u16,
    pub body: Option<bool>,
}

/// Logging out: the caller has been authenticated, and the answer is
/// `200 OK` with no body.
pub fn logout(_caller: &UserAuth) -> (r: SessionAnswer)
    ensures
        r.status == 200,
        r.body is None,
{
    SessionAnswer { status: 200, body: None }
}

/// Checking a session: the caller has been authenticated, so the session is
/// valid; the answer is `200 OK` with the JSON body `true`.
pub fn check_session(_caller: &UserAuth) -> (r: SessionAnswer)
    ensures
        r.status == 200,
        r.body == Some(true),
{
    SessionAnswer { status: 200, body: Some(true) }
}

} // verus!
