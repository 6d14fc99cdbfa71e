//! Who is calling: the bearer token of a request, the claims proved by it,
//! and the questions that handlers ask of the authenticated caller.

use headers::Header;
use vstd::prelude::*;
use crate::ids::{parse_uuid, uuid_text_value};
use crate::text::str_equal;

verus! {

/// What a verified token states about its holder.
pub struct Claims {
    /// The subject: the user id, as UUID text.
    pub sub: String,
    /// The permission level granted to the subject.
    pub permission_level: String,
}

/// The authenticated caller of a request: the bearer token it presented and
/// the claims that the token proved.
pub struct UserAuth {
    pub token: String,
    pub claims: Option<Claims>,
}

/// Why a request could not be authenticated.
#[derive(Debug, Clone, Copy, PartialEq, Eq, Structural)]
pub enum AuthError {
    WrongCredentials,
    MissingCredentials,
    TokenCreation,
    InvalidToken,
}

/// Whether `c` may stand in a header value that reads as text: a visible
/// ASCII character, the space or the horizontal tab.
pub open spec fn is_header_text_char(c: char) -> bool {
    c == '\t' || (' ' <= c && c <= '~')
}

/// Whether `c` is `upper` or its ASCII lowercase counterpart.
pub open spec fn ascii_ci_eq(c: char, upper: char, lower: char) -> bool {
    c == upper || c == lower
}

/// Whether `value` starts with the scheme `Bearer` (in any ASCII case)
/// followed by a space.
pub open spec fn has_bearer_scheme(value: Seq<char>) -> bool {
    &&& value.len() > 6
    &&& ascii_ci_eq(value[0], 'B', 'b')
    &&& ascii_ci_eq(value[1], 'E', 'e')
    &&& ascii_ci_eq(value[2], 'A', 'a')
    &&& ascii_ci_eq(value[3], 'R', 'r')
    &&& ascii_ci_eq(value[4], 'E', 'e')
    &&& ascii_ci_eq(value[5], 'R', 'r')
    &&& value[6] == ' '
}

/// `s` without its leading spaces and tabs.
pub open spec fn trim_leading_blanks(s: Seq<char>) -> Seq<char>
    decreases s.len(),
{
    if s.len() > 0 && (s[0] == ' ' || s[0] == '\t') {
        trim_leading_blanks(s.drop_first())
    } else {
        s
    }
}

/// The token of an `Authorization` header value with the bearer scheme, or
/// `None` where the value is not one.
pub open spec fn bearer_token_of(value: Seq<char>) -> Option<Seq<char>> {
    if (forall|i: int| 0 <= i < value.len() ==> is_header_text_char(#[trigger] value[i]))
        && has_bearer_scheme(value) {
        Some(trim_leading_blanks(value.skip(7)))
    } else {
        None
    }
}

/// Decodes an `Authorization` header value with
/// `headers::Authorization::<Bearer>::decode` and takes its token.
/// From the source of `headers` and `http`: the value must convert to a
/// `HeaderValue` (no control character but the tab), start with `Bearer`
/// in any ASCII case and a space (the token after it may be empty), and read as visible
/// ASCII (`HeaderValueString::from_val`); the token is what follows the
/// space, with leading whitespace trimmed (`str::trim_start`, which among
/// these characters removes spaces and tabs).
#[verifier::external_body]
fn decode_bearer(value: &str) -> (r: Option<String>)
    ensures
        r is Some <==> bearer_token_of(value@) is Some,
        r matches Some(t) ==> bearer_token_of(value@) == Some(t@),
{
    let header = headers::HeaderValue::from_str(value).ok()?;
    let auth = headers::Authorization::<headers::authorization::Bearer>::decode(
        &mut std::iter::once(&header),
    ).ok()?;
    Some(auth.token().to_string())
}

/// The bearer token of a request, from the first value of its
/// `Authorization` header (`None` where it has none that reads as text).
/// A missing or malformed header is an invalid token.
pub fn bearer_token(header: Option<&str>) -> (r: Result<String, AuthError>)
    ensures
        match header {
            None => r == Err::<String, AuthError>(AuthError::InvalidToken),
            Some(v) => match bearer_token_of(v@) {
                None => r == Err::<String, AuthError>(AuthError::InvalidToken),
                Some(t) => (r matches Ok(s) && s@ == t),
            },
        },
{
    match header {
        None => Err(AuthError::InvalidToken),
        Some(v) => match decode_bearer(v) {
            None => Err(AuthError::InvalidToken),
            Some(t) => Ok(t),
        },
    }
}

impl UserAuth {
    /// The caller of a request that presented `token`, given what verifying
    /// the token gave: its claims, or `None` where it did not verify.
    pub fn authenticate(token: String, verified: Option<Claims>) -> (r: Result<UserAuth, AuthError>)
        ensures
            verified is None ==> r == Err::<UserAuth, AuthError>(AuthError::WrongCredentials),
            verified is Some ==> (r matches Ok(u) && u.token == token && u.claims == verified),
    {
        match verified {
            None => Err(AuthError::WrongCredentials),
            Some(claims) => Ok(UserAuth { token, claims: Some(claims) }),
        }
    }

    /// The id of the caller: the UUID of the token's subject.
    pub fn request_user_id(&self) -> (r: u128)
        requires
            self.claims is Some,
            uuid_text_value(self.claims->0.sub@) is Some,
        ensures
            uuid_text_value(self.claims->0.sub@) == Some(r),
    {
        let claims = self.claims.as_ref().unwrap();
        parse_uuid(claims.sub.as_str()).unwrap()
    }

    /// The id of the caller, or `None` where the request carries no claims
    /// or the subject is not a UUID.
    pub fn try_request_user_id(&self) -> (r: Option<u128>)
        ensures
            self.claims is None ==> r is None,
            self.claims is Some ==> r == uuid_text_value(self.claims->0.sub@),
    {
        match &self.claims {
            None => None,
            Some(claims) => match parse_uuid(claims.sub.as_str()) {
                None => None,
                Some(_) => Some(self.request_user_id()),
            },
        }
    }

    /// The permission level that the caller's token grants.
    pub fn permission_level(&self) -> (r: &str)
        requires
            self.claims is Some,
        ensures
            r@ == self.claims->0.permission_level@,
    {
        self.claims.as_ref().unwrap().permission_level.as_str()
    }

    /// Whether the caller's permission level is exactly `role`.
    pub fn check_permission(&self, role: &str) -> (r: bool)
        requires
            self.claims is Some,
        ensures
            r == (self.claims->0.permission_level@ == role@),
    {
        str_equal(self.permission_level(), role)
    }

    /// The caller as text: `Token:` followed by the token.
    pub fn to_display_string(&self) -> (r: String)
        ensures
            r@ == "Token:"@ + self.token@,
    {
        let mut s = String::new();
        s.append("Token:");
        s.append(self.token.as_str());
        s
    }
}

impl AuthError {
    /// The status code and message that answer this error.
    pub fn response_parts(&self) -> (r: (u16, &'static str))
        ensures
            match self {
                AuthError::WrongCredentials => r.0 == 401 && r.1@ == "Wrong credentials"@,
                AuthError::MissingCredentials => r.0 == 400 && r.1@ == "Missing credentials"@,
                AuthError::TokenCreation => r.0 == 500 && r.1@ == "Token creation error"@,
                AuthError::InvalidToken => r.0 == 400 && r.1@ == "Invalid token"@,
            },
    {
        match self {
            AuthError::WrongCredentials => (401, "Wrong credentials"),
            AuthError::MissingCredentials => (400, "Missing credentials"),
            AuthError::TokenCreation => (500, "Token creation error"),
            AuthError::InvalidToken => (400, "Invalid token"),
        }
    }
}

} // verus!
