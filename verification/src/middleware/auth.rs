//! Bearer tokens and the authenticated user they stand for.

use vstd::prelude::*;
use crate::error::{reply_is, AppError, ErrorReply};
use crate::middleware::headers::HeaderInput;
use crate::models::AccessTokenClaims;
use crate::text::{owned, chars_of, starts_with_chars, starts_with_spec};

verus! {

/// The user that a valid access token identifies.
#[derive(Clone, Debug)]
pub struct AuthenticatedUser {
    pub user_id: String,
    pub email: String,
    pub client_project: Option<String>,
}

impl From<AccessTokenClaims> for AuthenticatedUser {
    fn from(claims: AccessTokenClaims) -> (r: Self) {
        AuthenticatedUser {
            user_id: claims.sub,
            email: claims.email,
            client_project: claims.client_project,
        }
    }
}

impl vstd::std_specs::convert::FromSpecImpl<AccessTokenClaims> for AuthenticatedUser {
    open spec fn obeys_from_spec() -> bool {
        true
    }

    open spec fn from_spec(claims: AccessTokenClaims) -> AuthenticatedUser {
        AuthenticatedUser {
            user_id: claims.sub,
            email: claims.email,
            client_project: claims.client_project,
        }
    }
}

/// The token of an `Authorization` header of the form `Bearer <token>`
/// (the scheme is case-sensitive and followed by one space).
pub open spec fn bearer_spec(header: Seq<char>) -> Option<Seq<char>> {
    if starts_with_spec(header, "Bearer "@) {
        Some(header.skip(7))
    } else {
        None
    }
}

pub fn bearer_token(header: &str) -> (r: Option<&str>)
    ensures
        r matches Some(t) ==> bearer_spec(header@) == Some(t@),
        r is None ==> bearer_spec(header@) is None,
{
    proof {
        reveal_strlit("Bearer ");
    }
    let h = chars_of(header);
    let p = chars_of("Bearer ");
    if starts_with_chars(h.as_slice(), p.as_slice()) {
        let n = header.unicode_len();
        Some(header.substring_char(7, n))
    } else {
        None
    }
}

/// The bearer token of an `Authorization` header, or the answer to a
/// request without a usable one.
pub fn bearer_from_header(h: &HeaderInput) -> (r: Result<String, ErrorReply>)
    ensures
        h is Missing ==> (r matches Err(e) && reply_is(e, 401, "Unauthorized"@, "Missing authorization header"@)),
        h is Unreadable ==> (r matches Err(e) && reply_is(e, 401, "Unauthorized"@, "Invalid authorization header"@)),
        h matches HeaderInput::Text(t) ==> (match bearer_spec(t@) {
            Some(tok) => r matches Ok(x) && x@ == tok,
            None => r matches Err(e) && reply_is(
                e,
                401,
                "Unauthorized"@,
                "Invalid authorization scheme. Use 'Bearer <token>'"@,
            ),
        }),
{
    match h {
        HeaderInput::Missing => Err(ErrorReply::new(401, "Unauthorized", "Missing authorization header")),
        HeaderInput::Unreadable => Err(ErrorReply::new(401, "Unauthorized", "Invalid authorization header")),
        HeaderInput::Text(t) => match bearer_token(t.as_str()) {
            Some(tok) => Ok(owned(tok)),
            None => Err(
                ErrorReply::new(401, "Unauthorized", "Invalid authorization scheme. Use 'Bearer <token>'"),
            ),
        },
    }
}

/// The bearer token of an optional `Authorization` header, if usable.
pub fn optional_bearer(h: &HeaderInput) -> (r: Option<String>)
    ensures
        h matches HeaderInput::Text(t) ==> (match bearer_spec(t@) {
            Some(tok) => r matches Some(x) && x@ == tok,
            None => r is None,
        }),
        !(h is Text) ==> r is None,
{
    match h {
        HeaderInput::Text(t) => match bearer_token(t.as_str()) {
            Some(tok) => Some(owned(tok)),
            None => None,
        },
        _ => None,
    }
}

/// The user of a verified access token, or the answer to a refused one:
/// an expired token is told apart from an invalid one.
pub fn auth_outcome(verified: Result<AccessTokenClaims, AppError>) -> (r: Result<AuthenticatedUser, ErrorReply>)
    ensures
        verified matches Ok(c) ==> r == Ok::<AuthenticatedUser, ErrorReply>(AuthenticatedUser {
            user_id: c.sub,
            email: c.email,
            client_project: c.client_project,
        }),
        verified matches Err(e) ==> (e is TokenExpired ==> (r matches Err(x) && reply_is(
            x,
            401,
            "Unauthorized"@,
            "Token has expired"@,
        ))),
        verified matches Err(e) ==> (!(e is TokenExpired) ==> (r matches Err(x) && reply_is(
            x,
            401,
            "Unauthorized"@,
            "Invalid token"@,
        ))),
{
    match verified {
        Ok(claims) => Ok(AuthenticatedUser::from(claims)),
        Err(AppError::TokenExpired) => Err(ErrorReply::new(401, "Unauthorized", "Token has expired")),
        Err(_) => Err(ErrorReply::new(401, "Unauthorized", "Invalid token")),
    }
}

} // verus!
