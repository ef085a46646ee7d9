//! The session of a request to the authentication service: the access token of its
//! cookie, the verifying key named by the token's key id, and the claims of the verified
//! token.

use vstd::prelude::*;
use crate::auth::errors::{AuthErrorResponse, AuthServiceError};
use crate::auth::paseto::{UserClaims, extract_kid_from_token, verified_user, verify_access_token};
use crate::shared::clock::UnixTime;
use crate::auth::signing_keys::VerifierLookup;
use crate::shared::json::{Json, is_message_object};
use crate::shared::responses::{ApiSuccess, STATUS_OK, STATUS_UNAUTHORIZED};
use crate::shared::tokens::paseto_footer;

verus! {

/// `r` is the `401` failure with the message `text`.
pub open spec fn is_unauthorized(r: AuthErrorResponse, text: Seq<char>) -> bool {
    r matches AuthErrorResponse::Fail(f) && f.code == STATUS_UNAUTHORIZED && is_message_object(f.data, text)
}

fn unauthorized(text: &str) -> (res: AuthErrorResponse)
    ensures
        is_unauthorized(res, text@),
{
    AuthServiceError::UnauthorizedError(Some(String::from_str(text))).into_response()
}

/// The key id of the session's access token, from the token of the access cookie (none
/// when the request has no such cookie).
pub fn session_key_id(cookie: Option<&str>) -> (res: Result<String, AuthErrorResponse>)
    ensures
        match cookie {
            None => res matches Err(r) && is_unauthorized(r, "Authorization cookie not present"@),
            Some(token) => match paseto_footer(token@) {
                Some(Some(f)) => res matches Ok(kid) && kid@ == f,
                _ => res matches Err(r) && is_unauthorized(r, "Invalid or expired token"@),
            },
        },
{
    let token = match cookie {
        Some(t) => t,
        None => return Err(unauthorized("Authorization cookie not present")),
    };
    match extract_kid_from_token(token) {
        Some(kid) => Ok(kid),
        None => Err(unauthorized("Invalid or expired token")),
    }
}

/// Why a request has no session.
pub enum SessionFailure {
    /// The request is answered with this failure.
    Rejected(AuthErrorResponse),
    /// The kept verifying key is unreadable (where the service panics).
    Abort,
}

/// The claims of the session: the access token verified at `now` with the key found for
/// its key id. No key kept for the id, a token that does not verify then, and claims that
/// are not a user's are all `401` "Invalid or expired token".
pub fn session_claims(token: &str, key: VerifierLookup, now: UnixTime) -> (res: Result<UserClaims, SessionFailure>)
    ensures
        match key {
            VerifierLookup::Missing => res matches Err(SessionFailure::Rejected(r)) && is_unauthorized(
                r,
                "Invalid or expired token"@,
            ),
            VerifierLookup::Unreadable => res matches Err(SessionFailure::Abort),
            VerifierLookup::Found(k) => match verified_user(token@, k.0@, now) {
                Some((i, u, e)) => res matches Ok(c) && c.id.0 == i && c.username@ == u && c.email@ == e,
                None => res matches Err(SessionFailure::Rejected(r)) && is_unauthorized(
                    r,
                    "Invalid or expired token"@,
                ),
            },
        },
{
    let public_key = match key {
        VerifierLookup::Found(k) => k,
        VerifierLookup::Missing => return Err(SessionFailure::Rejected(unauthorized("Invalid or expired token"))),
        VerifierLookup::Unreadable => return Err(SessionFailure::Abort),
    };
    match verify_access_token(token, &public_key, now) {
        Some(claims) => Ok(claims),
        None => Err(SessionFailure::Rejected(unauthorized("Invalid or expired token"))),
    }
}

/// `j` is the JSON of user claims: `{"id": …, "username": …, "email": …}`.
pub open spec fn is_claims_json(j: Json, c: UserClaims) -> bool {
    match j {
        Json::Object(m) => m@.len() == 3 && m@[0].0@ == "id"@ && m@[0].1 == Json::Int(c.id.0 as i64)
            && m@[1].0@ == "username"@ && m@[1].1 == Json::Str(c.username) && m@[2].0@ == "email"@
            && m@[2].1 == Json::Str(c.email),
        _ => false,
    }
}

/// The answer to "who am I": `200` with `{"user": <the session's claims>}`.
pub fn verify_user(claims: UserClaims) -> (res: ApiSuccess)
    ensures
        res.code == STATUS_OK,
        res.data matches Json::Object(m) && m@.len() == 1 && m@[0].0@ == "user"@ && is_claims_json(m@[0].1, claims),
{
    let mut members: Vec<(String, Json)> = Vec::new();
    members.push((String::from_str("id"), Json::Int(claims.id.0 as i64)));
    members.push((String::from_str("username"), Json::Str(claims.username)));
    members.push((String::from_str("email"), Json::Str(claims.email)));
    ApiSuccess::ok(Json::single("user", Json::Object(members)))
}

} // verus!
