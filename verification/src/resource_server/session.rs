//! The session of a request to the resource server: the access token of its cookie,
//! validated with the keys of the authentication service, read as the user's session.

use vstd::prelude::*;
use crate::shared::claims::{ClaimSet, find_id_claim, find_text_claim, user_claims_of};
use crate::shared::json::{Json, is_message_object};
use crate::shared::paserk::{PaserkClientError, ValidationStep};
use crate::shared::responses::{
    ApiError, ApiFail, STATUS_BAD_REQUEST, STATUS_INTERNAL_SERVER_ERROR, STATUS_UNAUTHORIZED,
};
use crate::shared::serde_customs::FlexibleNumber;

verus! {

/// The user of a session, as the access token's claims name it.
#[derive(Debug)]
pub struct UserSession {
    pub id: FlexibleNumber,
    pub username: String,
    pub email: String,
}

impl UserSession {
    /// Reads the session from a token's claims; `None` where they do not name a user.
    pub fn from_claims(claims: &ClaimSet) -> (res: Option<UserSession>)
        ensures
            match user_claims_of(claims@) {
                None => res is None,
                Some((i, u, e)) => res matches Some(s) && s.id.0 == i && s.username@ == u && s.email@ == e,
            },
    {
        let id = match find_id_claim(&claims.members) {
            Some(n) => n,
            None => return None,
        };
        let username = match find_text_claim(&claims.members, "username") {
            Some(t) => t,
            None => return None,
        };
        let email = match find_text_claim(&claims.members, "email") {
            Some(t) => t,
            None => return None,
        };
        Some(UserSession { id, username, email })
    }
}

/// How a request without a session is answered.
#[derive(Debug)]
pub enum SessionRejection {
    Fail(ApiFail),
    Error(ApiError),
}

/// `r` is the failure with status `code` and data `{"message": text}`.
pub open spec fn is_fail_with(r: SessionRejection, code: u16, text: Seq<char>) -> bool {
    r matches SessionRejection::Fail(f) && f.code == code && is_message_object(f.data, text)
}

/// `r` is the server error "Error authenticating", without data.
pub open spec fn is_authentication_error(r: SessionRejection) -> bool {
    r matches SessionRejection::Error(e) && e.code == STATUS_INTERNAL_SERVER_ERROR && e.message@
        == "Error authenticating"@ && e.data is None
}

/// The answer to a request without the access cookie: `400` "Authentication cookie not
/// found".
pub fn missing_cookie_rejection() -> (res: SessionRejection)
    ensures
        is_fail_with(res, STATUS_BAD_REQUEST, "Authentication cookie not found"@),
{
    SessionRejection::Fail(ApiFail::bad_request(Json::message("Authentication cookie not found")))
}

/// The token of the access cookie, or the answer to a request without it.
pub fn session_token(cookie: Option<String>) -> (res: Result<String, SessionRejection>)
    ensures
        match cookie {
            Some(t) => res == Ok::<String, SessionRejection>(t),
            None => res matches Err(r) && is_fail_with(r, STATUS_BAD_REQUEST, "Authentication cookie not found"@),
        },
{
    match cookie {
        Some(t) => Ok(t),
        None => Err(missing_cookie_rejection()),
    }
}

/// The answer to a token that did not validate: a token that cannot be taken apart or
/// has no footer is `400` "Invalid token", an expired one `401` "User session expired",
/// anything else the server error "Error authenticating".
pub fn session_rejection(error: PaserkClientError) -> (res: SessionRejection)
    ensures
        match error {
            PaserkClientError::MissingFooter | PaserkClientError::InvalidToken => is_fail_with(
                res,
                STATUS_BAD_REQUEST,
                "Invalid token"@,
            ),
            PaserkClientError::ExpiredToken => is_fail_with(res, STATUS_UNAUTHORIZED, "User session expired"@),
            _ => is_authentication_error(res),
        },
{
    match error {
        PaserkClientError::MissingFooter | PaserkClientError::InvalidToken => {
            SessionRejection::Fail(ApiFail::bad_request(Json::message("Invalid token")))
        },
        PaserkClientError::ExpiredToken => {
            SessionRejection::Fail(ApiFail::unauthorized(Json::message("User session expired")))
        },
        _ => SessionRejection::Error(ApiError::server_error("Error authenticating")),
    }
}

/// What the session middleware does next.
pub enum SessionStep {
    /// Fetch the key list and validate the token again with the outcome.
    FetchKeys,
    /// Answer the request with this rejection.
    Reject(SessionRejection),
    /// Hand the request, with this session, to the next handler.
    Proceed(UserSession),
}

/// The session middleware's step after a validation step of the token: claims that do
/// not name a user are a claim error, answered like any other failed validation.
pub fn session_step(step: ValidationStep) -> (res: SessionStep)
    ensures
        match step {
            ValidationStep::FetchKeys => res is FetchKeys,
            ValidationStep::Done(Err(e)) => res matches SessionStep::Reject(r) && match e {
                PaserkClientError::MissingFooter | PaserkClientError::InvalidToken => is_fail_with(
                    r,
                    STATUS_BAD_REQUEST,
                    "Invalid token"@,
                ),
                PaserkClientError::ExpiredToken => is_fail_with(r, STATUS_UNAUTHORIZED, "User session expired"@),
                _ => is_authentication_error(r),
            },
            ValidationStep::Done(Ok(c)) => match user_claims_of(c@) {
                None => res matches SessionStep::Reject(r) && is_authentication_error(r),
                Some((i, u, e)) => res matches SessionStep::Proceed(s) && s.id.0 == i && s.username@ == u
                    && s.email@ == e,
            },
        },
{
    match step {
        ValidationStep::FetchKeys => SessionStep::FetchKeys,
        ValidationStep::Done(Err(e)) => SessionStep::Reject(session_rejection(e)),
        ValidationStep::Done(Ok(claims)) => match UserSession::from_claims(&claims) {
            Some(s) => SessionStep::Proceed(s),
            None => SessionStep::Reject(session_rejection(PaserkClientError::ClaimParseError)),
        },
    }
}

} // verus!
