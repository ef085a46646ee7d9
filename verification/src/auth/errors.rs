//! The errors of the authentication service and the responses they are answered with.

use vstd::prelude::*;
use crate::shared::json::{Json, is_message_object};
use crate::shared::responses::{
    APIStatus, ApiError, ApiFail, HttpReply, error_data, is_envelope, is_error_envelope, STATUS_FORBIDDEN, STATUS_INTERNAL_SERVER_ERROR,
    STATUS_UNAUTHORIZED, STATUS_UNPROCESSABLE_ENTITY,
};

verus! {

/// What can go wrong while serving a request of the authentication service.
///
/// The first four stand for failures of the database, its connection pool, the token
/// library and redis; the rest are failures of the request itself.
#[derive(Debug)]
pub enum AuthServiceError {
    DieselError,
    DieselPoolError,
    PasetoError,
    RedisError,
    ForbiddenError(Option<String>),
    UnauthorizedError(Option<String>),
    ExistingUserError,
}

/// The description of each error.
pub open spec fn auth_error_text(e: AuthServiceError) -> Seq<char> {
    match e {
        AuthServiceError::DieselError => "Error while performing database operation"@,
        AuthServiceError::DieselPoolError => "Unable to acquire pool session"@,
        AuthServiceError::PasetoError => "Unable to parse token"@,
        AuthServiceError::RedisError => "Unable to acquire redis connection"@,
        AuthServiceError::ForbiddenError(_) => "Forbidden"@,
        AuthServiceError::UnauthorizedError(_) => "Unauthorized"@,
        AuthServiceError::ExistingUserError => "User with given email already exists"@,
    }
}

/// Whether the error is a failure of a service the server depends on.
pub open spec fn is_service_failure(e: AuthServiceError) -> bool {
    e is DieselError || e is DieselPoolError || e is PasetoError || e is RedisError
}

/// The status code each error is answered with.
pub open spec fn auth_error_code(e: AuthServiceError) -> u16 {
    match e {
        AuthServiceError::ExistingUserError => STATUS_UNPROCESSABLE_ENTITY,
        AuthServiceError::ForbiddenError(_) => STATUS_FORBIDDEN,
        AuthServiceError::UnauthorizedError(_) => STATUS_UNAUTHORIZED,
        _ => STATUS_INTERNAL_SERVER_ERROR,
    }
}

/// The message sent for a failure of the request: the one the error carries, or else
/// its description.
pub open spec fn auth_fail_message(e: AuthServiceError) -> Seq<char> {
    match e {
        AuthServiceError::ForbiddenError(Some(m)) => m@,
        AuthServiceError::UnauthorizedError(Some(m)) => m@,
        _ => auth_error_text(e),
    }
}

/// `r` is the response of the error `e`: a server error that carries the description
/// for a failure of a service, and otherwise a failure with `{"message": …}`.
pub open spec fn is_error_response(e: AuthServiceError, r: AuthErrorResponse) -> bool {
    &&& is_service_failure(e) ==> (r matches AuthErrorResponse::Error(x) && x.code
        == STATUS_INTERNAL_SERVER_ERROR && x.data is None && x.message@ == auth_error_text(e))
    &&& !is_service_failure(e) ==> (r matches AuthErrorResponse::Fail(f) && f.code
        == auth_error_code(e) && is_message_object(f.data, auth_fail_message(e)))
}

/// The response an error turns into.
#[derive(Debug)]
pub enum AuthErrorResponse {
    Fail(ApiFail),
    Error(ApiError),
}

impl AuthErrorResponse {
    pub fn into_reply(self) -> (res: HttpReply)
        ensures
            match self {
                AuthErrorResponse::Fail(f) => res.code == f.code && is_envelope(
                    res.body,
                    APIStatus::FAIL,
                    f.data,
                ),
                AuthErrorResponse::Error(e) => res.code == e.code && is_error_envelope(
                    res.body,
                    e.message@,
                    error_data(e.data),
                ),
            },
    {
        match self {
            AuthErrorResponse::Fail(f) => f.into_reply(),
            AuthErrorResponse::Error(e) => e.into_reply(),
        }
    }
}

impl AuthServiceError {
    /// The description of the error.
    pub fn to_message(&self) -> (res: String)
        ensures
            res@ == auth_error_text(*self),
    {
        let text = match self {
            AuthServiceError::DieselError => "Error while performing database operation",
            AuthServiceError::DieselPoolError => "Unable to acquire pool session",
            AuthServiceError::PasetoError => "Unable to parse token",
            AuthServiceError::RedisError => "Unable to acquire redis connection",
            AuthServiceError::ForbiddenError(_) => "Forbidden",
            AuthServiceError::UnauthorizedError(_) => "Unauthorized",
            AuthServiceError::ExistingUserError => "User with given email already exists",
        };
        String::from_str(text)
    }

    /// The response the error is answered with: a server error that carries the
    /// description for a failure of a service, and otherwise a failure whose data is
    /// `{"message": ...}` with the error's own message or its description.
    pub fn into_response(self) -> (res: AuthErrorResponse)
        ensures
            is_error_response(self, res),
    {
        let description = self.to_message();
        match self {
            AuthServiceError::DieselError | AuthServiceError::DieselPoolError
            | AuthServiceError::PasetoError | AuthServiceError::RedisError => {
                AuthErrorResponse::Error(ApiError::server_error(description.as_str()))
            },
            AuthServiceError::ExistingUserError => {
                AuthErrorResponse::Fail(
                    ApiFail::unprocessable_entity(Json::message(description.as_str())),
                )
            },
            AuthServiceError::ForbiddenError(msg) => {
                let text = match msg {
                    Some(m) => m,
                    None => description,
                };
                AuthErrorResponse::Fail(ApiFail::forbidden(Json::message(text.as_str())))
            },
            AuthServiceError::UnauthorizedError(msg) => {
                let text = match msg {
                    Some(m) => m,
                    None => description,
                };
                AuthErrorResponse::Fail(ApiFail::unauthorized(Json::message(text.as_str())))
            },
        }
    }
}

} // verus!
