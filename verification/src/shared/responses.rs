//! JSend response envelopes (`success`, `fail`, `error`) and their HTTP status codes.

use vstd::prelude::*;
use crate::shared::json::{Json, is_json_str};

verus! {

pub const STATUS_OK: u16 = 200;
pub const STATUS_CREATED: u16 = 201;
pub const STATUS_NO_CONTENT: u16 = 204;
pub const STATUS_BAD_REQUEST: u16 = 400;
pub const STATUS_UNAUTHORIZED: u16 = 401;
pub const STATUS_FORBIDDEN: u16 = 403;
pub const STATUS_UNPROCESSABLE_ENTITY: u16 = 422;
pub const STATUS_INTERNAL_SERVER_ERROR: u16 = 500;

/// The status word of a JSend response envelope.
#[derive(Debug, PartialEq, Eq, Structural)]
pub enum APIStatus {
    SUCCESS,
    FAIL,
    ERROR,
}

/// The text of a status word.
pub open spec fn status_text(s: APIStatus) -> Seq<char> {
    match s {
        APIStatus::SUCCESS => "success"@,
        APIStatus::FAIL => "fail"@,
        APIStatus::ERROR => "error"@,
    }
}

impl APIStatus {
    pub fn as_str(&self) -> (res: &'static str)
        ensures
            res@ == status_text(*self),
    {
        match self {
            APIStatus::SUCCESS => "success",
            APIStatus::FAIL => "fail",
            APIStatus::ERROR => "error",
        }
    }
}

/// A status code together with the JSON body that is sent with it.
#[derive(Debug)]
pub struct HttpReply {
    pub code: u16,
    pub body: Json,
}

/// `body` is the envelope `{"status": <status>, "data": data}`.
pub open spec fn is_envelope(body: Json, status: APIStatus, data: Json) -> bool {
    match body {
        Json::Object(m) => m@.len() == 2 && m@[0].0@ == "status"@ && is_json_str(m@[0].1, status_text(status))
            && m@[1].0@ == "data"@ && m@[1].1 == data,
        _ => false,
    }
}

fn envelope(status: APIStatus, data: Json) -> (res: Json)
    ensures
        is_envelope(res, status, data),
{
    let word = Json::text(status.as_str());
    Json::pair("status", word, "data", data)
}

/// A successful response.
#[derive(Debug)]
pub struct ApiSuccess {
    pub code: u16,
    pub data: Json,
}

/// A response for a request that the client got wrong.
#[derive(Debug)]
pub struct ApiFail {
    pub code: u16,
    pub data: Json,
}

/// A response for a failure on the server's side.
#[derive(Debug)]
pub struct ApiError {
    pub code: u16,
    pub message: String,
    pub data: Option<Json>,
}

impl ApiSuccess {
    pub fn ok(data: Json) -> (res: Self)
        ensures
            res.code == STATUS_OK,
            res.data == data,
    {
        ApiSuccess { data, code: STATUS_OK }
    }

    /// The same as `ApiSuccess::ok` with the empty object as data.
    pub fn empty() -> (res: Self)
        ensures
            res.code == STATUS_OK,
            res.data matches Json::Object(m) && m@.len() == 0,
    {
        Self::ok(Json::empty_object())
    }

    pub fn created(data: Json) -> (res: Self)
        ensures
            res.code == STATUS_CREATED,
            res.data == data,
    {
        ApiSuccess { data, code: STATUS_CREATED }
    }

    /// The status code and the `success` envelope around the data.
    pub fn into_reply(self) -> (res: HttpReply)
        ensures
            res.code == self.code,
            is_envelope(res.body, APIStatus::SUCCESS, self.data),
    {
        HttpReply { code: self.code, body: envelope(APIStatus::SUCCESS, self.data) }
    }
}

impl ApiFail {
    pub fn bad_request(data: Json) -> (res: Self)
        ensures
            res.code == STATUS_BAD_REQUEST,
            res.data == data,
    {
        ApiFail { data, code: STATUS_BAD_REQUEST }
    }

    pub fn unprocessable_entity(data: Json) -> (res: Self)
        ensures
            res.code == STATUS_UNPROCESSABLE_ENTITY,
            res.data == data,
    {
        ApiFail { data, code: STATUS_UNPROCESSABLE_ENTITY }
    }

    pub fn unauthorized(data: Json) -> (res: Self)
        ensures
            res.code == STATUS_UNAUTHORIZED,
            res.data == data,
    {
        ApiFail { data, code: STATUS_UNAUTHORIZED }
    }

    pub fn forbidden(data: Json) -> (res: Self)
        ensures
            res.code == STATUS_FORBIDDEN,
            res.data == data,
    {
        ApiFail { data, code: STATUS_FORBIDDEN }
    }

    /// The status code and the `fail` envelope around the data.
    pub fn into_reply(self) -> (res: HttpReply)
        ensures
            res.code == self.code,
            is_envelope(res.body, APIStatus::FAIL, self.data),
    {
        HttpReply { code: self.code, body: envelope(APIStatus::FAIL, self.data) }
    }
}

/// `body` is the error envelope `{"status": "error", "message": <message>, "data": data}`.
pub open spec fn is_error_envelope(body: Json, message: Seq<char>, data: Json) -> bool {
    match body {
        Json::Object(m) => m@.len() == 3 && m@[0].0@ == "status"@ && is_json_str(m@[0].1, status_text(APIStatus::ERROR))
            && m@[1].0@ == "message"@ && is_json_str(m@[1].1, message) && m@[2].0@ == "data"@ && m@[2].1 == data,
        _ => false,
    }
}

/// The data of an error envelope: the data if there is any, `null` otherwise.
pub open spec fn error_data(data: Option<Json>) -> Json {
    match data {
        Some(d) => d,
        None => Json::Null,
    }
}

impl ApiError {
    pub fn server_error(message: &str) -> (res: Self)
        ensures
            res.code == STATUS_INTERNAL_SERVER_ERROR,
            res.data is None,
            res.message@ == message@,
    {
        ApiError { code: STATUS_INTERNAL_SERVER_ERROR, data: None, message: String::from_str(message) }
    }

    pub fn server_error_with_data(data: Json, message: &str) -> (res: Self)
        ensures
            res.code == STATUS_INTERNAL_SERVER_ERROR,
            res.data == Some(data),
            res.message@ == message@,
    {
        ApiError {
            code: STATUS_INTERNAL_SERVER_ERROR,
            data: Some(data),
            message: String::from_str(message),
        }
    }

    /// The status code and the `error` envelope: the message and the data (`null` when
    /// there is none).
    pub fn into_reply(self) -> (res: HttpReply)
        ensures
            res.code == self.code,
            is_error_envelope(res.body, self.message@, error_data(self.data)),
    {
        let data = match self.data {
            Some(d) => d,
            None => Json::Null,
        };
        let mut members: Vec<(String, Json)> = Vec::new();
        members.push((String::from_str("status"), Json::text(APIStatus::ERROR.as_str())));
        members.push((String::from_str("message"), Json::Str(self.message)));
        members.push((String::from_str("data"), data));
        HttpReply { code: self.code, body: Json::Object(members) }
    }
}

} // verus!
