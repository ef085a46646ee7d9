//! A small JSON value model used for response payloads.

use vstd::prelude::*;

verus! {

/// A JSON value. Objects keep their members in insertion order.
#[derive(Debug, PartialEq)]
pub enum Json {
    Null,
    Bool(bool),
    Int(i64),
    Str(String),
    Array(Vec<Json>),
    Object(Vec<(String, Json)>),
}

/// `j` is a string whose text is `s`.
pub open spec fn is_json_str(j: Json, s: Seq<char>) -> bool {
    j matches Json::Str(t) && t@ == s
}

/// `j` is an object with exactly one member, named `key`, whose value is `value`.
pub open spec fn is_single_member(j: Json, key: Seq<char>, value: Json) -> bool {
    match j {
        Json::Object(members) => members@.len() == 1 && members@[0].0@ == key && members@[0].1
            == value,
        _ => false,
    }
}

/// `j` is the object `{"message": <text>}`.
pub open spec fn is_message_object(j: Json, text: Seq<char>) -> bool {
    match j {
        Json::Object(members) => members@.len() == 1 && members@[0].0@ == "message"@
            && is_json_str(members@[0].1, text),
        _ => false,
    }
}

/// `j` is the object `{"<k0>": v0, "<k1>": v1}` with members in that order.
pub open spec fn is_pair_object(j: Json, k0: Seq<char>, v0: Json, k1: Seq<char>, v1: Json) -> bool {
    match j {
        Json::Object(members) => members@.len() == 2 && members@[0].0@ == k0 && members@[0].1 == v0
            && members@[1].0@ == k1 && members@[1].1 == v1,
        _ => false,
    }
}

impl Json {
    /// A string value holding a copy of `s`.
    pub fn text(s: &str) -> (res: Json)
        ensures
            is_json_str(res, s@),
    {
        Json::Str(String::from_str(s))
    }

    /// The empty object `{}`.
    pub fn empty_object() -> (res: Json)
        ensures
            res matches Json::Object(m) && m@.len() == 0,
    {
        Json::Object(Vec::new())
    }

    /// The object `{"<key>": value}`.
    pub fn single(key: &str, value: Json) -> (res: Json)
        ensures
            is_single_member(res, key@, value),
    {
        let mut members: Vec<(String, Json)> = Vec::new();
        members.push((String::from_str(key), value));
        Json::Object(members)
    }

    /// The object `{"<k0>": v0, "<k1>": v1}`.
    pub fn pair(k0: &str, v0: Json, k1: &str, v1: Json) -> (res: Json)
        ensures
            is_pair_object(res, k0@, v0, k1@, v1),
    {
        let mut members: Vec<(String, Json)> = Vec::new();
        members.push((String::from_str(k0), v0));
        members.push((String::from_str(k1), v1));
        Json::Object(members)
    }

    /// The object `{"message": <text>}`.
    pub fn message(text: &str) -> (res: Json)
        ensures
            is_message_object(res, text@),
    {
        let res = Json::single("message", Json::text(text));
        res
    }
}

} // verus!
