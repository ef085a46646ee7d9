//! The users of the authentication service, as stored and as shown.

use vstd::prelude::*;
use chrono::NaiveDateTime;
use vstd::std_specs::convert::FromSpecImpl;
use crate::auth::paseto::UserClaims;
use crate::shared::json::Json;
use crate::shared::serde_customs::FlexibleNumber;

verus! {

/// A date and time without a time zone, as the database gives it.
#[verifier::external_type_specification]
#[verifier::external_body]
pub struct ExNaiveDateTime(NaiveDateTime);

/// A stored user. The password hash is the UTF-8 bytes of an `argon2` PHC text.
pub struct User {
    pub id: i32,
    pub username: String,
    pub email: String,
    pub password_hash: Vec<u8>,
    pub created_at: NaiveDateTime,
}

/// A user to insert; the database picks the id and the creation time when none is given.
pub struct NewUser {
    pub id: Option<i32>,
    pub username: String,
    pub email: String,
    pub password_hash: Vec<u8>,
    pub created_at: Option<NaiveDateTime>,
}

/// What is shown of a user.
#[derive(Debug)]
pub struct PartialUser {
    pub id: i32,
    pub username: String,
    pub email: String,
}

impl From<User> for PartialUser {
    fn from(value: User) -> (res: Self) {
        PartialUser { email: value.email, id: value.id, username: value.username }
    }
}

impl FromSpecImpl<User> for PartialUser {
    open spec fn obeys_from_spec() -> bool {
        true
    }

    open spec fn from_spec(v: User) -> PartialUser {
        PartialUser { email: v.email, id: v.id, username: v.username }
    }
}

impl From<PartialUser> for UserClaims {
    fn from(value: PartialUser) -> (res: Self) {
        UserClaims { email: value.email, id: FlexibleNumber(value.id), username: value.username }
    }
}

impl FromSpecImpl<PartialUser> for UserClaims {
    open spec fn obeys_from_spec() -> bool {
        true
    }

    open spec fn from_spec(v: PartialUser) -> UserClaims {
        UserClaims { email: v.email, id: FlexibleNumber(v.id), username: v.username }
    }
}

/// `j` is the JSON of a user: `{"id": …, "username": …, "email": …}`.
pub open spec fn is_user_json(j: Json, u: PartialUser) -> bool {
    match j {
        Json::Object(m) => m@.len() == 3 && m@[0].0@ == "id"@ && m@[0].1 == Json::Int(u.id as i64)
            && m@[1].0@ == "username"@ && m@[1].1 == Json::Str(u.username) && m@[2].0@ == "email"@
            && m@[2].1 == Json::Str(u.email),
        _ => false,
    }
}

impl PartialUser {
    /// A copy of the user.
    pub fn duplicate(&self) -> (res: PartialUser)
        ensures
            res.id == self.id,
            res.username@ == self.username@,
            res.email@ == self.email@,
    {
        PartialUser { id: self.id, username: self.username.clone(), email: self.email.clone() }
    }

    /// The JSON the user is shown as.
    pub fn into_json(self) -> (res: Json)
        ensures
            is_user_json(res, self),
    {
        let mut members: Vec<(String, Json)> = Vec::new();
        members.push((String::from_str("id"), Json::Int(self.id as i64)));
        members.push((String::from_str("username"), Json::Str(self.username)));
        members.push((String::from_str("email"), Json::Str(self.email)));
        Json::Object(members)
    }
}

} // verus!
