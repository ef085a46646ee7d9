//! Signing users up and in: the stored password hash, the password check, and the
//! tokens and cookies of a new session.

use vstd::prelude::*;
use vstd::utf8::{decode_utf8, encode_utf8, valid_utf8};
use crate::auth::cookies::BaseCookie;
use crate::auth::errors::{AuthErrorResponse, AuthServiceError, is_error_response};
use crate::auth::handlers::SignUpUserSchema;
use crate::auth::passwords::{argon2_verdict, hash_password, verify_password};
use crate::auth::paseto::{
    UserClaims, access_claims, expiration_writable, iso8601_datetime, pair_kid, refresh_claims,
    sign_access_token_for, sign_refresh_token_for,
};
use crate::auth::users::{NewUser, PartialUser, User, is_user_json};
use crate::shared::clock::{UnixTime, chrono_representable, chrono_rfc3339, chrono_sum_representable, minutes_after, current_instant, is_clock_reading};
use crate::shared::json::{Json, is_message_object};
use crate::shared::keys::{SecretKey, is_key_pair};
use crate::shared::responses::{ApiError, ApiSuccess, STATUS_INTERNAL_SERVER_ERROR, STATUS_OK, STATUS_UNAUTHORIZED};
use crate::shared::text::utf8_text;
use crate::shared::tokens::{paseto_footer, signed_claims};

verus! {

broadcast use vstd::utf8::encode_utf8_decode_utf8, vstd::utf8::encode_utf8_valid_utf8;

/// The name of the cookie of the access token.
pub const ACCESS_TOKEN_COOKIE: &'static str = "x-auth-access-token";

/// The name of the cookie of the refresh token.
pub const REFRESH_TOKEN_COOKIE: &'static str = "x-auth-refresh-token";

/// The most UTF-8 bytes a password may have for `argon2` to hash it (`MAX_PWD_LEN`).
pub const MAX_PASSWORD_BYTES: usize = 4_294_967_295;

/// The user to insert for a sign-up: no id or creation time (the database picks them),
/// the payload's username and email, and the UTF-8 bytes of a fresh `argon2` hash of the
/// password.
pub fn new_user_for(payload: SignUpUserSchema) -> (res: NewUser)
    requires
        encode_utf8(payload.password@).len() <= MAX_PASSWORD_BYTES,
    ensures
        res.id is None,
        res.created_at is None,
        res.username == payload.username,
        res.email == payload.email,
        valid_utf8(res.password_hash@),
        argon2_verdict(payload.password@, decode_utf8(res.password_hash@)) == Some(true),
{
    let hash = hash_password(payload.password.as_str());
    let bytes = hash.as_str().as_bytes_vec();
    NewUser {
        id: None,
        username: payload.username,
        email: payload.email,
        password_hash: bytes,
        created_at: None,
    }
}

/// How a sign-in attempt ends.
pub enum SignInVerdict {
    /// The email is unknown or the password is wrong.
    Refused,
    /// The stored hash is not UTF-8 or not a PHC string.
    Unreadable,
    Accepted,
}

/// How a sign-in with `password` ends for the user found by the email, if any.
pub open spec fn sign_in_verdict(user: Option<User>, password: Seq<char>) -> SignInVerdict {
    match user {
        None => SignInVerdict::Refused,
        Some(u) => if !valid_utf8(u.password_hash@) {
            SignInVerdict::Unreadable
        } else {
            match argon2_verdict(password, decode_utf8(u.password_hash@)) {
                None => SignInVerdict::Unreadable,
                Some(false) => SignInVerdict::Refused,
                Some(true) => SignInVerdict::Accepted,
            }
        },
    }
}

/// The failure a refused sign-in is answered with.
pub open spec fn is_refused_sign_in(r: AuthErrorResponse) -> bool {
    r matches AuthErrorResponse::Fail(f) && f.code == STATUS_UNAUTHORIZED && is_message_object(
        f.data,
        "Invalid email or password"@,
    )
}

/// The error a sign-in with an unreadable stored hash is answered with.
pub open spec fn is_unreadable_sign_in(r: AuthErrorResponse) -> bool {
    r matches AuthErrorResponse::Error(e) && e.code == STATUS_INTERNAL_SERVER_ERROR && e.message@
        == "Failed to parse request"@ && e.data is None
}

fn refused_sign_in() -> (res: AuthErrorResponse)
    ensures
        is_refused_sign_in(res),
{
    AuthServiceError::UnauthorizedError(Some(String::from_str("Invalid email or password"))).into_response()
}

fn unreadable_sign_in() -> (res: AuthErrorResponse)
    ensures
        is_unreadable_sign_in(res),
{
    AuthErrorResponse::Error(ApiError::server_error("Failed to parse request"))
}

/// The password check of a sign-in: the user found by the email (none where the lookup
/// failed), the stored hash read as UTF-8 text and as a PHC string, and the password
/// verified against it.
pub fn sign_in_check(user: Option<User>, password: &str) -> (res: Result<PartialUser, AuthErrorResponse>)
    ensures
        match sign_in_verdict(user, password@) {
            SignInVerdict::Refused => res matches Err(r) && is_refused_sign_in(r),
            SignInVerdict::Unreadable => res matches Err(r) && is_unreadable_sign_in(r),
            SignInVerdict::Accepted => res matches Ok(p) && p == PartialUser {
                id: user.unwrap().id,
                username: user.unwrap().username,
                email: user.unwrap().email,
            },
        },
{
    let user = match user {
        Some(u) => u,
        None => return Err(refused_sign_in()),
    };
    let User { id, username, email, password_hash, created_at: _ } = user;
    let hash = match utf8_text(password_hash) {
        Some(h) => h,
        None => return Err(unreadable_sign_in()),
    };
    match verify_password(password, hash.as_str()) {
        None => Err(unreadable_sign_in()),
        Some(false) => Err(refused_sign_in()),
        Some(true) => Ok(PartialUser { id, username, email }),
    }
}

/// A user whose stored hash was made from a password, as a sign-up stores it, is
/// accepted when signing in with that password.
pub proof fn law_signed_up_password_signs_in(user: User, password: Seq<char>, hash_text: Seq<char>)
    requires
        user.password_hash@ == encode_utf8(hash_text),
        argon2_verdict(password, hash_text) == Some(true),
    ensures
        sign_in_verdict(Some(user), password) == SignInVerdict::Accepted,
{
}

/// The instant `minutes` minutes after `now`, where `chrono` can add them.
pub open spec fn expiry_after(now: UnixTime, minutes: i64) -> Option<UnixTime> {
    if minutes * 60 <= i64::MAX && minutes * 60 >= i64::MIN && chrono_sum_representable(
        now.secs,
        now.nanos,
        (minutes * 60) as i64,
    ) && i64::MIN <= now.secs + minutes * 60 <= i64::MAX {
        Some(UnixTime { secs: (now.secs + minutes * 60) as i64, nanos: now.nanos })
    } else {
        None
    }
}

/// Whether an instant can be written as a token's expiration.
pub open spec fn expiry_writable(t: UnixTime) -> bool {
    iso8601_datetime(chrono_rfc3339(t.secs, t.nanos))
}

/// The tokens and cookies of a new session, and the reply that carries the user.
pub struct IssuedSession {
    pub access_token: String,
    pub refresh_token: String,
    pub access_cookie: BaseCookie,
    pub refresh_cookie: BaseCookie,
    pub reply: ApiSuccess,
}

/// Why no session was issued.
pub enum IssueFailure {
    /// A token could not be signed.
    Signing(AuthServiceError),
    /// An expiry cannot be computed or written (where the service panics).
    ExpiryOutOfRange,
}

/// `data` is `{"user": <the user's JSON>}`.
pub open spec fn is_user_data(data: Json, user: PartialUser) -> bool {
    match data {
        Json::Object(m) => m@.len() == 1 && m@[0].0@ == "user"@ && is_user_json(m@[0].1, user),
        _ => false,
    }
}

/// The cookie of a token: debug mode, for the domain `*`.
pub open spec fn is_token_cookie(c: BaseCookie, name: Seq<char>, token: Seq<char>) -> bool {
    c.name_view() == name && c.value_view() == token && c.is_debug() && c.domain_view() == "*"@
}

/// What a session issued for `user` with the key pair `key`, its tokens expiring at
/// `access_exp` and `refresh_exp`, holds: the two tokens in their cookies, each naming
/// the pair's key id in its footer and verifying under the pair's public half with the
/// claims of the user (the access token) or of the user's id (the refresh token), and a
/// `200` reply with the user.
pub open spec fn is_session_for(
    s: IssuedSession,
    user: PartialUser,
    key: Seq<u8>,
    access_exp: UnixTime,
    refresh_exp: UnixTime,
) -> bool {
    &&& is_token_cookie(s.access_cookie, ACCESS_TOKEN_COOKIE@, s.access_token@)
    &&& is_token_cookie(s.refresh_cookie, REFRESH_TOKEN_COOKIE@, s.refresh_token@)
    &&& s.access_token@.len() <= 65536 ==> paseto_footer(s.access_token@) == Some(Some(pair_kid(key)))
    &&& s.refresh_token@.len() <= 65536 ==> paseto_footer(s.refresh_token@) == Some(Some(pair_kid(key)))
    &&& s.access_token@.len() <= 65536 ==> (signed_claims(s.access_token@, key.subrange(32, 64), pair_kid(key))
        matches Some(cs) && access_claims(cs, user.id, user.username@, user.email@, access_exp))
    &&& s.refresh_token@.len() <= 65536 ==> (signed_claims(s.refresh_token@, key.subrange(32, 64), pair_kid(key))
        matches Some(cs) && refresh_claims(cs, user.id, refresh_exp))
    &&& s.reply.code == STATUS_OK
    &&& is_user_data(s.reply.data, user)
}

/// How issuing the session of `user` with the key pair `key` at the instant `at` ends:
/// the expiries are computed first; the access token is signed before the refresh
/// token's expiry is written.
pub open spec fn is_issue_outcome(
    res: Result<IssuedSession, IssueFailure>,
    user: PartialUser,
    key: Seq<u8>,
    at: UnixTime,
    access_max_age: i64,
    refresh_max_age: i64,
) -> bool {
    let a = expiry_after(at, access_max_age);
    let r = expiry_after(at, refresh_max_age);
    if a is None || r is None || !expiry_writable(a.unwrap()) {
        res matches Err(IssueFailure::ExpiryOutOfRange)
    } else if !is_key_pair(key) {
        res matches Err(IssueFailure::Signing(e)) && e is PasetoError
    } else if !expiry_writable(r.unwrap()) {
        res matches Err(IssueFailure::ExpiryOutOfRange)
    } else {
        res matches Ok(s) && is_session_for(s, user, key, a.unwrap(), r.unwrap())
    }
}

/// Issues the session of a user at the instant `now`: an access token and a refresh
/// token that expire the given numbers of minutes later, signed with the key pair, in
/// debug-mode cookies for the domain `*`, and the reply `{"user": …}`. The expiries are
/// computed first; the access token is signed before the refresh token's expiry is
/// written.
pub fn issue_session_at(
    user: PartialUser,
    secret_key: &SecretKey,
    now: UnixTime,
    access_max_age: i64,
    refresh_max_age: i64,
) -> (res: Result<IssuedSession, IssueFailure>)
    requires
        now.nanos < 1_000_000_000,
        chrono_representable(now.secs, now.nanos),
    ensures
        is_issue_outcome(res, user, secret_key.0@, now, access_max_age, refresh_max_age),
{
    let access_exp = match minutes_after(now, access_max_age) {
        Some(t) => t,
        None => return Err(IssueFailure::ExpiryOutOfRange),
    };
    let refresh_exp = match minutes_after(now, refresh_max_age) {
        Some(t) => t,
        None => return Err(IssueFailure::ExpiryOutOfRange),
    };
    assert(expiry_after(now, access_max_age) == Some(access_exp));
    assert(expiry_after(now, refresh_max_age) == Some(refresh_exp));
    if !expiration_writable(access_exp) {
        return Err(IssueFailure::ExpiryOutOfRange);
    }
    let access_token = match sign_access_token_for(UserClaims::from(user.duplicate()), secret_key, access_exp) {
        Ok(t) => t,
        Err(e) => return Err(IssueFailure::Signing(e)),
    };
    if !expiration_writable(refresh_exp) {
        return Err(IssueFailure::ExpiryOutOfRange);
    }
    let refresh_token = match sign_refresh_token_for(UserClaims::from(user.duplicate()), secret_key, refresh_exp) {
        Ok(t) => t,
        Err(e) => return Err(IssueFailure::Signing(e)),
    };
    let access_cookie = BaseCookie::new(ACCESS_TOKEN_COOKIE, access_token.as_str(), true, "*");
    let refresh_cookie = BaseCookie::new(REFRESH_TOKEN_COOKIE, refresh_token.as_str(), true, "*");
    let reply = ApiSuccess::ok(Json::single("user", user.into_json()));
    Ok(IssuedSession { access_token, refresh_token, access_cookie, refresh_cookie, reply })
}

/// Issues the session of a user now, as [`issue_session_at`] does at the current time.
pub fn issue_session(
    user: PartialUser,
    secret_key: &SecretKey,
    access_max_age: i64,
    refresh_max_age: i64,
) -> (res: Result<IssuedSession, IssueFailure>)
    ensures
        exists|at: UnixTime|
            is_clock_reading(at) && #[trigger] is_issue_outcome(res, user, secret_key.0@, at, access_max_age, refresh_max_age),
{
    let at = current_instant();
    issue_session_at(user, secret_key, at, access_max_age, refresh_max_age)
}

/// A session issued at `now` holds an access token that expires `access_max_age`
/// minutes after `now` and a refresh token that expires `refresh_max_age` minutes after
/// `now` (the same nanoseconds), each carrying the claims of its kind for the user, in
/// the cookie of its kind, and the reply with the user.
pub proof fn law_issued_tokens_expire_after_their_lifetimes(
    res: Result<IssuedSession, IssueFailure>,
    user: PartialUser,
    key: Seq<u8>,
    now: UnixTime,
    access_max_age: i64,
    refresh_max_age: i64,
)
    requires
        is_issue_outcome(res, user, key, now, access_max_age, refresh_max_age),
        res is Ok,
    ensures
        res matches Ok(s) && ({
            let access_exp = UnixTime { secs: (now.secs + access_max_age * 60) as i64, nanos: now.nanos };
            let refresh_exp = UnixTime { secs: (now.secs + refresh_max_age * 60) as i64, nanos: now.nanos };
            &&& i64::MIN <= now.secs + access_max_age * 60 <= i64::MAX
            &&& i64::MIN <= now.secs + refresh_max_age * 60 <= i64::MAX
            &&& is_key_pair(key)
            &&& is_token_cookie(s.access_cookie, ACCESS_TOKEN_COOKIE@, s.access_token@)
            &&& is_token_cookie(s.refresh_cookie, REFRESH_TOKEN_COOKIE@, s.refresh_token@)
            &&& s.access_token@.len() <= 65536 ==> (signed_claims(s.access_token@, key.subrange(32, 64), pair_kid(key))
                matches Some(cs) && access_claims(cs, user.id, user.username@, user.email@, access_exp))
            &&& s.refresh_token@.len() <= 65536 ==> (signed_claims(s.refresh_token@, key.subrange(32, 64), pair_kid(key))
                matches Some(cs) && refresh_claims(cs, user.id, refresh_exp))
            &&& s.reply.code == STATUS_OK
            &&& is_user_data(s.reply.data, user)
        }),
{
}

/// What the sign-up handler does once the user is inserted.
pub enum SignUpStep {
    /// Set the session's cookies and send its reply.
    Respond(IssuedSession),
    /// Delete the inserted user and send the error's response.
    RollBack(AuthErrorResponse),
    /// Stop: the service panics here.
    Abort,
}

/// The sign-up handler's step after issuing the session of the inserted user: a token
/// that cannot be signed rolls the user back and answers the token error.
pub fn sign_up_step(issued: Result<IssuedSession, IssueFailure>) -> (res: SignUpStep)
    ensures
        match issued {
            Ok(s) => res == SignUpStep::Respond(s),
            Err(IssueFailure::Signing(e)) => res matches SignUpStep::RollBack(r) && is_error_response(e, r),
            Err(IssueFailure::ExpiryOutOfRange) => res is Abort,
        },
{
    match issued {
        Ok(s) => SignUpStep::Respond(s),
        Err(IssueFailure::Signing(e)) => SignUpStep::RollBack(e.into_response()),
        Err(IssueFailure::ExpiryOutOfRange) => SignUpStep::Abort,
    }
}

} // verus!
