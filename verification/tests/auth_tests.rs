use chrono::NaiveDateTime;
use paseto_auth::auth::config::Config;
use paseto_auth::auth::cookies::BaseCookie;
use paseto_auth::auth::errors::{AuthErrorResponse, AuthServiceError};
use paseto_auth::auth::extractors::{SessionFailure, session_claims, session_key_id, verify_user};
use paseto_auth::auth::handlers::{
    SignInUserSchema, SignUpUserSchema, get_health, get_health_db, get_root, logout_user, validate_password,
};
use paseto_auth::auth::passwords::{PasswordError, check_password};
use paseto_auth::auth::paseto::{
    ExpiryRejection, RefreshUserClaims, UserClaims, build_base_token, check_expiration_claim,
    extract_kid_from_token, get_paserk_id, sign_access_token_for, sign_refresh_token_for, sign_token,
    verify_access_token, verify_refresh_token, verify_token,
};
use paseto_auth::auth::sessions::{
    IssueFailure, IssuedSession, SignUpStep, issue_session, issue_session_at, new_user_for, sign_in_check,
    sign_up_step,
};
use paseto_auth::auth::signing_keys::{
    VerifierLookup, generate_key_pair, get_public_keys, kid_of_redis_key, plan_key_rotation,
    verifier_key_from_entry, verifying_redis_key,
};
use paseto_auth::auth::users::{PartialUser, User};
use paseto_auth::shared::claims::{ClaimSet, ClaimValue};
use paseto_auth::shared::clock::UnixTime;
use paseto_auth::shared::json::Json;
use paseto_auth::shared::keys::{PublicKey, SecretKey};
use paseto_auth::shared::serde_customs::FlexibleNumber;
use paseto_auth::shared::text::str_equal;
use paseto_auth::shared::validation::{AxumValidator, Validate, ValidatedJson};

fn text(s: &str) -> Json {
    Json::Str(s.to_string())
}

fn message_fail(r: &AuthErrorResponse) -> (u16, Json) {
    match r {
        AuthErrorResponse::Fail(f) => (f.code, f.data.clone_json()),
        AuthErrorResponse::Error(e) => panic!("server error {}", e.message),
    }
}

trait CloneJson {
    fn clone_json(&self) -> Json;
}

impl CloneJson for Json {
    fn clone_json(&self) -> Json {
        match self {
            Json::Null => Json::Null,
            Json::Bool(b) => Json::Bool(*b),
            Json::Int(i) => Json::Int(*i),
            Json::Str(s) => Json::Str(s.clone()),
            Json::Array(a) => Json::Array(a.iter().map(|j| j.clone_json()).collect()),
            Json::Object(m) => Json::Object(m.iter().map(|(k, v)| (k.clone(), v.clone_json())).collect()),
        }
    }
}

fn pair() -> SecretKey {
    SecretKey::from_seed([11u8; 32])
}

fn claims(id: i32) -> UserClaims {
    UserClaims { id: FlexibleNumber(id), username: "ann".to_string(), email: "ann@example.com".to_string() }
}

fn in_minutes(minutes: i64) -> UnixTime {
    let t = current_time();
    UnixTime { secs: t.secs + minutes * 60, nanos: t.nanos }
}

fn partial_user() -> PartialUser {
    PartialUser { id: 7, username: "ann".to_string(), email: "ann@example.com".to_string() }
}

fn stored_user(hash: Vec<u8>) -> User {
    User {
        id: 7,
        username: "ann".to_string(),
        email: "ann@example.com".to_string(),
        password_hash: hash,
        created_at: NaiveDateTime::default(),
    }
}

fn current_time() -> UnixTime {
    let d = std::time::SystemTime::now().duration_since(std::time::UNIX_EPOCH).unwrap();
    UnixTime { secs: d.as_secs() as i64, nanos: d.subsec_nanos() }
}

const STRONG: &str = "correct horse battery staple 1934!";

#[test]
fn service_failures_are_server_errors_with_their_description() {
    for (e, description) in [
        (AuthServiceError::DieselError, "Error while performing database operation"),
        (AuthServiceError::DieselPoolError, "Unable to acquire pool session"),
        (AuthServiceError::PasetoError, "Unable to parse token"),
        (AuthServiceError::RedisError, "Unable to acquire redis connection"),
    ] {
        assert_eq!(e.to_message(), description);
        match e.into_response() {
            AuthErrorResponse::Error(x) => {
                assert_eq!(x.code, 500);
                assert_eq!(x.message, description);
                assert!(x.data.is_none());
            },
            AuthErrorResponse::Fail(_) => panic!("expected a server error"),
        }
    }
}

#[test]
fn request_failures_carry_a_message() {
    let r = AuthServiceError::UnauthorizedError(Some("go away".to_string())).into_response();
    assert_eq!(message_fail(&r), (401, Json::message("go away")));
    let r = AuthServiceError::UnauthorizedError(None).into_response();
    assert_eq!(message_fail(&r), (401, Json::message("Unauthorized")));
    let r = AuthServiceError::ForbiddenError(None).into_response();
    assert_eq!(message_fail(&r), (403, Json::message("Forbidden")));
    let r = AuthServiceError::ForbiddenError(Some("no".to_string())).into_response();
    assert_eq!(message_fail(&r), (403, Json::message("no")));
    let r = AuthServiceError::ExistingUserError.into_response();
    assert_eq!(message_fail(&r), (422, Json::message("User with given email already exists")));
    let reply = AuthServiceError::ExistingUserError.into_response().into_reply();
    assert_eq!(reply.code, 422);
}

#[test]
fn weak_passwords_are_refused_with_feedback() {
    assert!(check_password(STRONG).is_ok());
    match check_password("password") {
        Err(PasswordError::WeakPasswordError { feedback }) => assert!(feedback.is_some()),
        Ok(()) => panic!("a weak password was accepted"),
    }
    match check_password("") {
        Err(PasswordError::WeakPasswordError { .. }) => {},
        Ok(()) => panic!("the empty password was accepted"),
    }
    let e = validate_password("password").unwrap_err();
    assert_eq!(e.code, "password/weak");
    assert!(e.message.is_some());
    assert!(e.params.is_empty());
    assert!(validate_password(STRONG).is_ok());
}

#[test]
fn sign_up_payloads_report_each_failed_field() {
    let bad = SignUpUserSchema { username: String::new(), email: "nope".to_string(), password: "abc".to_string() };
    let errors = bad.validate().unwrap_err();
    let names: Vec<&str> = errors.fields.iter().map(|f| f.0.as_str()).collect();
    assert_eq!(names, vec!["username", "email", "password"]);
    let password_codes: Vec<&str> = errors.fields[2].1.iter().map(|e| e.code.as_str()).collect();
    assert_eq!(password_codes, vec!["length", "password/weak"]);
    let good = SignUpUserSchema {
        username: "ann".to_string(),
        email: "ann@example.com".to_string(),
        password: STRONG.to_string(),
    };
    assert!(good.validate().is_ok());
    let fail = AxumValidator::validate(&bad).unwrap_err();
    assert_eq!(fail.code, 422);
    let again = SignUpUserSchema { username: String::new(), email: "nope".to_string(), password: "abc".to_string() };
    assert_eq!(fail.data, again.validate().unwrap_err().into_json());
    assert!(ValidatedJson::accept(good).is_ok());
}

#[test]
fn sign_in_payloads_check_email_and_password() {
    let long_but_weak =
        SignInUserSchema { email: "ann@example.com".to_string(), password: "aaaaaaaa".to_string() };
    let errors = long_but_weak.validate().unwrap_err();
    assert_eq!(errors.fields.len(), 1);
    assert_eq!(errors.fields[0].0, "password");
    assert_eq!(errors.fields[0].1.len(), 1);
    assert_eq!(errors.fields[0].1[0].code, "password/weak");
    let ok = SignInUserSchema { email: "ann@example.com".to_string(), password: STRONG.to_string() };
    assert!(ok.validate().is_ok());
}

#[test]
fn configuration_urls_are_checked() {
    let good = Config {
        auth_database_url: "postgres://localhost/auth".to_string(),
        auth_redis_url: "redis://localhost".to_string(),
        auth_refresh_token_max_age: 60,
        auth_access_token_max_age: 15,
    };
    assert!(good.validate().is_ok());
    let bad = Config {
        auth_database_url: "nope".to_string(),
        auth_redis_url: "also nope".to_string(),
        auth_refresh_token_max_age: 60,
        auth_access_token_max_age: 15,
    };
    let errors = bad.validate().unwrap_err();
    let names: Vec<&str> = errors.fields.iter().map(|f| f.0.as_str()).collect();
    assert_eq!(names, vec!["auth_database_url", "auth_redis_url"]);
    assert_eq!(errors.fields[0].1[0].code, "url");
}

#[test]
fn base_token_claims() {
    let t = build_base_token("12", UnixTime { secs: 0, nanos: 0 });
    assert_eq!(t.subject, "12");
    assert_eq!(t.issuer, "auth_service");
    assert_eq!(t.audience, "example");
    assert_eq!(t.expiration, "1970-01-01T00:00:00+00:00");
    assert!(t.custom.is_empty());
}

#[test]
fn signed_tokens_name_their_key_and_verify_with_it() {
    let key = pair();
    let token = sign_access_token_for(claims(42), &key, in_minutes(15)).unwrap();
    assert!(token.starts_with("v4.public."));
    assert_eq!(extract_kid_from_token(&token), Some(get_paserk_id(&key)));
    assert_eq!(get_paserk_id(&key), key.public_half().paserk_id());
    let user = verify_access_token(&token, &key.public_half(), current_time()).unwrap();
    assert_eq!(user.id.value(), 42);
    assert_eq!(user.username, "ann");
    assert_eq!(user.email, "ann@example.com");
    let raw = verify_token(&token, &key.public_half(), current_time()).unwrap();
    let sub = raw.members.iter().find(|m| m.0 == "sub").unwrap();
    assert!(matches!(&sub.1, ClaimValue::Text(t) if t == "42"));
    let exp = raw.members.iter().find(|m| m.0 == "exp").unwrap();
    assert!(matches!(&exp.1, ClaimValue::Text(_)));
    let iss = raw.members.iter().find(|m| m.0 == "iss").unwrap();
    assert!(matches!(&iss.1, ClaimValue::Text(t) if t == "auth_service"));

    let refresh = sign_refresh_token_for(claims(-3), &key, in_minutes(60)).unwrap();
    assert_eq!(verify_refresh_token(&refresh, &key.public_half(), current_time()).unwrap().id.value(), -3);
    // a refresh token carries no username or email
    assert!(verify_access_token(&refresh, &key.public_half(), current_time()).is_none());
}

#[test]
fn tokens_do_not_verify_with_another_key_or_after_expiry() {
    let key = pair();
    let other = SecretKey::from_seed([12u8; 32]);
    let token = sign_access_token_for(claims(1), &key, in_minutes(15)).unwrap();
    assert!(verify_access_token(&token, &other.public_half(), current_time()).is_none());
    let expired = sign_access_token_for(claims(1), &key, in_minutes(-5)).unwrap();
    assert!(verify_access_token(&expired, &key.public_half(), current_time()).is_none());
    assert!(verify_access_token("v4.public.abc", &key.public_half(), current_time()).is_none());
}

#[test]
fn a_pair_whose_halves_differ_does_not_sign() {
    let mut bytes = pair().0;
    bytes[40] ^= 1;
    let broken = SecretKey(bytes);
    let t = build_base_token("1", in_minutes(5));
    assert!(matches!(sign_token(&broken, &t), Err(AuthServiceError::PasetoError)));
    assert!(matches!(sign_access_token_for(claims(1), &broken, in_minutes(5)), Err(AuthServiceError::PasetoError)));
}

#[test]
fn expiration_claim_check() {
    let now = UnixTime { secs: 1_000, nanos: 0 };
    assert!(matches!(
        check_expiration_claim("nbf", Some("1970-01-01T00:00:00Z"), now),
        Err(ExpiryRejection::Unexpected(ref k)) if k == "nbf"
    ));
    assert!(matches!(check_expiration_claim("exp", None, now), Err(ExpiryRejection::Unexpected(ref k)) if k == "exp"));
    assert!(matches!(check_expiration_claim("exp", Some("soon"), now), Err(ExpiryRejection::Invalid)));
    assert!(matches!(
        check_expiration_claim("exp", Some("1970-01-01T00:16:39Z"), now),
        Err(ExpiryRejection::Expired)
    ));
    assert!(check_expiration_claim("exp", Some("1970-01-01T00:16:40Z"), now).is_ok());
    assert!(check_expiration_claim("exp", Some("1970-01-01T01:16:40+01:00"), now).is_ok());
    assert!(str_equal("exp", "exp"));
    assert!(!str_equal("exp", "ex"));
    assert!(!str_equal("exp", "exq"));
}

#[test]
fn cookies_are_secure_outside_debug_mode() {
    let debug = BaseCookie::new("x-auth-access-token", "tok", true, "*").attributes();
    assert_eq!(debug.name, "x-auth-access-token");
    assert_eq!(debug.value, "tok");
    assert!(debug.http_only);
    assert!(!debug.secure);
    assert!(debug.same_site_lax);
    assert_eq!(debug.path, "/");
    assert_eq!(debug.domain, "");
    let live = BaseCookie::new("c", "v", false, "example.com").attributes();
    assert!(live.secure);
    assert_eq!(live.domain, "example.com");
}

#[test]
fn users_are_shown_without_their_hash() {
    let user = stored_user(vec![1, 2, 3]);
    let shown = PartialUser::from(user);
    assert_eq!(shown.id, 7);
    assert_eq!(
        shown.into_json(),
        Json::Object(vec![
            ("id".to_string(), Json::Int(7)),
            ("username".to_string(), text("ann")),
            ("email".to_string(), text("ann@example.com")),
        ])
    );
    let claims: UserClaims = partial_user().into();
    assert_eq!(claims.id.value(), 7);
}

#[test]
fn a_signed_up_user_signs_in_with_the_same_password() {
    let payload = SignUpUserSchema {
        username: "ann".to_string(),
        email: "ann@example.com".to_string(),
        password: STRONG.to_string(),
    };
    let new_user = new_user_for(payload);
    assert!(new_user.id.is_none());
    assert!(new_user.created_at.is_none());
    assert_eq!(new_user.username, "ann");
    let user = stored_user(new_user.password_hash.clone());
    let shown = sign_in_check(Some(user), STRONG).ok().unwrap();
    assert_eq!(shown.id, 7);
    assert_eq!(shown.email, "ann@example.com");
    let wrong = sign_in_check(Some(stored_user(new_user.password_hash)), "wrong password");
    let r = wrong.err().unwrap();
    assert_eq!(message_fail(&r), (401, Json::message("Invalid email or password")));
}

#[test]
fn sign_in_refusals() {
    let r = sign_in_check(None, STRONG).err().unwrap();
    assert_eq!(message_fail(&r), (401, Json::message("Invalid email or password")));
    for hash in [vec![0xffu8, 0xfe], b"plain text".to_vec()] {
        match sign_in_check(Some(stored_user(hash)), STRONG).err().unwrap() {
            AuthErrorResponse::Error(e) => {
                assert_eq!(e.code, 500);
                assert_eq!(e.message, "Failed to parse request");
            },
            AuthErrorResponse::Fail(_) => panic!("expected a server error"),
        }
    }
}

fn issued(key: &SecretKey) -> IssuedSession {
    match issue_session(partial_user(), key, 15, 60 * 24) {
        Ok(s) => s,
        Err(_) => panic!("no session"),
    }
}

#[test]
fn a_session_sets_both_token_cookies_and_shows_the_user() {
    let key = pair();
    let session = issued(&key);
    let access = session.access_cookie.attributes();
    assert_eq!(access.name, "x-auth-access-token");
    assert_eq!(access.value, session.access_token);
    assert_eq!(access.domain, "");
    assert!(!access.secure);
    let refresh = session.refresh_cookie.attributes();
    assert_eq!(refresh.name, "x-auth-refresh-token");
    assert_eq!(refresh.value, session.refresh_token);
    assert_eq!(session.reply.code, 200);
    assert_eq!(session.reply.data, Json::single("user", partial_user().into_json()));
    let kid = extract_kid_from_token(&session.access_token).unwrap();
    assert_eq!(kid, get_paserk_id(&key));
    assert_eq!(verify_access_token(&session.access_token, &key.public_half(), current_time()).unwrap().id.value(), 7);
    assert_eq!(verify_refresh_token(&session.refresh_token, &key.public_half(), current_time()).unwrap().id.value(), 7);
}

#[test]
fn sessions_that_cannot_be_issued() {
    let key = pair();
    assert!(matches!(
        issue_session(partial_user(), &key, i64::MAX, 60),
        Err(IssueFailure::ExpiryOutOfRange)
    ));
    assert!(matches!(
        issue_session_at(partial_user(), &key, current_time(), 15, i64::MAX / 100),
        Err(IssueFailure::ExpiryOutOfRange)
    ));
    let broken = SecretKey([0u8; 64]);
    let outcome = issue_session(partial_user(), &broken, 15, 60);
    assert!(matches!(outcome, Err(IssueFailure::Signing(AuthServiceError::PasetoError))));
    match sign_up_step(outcome) {
        SignUpStep::RollBack(AuthErrorResponse::Error(e)) => assert_eq!(e.code, 500),
        _ => panic!("expected a roll back"),
    }
    assert!(matches!(sign_up_step(Err(IssueFailure::ExpiryOutOfRange)), SignUpStep::Abort));
    assert!(matches!(sign_up_step(Ok(issued(&key))), SignUpStep::Respond(_)));
}

#[test]
fn session_key_ids_come_from_the_access_cookie() {
    let r = session_key_id(None).unwrap_err();
    assert_eq!(message_fail(&r), (401, Json::message("Authorization cookie not present")));
    let r = session_key_id(Some("v4.public.nofooter")).unwrap_err();
    assert_eq!(message_fail(&r), (401, Json::message("Invalid or expired token")));
    let r = session_key_id(Some("junk")).unwrap_err();
    assert_eq!(message_fail(&r), (401, Json::message("Invalid or expired token")));
    assert_eq!(session_key_id(Some("v4.public.abc.Zm9vdGVy")).unwrap(), "footer");
}

#[test]
fn session_claims_need_the_published_key() {
    let key = pair();
    let session = issued(&key);
    let stored = Some(key.public_half().to_paserk_string());
    let lookup = verifier_key_from_entry(stored);
    let user = session_claims(&session.access_token, lookup, current_time()).ok().unwrap();
    assert_eq!(user.id.value(), 7);
    match session_claims(&session.access_token, VerifierLookup::Missing, current_time()) {
        Err(SessionFailure::Rejected(r)) => {
            assert_eq!(message_fail(&r), (401, Json::message("Invalid or expired token")))
        },
        _ => panic!("expected a rejection"),
    }
    assert!(matches!(session_claims(&session.access_token, VerifierLookup::Unreadable, current_time()), Err(SessionFailure::Abort)));
    let other = SecretKey::from_seed([99u8; 32]).public_half();
    match session_claims(&session.access_token, VerifierLookup::Found(other), current_time()) {
        Err(SessionFailure::Rejected(_)) => {},
        _ => panic!("a token verified with another key"),
    }
    assert!(matches!(verifier_key_from_entry(None), VerifierLookup::Missing));
    assert!(matches!(verifier_key_from_entry(Some("junk".to_string())), VerifierLookup::Unreadable));
}

#[test]
fn who_am_i_shows_the_claims() {
    let reply = verify_user(claims(5));
    assert_eq!(reply.code, 200);
    assert_eq!(
        reply.data,
        Json::single(
            "user",
            Json::Object(vec![
                ("id".to_string(), Json::Int(5)),
                ("username".to_string(), text("ann")),
                ("email".to_string(), text("ann@example.com")),
            ])
        )
    );
}

#[test]
fn root_and_health_replies() {
    assert_eq!(get_root(), 204);
    assert_eq!(get_health().data, Json::Object(vec![]));
    let db = get_health_db(Ok(())).ok().unwrap();
    assert_eq!(db.data, Json::message("Database operational"));
    assert!(matches!(get_health_db(Err(AuthServiceError::DieselError)), Err(AuthErrorResponse::Error(_))));
    let out = logout_user();
    assert_eq!(out.code, 204);
    assert_eq!(out.removed_cookies, vec!["x-auth-access-token".to_string(), "x-auth-refresh-token".to_string()]);
}

#[test]
fn redis_keys_of_verifying_keys() {
    assert_eq!(verifying_redis_key("k4.pid.abc"), "verifying_key:k4.pid.abc");
    assert_eq!(kid_of_redis_key("verifying_key:k4.pid.abc"), "k4.pid.abc");
    assert_eq!(kid_of_redis_key("a:b:c"), "c");
    assert_eq!(kid_of_redis_key("plain"), "plain");
    assert_eq!(kid_of_redis_key("ends:"), "");
    assert_eq!(kid_of_redis_key(""), "");
    let kid = SecretKey::from_seed([1u8; 32]).public_half().paserk_id();
    assert_eq!(kid_of_redis_key(&verifying_redis_key(&kid)), kid);
}

#[test]
fn published_keys_list_every_verifying_key() {
    let entries = vec![
        ("verifying_key:k1".to_string(), Some("key1".to_string())),
        ("verifying_key:k2".to_string(), Some("key2".to_string())),
    ];
    let body = get_public_keys(entries).ok().unwrap();
    let entry = |kid: &str, key: &str| Json::Object(vec![("kid".to_string(), text(kid)), ("key".to_string(), text(key))]);
    assert_eq!(body, Json::single("keys", Json::Array(vec![entry("k1", "key1"), entry("k2", "key2")])));
    assert_eq!(get_public_keys(vec![]).ok().unwrap(), Json::single("keys", Json::Array(vec![])));
    let missing = vec![
        ("verifying_key:k1".to_string(), Some("key1".to_string())),
        ("verifying_key:k2".to_string(), None),
    ];
    let e = get_public_keys(missing).err().unwrap();
    assert_eq!(e.code, 500);
    assert_eq!(e.message, "Could not find verifying_key value");
}

#[test]
fn a_rotation_publishes_the_key_its_tokens_name() {
    let start = UnixTime { secs: 1_700_000_000, nanos: 5 };
    let rotation = plan_key_rotation([5u8; 32], start, 60).unwrap();
    assert_eq!(rotation.verifying_key_exp, 1_700_000_000 + 3600 + 86400);
    let signing = SecretKey::from_paserk(&rotation.signing_key).unwrap();
    assert_eq!(signing.0, SecretKey::from_seed([5u8; 32]).0);
    let token = sign_access_token_for(claims(3), &signing, in_minutes(5)).unwrap();
    let kid = extract_kid_from_token(&token).unwrap();
    assert_eq!(verifying_redis_key(&kid), rotation.verifying_redis_key);
    let published = PublicKey::from_paserk(&rotation.verifying_key).unwrap();
    assert_eq!(published.0, signing.public_half().0);
    assert_eq!(verify_access_token(&token, &published, current_time()).unwrap().id.value(), 3);
    assert!(plan_key_rotation([5u8; 32], start, i64::MAX).is_none());
    assert!(generate_key_pair(60).is_some());
    let a = generate_key_pair(60).unwrap();
    let b = generate_key_pair(60).unwrap();
    assert_ne!(a.signing_key, b.signing_key);
}

#[test]
fn claims_of_a_token_read_as_user_claims() {
    let set = ClaimSet {
        members: vec![
            ("sub".to_string(), ClaimValue::Text("8".to_string())),
            ("email".to_string(), ClaimValue::Text("e@x.io".to_string())),
            ("username".to_string(), ClaimValue::Text("bo".to_string())),
        ],
    };
    let c = UserClaims::from_claims(&set).unwrap();
    assert_eq!(c.id.value(), 8);
    assert_eq!(c.username, "bo");
    assert_eq!(RefreshUserClaims::from_claims(&set).unwrap().id.value(), 8);
    let missing = ClaimSet { members: vec![("sub".to_string(), ClaimValue::Text("8".to_string()))] };
    assert!(UserClaims::from_claims(&missing).is_none());
    assert!(RefreshUserClaims::from_claims(&missing).is_some());
}

#[test]
fn unprocessable_payloads_carry_the_checks_parameters() {
    let bad_email = SignInUserSchema { email: "nope".to_string(), password: STRONG.to_string() };
    let fail = AxumValidator::validate(&bad_email).unwrap_err();
    assert_eq!(fail.code, 422);
    let error = Json::Object(vec![
        ("code".to_string(), Json::Str("email".to_string())),
        ("message".to_string(), Json::Null),
        ("params".to_string(), Json::Object(vec![("value".to_string(), Json::Str("nope".to_string()))])),
    ]);
    assert_eq!(fail.data, Json::Object(vec![("email".to_string(), Json::Array(vec![error]))]));

    let short_name = SignUpUserSchema {
        username: String::new(),
        email: "ann@example.com".to_string(),
        password: STRONG.to_string(),
    };
    let fail = ValidatedJson::accept(short_name).err().unwrap();
    let error = Json::Object(vec![
        ("code".to_string(), Json::Str("length".to_string())),
        ("message".to_string(), Json::Null),
        ("params".to_string(), Json::Object(vec![
            ("min".to_string(), Json::Int(1)),
            ("value".to_string(), Json::Str(String::new())),
        ])),
    ]);
    assert_eq!(fail.data, Json::Object(vec![("username".to_string(), Json::Array(vec![error]))]));
}
