use paseto_auth::auth::paseto::{UserClaims, sign_access_token_for};
use paseto_auth::auth::signing_keys::{get_public_keys, kid_of_redis_key, plan_key_rotation};
use paseto_auth::resource_server::config::Config;
use paseto_auth::resource_server::handlers::{get_health, get_todos};
use paseto_auth::resource_server::session::{
    SessionRejection, SessionStep, UserSession, missing_cookie_rejection, session_rejection, session_step,
    session_token,
};
use paseto_auth::shared::claims::{ClaimSet, ClaimValue};
use paseto_auth::shared::clock::UnixTime;
use paseto_auth::shared::json::Json;
use paseto_auth::shared::keys::SecretKey;
use paseto_auth::shared::paserk::{KeyItem, PaserkClient, PaserkClientError, ValidationStep};
use paseto_auth::shared::serde_customs::FlexibleNumber;
use paseto_auth::shared::validation::Validate;

fn current_time() -> UnixTime {
    let d = std::time::SystemTime::now().duration_since(std::time::UNIX_EPOCH).unwrap();
    UnixTime { secs: d.as_secs() as i64, nanos: d.subsec_nanos() }
}

fn fail_of(r: SessionRejection) -> (u16, Json) {
    match r {
        SessionRejection::Fail(f) => (f.code, f.data),
        SessionRejection::Error(e) => panic!("server error {}", e.message),
    }
}

fn is_authentication_error(r: &SessionRejection) -> bool {
    matches!(r, SessionRejection::Error(e) if e.code == 500 && e.message == "Error authenticating" && e.data.is_none())
}

#[test]
fn resource_configuration_urls_are_checked() {
    let good = Config {
        resource_paserk_url: "http://localhost:3000/.well-known/paserk.json".to_string(),
        resource_database_url: "postgres://localhost/resource".to_string(),
        resource_service_port: 4000,
    };
    assert!(good.validate().is_ok());
    let bad = Config {
        resource_paserk_url: "localhost".to_string(),
        resource_database_url: "postgres://localhost/resource".to_string(),
        resource_service_port: 4000,
    };
    let errors = bad.validate().unwrap_err();
    assert_eq!(errors.fields.len(), 1);
    assert_eq!(errors.fields[0].0, "resource_paserk_url");
}

#[test]
fn requests_without_the_cookie_are_bad_requests() {
    assert_eq!(fail_of(missing_cookie_rejection()), (400, Json::message("Authentication cookie not found")));
    let r = session_token(None).err().unwrap();
    assert_eq!(fail_of(r), (400, Json::message("Authentication cookie not found")));
    assert_eq!(session_token(Some("t".to_string())).ok().unwrap(), "t");
}

#[test]
fn each_validation_error_has_its_answer() {
    assert_eq!(fail_of(session_rejection(PaserkClientError::MissingFooter)), (400, Json::message("Invalid token")));
    assert_eq!(fail_of(session_rejection(PaserkClientError::InvalidToken)), (400, Json::message("Invalid token")));
    assert_eq!(
        fail_of(session_rejection(PaserkClientError::ExpiredToken)),
        (401, Json::message("User session expired"))
    );
    for e in [
        PaserkClientError::NetworkError("down".to_string()),
        PaserkClientError::ParseError("url".to_string()),
        PaserkClientError::ClaimParseError,
        PaserkClientError::UnknownError,
        PaserkClientError::UnknownKey,
    ] {
        assert!(is_authentication_error(&session_rejection(e)));
    }
}

#[test]
fn session_steps_follow_the_validation() {
    assert!(matches!(session_step(ValidationStep::FetchKeys), SessionStep::FetchKeys));
    match session_step(ValidationStep::Done(Err(PaserkClientError::MissingFooter))) {
        SessionStep::Reject(r) => assert_eq!(fail_of(r), (400, Json::message("Invalid token"))),
        _ => panic!("expected a rejection"),
    }
    let not_a_user = ClaimSet { members: vec![("sub".to_string(), ClaimValue::Text("1".to_string()))] };
    match session_step(ValidationStep::Done(Ok(not_a_user))) {
        SessionStep::Reject(r) => assert!(is_authentication_error(&r)),
        _ => panic!("expected a rejection"),
    }
    let user = ClaimSet {
        members: vec![
            ("id".to_string(), ClaimValue::Text("4".to_string())),
            ("username".to_string(), ClaimValue::Text("cy".to_string())),
            ("email".to_string(), ClaimValue::Text("cy@x.io".to_string())),
        ],
    };
    match session_step(ValidationStep::Done(Ok(user))) {
        SessionStep::Proceed(s) => {
            assert_eq!(s.id.value(), 4);
            assert_eq!(s.username, "cy");
            assert_eq!(s.email, "cy@x.io");
        },
        _ => panic!("expected a session"),
    }
    let numeric_id = ClaimSet {
        members: vec![
            ("id".to_string(), ClaimValue::Other),
            ("username".to_string(), ClaimValue::Text("cy".to_string())),
            ("email".to_string(), ClaimValue::Text("cy@x.io".to_string())),
        ],
    };
    assert!(UserSession::from_claims(&numeric_id).is_none());
}

#[test]
fn resource_replies() {
    assert_eq!(get_health().code, 200);
    assert_eq!(get_health().data, Json::Object(vec![]));
    let todos = get_todos();
    assert_eq!(todos.code, 200);
    assert_eq!(
        todos.data,
        Json::single(
            "todos",
            Json::Array(vec![Json::pair(
                "name",
                Json::Str("Clean garage".to_string()),
                "completed",
                Json::Bool(false),
            )])
        )
    );
}

#[test]
fn the_resource_server_accepts_a_session_of_the_auth_service() {
    let rotation = plan_key_rotation([21u8; 32], current_time(), 60 * 24 * 7).unwrap();
    let signing = SecretKey::from_paserk(&rotation.signing_key).unwrap();
    let t = current_time();
    let exp = UnixTime { secs: t.secs + 900, nanos: t.nanos };
    let claims = UserClaims { id: FlexibleNumber(77), username: "dee".to_string(), email: "dee@x.io".to_string() };
    let token = sign_access_token_for(claims, &signing, exp).unwrap();

    // what the key endpoint publishes, as the client reads it
    let published = get_public_keys(vec![(rotation.verifying_redis_key.clone(), Some(rotation.verifying_key.clone()))])
        .ok()
        .unwrap();
    let Json::Object(members) = published else { panic!("not an object") };
    let Json::Array(entries) = &members[0].1 else { panic!("not an array") };
    let Json::Object(entry) = &entries[0] else { panic!("not an object") };
    let (Json::Str(kid), Json::Str(key)) = (&entry[0].1, &entry[1].1) else { panic!("not texts") };
    assert_eq!(kid, &kid_of_redis_key(&rotation.verifying_redis_key));
    let items = vec![KeyItem { key: key.clone(), kid: kid.clone() }];

    let mut client = PaserkClient::new("http://auth/.well-known/paserk.json");
    assert!(matches!(client.validate_token(&token, None, current_time()), ValidationStep::FetchKeys));
    let step = client.validate_token(&token, Some(Ok(items)), current_time());
    match session_step(step) {
        SessionStep::Proceed(s) => {
            assert_eq!(s.id.value(), 77);
            assert_eq!(s.username, "dee");
            assert_eq!(s.email, "dee@x.io");
        },
        _ => panic!("the session was not accepted"),
    }
    // the key is cached now: the next request needs no fetch
    assert!(matches!(session_step(client.validate_token(&token, None, current_time())), SessionStep::Proceed(_)));
    // a token signed by another pair is not accepted with the cached key
    let stranger = plan_key_rotation([22u8; 32], current_time(), 60).unwrap();
    let other_key = SecretKey::from_paserk(&stranger.signing_key).unwrap();
    let other_claims = UserClaims { id: FlexibleNumber(1), username: "x".to_string(), email: "x@x.io".to_string() };
    let forged = sign_access_token_for(other_claims, &other_key, exp).unwrap();
    assert!(matches!(client.validate_token(&forged, None, current_time()), ValidationStep::FetchKeys));
    let step = client.validate_token(&forged, Some(Ok(vec![])), current_time());
    assert!(matches!(step, ValidationStep::Done(Err(PaserkClientError::UnknownKey))));
}

#[test]
fn an_expired_session_is_answered_with_401() {
    let rotation = plan_key_rotation([23u8; 32], current_time(), 60).unwrap();
    let signing = SecretKey::from_paserk(&rotation.signing_key).unwrap();
    let t = current_time();
    let exp = UnixTime { secs: t.secs - 60, nanos: t.nanos };
    let claims = UserClaims { id: FlexibleNumber(5), username: "e".to_string(), email: "e@x.io".to_string() };
    let token = sign_access_token_for(claims, &signing, exp).unwrap();
    let items = vec![KeyItem {
        key: rotation.verifying_key.clone(),
        kid: kid_of_redis_key(&rotation.verifying_redis_key),
    }];
    let mut client = PaserkClient::new("http://auth/keys");
    let step = client.validate_token(&token, Some(Ok(items)), current_time());
    assert!(matches!(step, ValidationStep::Done(Err(PaserkClientError::ExpiredToken))));
    match session_step(step) {
        SessionStep::Reject(r) => assert_eq!(fail_of(r), (401, Json::message("User session expired"))),
        _ => panic!("an expired session was accepted"),
    }
}
