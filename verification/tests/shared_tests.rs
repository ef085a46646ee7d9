use paseto_auth::shared::claims::{ClaimSet, ClaimValue, find_id_claim, find_text_claim};
use paseto_auth::shared::clock::{UnixTime, before, minutes_after};
use paseto_auth::shared::json::Json;
use paseto_auth::shared::keys::{PublicKey, SecretKey};
use paseto_auth::shared::paserk::{
    KeyCache, KeyFetchFailure, KeyItem, PaserkClient, PaserkClientError, ValidationStep,
};
use paseto_auth::shared::responses::{APIStatus, ApiError, ApiFail, ApiSuccess};
use paseto_auth::shared::serde_customs::{FlexibleNumber, IntParseErrorKind, parse_i32_text, trim_whitespace};
use paseto_auth::shared::text::i64_to_text;
use paseto_auth::shared::tokens::{ExpiryVerdict, check_default_expiry, check_not_before};
use paseto_auth::shared::validation::{FieldError, ValidatedJson, ValidationErrors};

fn current_time() -> UnixTime {
    let d = std::time::SystemTime::now().duration_since(std::time::UNIX_EPOCH).unwrap();
    UnixTime { secs: d.as_secs() as i64, nanos: d.subsec_nanos() }
}

fn text(s: &str) -> Json {
    Json::Str(s.to_string())
}

fn envelope(status: &str, data: Json) -> Json {
    Json::Object(vec![("status".to_string(), text(status)), ("data".to_string(), data)])
}

#[test]
fn api_status_words() {
    assert_eq!(APIStatus::SUCCESS.as_str(), "success");
    assert_eq!(APIStatus::FAIL.as_str(), "fail");
    assert_eq!(APIStatus::ERROR.as_str(), "error");
}

#[test]
fn success_replies_carry_their_data_in_the_success_envelope() {
    let ok = ApiSuccess::ok(Json::message("hi"));
    assert_eq!(ok.code, 200);
    let reply = ok.into_reply();
    assert_eq!(reply.code, 200);
    assert_eq!(reply.body, envelope("success", Json::message("hi")));

    let empty = ApiSuccess::empty().into_reply();
    assert_eq!(empty.body, envelope("success", Json::Object(vec![])));

    let created = ApiSuccess::created(Json::Null);
    assert_eq!(created.code, 201);
}

#[test]
fn fail_replies_use_their_status_codes() {
    assert_eq!(ApiFail::bad_request(Json::Null).code, 400);
    assert_eq!(ApiFail::unauthorized(Json::Null).code, 401);
    assert_eq!(ApiFail::forbidden(Json::Null).code, 403);
    assert_eq!(ApiFail::unprocessable_entity(Json::Null).code, 422);
    let reply = ApiFail::bad_request(Json::message("nope")).into_reply();
    assert_eq!(reply.code, 400);
    assert_eq!(reply.body, envelope("fail", Json::message("nope")));
}

#[test]
fn error_replies_carry_their_message_and_data() {
    let plain = ApiError::server_error("boom");
    assert_eq!(plain.code, 500);
    assert_eq!(plain.message, "boom");
    let error_envelope = |data: Json| {
        Json::Object(vec![
            ("status".to_string(), text("error")),
            ("message".to_string(), text("boom")),
            ("data".to_string(), data),
        ])
    };
    assert_eq!(plain.into_reply().body, error_envelope(Json::Null));
    let with_data = ApiError::server_error_with_data(Json::Int(3), "boom");
    assert_eq!(with_data.into_reply().body, error_envelope(Json::Int(3)));
}

#[test]
fn flexible_number_reads_trimmed_text() {
    assert_eq!(FlexibleNumber::from_text(" 42 ").unwrap().value(), 42);
    assert_eq!(FlexibleNumber::from_text("-7").unwrap().value(), -7);
    assert_eq!(FlexibleNumber::from_text("+5").unwrap().value(), 5);
    assert_eq!(FlexibleNumber::from_text("2147483647").unwrap().value(), i32::MAX);
    assert_eq!(FlexibleNumber::from_text("-2147483648").unwrap().value(), i32::MIN);
    assert_eq!(FlexibleNumber::from_i32(9).value(), 9);
    let n: FlexibleNumber = 11.into();
    assert_eq!(n.value(), 11);
}

#[test]
fn flexible_number_reports_each_parse_error() {
    assert!(matches!(FlexibleNumber::from_text(""), Err(IntParseErrorKind::Empty)));
    assert!(matches!(FlexibleNumber::from_text("   "), Err(IntParseErrorKind::Empty)));
    assert!(matches!(FlexibleNumber::from_text("-"), Err(IntParseErrorKind::InvalidDigit)));
    assert!(matches!(FlexibleNumber::from_text("12a"), Err(IntParseErrorKind::InvalidDigit)));
    assert!(matches!(FlexibleNumber::from_text("2147483648"), Err(IntParseErrorKind::PosOverflow)));
    assert!(matches!(FlexibleNumber::from_text("-2147483649"), Err(IntParseErrorKind::NegOverflow)));
}

#[test]
fn parse_and_trim_agree_with_std() {
    for t in ["0", "-0", "+0", "17", "  3", "x", "", "-", "+", "99999999999", "-12", "1 2"] {
        let ours = parse_i32_text(t).ok();
        let std_value = t.parse::<i32>().ok();
        assert_eq!(ours, std_value, "text {:?}", t);
    }
    assert_eq!(trim_whitespace("\t a b \n"), "a b");
}

#[test]
fn subject_text_reads_back_as_the_id() {
    for id in [0i32, 1, -1, 42, i32::MAX, i32::MIN] {
        let written = i64_to_text(id as i64);
        assert_eq!(written, id.to_string());
        assert_eq!(FlexibleNumber::from_text(&written).unwrap().value(), id);
    }
    assert_eq!(i64_to_text(i64::MIN), i64::MIN.to_string());
}

#[test]
fn claims_are_read_as_serde_reads_a_user() {
    let members = vec![
        ("sub".to_string(), ClaimValue::Text(" 12 ".to_string())),
        ("username".to_string(), ClaimValue::Text("ann".to_string())),
        ("count".to_string(), ClaimValue::Other),
    ];
    assert_eq!(find_id_claim(&members).unwrap().value(), 12);
    assert_eq!(find_text_claim(&members, "username"), Some("ann".to_string()));
    assert_eq!(find_text_claim(&members, "count"), None);
    assert_eq!(find_text_claim(&members, "email"), None);

    let both = vec![
        ("id".to_string(), ClaimValue::Text("1".to_string())),
        ("sub".to_string(), ClaimValue::Text("1".to_string())),
    ];
    assert!(find_id_claim(&both).is_none());
    let number = vec![("sub".to_string(), ClaimValue::Number(12))];
    assert_eq!(find_id_claim(&number).unwrap().value(), 12);
    let negative = vec![("id".to_string(), ClaimValue::Number(-4))];
    assert_eq!(find_id_claim(&negative).unwrap().value(), -4);
    let too_large = vec![("sub".to_string(), ClaimValue::Number(1i64 << 40))];
    assert!(find_id_claim(&too_large).is_none());
    let other = vec![("sub".to_string(), ClaimValue::Other)];
    assert!(find_id_claim(&other).is_none());
    let by_id = vec![("id".to_string(), ClaimValue::Text("5".to_string()))];
    assert_eq!(find_id_claim(&by_id).unwrap().value(), 5);
    let unreadable = vec![("sub".to_string(), ClaimValue::Text("five".to_string()))];
    assert!(find_id_claim(&unreadable).is_none());
    let _ = ClaimSet { members: vec![] };
}

#[test]
fn clock_adds_minutes() {
    let t = UnixTime { secs: 0, nanos: 0 };
    let later = minutes_after(t, 90).unwrap();
    assert_eq!(later.secs, 5400);
    assert_eq!(later.nanos, 0);
    assert!(minutes_after(t, i64::MAX).is_none());
    assert!(minutes_after(t, i64::MAX / 60).is_none());
    assert!(before(t, later));
    assert!(!before(later, t));
    assert!(!before(t, t));
}

#[test]
fn key_pairs_paserk_texts_and_ids() {
    let pair = SecretKey::from_seed([7u8; 32]);
    assert_eq!(&pair.0[..32], &[7u8; 32]);
    let public = pair.public_half();
    assert_eq!(&public.0[..], &pair.0[32..]);
    let id = public.paserk_id();
    assert!(id.starts_with("k4.pid."));
    assert_eq!(id.len(), 51);
    let text = public.to_paserk_string();
    assert!(text.starts_with("k4.public."));
    assert_eq!(PublicKey::from_paserk(&text).unwrap().0, public.0);
    let secret_text = pair.to_paserk_string();
    assert!(secret_text.starts_with("k4.secret."));
    assert_eq!(SecretKey::from_paserk(&secret_text).unwrap().0, pair.0);
    assert!(PublicKey::from_paserk("k4.public.nope").is_none());
    assert!(PublicKey::from_paserk(&secret_text).is_none());
    assert!(PublicKey::from_slice(&[1u8; 31]).is_none());
    assert!(PublicKey::from_slice(&[1u8; 32]).is_some());
    assert!(SecretKey::from_slice(&[1u8; 64]).is_some());
    assert!(SecretKey::from_slice(&[1u8; 65]).is_none());
}

#[test]
fn key_ids_are_read_from_the_fourth_part() {
    assert_eq!(PaserkClient::token_kid("v4.public.payload.Zm9vdGVy").unwrap(), "footer");
    assert!(matches!(PaserkClient::token_kid("v4.public.payload"), Err(PaserkClientError::MissingFooter)));
    assert!(matches!(PaserkClient::token_kid("a.b.c.d.e"), Err(PaserkClientError::InvalidToken)));
}

#[test]
fn key_cache_keeps_the_last_listed_key() {
    let mut cache = KeyCache::new();
    assert_eq!(cache.get("a"), None);
    cache.insert("a".to_string(), "k1".to_string());
    cache.insert("a".to_string(), "k2".to_string());
    assert_eq!(cache.get("a"), Some("k2".to_string()));
    let items = vec![
        KeyItem { key: "x1".to_string(), kid: "x".to_string() },
        KeyItem { key: "y1".to_string(), kid: "y".to_string() },
        KeyItem { key: "x2".to_string(), kid: "x".to_string() },
    ];
    cache.replace_all(&items);
    assert_eq!(cache.get("a"), None);
    assert_eq!(cache.get("x"), Some("x2".to_string()));
    assert_eq!(cache.get("y"), Some("y1".to_string()));
    cache.clear();
    assert_eq!(cache.get("x"), None);
}

#[test]
fn paserk_client_reports_each_fetch_failure() {
    let mut client = PaserkClient::new("http://auth/.well-known/paserk.json");
    assert_eq!(client.paserk_keys_endpoint(), "http://auth/.well-known/paserk.json");
    assert!(client.cached_key("k").is_none());
    let r = client.refresh_keys("k", Err(KeyFetchFailure::Unreachable("down".to_string())));
    assert!(matches!(r, Err(PaserkClientError::NetworkError(ref m)) if m == "down"));
    let r = client.refresh_keys("k", Err(KeyFetchFailure::Undecodable));
    assert!(matches!(r, Err(PaserkClientError::ParseError(ref e)) if e == "http://auth/.well-known/paserk.json"));
    let r = client.refresh_keys("k", Err(KeyFetchFailure::Unreadable));
    assert!(matches!(r, Err(PaserkClientError::UnknownError)));
    let r = client.refresh_keys("k", Ok(vec![KeyItem { key: "v".to_string(), kid: "j".to_string() }]));
    assert!(matches!(r, Err(PaserkClientError::UnknownKey)));
    assert_eq!(client.cached_key("j"), Some("v".to_string()));
    let r = client.refresh_keys("j", Ok(vec![KeyItem { key: "w".to_string(), kid: "j".to_string() }]));
    assert_eq!(r.unwrap(), "w");
}

#[test]
fn paserk_client_reads_the_key_id_of_a_token() {
    assert!(matches!(PaserkClient::token_kid("garbage"), Err(PaserkClientError::InvalidToken)));
    assert!(matches!(PaserkClient::token_kid("v4.public.abc"), Err(PaserkClientError::MissingFooter)));
    assert_eq!(PaserkClient::token_kid("v4.public.abc.Zm9vdGVy").unwrap(), "footer");
    assert!(matches!(
        PaserkClient::verify_with_key("v4.public.abc.Zm9vdGVy", "not a key", current_time()),
        Err(PaserkClientError::UnknownError)
    ));
    let public = SecretKey::from_seed([3u8; 32]).public_half().to_paserk_string();
    assert!(matches!(
        PaserkClient::verify_with_key("v4.public.abc.Zm9vdGVy", &public, current_time()),
        Err(PaserkClientError::ClaimParseError)
    ));
}

#[test]
fn validate_token_asks_for_keys_it_does_not_hold() {
    let mut client = PaserkClient::new("http://auth/keys");
    assert!(matches!(
        client.validate_token("v4.public.abc", None, current_time()),
        ValidationStep::Done(Err(PaserkClientError::MissingFooter))
    ));
    assert!(matches!(
        client.validate_token("bad", None, current_time()),
        ValidationStep::Done(Err(PaserkClientError::InvalidToken))
    ));
    assert!(matches!(client.validate_token("v4.public.abc.Zm9vdGVy", None, current_time()), ValidationStep::FetchKeys));
    let listed = vec![KeyItem { key: "k".to_string(), kid: "other".to_string() }];
    assert!(matches!(
        client.validate_token("v4.public.abc.Zm9vdGVy", Some(Ok(listed)), current_time()),
        ValidationStep::Done(Err(PaserkClientError::UnknownKey))
    ));
    assert!(matches!(
        client.validate_token("v4.public.abc.Zm9vdGVy", Some(Err(KeyFetchFailure::Unreadable)), current_time()),
        ValidationStep::Done(Err(PaserkClientError::UnknownError))
    ));
    let listed = vec![KeyItem { key: "not a key".to_string(), kid: "footer".to_string() }];
    assert!(matches!(
        client.validate_token("v4.public.abc.Zm9vdGVy", Some(Ok(listed)), current_time()),
        ValidationStep::Done(Err(PaserkClientError::UnknownError))
    ));
    // the key is now cached: no fetch is asked for
    assert!(matches!(
        client.validate_token("v4.public.abc.Zm9vdGVy", None, current_time()),
        ValidationStep::Done(Err(PaserkClientError::UnknownError))
    ));
}

#[test]
fn validation_errors_are_grouped_by_field() {
    let mut errors = ValidationErrors::new();
    assert!(errors.is_empty());
    errors.add("email", FieldError::for_value("email", "x"));
    errors.add("password", FieldError::for_min_length(8, "abc"));
    errors.add("email", FieldError::new("other"));
    assert!(!errors.is_empty());
    let json = errors.into_json();
    let Json::Object(members) = json else { panic!("not an object") };
    assert_eq!(members.len(), 2);
    assert_eq!(members[0].0, "email");
    assert_eq!(members[1].0, "password");
    let Json::Array(email_errors) = &members[0].1 else { panic!("not an array") };
    assert_eq!(email_errors.len(), 2);
    assert_eq!(
        email_errors[1],
        Json::Object(vec![
            ("code".to_string(), text("other")),
            ("message".to_string(), Json::Null),
            ("params".to_string(), Json::Object(vec![])),
        ])
    );
    let Json::Array(password_errors) = &members[1].1 else { panic!("not an array") };
    assert_eq!(
        password_errors[0],
        Json::Object(vec![
            ("code".to_string(), text("length")),
            ("message".to_string(), Json::Null),
            (
                "params".to_string(),
                Json::Object(vec![("min".to_string(), Json::Int(8)), ("value".to_string(), text("abc"))])
            ),
        ])
    );
}

#[test]
fn rejected_bodies_are_unprocessable() {
    let fail = ValidatedJson::<paseto_auth::auth::config::Config>::rejected("bad json", None);
    assert_eq!(fail.code, 422);
    assert_eq!(
        fail.data,
        Json::Object(vec![
            ("message".to_string(), text("bad json")),
            ("origin".to_string(), text("validated_json_extractor")),
            ("path".to_string(), Json::Null),
        ])
    );
}

#[test]
fn default_claim_checks_read_rfc3339_as_the_time_crate_does() {
    let now = UnixTime { secs: 1000, nanos: 0 };
    let claims = |nbf: &str, exp: &str| ClaimSet {
        members: vec![
            ("nbf".to_string(), ClaimValue::Text(nbf.to_string())),
            ("exp".to_string(), ClaimValue::Text(exp.to_string())),
        ],
    };
    // any one character between date and time
    let set = claims("1970-01-01_00:16:40Z", "1970-01-01x00:16:41Z");
    assert!(check_not_before(&set, now));
    assert!(matches!(check_default_expiry(&set, now), ExpiryVerdict::Valid));
    // an instant exactly at `now` has expired, and an `nbf` at `now` has come
    let set = claims("1970-01-01T00:16:40Z", "1970-01-01T00:16:40Z");
    assert!(check_not_before(&set, now));
    assert!(matches!(check_default_expiry(&set, now), ExpiryVerdict::Expired));
    let set = claims("1970-01-01T00:16:41Z", "1970-01-01T01:16:41+01:00");
    assert!(!check_not_before(&set, now));
    assert!(matches!(check_default_expiry(&set, now), ExpiryVerdict::Valid));
    let set = claims("later", "soon");
    assert!(!check_not_before(&set, now));
    assert!(matches!(check_default_expiry(&set, now), ExpiryVerdict::Unreadable));
    let set = ClaimSet { members: vec![("exp".to_string(), ClaimValue::Text(String::new()))] };
    assert!(check_not_before(&set, now));
    assert!(matches!(check_default_expiry(&set, now), ExpiryVerdict::Missing));
}
