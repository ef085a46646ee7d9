//! Signing and verifying the authentication service's V4 public tokens.

use vstd::prelude::*;
use rusty_paseto::prelude::{
    AudienceClaim, CustomClaim, ExpirationClaim, Footer, IssuerClaim, Key, PasetoAsymmetricPrivateKey,
    PasetoBuilder, Public, SubjectClaim, V4,
};
use crate::auth::config::{AUDIENCE, ISSUER};
use crate::auth::errors::AuthServiceError;
use crate::shared::claims::{
    ClaimData, ClaimSet, find_id_claim, lemma_absent_claim, find_text_claim, id_claim, text_claim, user_claims_of,
};
use crate::shared::clock::{
    UnixTime, before, chrono_parse_rfc3339, chrono_representable, chrono_rfc3339, four_digit_year, is_before,
    parse_rfc3339, time_parse_rfc3339, to_rfc3339,
};
use crate::shared::keys::{PublicKey, SecretKey, is_key_pair, paserk_public_id};
use crate::shared::serde_customs::FlexibleNumber;
use crate::shared::text::{i64_to_text, str_equal};
use crate::shared::serde_customs::law_subject_text_reads_back;
use crate::shared::text::decimal_text;
use crate::shared::tokens::{
    check_not_before, chrono_claim_instant, claim_instant, nbf_holds, paseto_footer, paseto_signed_payload, signed_claims,
    signed_token_claims, untrusted_footer,
};

verus! {

/// Whether `iso8601::datetime` reads a text, which `ExpirationClaim::try_from` asks of
/// an expiration.
pub uninterp spec fn iso8601_datetime(text: Seq<char>) -> bool;

/// `ExpirationClaim::try_from` on a text: it takes the text exactly when `iso8601` reads
/// it as a date and time.
#[verifier::external_body]
fn expiration_claim_accepts(text: &str) -> (res: bool)
    ensures
        res == iso8601_datetime(text@),
{
    ExpirationClaim::try_from(text).is_ok()
}

/// The claims a token is signed with.
#[derive(Debug)]
pub struct TokenClaims {
    pub subject: String,
    pub issuer: String,
    pub audience: String,
    pub expiration: String,
    pub custom: Vec<(String, String)>,
}

/// The claim names `rusty_paseto` keeps for its own claims.
pub open spec fn is_reserved_claim(name: Seq<char>) -> bool {
    name == "iss"@ || name == "sub"@ || name == "aud"@ || name == "exp"@ || name == "nbf"@ || name
        == "iat"@ || name == "jti"@
}

/// Custom claims that a builder keeps: none reserved or empty (the builder drops a claim
/// with an empty name), no name twice.
pub open spec fn custom_claims_allowed(custom: Seq<(String, String)>) -> bool {
    &&& forall|i: int| 0 <= i < custom.len() ==> !is_reserved_claim(#[trigger] custom[i].0@)
        && custom[i].0@.len() > 0
    &&& forall|i: int, j: int| 0 <= i < j < custom.len() ==> custom[i].0@ != custom[j].0@
}

/// The names of the claims a builder puts in a token: `sub`, `iss`, `aud`, `exp`, the
/// `iat` and `nbf` of the builder, and the custom claims.
pub open spec fn is_built_claim_name(name: Seq<char>, claims: TokenClaims) -> bool {
    name == "sub"@ || name == "iss"@ || name == "aud"@ || name == "exp"@ || name == "iat"@ || name
        == "nbf"@ || exists|i: int| 0 <= i < claims.custom@.len() && claims.custom@[i].0@ == name
}

/// `cs` are the claims of a token built from `claims`: each of them with its text, and
/// an `nbf` naming an instant; no other names.
pub open spec fn carries_claims(cs: Seq<(Seq<char>, ClaimData)>, claims: TokenClaims) -> bool {
    &&& text_claim(cs, "sub"@) == Some(claims.subject@)
    &&& text_claim(cs, "iss"@) == Some(claims.issuer@)
    &&& text_claim(cs, "aud"@) == Some(claims.audience@)
    &&& text_claim(cs, "exp"@) == Some(claims.expiration@)
    &&& claim_instant(cs, "nbf"@) is Some
    &&& forall|i: int| 0 <= i < claims.custom@.len() ==> text_claim(cs, #[trigger] claims.custom@[i].0@)
        == Some(claims.custom@[i].1@)
    &&& forall|i: int| 0 <= i < cs.len() ==> is_built_claim_name(#[trigger] cs[i].0, claims)
}

/// `PasetoBuilder::<V4, Public>::default()` with the claims and the footer set, then
/// `build` with the key pair. With the claims the builder takes, building fails only
/// in `SigningKey::from_keypair_bytes`, which refuses a pair whose public half is not
/// the key derived from its secret half. The token is `v4.public.`, the URL-safe base64
/// of payload and signature, a dot and the URL-safe base64 of the footer, so a token no
/// longer than the 64 KiB that `UntrustedToken` reads gives the footer back. The payload
/// is the JSON object of the claims, the default `exp` replaced, with `iat` and `nbf`
/// set to the current time as `time` writes RFC 3339 (the clock is taken to read a year
/// from 0000 to 9999, the years that format writes); the Ed25519 signature (deterministic and
/// canonical) verifies under the pair's public half with the same footer, except that
/// `try_verify` refuses any token longer than 64 KiB.
#[verifier::external_body]
fn sign_public_token(key: &SecretKey, claims: &TokenClaims, footer: &str) -> (res: Option<String>)
    requires
        iso8601_datetime(claims.expiration@),
        custom_claims_allowed(claims.custom@),
        0 < footer@.len() <= 192,
    ensures
        res is Some <==> is_key_pair(key.0@),
        res matches Some(t) ==> (t@.len() <= 65536 ==> paseto_footer(t@) == Some(Some(footer@))),
        res matches Some(t) ==> (t@.len() <= 65536 ==> (signed_claims(t@, key.0@.subrange(32, 64), footer@)
            matches Some(cs) && carries_claims(cs, *claims))),
        res matches Some(t) ==> (t@.len() > 65536 ==> paseto_signed_payload(t@, key.0@.subrange(32, 64), footer@) is None),
        res matches Some(t) ==> (t@.len() >= 10 && t@.subrange(0, 10) == "v4.public."@),
{
    let mut builder = PasetoBuilder::<V4, Public>::default();
    builder.set_claim(SubjectClaim::from(claims.subject.as_str()));
    builder.set_claim(IssuerClaim::from(claims.issuer.as_str()));
    builder.set_claim(AudienceClaim::from(claims.audience.as_str()));
    builder.set_claim(ExpirationClaim::try_from(claims.expiration.as_str()).ok()?);
    for (name, value) in claims.custom.iter() {
        builder.set_claim(CustomClaim::try_from((name.as_str(), value.as_str())).ok()?);
    }
    let secret = Key::<64>::from(key.0);
    let signer = PasetoAsymmetricPrivateKey::<V4, Public>::from(&secret);
    builder.set_footer(Footer::from(footer)).build(&signer).ok()
}

/// The claims every token starts from: the subject, this service as issuer, the fixed
/// audience and the expiration instant in RFC 3339.
pub fn build_base_token(sub: &str, exp: UnixTime) -> (res: TokenClaims)
    requires
        chrono_representable(exp.secs, exp.nanos),
    ensures
        res.subject@ == sub@,
        res.issuer@ == ISSUER@,
        res.audience@ == AUDIENCE@,
        res.expiration@ == chrono_rfc3339(exp.secs, exp.nanos),
        exp.nanos < 1_000_000_000 && four_digit_year(exp.secs) ==> chrono_parse_rfc3339(res.expiration@) == Some(
            (exp.secs, exp.nanos),
        ),
        exp.nanos < 1_000_000_000 && four_digit_year(exp.secs) ==> time_parse_rfc3339(res.expiration@) == Some(
            (exp.secs, exp.nanos),
        ),
        res.expiration@.len() > 0,
        res.custom@.len() == 0,
{
    TokenClaims {
        subject: String::from_str(sub),
        issuer: String::from_str(ISSUER),
        audience: String::from_str(AUDIENCE),
        expiration: to_rfc3339(exp),
        custom: Vec::new(),
    }
}

/// The PASERK id of the public half of a key pair: the key id tokens carry in their
/// footer.
pub fn get_paserk_id(secret_key: &SecretKey) -> (res: String)
    ensures
        res@ == paserk_public_id(secret_key.0@.subrange(32, 64)),
        res@.len() == 51,
        !res@.contains(':'),
{
    secret_key.public_half().paserk_id()
}

/// Signs the claims with the key pair, with the pair's key id as footer. A pair whose
/// halves do not belong together is a token error.
pub fn sign_token(secret_key: &SecretKey, claims: &TokenClaims) -> (res: Result<String, AuthServiceError>)
    requires
        iso8601_datetime(claims.expiration@),
        custom_claims_allowed(claims.custom@),
    ensures
        res is Ok <==> is_key_pair(secret_key.0@),
        res matches Err(e) ==> e is PasetoError,
        res matches Ok(t) ==> (t@.len() <= 65536 ==> paseto_footer(t@) == Some(
            Some(paserk_public_id(secret_key.0@.subrange(32, 64))),
        )),
        res matches Ok(t) ==> (t@.len() <= 65536 ==> (signed_claims(
            t@,
            secret_key.0@.subrange(32, 64),
            paserk_public_id(secret_key.0@.subrange(32, 64)),
        ) matches Some(cs) && carries_claims(cs, *claims))),
        res matches Ok(t) ==> (t@.len() > 65536 ==> signed_claims(
            t@,
            secret_key.0@.subrange(32, 64),
            paserk_public_id(secret_key.0@.subrange(32, 64)),
        ) is None),
        res matches Ok(t) ==> (t@.len() >= 10 && t@.subrange(0, 10) == "v4.public."@),
{
    let pid = get_paserk_id(secret_key);
    match sign_public_token(secret_key, claims, pid.as_str()) {
        Some(t) => Ok(t),
        None => Err(AuthServiceError::PasetoError),
    }
}

/// The claims of an access token's holder: the user id (read from `id` or `sub`), the
/// username and the email.
#[derive(Debug)]
pub struct UserClaims {
    pub id: FlexibleNumber,
    pub username: String,
    pub email: String,
}

/// The claims of a refresh token's holder: the user id.
#[derive(Debug)]
pub struct RefreshUserClaims {
    pub id: FlexibleNumber,
}

impl UserClaims {
    /// Reads the user claims from a token's claims; `None` where a claim is missing,
    /// not a text, or (for the id) not a number.
    pub fn from_claims(claims: &ClaimSet) -> (res: Option<UserClaims>)
        ensures
            match user_claims_of(claims@) {
                None => res is None,
                Some((i, u, e)) => res matches Some(c) && c.id.0 == i && c.username@ == u && c.email@ == e,
            },
    {
        let id = match find_id_claim(&claims.members) {
            Some(n) => n,
            None => return None,
        };
        let username = match find_text_claim(&claims.members, "username") {
            Some(t) => t,
            None => return None,
        };
        let email = match find_text_claim(&claims.members, "email") {
            Some(t) => t,
            None => return None,
        };
        Some(UserClaims { id, username, email })
    }
}

impl RefreshUserClaims {
    /// Reads the user id from a token's claims.
    pub fn from_claims(claims: &ClaimSet) -> (res: Option<RefreshUserClaims>)
        ensures
            match res {
                Some(c) => id_claim(claims@) == Some(c.id.0),
                None => id_claim(claims@) is None,
            },
    {
        match find_id_claim(&claims.members) {
            Some(id) => Some(RefreshUserClaims { id }),
            None => None,
        }
    }
}

/// `cs` are the claims of an access token for the user `id`, `username`, `email` that
/// expires at `exp`: the id's decimal text as subject, this service as issuer, the fixed
/// audience, the expiry in RFC 3339, an `nbf` instant, the email and the username, and
/// no other names.
pub open spec fn access_claims(
    cs: Seq<(Seq<char>, ClaimData)>,
    id: i32,
    username: Seq<char>,
    email: Seq<char>,
    exp: UnixTime,
) -> bool {
    &&& text_claim(cs, "sub"@) == Some(decimal_text(id as int))
    &&& text_claim(cs, "iss"@) == Some(ISSUER@)
    &&& text_claim(cs, "aud"@) == Some(AUDIENCE@)
    &&& text_claim(cs, "exp"@) == Some(chrono_rfc3339(exp.secs, exp.nanos))
    &&& chrono_rfc3339(exp.secs, exp.nanos).len() > 0
    &&& exp.nanos < 1_000_000_000 && four_digit_year(exp.secs) ==> chrono_claim_instant(cs, "exp"@) == Some(exp)
        && claim_instant(cs, "exp"@) == Some(exp)
    &&& claim_instant(cs, "nbf"@) is Some
    &&& text_claim(cs, "email"@) == Some(email)
    &&& text_claim(cs, "username"@) == Some(username)
    &&& forall|i: int| 0 <= i < cs.len() ==> is_access_claim_name(#[trigger] cs[i].0)
}

/// The names of an access token's claims.
pub open spec fn is_access_claim_name(name: Seq<char>) -> bool {
    name == "sub"@ || name == "iss"@ || name == "aud"@ || name == "exp"@ || name == "iat"@ || name
        == "nbf"@ || name == "email"@ || name == "username"@
}

/// `cs` are the claims of a refresh token for the id `id` that expires at `exp`: the base
/// claims and no other names.
pub open spec fn refresh_claims(cs: Seq<(Seq<char>, ClaimData)>, id: i32, exp: UnixTime) -> bool {
    &&& text_claim(cs, "sub"@) == Some(decimal_text(id as int))
    &&& text_claim(cs, "iss"@) == Some(ISSUER@)
    &&& text_claim(cs, "aud"@) == Some(AUDIENCE@)
    &&& text_claim(cs, "exp"@) == Some(chrono_rfc3339(exp.secs, exp.nanos))
    &&& exp.nanos < 1_000_000_000 && four_digit_year(exp.secs) ==> chrono_claim_instant(cs, "exp"@) == Some(exp)
        && claim_instant(cs, "exp"@) == Some(exp)
    &&& claim_instant(cs, "nbf"@) is Some
    &&& forall|i: int| 0 <= i < cs.len() ==> is_refresh_claim_name(#[trigger] cs[i].0)
}

/// The names of a refresh token's claims.
pub open spec fn is_refresh_claim_name(name: Seq<char>) -> bool {
    name == "sub"@ || name == "iss"@ || name == "aud"@ || name == "exp"@ || name == "iat"@ || name
        == "nbf"@
}

/// The key id a token of the key pair `pair` carries as footer, and under which its
/// public half verifies it.
pub open spec fn pair_kid(pair: Seq<u8>) -> Seq<char> {
    paserk_public_id(pair.subrange(32, 64))
}

/// Signs an access token: the base claims with the user id as subject, then the email
/// and the username as custom claims.
pub fn sign_access_token_for(claims: UserClaims, secret_key: &SecretKey, exp: UnixTime) -> (res: Result<String, AuthServiceError>)
    requires
        chrono_representable(exp.secs, exp.nanos),
        iso8601_datetime(chrono_rfc3339(exp.secs, exp.nanos)),
    ensures
        res is Ok <==> is_key_pair(secret_key.0@),
        res matches Err(e) ==> e is PasetoError,
        res matches Ok(t) ==> (t@.len() <= 65536 ==> paseto_footer(t@) == Some(
            Some(pair_kid(secret_key.0@)),
        )),
        res matches Ok(t) ==> (t@.len() <= 65536 ==> (signed_claims(t@, secret_key.0@.subrange(32, 64), pair_kid(secret_key.0@))
            matches Some(cs) && access_claims(cs, claims.id.0, claims.username@, claims.email@, exp))),
        res matches Ok(t) ==> (t@.len() > 65536 ==> signed_claims(t@, secret_key.0@.subrange(32, 64), pair_kid(secret_key.0@)) is None),
        res matches Ok(t) ==> (t@.len() >= 10 && t@.subrange(0, 10) == "v4.public."@),
{
    let ghost original = claims;
    let sub = i64_to_text(claims.id.0 as i64);
    let mut token = build_base_token(sub.as_str(), exp);
    token.custom.push((String::from_str("email"), claims.email));
    token.custom.push((String::from_str("username"), claims.username));
    proof {
        reveal_strlit("email");
        reveal_strlit("username");
        reveal_strlit("iss");
        reveal_strlit("sub");
        reveal_strlit("aud");
        reveal_strlit("exp");
        reveal_strlit("nbf");
        reveal_strlit("iat");
        reveal_strlit("jti");
        assert(token.custom@[0].0@ == "email"@);
        assert(token.custom@[1].0@ == "username"@);
    }
    let res = sign_token(secret_key, &token);
    proof {
        if res is Ok && res.unwrap()@.len() <= 65536 {
            let cs = signed_claims(res.unwrap()@, secret_key.0@.subrange(32, 64), pair_kid(secret_key.0@)).unwrap();
            assert(carries_claims(cs, token));
            assert(text_claim(cs, token.custom@[0].0@) == Some(token.custom@[0].1@));
            assert(text_claim(cs, token.custom@[1].0@) == Some(token.custom@[1].1@));
            assert forall|i: int| 0 <= i < cs.len() implies is_access_claim_name(#[trigger] cs[i].0) by {
                assert(is_built_claim_name(cs[i].0, token));
                if exists|k: int| 0 <= k < token.custom@.len() && token.custom@[k].0@ == cs[i].0 {
                    let k = choose|k: int| 0 <= k < token.custom@.len() && token.custom@[k].0@ == cs[i].0;
                    assert(k == 0 || k == 1);
                }
            }
        }
    }
    res
}

/// Signs a refresh token: the base claims with the user id as subject.
pub fn sign_refresh_token_for(claims: UserClaims, secret_key: &SecretKey, exp: UnixTime) -> (res: Result<String, AuthServiceError>)
    requires
        chrono_representable(exp.secs, exp.nanos),
        iso8601_datetime(chrono_rfc3339(exp.secs, exp.nanos)),
    ensures
        res is Ok <==> is_key_pair(secret_key.0@),
        res matches Err(e) ==> e is PasetoError,
        res matches Ok(t) ==> (t@.len() <= 65536 ==> paseto_footer(t@) == Some(
            Some(pair_kid(secret_key.0@)),
        )),
        res matches Ok(t) ==> (t@.len() <= 65536 ==> (signed_claims(t@, secret_key.0@.subrange(32, 64), pair_kid(secret_key.0@))
            matches Some(cs) && refresh_claims(cs, claims.id.0, exp))),
        res matches Ok(t) ==> (t@.len() > 65536 ==> signed_claims(t@, secret_key.0@.subrange(32, 64), pair_kid(secret_key.0@)) is None),
        res matches Ok(t) ==> (t@.len() >= 10 && t@.subrange(0, 10) == "v4.public."@),
{
    let sub = i64_to_text(claims.id.0 as i64);
    let token = build_base_token(sub.as_str(), exp);
    let res = sign_token(secret_key, &token);
    proof {
        if res is Ok && res.unwrap()@.len() <= 65536 {
            let cs = signed_claims(res.unwrap()@, secret_key.0@.subrange(32, 64), pair_kid(secret_key.0@)).unwrap();
            assert forall|i: int| 0 <= i < cs.len() implies is_refresh_claim_name(#[trigger] cs[i].0) by {
                assert(is_built_claim_name(cs[i].0, token));
            }
        }
    }
    res
}

/// Why the expiration claim of a token is refused.
#[derive(Debug)]
pub enum ExpiryRejection {
    /// The claim is not `exp`, or its value is not a text; the name of the claim.
    Unexpected(String),
    /// The text is not an RFC 3339 instant.
    Invalid,
    /// The instant has passed.
    Expired,
}

/// The check of the `exp` claim at the instant `now`: the claim must be `exp`, hold a
/// text, name an RFC 3339 instant and that instant must not be before `now`.
pub fn check_expiration_claim(key: &str, value: Option<&str>, now: UnixTime) -> (res: Result<(), ExpiryRejection>)
    ensures
        key@ != "exp"@ || value is None ==> (res matches Err(ExpiryRejection::Unexpected(k)) && k@ == key@),
        key@ == "exp"@ && value is Some ==> match chrono_parse_rfc3339(value.unwrap()@) {
            None => res matches Err(ExpiryRejection::Invalid),
            Some((s, n)) => if is_before(UnixTime { secs: s, nanos: n }, now) {
                res matches Err(ExpiryRejection::Expired)
            } else {
                res is Ok
            },
        },
{
    if !str_equal(key, "exp") {
        return Err(ExpiryRejection::Unexpected(String::from_str(key)));
    }
    let text = match value {
        Some(t) => t,
        None => return Err(ExpiryRejection::Unexpected(String::from_str(key))),
    };
    match parse_rfc3339(text) {
        None => Err(ExpiryRejection::Invalid),
        Some(t) => if before(t, now) {
            Err(ExpiryRejection::Expired)
        } else {
            Ok(())
        },
    }
}

/// Whether the `exp` claim passes the authentication service's check at `now`: a text
/// naming an RFC 3339 instant that is not before `now`.
pub open spec fn auth_exp_holds(cs: Seq<(Seq<char>, ClaimData)>, now: UnixTime) -> bool {
    chrono_claim_instant(cs, "exp"@) matches Some(t) && !is_before(t, now)
}

/// The claims of `token` verified with the public key `key` at `now`, as the service's
/// parser gives them: the token must be signed under the key with the key's id as
/// footer, its payload a JSON object, its `exp` pass [`check_expiration_claim`] and its
/// `nbf` (if any) not be after `now`.
pub open spec fn verified_claims(token: Seq<char>, key: Seq<u8>, now: UnixTime) -> Option<Seq<(Seq<char>, ClaimData)>> {
    match signed_claims(token, key, paserk_public_id(key)) {
        Some(cs) => if auth_exp_holds(cs, now) && nbf_holds(cs, now) {
            Some(cs)
        } else {
            None
        },
        None => None,
    }
}

/// Verifies a token with a public key at the instant `now`, expecting the key's id as
/// footer, and gives the token's claims.
pub fn verify_token(token: &str, public_key: &PublicKey, now: UnixTime) -> (res: Option<ClaimSet>)
    ensures
        match verified_claims(token@, public_key.0@, now) {
            Some(cs) => res matches Some(c) && c@ == cs,
            None => res is None,
        },
        (paseto_footer(token@) matches Some(Some(f)) && f != paserk_public_id(public_key.0@)) ==> res is None,
        token@.len() > 65536 ==> res is None,
{
    let pid = public_key.paserk_id();
    let claims = match signed_token_claims(token, public_key, pid.as_str()) {
        Some(c) => c,
        None => return None,
    };
    let exp = find_text_claim(&claims.members, "exp");
    let exp_text: Option<&str> = match &exp {
        Some(t) => Some(t.as_str()),
        None => None,
    };
    proof {
        reveal_strlit("exp");
    }
    match check_expiration_claim("exp", exp_text, now) {
        Ok(()) => {},
        Err(_) => return None,
    }
    if check_not_before(&claims, now) {
        Some(claims)
    } else {
        None
    }
}

/// How verifying an access token at `now` ends: the user the verified token's claims
/// name, or nothing.
pub open spec fn verified_user(token: Seq<char>, key: Seq<u8>, now: UnixTime) -> Option<(i32, Seq<char>, Seq<char>)> {
    match verified_claims(token, key, now) {
        Some(cs) => user_claims_of(cs),
        None => None,
    }
}

/// Verifies an access token at `now` and reads its holder's claims; `None` where it does
/// not verify or its claims are not a user's.
pub fn verify_access_token(token: &str, public_key: &PublicKey, now: UnixTime) -> (res: Option<UserClaims>)
    ensures
        match verified_user(token@, public_key.0@, now) {
            Some((i, u, e)) => res matches Some(c) && c.id.0 == i && c.username@ == u && c.email@ == e,
            None => res is None,
        },
{
    match verify_token(token, public_key, now) {
        Some(claims) => UserClaims::from_claims(&claims),
        None => None,
    }
}

/// Verifies a refresh token at `now` and reads its holder's id.
pub fn verify_refresh_token(token: &str, public_key: &PublicKey, now: UnixTime) -> (res: Option<RefreshUserClaims>)
    ensures
        match verified_claims(token@, public_key.0@, now) {
            Some(cs) => match id_claim(cs) {
                Some(i) => res matches Some(c) && c.id.0 == i,
                None => res is None,
            },
            None => res is None,
        },
{
    match verify_token(token, public_key, now) {
        Some(claims) => RefreshUserClaims::from_claims(&claims),
        None => None,
    }
}

/// The key id a token names in its footer, read without verifying the token.
pub fn extract_kid_from_token(token: &str) -> (res: Option<String>)
    ensures
        match paseto_footer(token@) {
            Some(Some(f)) => res matches Some(k) && k@ == f,
            _ => res is None,
        },
{
    match untrusted_footer(token) {
        Some(Some(kid)) => Some(kid),
        _ => None,
    }
}

/// Whether a time can be written for an expiration claim: `chrono` holds it and `iso8601`
/// reads its RFC 3339 text.
pub fn expiration_writable(exp: UnixTime) -> (res: bool)
    requires
        chrono_representable(exp.secs, exp.nanos),
    ensures
        res == iso8601_datetime(chrono_rfc3339(exp.secs, exp.nanos)),
{
    let text = to_rfc3339(exp);
    expiration_claim_accepts(text.as_str())
}

/// An access token signed with a key pair verifies under the pair's public half, giving
/// back the user it was signed for, at any instant at which its `nbf` has come and its
/// expiry has not passed; once its expiry has passed it is refused.
pub proof fn law_signed_access_token_verifies(
    token: Seq<char>,
    pair: Seq<u8>,
    id: i32,
    username: Seq<char>,
    email: Seq<char>,
    exp: UnixTime,
    now: UnixTime,
)
    requires
        pair.len() == 64,
        exp.nanos < 1_000_000_000,
        four_digit_year(exp.secs),
        signed_claims(token, pair.subrange(32, 64), pair_kid(pair)) matches Some(cs) && access_claims(
            cs,
            id,
            username,
            email,
            exp,
        ),
    ensures
        is_before(exp, now) ==> verified_user(token, pair.subrange(32, 64), now) is None,
        !is_before(exp, now) && nbf_holds(signed_claims(token, pair.subrange(32, 64), pair_kid(pair)).unwrap(), now)
            ==> verified_user(token, pair.subrange(32, 64), now) == Some((id, username, email)),
{
    let cs = signed_claims(token, pair.subrange(32, 64), pair_kid(pair)).unwrap();
    reveal_strlit("id");
    reveal_strlit("sub");
    reveal_strlit("iss");
    reveal_strlit("aud");
    reveal_strlit("exp");
    reveal_strlit("iat");
    reveal_strlit("nbf");
    reveal_strlit("email");
    reveal_strlit("username");
    assert("id"@.len() == 2 && "sub"@.len() == 3 && "iss"@.len() == 3 && "aud"@.len() == 3);
    assert("exp"@.len() == 3 && "iat"@.len() == 3 && "nbf"@.len() == 3 && "email"@.len() == 5);
    assert("username"@.len() == 8);
    assert forall|i: int| 0 <= i < cs.len() implies cs[i].0 != "id"@ by {
        assert(is_access_claim_name(cs[i].0));
    }
    lemma_absent_claim(cs, "id"@);
    law_subject_text_reads_back(id);
}

/// A refresh token signed with a key pair verifies under the pair's public half, giving
/// back the id it was signed for, at any instant at which its `nbf` has come and its
/// expiry has not passed; once its expiry has passed it is refused.
pub proof fn law_signed_refresh_token_verifies(token: Seq<char>, pair: Seq<u8>, id: i32, exp: UnixTime, now: UnixTime)
    requires
        pair.len() == 64,
        exp.nanos < 1_000_000_000,
        four_digit_year(exp.secs),
        signed_claims(token, pair.subrange(32, 64), pair_kid(pair)) matches Some(cs) && refresh_claims(cs, id, exp),
    ensures
        is_before(exp, now) ==> verified_claims(token, pair.subrange(32, 64), now) is None,
        !is_before(exp, now) && nbf_holds(signed_claims(token, pair.subrange(32, 64), pair_kid(pair)).unwrap(), now)
            ==> (verified_claims(token, pair.subrange(32, 64), now) matches Some(cs) && id_claim(cs) == Some(id)),
{
    let cs = signed_claims(token, pair.subrange(32, 64), pair_kid(pair)).unwrap();
    reveal_strlit("id");
    reveal_strlit("sub");
    reveal_strlit("iss");
    reveal_strlit("aud");
    reveal_strlit("exp");
    reveal_strlit("iat");
    reveal_strlit("nbf");
    assert("id"@.len() == 2 && "sub"@.len() == 3 && "iss"@.len() == 3 && "aud"@.len() == 3);
    assert("exp"@.len() == 3 && "iat"@.len() == 3 && "nbf"@.len() == 3);
    assert forall|i: int| 0 <= i < cs.len() implies cs[i].0 != "id"@ by {
        assert(is_refresh_claim_name(cs[i].0));
    }
    lemma_absent_claim(cs, "id"@);
    law_subject_text_reads_back(id);
}

/// A refresh token is no access token: it names no username, so verifying it as an
/// access token gives no user, whatever its size.
pub proof fn law_refresh_token_is_no_access_token(token: Seq<char>, pair: Seq<u8>, id: i32, exp: UnixTime, now: UnixTime)
    requires
        pair.len() == 64,
        signed_claims(token, pair.subrange(32, 64), pair_kid(pair)) matches Some(cs) ==> refresh_claims(cs, id, exp),
    ensures
        verified_user(token, pair.subrange(32, 64), now) is None,
{
    if signed_claims(token, pair.subrange(32, 64), pair_kid(pair)) is Some {
        let cs = signed_claims(token, pair.subrange(32, 64), pair_kid(pair)).unwrap();
        reveal_strlit("sub");
        reveal_strlit("iss");
        reveal_strlit("aud");
        reveal_strlit("exp");
        reveal_strlit("iat");
        reveal_strlit("nbf");
        reveal_strlit("username");
        assert("sub"@.len() == 3 && "iss"@.len() == 3 && "aud"@.len() == 3);
        assert("exp"@.len() == 3 && "iat"@.len() == 3 && "nbf"@.len() == 3 && "username"@.len() == 8);
        assert forall|i: int| 0 <= i < cs.len() implies cs[i].0 != "username"@ by {
            assert(is_refresh_claim_name(cs[i].0));
        }
        lemma_absent_claim(cs, "username"@);
    }
}

} // verus!
