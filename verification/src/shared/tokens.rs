//! Reading V4 public PASETO tokens: the untrusted footer, the signed payload verified
//! with a key, the claims of a payload, and the checks of the time claims.

use vstd::prelude::*;
use rusty_paseto::prelude::{Footer, ImplicitAssertion, Key, Paseto, PasetoAsymmetricPublicKey, Public, V4};
use serde_json::Value;
use crate::shared::claims::{ClaimData, ClaimSet, ClaimValue, claim_lookup, text_claim};
use crate::shared::clock::{
    UnixTime, before, chrono_parse_rfc3339, is_before, parse_rfc3339_offset, time_parse_rfc3339,
};
use crate::shared::keys::PublicKey;

verus! {

/// What `Footer::try_from_token` gives for a token text: `None` when the token is not
/// made of three or four dot-separated parts (or is too large) or its footer does not
/// decode to UTF-8 text; otherwise the decoded footer, if the token has one.
pub uninterp spec fn paseto_footer(token: Seq<char>) -> Option<Option<Seq<char>>>;

/// The parts of a text between its dots.
pub open spec fn dot_parts(s: Seq<char>) -> Seq<Seq<char>>
    decreases s.len(),
{
    if s.len() == 0 {
        seq![Seq::<char>::empty()]
    } else {
        let rest = dot_parts(s.drop_last());
        if s.last() == '.' {
            rest.push(Seq::<char>::empty())
        } else {
            rest.update(rest.len() - 1, rest.last().push(s.last()))
        }
    }
}

/// `Footer::try_from_token`: parses the token's structure without verifying it and
/// decodes its footer. A token that is not made of three or four dot-separated parts is
/// refused.
#[verifier::external_body]
pub(crate) fn untrusted_footer(token: &str) -> (res: Option<Option<String>>)
    ensures
        match paseto_footer(token@) {
            None => res is None,
            Some(None) => res == Some(None::<String>),
            Some(Some(f)) => res matches Some(Some(t)) && t@ == f,
        },
        !(dot_parts(token@).len() == 3 || dot_parts(token@).len() == 4) ==> res is None,
{
    Footer::try_from_token(token).ok()
}

/// What `Paseto::<V4, Public>::try_verify` gives for a token, a 32-byte public key and an
/// expected footer (no implicit assertion): the payload text where the token is a
/// `v4.public.` token of at most 64 KiB whose footer (if it has one) is the expected
/// footer and whose Ed25519 signature over the header, payload and expected footer
/// verifies under the key; otherwise nothing.
pub uninterp spec fn paseto_signed_payload(token: Seq<char>, key: Seq<u8>, footer: Seq<char>) -> Option<Seq<char>>;

/// The claims a payload text holds, as `serde_json::from_str` reads it: the members of
/// the JSON object it is, in `serde_json`'s order of member names, each a text, an
/// integer that fits an `i64`, or another value; nothing where the text is not a JSON
/// object.
pub uninterp spec fn json_claims(text: Seq<char>) -> Option<Seq<(Seq<char>, ClaimData)>>;

/// `Paseto::<V4, Public>::try_verify` with the expected footer and no implicit assertion:
/// the verified payload text. A token with a footer is refused unless the footer part is
/// the encoding of the expected footer, so a verified token's footer, if it has one, is
/// the expected footer; a token longer than 64 KiB (its characters are at least as many as
/// its bytes) is refused.
#[verifier::external_body]
pub(crate) fn verify_public_token(token: &str, key: &PublicKey, footer: &str) -> (res: Option<String>)
    ensures
        match paseto_signed_payload(token@, key.0@, footer@) {
            Some(p) => res matches Some(t) && t@ == p,
            None => res is None,
        },
        res is Some ==> (paseto_footer(token@) == Some(
            Some(footer@),
        ) || paseto_footer(token@) == Some(None::<Seq<char>>)),
        token@.len() > 65536 ==> res is None,
{
    let key = Key::<32>::from(key.0);
    let verifier = PasetoAsymmetricPublicKey::<V4, Public>::from(&key);
    Paseto::<V4, Public>::try_verify(token, &verifier, Footer::from(footer), None::<ImplicitAssertion>).ok()
}

/// `serde_json::from_str` on a payload text, read as claims: each member of the object
/// with its value a text, an integer that fits an `i64`, or another value.
#[verifier::external_body]
pub(crate) fn claims_of_payload(text: &str) -> (res: Option<ClaimSet>)
    ensures
        match json_claims(text@) {
            Some(c) => res matches Some(s) && s@ == c,
            None => res is None,
        },
{
    let members = match serde_json::from_str::<Value>(text).ok()? {
        Value::Object(m) => m.into_iter().map(|(k, v)| match v {
            Value::String(t) => (k, ClaimValue::Text(t)),
            Value::Number(n) => (k, n.as_i64().map_or(ClaimValue::Other, ClaimValue::Number)),
            _ => (k, ClaimValue::Other),
        }).collect(),
        _ => return None,
    };
    Some(ClaimSet { members })
}

/// The claims of a token verified under a key with the expected footer: its payload's
/// claims, where it verifies and the payload is a JSON object.
pub open spec fn signed_claims(token: Seq<char>, key: Seq<u8>, footer: Seq<char>) -> Option<Seq<(Seq<char>, ClaimData)>> {
    match paseto_signed_payload(token, key, footer) {
        Some(p) => json_claims(p),
        None => None,
    }
}

/// Verifies a token's signature under a key with the expected footer and reads its
/// payload's claims. A token that verifies has the expected footer, or none.
pub fn signed_token_claims(token: &str, key: &PublicKey, footer: &str) -> (res: Option<ClaimSet>)
    ensures
        match signed_claims(token@, key.0@, footer@) {
            Some(c) => res matches Some(s) && s@ == c,
            None => res is None,
        },
        res is Some ==> (paseto_footer(token@) == Some(Some(footer@)) || paseto_footer(token@) == Some(
            None::<Seq<char>>,
        )),
        token@.len() > 65536 ==> res is None,
{
    match verify_public_token(token, key, footer) {
        Some(payload) => claims_of_payload(payload.as_str()),
        None => None,
    }
}

/// The instant a claim names, where it is a text the `time` crate reads as RFC 3339, as
/// the checks of `PasetoParser::default()` read `exp` and `nbf`.
pub open spec fn claim_instant(claims: Seq<(Seq<char>, ClaimData)>, name: Seq<char>) -> Option<UnixTime> {
    match text_claim(claims, name) {
        Some(t) => match time_parse_rfc3339(t) {
            Some((s, n)) => Some(UnixTime { secs: s, nanos: n }),
            None => None,
        },
        None => None,
    }
}

/// The instant a claim names, where it is a text `chrono` reads as RFC 3339.
pub open spec fn chrono_claim_instant(claims: Seq<(Seq<char>, ClaimData)>, name: Seq<char>) -> Option<UnixTime> {
    match text_claim(claims, name) {
        Some(t) => match chrono_parse_rfc3339(t) {
            Some((s, n)) => Some(UnixTime { secs: s, nanos: n }),
            None => None,
        },
        None => None,
    }
}

/// The not-before check of `PasetoParser::default()` at `now`: an absent `nbf` passes; a
/// present one must be an RFC 3339 text naming an instant not after `now`.
pub open spec fn nbf_holds(claims: Seq<(Seq<char>, ClaimData)>, now: UnixTime) -> bool {
    claim_lookup(claims, "nbf"@) is None || (claim_instant(claims, "nbf"@) matches Some(t) && !is_before(now, t))
}

/// How the expiration check of `PasetoParser::default()` ends at `now`.
pub enum ExpiryVerdict {
    Valid,
    /// The `exp` claim is absent, not a text, or empty.
    Missing,
    /// The text is not an RFC 3339 instant.
    Unreadable,
    /// The instant is not after `now`.
    Expired,
}

/// The expiration check of `PasetoParser::default()` at `now`: the claim must be a
/// non-empty RFC 3339 text naming an instant after `now`.
pub open spec fn default_expiry(claims: Seq<(Seq<char>, ClaimData)>, now: UnixTime) -> ExpiryVerdict {
    match text_claim(claims, "exp"@) {
        None => ExpiryVerdict::Missing,
        Some(t) => if t.len() == 0 {
            ExpiryVerdict::Missing
        } else {
            match time_parse_rfc3339(t) {
                None => ExpiryVerdict::Unreadable,
                Some((s, n)) => if is_before(now, UnixTime { secs: s, nanos: n }) {
                    ExpiryVerdict::Valid
                } else {
                    ExpiryVerdict::Expired
                },
            }
        },
    }
}

/// The instant of the claim named `name`, where it is an RFC 3339 text the `time` crate
/// reads.
pub fn find_claim_instant(claims: &ClaimSet, name: &str) -> (res: Option<UnixTime>)
    ensures
        res == claim_instant(claims@, name@),
{
    match crate::shared::claims::find_text_claim(&claims.members, name) {
        Some(t) => parse_rfc3339_offset(t.as_str()),
        None => None,
    }
}

/// The not-before check at `now`.
pub fn check_not_before(claims: &ClaimSet, now: UnixTime) -> (res: bool)
    ensures
        res == nbf_holds(claims@, now),
{
    proof {
        reveal_strlit("nbf");
    }
    match crate::shared::claims::find_claim(&claims.members, "nbf") {
        None => true,
        Some(_) => match find_claim_instant(claims, "nbf") {
            Some(t) => !before(now, t),
            None => false,
        },
    }
}

/// The expiration check of `PasetoParser::default()` at `now`.
pub fn check_default_expiry(claims: &ClaimSet, now: UnixTime) -> (res: ExpiryVerdict)
    ensures
        res == default_expiry(claims@, now),
{
    proof {
        reveal_strlit("exp");
    }
    let text = match crate::shared::claims::find_text_claim(&claims.members, "exp") {
        None => return ExpiryVerdict::Missing,
        Some(t) => t,
    };
    if text.as_str().unicode_len() == 0 {
        return ExpiryVerdict::Missing;
    }
    match parse_rfc3339_offset(text.as_str()) {
        None => ExpiryVerdict::Unreadable,
        Some(t) => if before(now, t) {
            ExpiryVerdict::Valid
        } else {
            ExpiryVerdict::Expired
        },
    }
}

} // verus!
