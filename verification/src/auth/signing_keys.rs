//! The signing keys of the authentication service: the daily rotation that makes a new
//! pair, where redis keeps the verifying keys, and the list of them that the service
//! publishes.

use vstd::prelude::*;
use crate::auth::config::VERIFYING_REDIS_KEY;
use crate::shared::clock::{
    UnixTime, chrono_representable, chrono_sum_representable, four_digit_year, is_before, minutes_after,
    current_instant, is_clock_reading,
};
use crate::shared::json::{Json, is_json_str};
use crate::shared::keys::{
    PublicKey, ed25519_public_of, is_key_pair, keypair_from_seed, paserk_public_bytes,
    paserk_public_id, paserk_public_text, paserk_secret_bytes, paserk_secret_text,
};
use crate::shared::responses::{ApiError, STATUS_INTERNAL_SERVER_ERROR};
use crate::shared::text::{push_char, push_str};
use crate::auth::paseto::{access_claims, is_access_claim_name, pair_kid};
use crate::shared::claims::{ClaimSet, lemma_absent_claim, user_claims_of};
use crate::shared::paserk::{PaserkClientError, is_key_verdict, keys_map, law_refresh_keeps_last_listed_key};
use crate::shared::serde_customs::law_subject_text_reads_back;
use crate::shared::tokens::{nbf_holds, signed_claims};
use crate::shared::tokens::paseto_footer;

verus! {

/// The redis key under which the verifying key with the id `kid` is kept.
pub open spec fn verifying_key_name(kid: Seq<char>) -> Seq<char> {
    VERIFYING_REDIS_KEY@ + seq![':'] + kid
}

/// The text after the last `:` of a text (all of it when it holds none), as
/// `split(":").last()` gives it.
pub open spec fn after_last_colon(s: Seq<char>) -> Seq<char>
    decreases s.len(),
{
    if s.len() == 0 {
        s
    } else if s.last() == ':' {
        Seq::empty()
    } else {
        after_last_colon(s.drop_last()).push(s.last())
    }
}

/// The redis key of the verifying key with the id `kid`.
pub fn verifying_redis_key(kid: &str) -> (res: String)
    ensures
        res@ == verifying_key_name(kid@),
{
    let mut key = String::from_str(VERIFYING_REDIS_KEY);
    push_char(&mut key, ':');
    push_str(&mut key, kid);
    key
}

/// The key id a verifying key's redis key ends with.
pub fn kid_of_redis_key(key: &str) -> (res: String)
    ensures
        res@ == after_last_colon(key@),
{
    let n = key.unicode_len();
    let mut start: usize = n;
    assert(key@.subrange(0, n as int) =~= key@);
    assert(after_last_colon(key@) =~= after_last_colon(key@.subrange(0, n as int)) + key@.subrange(n as int, n as int));
    while start > 0 && key.get_char(start - 1) != ':'
        invariant
            start <= n,
            n == key@.len(),
            after_last_colon(key@) == after_last_colon(key@.subrange(0, start as int)) + key@.subrange(
                start as int,
                n as int,
            ),
        decreases start,
    {
        let ghost prefix = key@.subrange(0, start as int);
        assert(prefix.drop_last() =~= key@.subrange(0, start - 1));
        assert(key@.subrange(start - 1, n as int) =~= seq![prefix.last()] + key@.subrange(start as int, n as int));
        assert(after_last_colon(prefix) == after_last_colon(prefix.drop_last()).push(prefix.last()));
        assert(after_last_colon(prefix.drop_last()).push(prefix.last()) + key@.subrange(start as int, n as int)
            =~= after_last_colon(prefix.drop_last()) + key@.subrange(start - 1, n as int));
        start = start - 1;
    }
    let ghost prefix = key@.subrange(0, start as int);
    assert(after_last_colon(prefix) =~= Seq::<char>::empty());
    let mut res = String::new();
    let mut i: usize = start;
    while i < n
        invariant
            start <= i <= n,
            n == key@.len(),
            res@ == key@.subrange(start as int, i as int),
        decreases n - i,
    {
        push_char(&mut res, key.get_char(i));
        assert(res@ =~= key@.subrange(start as int, i + 1));
        i = i + 1;
    }
    assert(key@.subrange(0, n as int) =~= key@);
    res
}

proof fn lemma_after_last_colon_of_suffix(prefix: Seq<char>, kid: Seq<char>)
    requires
        !kid.contains(':'),
    ensures
        after_last_colon(prefix + seq![':'] + kid) == kid,
    decreases kid.len(),
{
    let s = prefix + seq![':'] + kid;
    if kid.len() == 0 {
        assert(s.last() == ':');
    } else {
        assert(s.drop_last() =~= prefix + seq![':'] + kid.drop_last());
        assert(!kid.drop_last().contains(':')) by {
            if kid.drop_last().contains(':') {
                let i = choose|i: int| 0 <= i < kid.drop_last().len() && kid.drop_last()[i] == ':';
                assert(kid[i] == ':');
            }
        }
        lemma_after_last_colon_of_suffix(prefix, kid.drop_last());
        assert(kid[kid.len() - 1] != ':');
        assert(kid.drop_last().push(kid.last()) =~= kid);
    }
}

/// A key id without `:` is read back from the redis key it is kept under.
pub proof fn law_kid_reads_back_from_redis_key(kid: Seq<char>)
    requires
        !kid.contains(':'),
    ensures
        after_last_colon(verifying_key_name(kid)) == kid,
{
    lemma_after_last_colon_of_suffix(VERIFYING_REDIS_KEY@, kid);
}

/// What redis holds for a key id, read as a verifying key.
pub enum VerifierLookup {
    /// Nothing is kept for the key id.
    Missing,
    Found(PublicKey),
    /// The kept text is not a `k4.public.` key (where the service panics).
    Unreadable,
}

/// The verifying key of the text redis keeps for a key id, if it keeps one.
pub fn verifier_key_from_entry(entry: Option<String>) -> (res: VerifierLookup)
    ensures
        match entry {
            None => res is Missing,
            Some(t) => match paserk_public_bytes(t@) {
                Some(b) => res matches VerifierLookup::Found(k) && k.0@ == b,
                None => res is Unreadable,
            },
        },
{
    match entry {
        None => VerifierLookup::Missing,
        Some(text) => match PublicKey::from_paserk(text.as_str()) {
            Some(k) => VerifierLookup::Found(k),
            None => VerifierLookup::Unreadable,
        },
    }
}

/// `kj` is `{"kid": <kid>, "key": <key>}`.
pub open spec fn is_key_entry_json(kj: Json, kid: Seq<char>, key: Seq<char>) -> bool {
    match kj {
        Json::Object(m) => m@.len() == 2 && m@[0].0@ == "kid"@ && is_json_str(m@[0].1, kid)
            && m@[1].0@ == "key"@ && is_json_str(m@[1].1, key),
        _ => false,
    }
}

/// `j` is `{"keys": [...]}` with an entry per redis key: the key id it ends with and the
/// key kept under it.
pub open spec fn is_public_keys_json(j: Json, entries: Seq<(String, Option<String>)>) -> bool {
    match j {
        Json::Object(m) => m@.len() == 1 && m@[0].0@ == "keys"@ && match m@[0].1 {
            Json::Array(a) => a@.len() == entries.len() && forall|i: int|
                0 <= i < entries.len() ==> is_key_entry_json(
                    #[trigger] a@[i],
                    after_last_colon(entries[i].0@),
                    entries[i].1.unwrap()@,
                ),
            _ => false,
        },
        _ => false,
    }
}

/// The published list of verifying keys, from the redis keys of the verifying keys and
/// what redis keeps under each (read in that order): a redis key with no key kept is a
/// server error "Could not find verifying_key value".
pub fn get_public_keys(entries: Vec<(String, Option<String>)>) -> (res: Result<Json, ApiError>)
    ensures
        (forall|i: int| 0 <= i < entries@.len() ==> (#[trigger] entries@[i]).1 is Some) ==> (res matches Ok(j)
            && is_public_keys_json(j, entries@)),
        (exists|i: int| 0 <= i < entries@.len() && (#[trigger] entries@[i]).1 is None) ==> (res matches Err(e)
            && e.code == STATUS_INTERNAL_SERVER_ERROR && e.message@ == "Could not find verifying_key value"@
            && e.data is None),
{
    let ghost all = entries@;
    let mut list: Vec<Json> = Vec::new();
    let mut i: usize = 0;
    while i < entries.len()
        invariant
            i <= entries@.len(),
            entries@ == all,
            list@.len() == i,
            forall|j: int| 0 <= j < i ==> (#[trigger] all[j]).1 is Some,
            forall|j: int|
                0 <= j < i ==> is_key_entry_json(#[trigger] list@[j], after_last_colon(all[j].0@), all[j].1.unwrap()@),
        decreases entries@.len() - i,
    {
        let key = match &entries[i].1 {
            Some(k) => k,
            None => return Err(ApiError::server_error("Could not find verifying_key value")),
        };
        let kid = kid_of_redis_key(entries[i].0.as_str());
        list.push(Json::pair("kid", Json::Str(kid), "key", Json::text(key.as_str())));
        i = i + 1;
    }
    Ok(Json::single("keys", Json::Array(list)))
}

/// The job that rotates the signing key.
pub struct GenerateKeyPairJob;

/// What a key rotation writes to redis: the new pair's PASERK as the signing key, and
/// under the redis key of its public key's id that key's PASERK and the Unix time at
/// which to stop trusting it.
pub struct KeyRotation {
    pub signing_key: String,
    pub verifying_redis_key: String,
    pub verifying_key: String,
    pub verifying_key_exp: i64,
}

/// `r` is the rotation to the key pair `pair`, whose verifying key expires at `exp`.
pub open spec fn is_rotation_of(r: KeyRotation, pair: Seq<u8>, exp: int) -> bool {
    &&& is_key_pair(pair)
    &&& r.signing_key@ == paserk_secret_text(pair)
    &&& paserk_secret_bytes(r.signing_key@) == Some(pair)
    &&& r.verifying_key@ == paserk_public_text(pair.subrange(32, 64))
    &&& paserk_public_bytes(r.verifying_key@) == Some(pair.subrange(32, 64))
    &&& r.verifying_redis_key@ == verifying_key_name(paserk_public_id(pair.subrange(32, 64)))
    &&& after_last_colon(r.verifying_redis_key@) == paserk_public_id(pair.subrange(32, 64))
    &&& r.verifying_key_exp == exp
}

/// The Unix second at which a verifying key made at `now` stops being trusted: the
/// refresh token's lifetime and one day after `now`, where `chrono` can add them.
pub open spec fn verifying_key_expiry(now: UnixTime, refresh_max_age: i64) -> Option<int> {
    if refresh_max_age * 60 <= i64::MAX && refresh_max_age * 60 >= i64::MIN && chrono_sum_representable(
        now.secs,
        now.nanos,
        (refresh_max_age * 60) as i64,
    ) && chrono_sum_representable((now.secs + refresh_max_age * 60) as i64, now.nanos, 86400) {
        Some(now.secs + refresh_max_age * 60 + 86400)
    } else {
        None
    }
}

/// How the rotation to the key pair of the secret `seed`, made at `now`, ends: the
/// rotation to that pair with the verifying key's expiry, or nothing where the expiry
/// cannot be computed.
pub open spec fn is_rotation_outcome(res: Option<KeyRotation>, seed: Seq<u8>, now: UnixTime, refresh_max_age: i64) -> bool {
    match verifying_key_expiry(now, refresh_max_age) {
        None => res is None,
        Some(exp) => res matches Some(r) && is_rotation_of(r, seed + ed25519_public_of(seed), exp),
    }
}

/// The rotation to the key pair of a 32-byte secret, made at `now`; `None` where the
/// expiry of the verifying key cannot be computed (where the service panics).
pub fn plan_key_rotation(seed: [u8; 32], now: UnixTime, refresh_max_age: i64) -> (res: Option<KeyRotation>)
    requires
        now.nanos < 1_000_000_000,
        chrono_representable(now.secs, now.nanos),
    ensures
        is_rotation_outcome(res, seed@, now, refresh_max_age),
{
    let later = match minutes_after(now, refresh_max_age) {
        Some(t) => t,
        None => return None,
    };
    let exp = match minutes_after(later, 1440) {
        Some(t) => t,
        None => return None,
    };
    let pair = keypair_from_seed(seed);
    let ghost bytes = pair.0@;
    assert(bytes =~= seed@ + ed25519_public_of(seed@)) by {
        assert(bytes =~= bytes.subrange(0, 32) + bytes.subrange(32, 64));
    }
    let public = pair.public_half();
    let kid = public.paserk_id();
    proof {
        law_kid_reads_back_from_redis_key(kid@);
    }
    Some(KeyRotation {
        signing_key: pair.to_paserk_string(),
        verifying_redis_key: verifying_redis_key(kid.as_str()),
        verifying_key: public.to_paserk_string(),
        verifying_key_exp: exp.secs,
    })
}

/// `rand::random`: 32 random bytes for a new secret key. Nothing is stated of them.
#[verifier::external_body]
fn random_seed() -> (res: [u8; 32])
{
    rand::random()
}

/// The daily key rotation: a new key pair from a random 32-byte secret, made at the
/// current instant, as [`plan_key_rotation`] makes it; `None` exactly where the expiry
/// of its verifying key cannot be computed from that instant.
pub fn generate_key_pair(refresh_max_age: i64) -> (res: Option<KeyRotation>)
    ensures
        exists|seed: Seq<u8>, at: UnixTime|
            seed.len() == 32 && at.nanos < 1_000_000_000 && chrono_representable(at.secs, at.nanos)
                && is_clock_reading(at) && #[trigger] is_rotation_outcome(res, seed, at, refresh_max_age),
{
    let seed = random_seed();
    let t = current_instant();
    plan_key_rotation(seed, t, refresh_max_age)
}

/// A rotation made at `now` publishes its verifying key until the refresh token's
/// lifetime and one more day have passed after `now`: `refresh_max_age` minutes plus
/// 86400 seconds after `now`'s second. Its signing key is the PASERK of the pair of the
/// secret, and the verifying key that of the pair's public half.
pub proof fn law_rotation_expires_a_lifetime_and_a_day_later(
    res: Option<KeyRotation>,
    seed: Seq<u8>,
    now: UnixTime,
    refresh_max_age: i64,
)
    requires
        is_rotation_outcome(res, seed, now, refresh_max_age),
        res is Some,
    ensures
        res.unwrap().verifying_key_exp == now.secs + refresh_max_age * 60 + 86400,
        res.unwrap().signing_key@ == paserk_secret_text(seed + ed25519_public_of(seed)),
        res.unwrap().verifying_key@ == paserk_public_text((seed + ed25519_public_of(seed)).subrange(32, 64)),
{
}

/// A token signed with a rotated key pair names, in its footer, the key id whose redis
/// key is the one the rotation wrote, and the key kept there reads as the pair's public
/// key.
pub proof fn law_signed_token_finds_published_key(r: KeyRotation, pair: Seq<u8>, exp: int, token: Seq<char>)
    requires
        is_rotation_of(r, pair, exp),
        paseto_footer(token) == Some(Some(paserk_public_id(pair.subrange(32, 64)))),
    ensures
        paseto_footer(token) matches Some(Some(kid)) && verifying_key_name(kid) == r.verifying_redis_key@,
        paserk_public_bytes(r.verifying_key@) == Some(pair.subrange(32, 64)),
{
}

/// A token signed with a rotated key pair is checked by the resource server with that
/// pair's public key: once it has cached a key list in which the rotation's published
/// entry (the key id its redis key ends with, and the key kept there) is the last one
/// with that id, the key cached under the token's key id reads as the pair's public key.
pub proof fn law_resource_server_finds_signing_key(
    r: KeyRotation,
    pair: Seq<u8>,
    exp: int,
    token: Seq<char>,
    items: Seq<(Seq<char>, Seq<char>)>,
    i: int,
)
    requires
        is_rotation_of(r, pair, exp),
        paseto_footer(token) == Some(Some(paserk_public_id(pair.subrange(32, 64)))),
        0 <= i < items.len(),
        items[i] == (after_last_colon(r.verifying_redis_key@), r.verifying_key@),
        forall|j: int| i < j < items.len() ==> items[j].0 != items[i].0,
    ensures
        paseto_footer(token) matches Some(Some(kid)) && keys_map(items).contains_key(kid)
            && paserk_public_bytes(keys_map(items)[kid]) == Some(pair.subrange(32, 64)),
{
    law_refresh_keeps_last_listed_key(items, items[i].0);
}

/// An access token signed with a rotated key pair is accepted by the resource server,
/// with the key the rotation published, while its expiry is ahead and its `nbf` has come,
/// giving back the token's claims, which name the user it was signed for; once its
/// expiry has come it is answered as expired.
pub proof fn law_resource_server_checks_signed_token(
    r: KeyRotation,
    pair: Seq<u8>,
    key_exp: int,
    token: Seq<char>,
    id: i32,
    username: Seq<char>,
    email: Seq<char>,
    exp: UnixTime,
    now: UnixTime,
    res: Result<ClaimSet, PaserkClientError>,
)
    requires
        is_rotation_of(r, pair, key_exp),
        exp.nanos < 1_000_000_000,
        four_digit_year(exp.secs),
        signed_claims(token, pair.subrange(32, 64), pair_kid(pair)) matches Some(cs) && access_claims(
            cs,
            id,
            username,
            email,
            exp,
        ),
        is_key_verdict(res, token, r.verifying_key@, now),
    ensures
        !is_before(now, exp) ==> res matches Err(PaserkClientError::ExpiredToken),
        is_before(now, exp) && nbf_holds(signed_claims(token, pair.subrange(32, 64), pair_kid(pair)).unwrap(), now)
            ==> (res matches Ok(s) && user_claims_of(s@) == Some((id, username, email))),
{
    let cs = signed_claims(token, pair.subrange(32, 64), pair_kid(pair)).unwrap();
    reveal_strlit("id");
    reveal_strlit("sub");
    reveal_strlit("iss");
    reveal_strlit("aud");
    reveal_strlit("exp");
    reveal_strlit("iat");
    reveal_strlit("nbf");
    reveal_strlit("email");
    reveal_strlit("username");
    assert("id"@.len() == 2 && "sub"@.len() == 3 && "iss"@.len() == 3 && "aud"@.len() == 3);
    assert("exp"@.len() == 3 && "iat"@.len() == 3 && "nbf"@.len() == 3 && "email"@.len() == 5);
    assert("username"@.len() == 8);
    assert forall|i: int| 0 <= i < cs.len() implies cs[i].0 != "id"@ by {
        assert(is_access_claim_name(cs[i].0));
    }
    lemma_absent_claim(cs, "id"@);
    law_subject_text_reads_back(id);
}

} // verus!
