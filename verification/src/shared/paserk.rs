//! The resource server's client of the authentication service's key endpoint: the
//! cache of verifying keys by key id, and the decisions of token validation that do
//! not need the network.

use vstd::prelude::*;
use crate::shared::claims::ClaimSet;
use crate::shared::clock::UnixTime;
use crate::shared::keys::{PublicKey, paserk_public_bytes, paserk_public_id};
use crate::shared::tokens::{
    ExpiryVerdict, check_default_expiry, check_not_before, default_expiry, nbf_holds, paseto_footer,
    signed_claims, signed_token_claims, untrusted_footer,
};

verus! {

/// One key of the key endpoint's answer: a PASERK public key and its key id.
pub struct KeyItem {
    pub key: String,
    pub kid: String,
}

/// What went wrong validating a token with the keys of the authentication service.
#[derive(Debug)]
pub enum PaserkClientError {
    /// The key endpoint could not be reached; the text says why.
    NetworkError(String),
    /// The key endpoint's answer was not a key list; the text is the endpoint.
    ParseError(String),
    ClaimParseError,
    UnknownError,
    InvalidToken,
    ExpiredToken,
    MissingFooter,
    UnknownKey,
}

/// Why fetching the key list failed.
pub enum KeyFetchFailure {
    /// The request could not be sent or answered; the text says why.
    Unreachable(String),
    /// The answer's body was not a key list.
    Undecodable,
    /// The answer's body could not be read.
    Unreadable,
}

/// The map that a list of key items leaves in an emptied cache when they are
/// inserted in order: a later item with the same key id replaces an earlier one.
pub open spec fn keys_map(items: Seq<(Seq<char>, Seq<char>)>) -> Map<Seq<char>, Seq<char>>
    decreases items.len(),
{
    if items.len() == 0 {
        Map::empty()
    } else {
        keys_map(items.drop_last()).insert(items.last().0, items.last().1)
    }
}

/// The (kid, key) texts of a list of key items.
pub open spec fn item_texts(items: Seq<KeyItem>) -> Seq<(Seq<char>, Seq<char>)> {
    items.map_values(|k: KeyItem| (k.kid@, k.key@))
}

/// A cache of verifying keys (PASERK strings) by key id.
pub struct KeyCache {
    entries: Vec<(String, String)>,
}

/// The map that a list of distinct (kid, key) entries stands for.
pub closed spec fn entries_map(entries: Seq<(String, String)>) -> Map<Seq<char>, Seq<char>> {
    Map::new(
        |kid: Seq<char>| exists|i: int| 0 <= i < entries.len() && entries[i].0@ == kid,
        |kid: Seq<char>| entries[choose|i: int| 0 <= i < entries.len() && entries[i].0@ == kid].1@,
    )
}

pub closed spec fn distinct_kids(entries: Seq<(String, String)>) -> bool {
    forall|i: int, j: int|
        0 <= i < entries.len() && 0 <= j < entries.len() && i != j ==> entries[i].0@ != entries[j].0@
}

proof fn lemma_entries_map_at(entries: Seq<(String, String)>, i: int)
    requires
        distinct_kids(entries),
        0 <= i < entries.len(),
    ensures
        entries_map(entries).contains_key(entries[i].0@),
        entries_map(entries)[entries[i].0@] == entries[i].1@,
{
    let kid = entries[i].0@;
    assert(exists|j: int| 0 <= j < entries.len() && entries[j].0@ == kid);
}

impl View for KeyCache {
    type V = Map<Seq<char>, Seq<char>>;

    closed spec fn view(&self) -> Map<Seq<char>, Seq<char>> {
        entries_map(self.entries@)
    }
}

impl KeyCache {
    /// No key id occurs twice.
    pub closed spec fn wf(&self) -> bool {
        distinct_kids(self.entries@)
    }

    /// An empty cache.
    pub fn new() -> (res: KeyCache)
        ensures
            res.wf(),
            res@ == Map::<Seq<char>, Seq<char>>::empty(),
    {
        let res = KeyCache { entries: Vec::new() };
        assert(res@ =~= Map::<Seq<char>, Seq<char>>::empty());
        res
    }

    /// The position of `kid`, if it is cached.
    fn position(&self, kid: &String) -> (res: Option<usize>)
        requires
            self.wf(),
        ensures
            match res {
                Some(i) => i < self.entries@.len() && self.entries@[i as int].0@ == kid@,
                None => !self@.contains_key(kid@),
            },
    {
        let n = self.entries.len();
        let mut i: usize = 0;
        while i < n
            invariant
                i <= n,
                n == self.entries@.len(),
                forall|j: int| 0 <= j < i ==> self.entries@[j].0@ != kid@,
            decreases n - i,
        {
            if self.entries[i].0 == *kid {
                return Some(i);
            }
            i = i + 1;
        }
        None
    }

    /// The key cached for `kid`.
    pub fn get(&self, kid: &str) -> (res: Option<String>)
        requires
            self.wf(),
        ensures
            match res {
                Some(key) => self@.contains_key(kid@) && key@ == self@[kid@],
                None => !self@.contains_key(kid@),
            },
    {
        let wanted = String::from_str(kid);
        match self.position(&wanted) {
            Some(i) => {
                proof {
                    lemma_entries_map_at(self.entries@, i as int);
                }
                Some(self.entries[i].1.clone())
            },
            None => None,
        }
    }

    /// Forgets every key.
    pub fn clear(&mut self)
        ensures
            final(self).wf(),
            final(self)@ == Map::<Seq<char>, Seq<char>>::empty(),
    {
        self.entries = Vec::new();
        assert(self@ =~= Map::<Seq<char>, Seq<char>>::empty());
    }

    /// Caches `key` for `kid`, replacing what was cached for it.
    pub fn insert(&mut self, kid: String, key: String)
        requires
            old(self).wf(),
        ensures
            final(self).wf(),
            final(self)@ == old(self)@.insert(kid@, key@),
    {
        let ghost old_entries = self.entries@;
        let ghost old_view = self@;
        let ghost kv = kid@;
        let ghost vv = key@;
        match self.position(&kid) {
            Some(i) => {
                self.entries.set(i, (kid, key));
                assert forall|a: int, b: int|
                    0 <= a < self.entries@.len() && 0 <= b < self.entries@.len() && a != b
                        implies self.entries@[a].0@ != self.entries@[b].0@ by {
                    assert(old_entries[i as int].0@ == kv);
                }
                assert forall|k: Seq<char>| #[trigger] self@.contains_key(k) == old_view.insert(kv, vv).contains_key(k) by {
                    if k == kv {
                        assert(self.entries@[i as int].0@ == kv);
                    } else {
                        if old_view.contains_key(k) {
                            let j = choose|j: int| 0 <= j < old_entries.len() && old_entries[j].0@ == k;
                            assert(self.entries@[j].0@ == k);
                        }
                        if self@.contains_key(k) {
                            let j = choose|j: int| 0 <= j < self.entries@.len() && self.entries@[j].0@ == k;
                            assert(j != i);
                            assert(old_entries[j].0@ == k);
                        }
                    }
                }
                assert forall|k: Seq<char>| #[trigger] self@.contains_key(k) implies self@[k] == old_view.insert(kv, vv)[k] by {
                    let j = choose|j: int| 0 <= j < self.entries@.len() && self.entries@[j].0@ == k;
                    lemma_entries_map_at(self.entries@, j);
                    if k != kv {
                        assert(j != i);
                        assert(old_entries[j] == self.entries@[j]);
                        assert(old_view.contains_key(k)) by {
                            assert(old_entries[j].0@ == k);
                        }
                        lemma_entries_map_at(old_entries, j);
                    }
                }
                assert(self@ =~= old_view.insert(kv, vv));
            },
            None => {
                self.entries.push((kid, key));
                let ghost n: int = self.entries@.len() - 1;
                assert forall|k: Seq<char>| #[trigger] self@.contains_key(k) == old_view.insert(kv, vv).contains_key(k) by {
                    if k == kv {
                        assert(self.entries@[n].0@ == kv);
                    } else {
                        if old_view.contains_key(k) {
                            let j = choose|j: int| 0 <= j < old_entries.len() && old_entries[j].0@ == k;
                            assert(self.entries@[j].0@ == k);
                        }
                        if self@.contains_key(k) {
                            let j = choose|j: int| 0 <= j < self.entries@.len() && self.entries@[j].0@ == k;
                            assert(old_entries[j].0@ == k);
                        }
                    }
                }
                assert forall|k: Seq<char>| #[trigger] self@.contains_key(k) implies self@[k] == old_view.insert(kv, vv)[k] by {
                    let j = choose|j: int| 0 <= j < self.entries@.len() && self.entries@[j].0@ == k;
                    lemma_entries_map_at(self.entries@, j);
                    if k != kv {
                        assert(j != n);
                        assert(old_entries[j] == self.entries@[j]);
                        lemma_entries_map_at(old_entries, j);
                    }
                }
                assert(self@ =~= old_view.insert(kv, vv));
            },
        }
    }
}

impl KeyCache {
    /// Forgets every key, then caches the items in order.
    pub fn replace_all(&mut self, items: &Vec<KeyItem>)
        requires
            old(self).wf(),
        ensures
            final(self).wf(),
            final(self)@ == keys_map(item_texts(items@)),
    {
        self.clear();
        let n = items.len();
        let ghost all = item_texts(items@);
        assert(keys_map(all.subrange(0, 0)) =~= Map::<Seq<char>, Seq<char>>::empty());
        let mut done: usize = 0;
        while done < n
            invariant
                done <= n,
                n == items@.len(),
                all == item_texts(items@),
                self.wf(),
                self@ == keys_map(all.subrange(0, done as int)),
            decreases n - done,
        {
            let ghost prefix = all.subrange(0, done as int);
            let ghost next = all.subrange(0, done + 1);
            assert(next.drop_last() =~= prefix);
            let kid = items[done].kid.clone();
            let key = items[done].key.clone();
            self.insert(kid, key);
            done = done + 1;
        }
        assert(all.subrange(0, n as int) =~= all);
    }
}

/// After a refresh from a key list, a key id is cached exactly when some item of the
/// list carries it, and what is cached for it is the key of the last such item.
pub proof fn law_refresh_keeps_last_listed_key(items: Seq<(Seq<char>, Seq<char>)>, kid: Seq<char>)
    ensures
        keys_map(items).contains_key(kid) <==> exists|i: int| 0 <= i < items.len() && items[i].0 == kid,
        forall|i: int|
            0 <= i < items.len() && items[i].0 == kid && (forall|j: int| i < j < items.len() ==> items[j].0 != kid)
                ==> keys_map(items)[kid] == items[i].1,
    decreases items.len(),
{
    if items.len() > 0 {
        let init = items.drop_last();
        law_refresh_keeps_last_listed_key(init, kid);
        if items.last().0 != kid {
            assert forall|i: int| 0 <= i < init.len() && init[i].0 == kid implies 0 <= i < items.len() && items[i].0 == kid by {}
            assert forall|i: int| 0 <= i < items.len() && items[i].0 == kid implies 0 <= i < init.len() && init[i].0 == kid by {
                assert(i != items.len() - 1);
            }
            assert forall|i: int|
                0 <= i < items.len() && items[i].0 == kid && (forall|j: int| i < j < items.len() ==> items[j].0 != kid)
                implies keys_map(items)[kid] == items[i].1 by {
                assert(i != items.len() - 1);
                assert(init[i] == items[i]);
                assert forall|j: int| i < j < init.len() implies init[j].0 != kid by {
                    assert(init[j] == items[j]);
                }
            }
        } else {
            assert(items[items.len() - 1].0 == kid);
            assert forall|i: int|
                0 <= i < items.len() && items[i].0 == kid && (forall|j: int| i < j < items.len() ==> items[j].0 != kid)
                implies keys_map(items)[kid] == items[i].1 by {
                if i != items.len() - 1 {
                    assert(items[items.len() - 1].0 != kid);
                }
            }
        }
    }
}

/// A client of the key endpoint of the authentication service, with its key cache.
pub struct PaserkClient {
    paserk_keys_endpoint: String,
    cached_paserk_keys: KeyCache,
}

impl PaserkClient {
    /// The key endpoint's address.
    pub closed spec fn endpoint(&self) -> Seq<char> {
        self.paserk_keys_endpoint@
    }

    /// The cached keys by key id.
    pub closed spec fn keys(&self) -> Map<Seq<char>, Seq<char>> {
        self.cached_paserk_keys@
    }

    pub closed spec fn wf(&self) -> bool {
        self.cached_paserk_keys.wf()
    }

    /// A client of the key endpoint at `paserk_keys_endpoint`, with no key cached.
    pub fn new(paserk_keys_endpoint: &str) -> (res: Self)
        ensures
            res.wf(),
            res.endpoint() == paserk_keys_endpoint@,
            res.keys() == Map::<Seq<char>, Seq<char>>::empty(),
    {
        PaserkClient {
            paserk_keys_endpoint: String::from_str(paserk_keys_endpoint),
            cached_paserk_keys: KeyCache::new(),
        }
    }

    /// The key endpoint's address.
    pub fn paserk_keys_endpoint(&self) -> (res: &str)
        ensures
            res@ == self.endpoint(),
    {
        self.paserk_keys_endpoint.as_str()
    }

    /// The key cached for `kid`, looked up before any fetch.
    pub fn cached_key(&self, kid: &str) -> (res: Option<String>)
        requires
            self.wf(),
        ensures
            match res {
                Some(key) => self.keys().contains_key(kid@) && key@ == self.keys()[kid@],
                None => !self.keys().contains_key(kid@),
            },
    {
        self.cached_paserk_keys.get(kid)
    }

    /// Takes in the outcome of fetching the key list after `kid` was not found in the
    /// cache. On a fetched list the cache is replaced by the listed keys and the key of
    /// `kid` is looked up in it (`UnknownKey` when it is not listed); on a failed fetch the
    /// cache stays as it was and the failure is reported.
    pub fn refresh_keys(&mut self, kid: &str, fetched: Result<Vec<KeyItem>, KeyFetchFailure>) -> (res: Result<String, PaserkClientError>)
        requires
            old(self).wf(),
        ensures
            final(self).wf(),
            final(self).endpoint() == old(self).endpoint(),
            match fetched {
                Ok(items) => final(self).keys() == keys_map(item_texts(items@)) && match res {
                    Ok(key) => final(self).keys().contains_key(kid@) && key@ == final(self).keys()[kid@],
                    Err(e) => e is UnknownKey && !final(self).keys().contains_key(kid@),
                },
                Err(KeyFetchFailure::Unreachable(m)) => final(self).keys() == old(self).keys()
                    && (res matches Err(PaserkClientError::NetworkError(t)) && t == m),
                Err(KeyFetchFailure::Undecodable) => final(self).keys() == old(self).keys()
                    && (res matches Err(PaserkClientError::ParseError(t)) && t@ == old(self).endpoint()),
                Err(KeyFetchFailure::Unreadable) => final(self).keys() == old(self).keys()
                    && res matches Err(PaserkClientError::UnknownError),
            },
    {
        match fetched {
            Err(KeyFetchFailure::Unreachable(m)) => Err(PaserkClientError::NetworkError(m)),
            Err(KeyFetchFailure::Undecodable) => Err(
                PaserkClientError::ParseError(self.paserk_keys_endpoint.clone()),
            ),
            Err(KeyFetchFailure::Unreadable) => Err(PaserkClientError::UnknownError),
            Ok(items) => {
                self.cached_paserk_keys.replace_all(&items);
                match self.cached_paserk_keys.get(kid) {
                    Some(key) => Ok(key),
                    None => Err(PaserkClientError::UnknownKey),
                }
            },
        }
    }
}

impl PaserkClient {
    /// The key id a token names in its (unverified) footer: a token that cannot be taken
    /// apart is `InvalidToken`, one without a footer is `MissingFooter`.
    pub fn token_kid(token: &str) -> (res: Result<String, PaserkClientError>)
        ensures
            match paseto_footer(token@) {
                None => res matches Err(PaserkClientError::InvalidToken),
                Some(None) => res matches Err(PaserkClientError::MissingFooter),
                Some(Some(f)) => res matches Ok(kid) && kid@ == f,
            },
    {
        match untrusted_footer(token) {
            None => Err(PaserkClientError::InvalidToken),
            Some(None) => Err(PaserkClientError::MissingFooter),
            Some(Some(kid)) => Ok(kid),
        }
    }

    /// Verifies a token at the instant `now` with the PASERK public key found for its key
    /// id, expecting that key's own id as the footer, as `PasetoParser::default()` does,
    /// and gives the token's claims. A text that is not a `k4.public.` key is
    /// `UnknownError`; an expiry that has passed is `ExpiredToken`; a token that does not
    /// verify, whose payload is no JSON object, or whose time claims fail otherwise is
    /// `ClaimParseError`.
    pub fn verify_with_key(token: &str, paserk_key: &str, now: UnixTime) -> (res: Result<ClaimSet, PaserkClientError>)
        ensures
            is_key_verdict(res, token@, paserk_key@, now),
    {
        let key = match PublicKey::from_paserk(paserk_key) {
            Some(k) => k,
            None => return Err(PaserkClientError::UnknownError),
        };
        let kid = key.paserk_id();
        let claims = match signed_token_claims(token, &key, kid.as_str()) {
            Some(c) => c,
            None => return Err(PaserkClientError::ClaimParseError),
        };
        match check_default_expiry(&claims, now) {
            ExpiryVerdict::Expired => Err(PaserkClientError::ExpiredToken),
            ExpiryVerdict::Valid => if check_not_before(&claims, now) {
                Ok(claims)
            } else {
                Err(PaserkClientError::ClaimParseError)
            },
            _ => Err(PaserkClientError::ClaimParseError),
        }
    }
}

/// How verifying `token` at `now` with the PASERK key text `key` ends: `UnknownError`
/// for a text that is no key; `ClaimParseError` for a token that does not verify under
/// the key with the key's id as footer, or whose payload is no JSON object;
/// `ExpiredToken` for an expiry that is not after `now`; `ClaimParseError` for another
/// failed time claim; otherwise the token's claims, the token's footer (if it has one)
/// being the key's PASERK id.
pub open spec fn is_key_verdict(res: Result<ClaimSet, PaserkClientError>, token: Seq<char>, key: Seq<char>, now: UnixTime) -> bool {
    match paserk_public_bytes(key) {
        None => res matches Err(PaserkClientError::UnknownError),
        Some(k) => match signed_claims(token, k, paserk_public_id(k)) {
            None => res matches Err(PaserkClientError::ClaimParseError),
            Some(c) => match default_expiry(c, now) {
                ExpiryVerdict::Expired => res matches Err(PaserkClientError::ExpiredToken),
                ExpiryVerdict::Valid => if nbf_holds(c, now) {
                    res matches Ok(s) && s@ == c && (paseto_footer(token) == Some(Some(paserk_public_id(k)))
                        || paseto_footer(token) == Some(None::<Seq<char>>))
                } else {
                    res matches Err(PaserkClientError::ClaimParseError)
                },
                _ => res matches Err(PaserkClientError::ClaimParseError),
            },
        },
    }
}

/// Where the validation of a token stands.
pub enum ValidationStep {
    /// The key id is not cached: fetch the key list, then validate again with the outcome.
    FetchKeys,
    /// The validation ended: the token's claims, or why there are none.
    Done(Result<ClaimSet, PaserkClientError>),
}

/// How validating `token` at `now` ends with the PASERK key `key` found for its key id.
pub open spec fn ends_with_key(step: ValidationStep, token: Seq<char>, key: Seq<char>, now: UnixTime) -> bool {
    step matches ValidationStep::Done(r) && is_key_verdict(r, token, key, now)
}

impl PaserkClient {
    /// Validates a token with the keys of the key endpoint. The key id is read from the
    /// token's footer; its key is taken from the cache, or, when the cache does not hold
    /// it, from the key list fetched from the endpoint (`fetched`: none before the fetch,
    /// then its outcome); the token is then verified with that key at the instant `now` and
    /// its claims given.
    pub fn validate_token(&mut self, token: &str, fetched: Option<Result<Vec<KeyItem>, KeyFetchFailure>>, now: UnixTime) -> (res: ValidationStep)
        requires
            old(self).wf(),
        ensures
            final(self).wf(),
            final(self).endpoint() == old(self).endpoint(),
            res matches ValidationStep::Done(Ok(_)) ==> (paseto_footer(token@) matches Some(Some(kid))
                && final(self).keys().contains_key(kid) && (paserk_public_bytes(final(self).keys()[kid]) matches Some(k)
                && kid == paserk_public_id(k))),
            match paseto_footer(token@) {
                None => final(self).keys() == old(self).keys() && res matches ValidationStep::Done(
                    Err(PaserkClientError::InvalidToken),
                ),
                Some(None) => final(self).keys() == old(self).keys() && res matches ValidationStep::Done(
                    Err(PaserkClientError::MissingFooter),
                ),
                Some(Some(kid)) => match fetched {
                    None => final(self).keys() == old(self).keys() && if old(self).keys().contains_key(kid) {
                        ends_with_key(res, token@, old(self).keys()[kid], now)
                    } else {
                        res is FetchKeys
                    },
                    Some(Ok(items)) => final(self).keys() == keys_map(item_texts(items@)) && if final(self).keys().contains_key(kid) {
                        ends_with_key(res, token@, final(self).keys()[kid], now)
                    } else {
                        res matches ValidationStep::Done(Err(PaserkClientError::UnknownKey))
                    },
                    Some(Err(KeyFetchFailure::Unreachable(m))) => final(self).keys() == old(self).keys()
                        && (res matches ValidationStep::Done(Err(PaserkClientError::NetworkError(t))) && t
                        == m),
                    Some(Err(KeyFetchFailure::Undecodable)) => final(self).keys() == old(self).keys()
                        && (res matches ValidationStep::Done(Err(PaserkClientError::ParseError(t))) && t@
                        == old(self).endpoint()),
                    Some(Err(KeyFetchFailure::Unreadable)) => final(self).keys() == old(self).keys()
                        && res matches ValidationStep::Done(Err(PaserkClientError::UnknownError)),
                },
            },
    {
        let kid = match PaserkClient::token_kid(token) {
            Ok(k) => k,
            Err(e) => return ValidationStep::Done(Err(e)),
        };
        let key = match fetched {
            None => match self.cached_key(kid.as_str()) {
                Some(k) => k,
                None => return ValidationStep::FetchKeys,
            },
            Some(outcome) => match self.refresh_keys(kid.as_str(), outcome) {
                Ok(k) => k,
                Err(e) => return ValidationStep::Done(Err(e)),
            },
        };
        ValidationStep::Done(PaserkClient::verify_with_key(token, key.as_str(), now))
    }
}

} // verus!
