//! Ed25519 key material for V4 public PASETO tokens and its PASERK texts.

use vstd::prelude::*;
use rusty_paseto::prelude::{Key, PasetoAsymmetricPrivateKey, PasetoAsymmetricPublicKey, Public, V4};
use rusty_paseto::paserk::{K4, PaserkPublic, PaserkSecret, ToPaserk};

verus! {

broadcast use vstd::array::group_array_axioms;

/// An Ed25519 signing key pair: the 32 secret bytes followed by the 32 public bytes.
pub struct SecretKey(pub [u8; 64]);

/// An Ed25519 verifying key.
pub struct PublicKey(pub [u8; 32]);

/// The PASERK text (`k4.public.…`) of a V4 public key.
pub uninterp spec fn paserk_public_text(key: Seq<u8>) -> Seq<char>;

/// The PASERK key id (`k4.pid.…`) of a V4 public key.
pub uninterp spec fn paserk_public_id(key: Seq<u8>) -> Seq<char>;

/// The PASERK text (`k4.secret.…`) of a V4 secret key pair.
pub uninterp spec fn paserk_secret_text(key: Seq<u8>) -> Seq<char>;

/// The Ed25519 public key of a 32-byte secret key, as `ed25519_dalek` derives it.
pub uninterp spec fn ed25519_public_of(secret: Seq<u8>) -> Seq<u8>;

/// Whether 64 bytes are an Ed25519 key pair: a secret and the public key derived from it.
pub open spec fn is_key_pair(key: Seq<u8>) -> bool {
    key.len() == 64 && key.subrange(32, 64) == ed25519_public_of(key.subrange(0, 32))
}

/// The key bytes a `k4.public.…` PASERK text decodes to, if it is one.
pub uninterp spec fn paserk_public_bytes(text: Seq<char>) -> Option<Seq<u8>>;

/// The key bytes a `k4.secret.…` PASERK text decodes to, if it is one.
pub uninterp spec fn paserk_secret_bytes(text: Seq<char>) -> Option<Seq<u8>>;

/// `ToPaserk::paserk_id` of a V4 public key. The id is `k4.pid.` followed by the
/// 44 characters of the URL-safe base64 of a 33-byte hash, so it holds no `:`.
#[verifier::external_body]
fn public_key_paserk_id(key: &PublicKey) -> (res: String)
    ensures
        res@ == paserk_public_id(key.0@),
        res@.len() == 51 && res@.subrange(0, 7) == "k4.pid."@,
        !res@.contains(':'),
{
    let key = Key::<32>::from(key.0);
    PasetoAsymmetricPublicKey::<V4, Public>::from(&key).paserk_id()
}

/// `SigningKey::from_bytes` on a 32-byte secret, read back with `to_keypair_bytes`: the
/// secret followed by its 32-byte public key, which the crate guarantees is the one
/// derived from the secret.
#[verifier::external_body]
pub(crate) fn keypair_from_seed(seed: [u8; 32]) -> (res: SecretKey)
    ensures
        res.0@.subrange(0, 32) == seed@,
        res.0@.subrange(32, 64) == ed25519_public_of(seed@),
{
    SecretKey(ed25519_dalek::SigningKey::from_bytes(&seed).to_keypair_bytes())
}

/// `ToPaserk::to_paserk_string` of a V4 public key: `k4.public.` and the URL-safe base64
/// of the key, which `PaserkPublic::<K4>::try_from` reads back as the same key.
#[verifier::external_body]
fn public_key_paserk_text(key: &PublicKey) -> (res: String)
    ensures
        res@ == paserk_public_text(key.0@),
        paserk_public_bytes(res@) == Some(key.0@),
{
    let key = Key::<32>::from(key.0);
    PasetoAsymmetricPublicKey::<V4, Public>::from(&key).to_paserk_string()
}

/// `ToPaserk::to_paserk_string` of a V4 secret key pair: `k4.secret.` and the URL-safe
/// base64 of the pair, which `PaserkSecret::<K4>::try_from` reads back as the same pair.
#[verifier::external_body]
fn secret_key_paserk_text(key: &SecretKey) -> (res: String)
    ensures
        res@ == paserk_secret_text(key.0@),
        paserk_secret_bytes(res@) == Some(key.0@),
{
    let key = Key::<64>::from(key.0);
    PasetoAsymmetricPrivateKey::<V4, Public>::from(&key).to_paserk_string()
}

/// `PaserkPublic::<K4>::try_from`, read back as its bytes; a decoded K4 public key has
/// 32 bytes.
#[verifier::external_body]
fn paserk_public_decode(text: &str) -> (res: Option<Vec<u8>>)
    ensures
        res is Some <==> paserk_public_bytes(text@) is Some,
        res matches Some(b) ==> b@ == paserk_public_bytes(text@).unwrap() && b@.len() == 32,
{
    PaserkPublic::<K4>::try_from(text).ok().map(|k| k.as_bytes().to_vec())
}

/// `PaserkSecret::<K4>::try_from`, read back as its bytes; a decoded K4 secret key has
/// 64 bytes.
#[verifier::external_body]
fn paserk_secret_decode(text: &str) -> (res: Option<Vec<u8>>)
    ensures
        res is Some <==> paserk_secret_bytes(text@) is Some,
        res matches Some(b) ==> b@ == paserk_secret_bytes(text@).unwrap() && b@.len() == 64,
{
    PaserkSecret::<K4>::try_from(text).ok().map(|k| k.as_bytes().to_vec())
}

impl PublicKey {
    /// The key whose bytes are `bytes`, if there are exactly 32 of them.
    pub fn from_slice(bytes: &[u8]) -> (res: Option<PublicKey>)
        ensures
            res is Some <==> bytes@.len() == 32,
            res matches Some(k) ==> k.0@ == bytes@,
    {
        if bytes.len() != 32 {
            return None;
        }
        let mut arr = [0u8; 32];
        let mut i: usize = 0;
        while i < 32
            invariant
                i <= 32,
                bytes@.len() == 32,
                forall|j: int| 0 <= j < i ==> arr@[j] == bytes@[j],
            decreases 32 - i,
        {
            arr[i] = bytes[i];
            i = i + 1;
        }
        assert(arr@ =~= bytes@);
        Some(PublicKey(arr))
    }

    /// The key's PASERK id.
    pub fn paserk_id(&self) -> (res: String)
        ensures
            res@ == paserk_public_id(self.0@),
            res@.len() == 51,
            !res@.contains(':'),
    {
        public_key_paserk_id(self)
    }

    /// The key's PASERK text.
    pub fn to_paserk_string(&self) -> (res: String)
        ensures
            res@ == paserk_public_text(self.0@),
            paserk_public_bytes(res@) == Some(self.0@),
    {
        public_key_paserk_text(self)
    }

    /// The key a `k4.public.…` PASERK text stands for, if it is one.
    pub fn from_paserk(text: &str) -> (res: Option<PublicKey>)
        ensures
            res is Some <==> paserk_public_bytes(text@) is Some,
            res matches Some(k) ==> k.0@ == paserk_public_bytes(text@).unwrap(),
    {
        match paserk_public_decode(text) {
            Some(bytes) => PublicKey::from_slice(bytes.as_slice()),
            None => None,
        }
    }
}

impl SecretKey {
    /// The key pair whose bytes are `bytes`, if there are exactly 64 of them.
    pub fn from_slice(bytes: &[u8]) -> (res: Option<SecretKey>)
        ensures
            res is Some <==> bytes@.len() == 64,
            res matches Some(k) ==> k.0@ == bytes@,
    {
        if bytes.len() != 64 {
            return None;
        }
        let mut arr = [0u8; 64];
        let mut i: usize = 0;
        while i < 64
            invariant
                i <= 64,
                bytes@.len() == 64,
                forall|j: int| 0 <= j < i ==> arr@[j] == bytes@[j],
            decreases 64 - i,
        {
            arr[i] = bytes[i];
            i = i + 1;
        }
        assert(arr@ =~= bytes@);
        Some(SecretKey(arr))
    }

    /// The key pair of a 32-byte secret: the secret followed by its Ed25519 public key.
    pub fn from_seed(seed: [u8; 32]) -> (res: SecretKey)
        ensures
            res.0@.subrange(0, 32) == seed@,
            res.0@.subrange(32, 64) == ed25519_public_of(seed@),
            is_key_pair(res.0@),
    {
        keypair_from_seed(seed)
    }

    /// The public half of the pair: its last 32 bytes.
    pub fn public_half(&self) -> (res: PublicKey)
        ensures
            res.0@ == self.0@.subrange(32, 64),
    {
        let mut arr = [0u8; 32];
        let mut i: usize = 0;
        while i < 32
            invariant
                i <= 32,
                self.0@.len() == 64,
                forall|j: int| 0 <= j < i ==> arr@[j] == self.0@[32 + j],
            decreases 32 - i,
        {
            arr[i] = self.0[32 + i];
            i = i + 1;
        }
        assert(arr@ =~= self.0@.subrange(32, 64));
        PublicKey(arr)
    }

    /// The key pair's PASERK text.
    pub fn to_paserk_string(&self) -> (res: String)
        ensures
            res@ == paserk_secret_text(self.0@),
            paserk_secret_bytes(res@) == Some(self.0@),
    {
        secret_key_paserk_text(self)
    }

    /// The key pair a `k4.secret.…` PASERK text stands for, if it is one.
    pub fn from_paserk(text: &str) -> (res: Option<SecretKey>)
        ensures
            res is Some <==> paserk_secret_bytes(text@) is Some,
            res matches Some(k) ==> k.0@ == paserk_secret_bytes(text@).unwrap(),
    {
        match paserk_secret_decode(text) {
            Some(bytes) => SecretKey::from_slice(bytes.as_slice()),
            None => None,
        }
    }
}

} // verus!
