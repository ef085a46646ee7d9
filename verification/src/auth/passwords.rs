//! Password strength, as `zxcvbn` estimates it, and password hashes, as `argon2`
//! makes and checks them.

use vstd::prelude::*;
use vstd::utf8::encode_utf8;
use argon2::{Argon2, PasswordHash, PasswordHasher, PasswordVerifier};
use argon2::password_hash::SaltString;

verus! {

/// What `zxcvbn` estimates of a password (with no user inputs): its score (0 to 4) and
/// the warning of its feedback, if there is one.
pub uninterp spec fn zxcvbn_estimate(password: Seq<char>) -> (u8, Option<Seq<char>>);

/// `zxcvbn::zxcvbn(password, &[])`, read back as its score and the text of its feedback's
/// warning. The score is one of the five of `zxcvbn::Score`; the empty password scores 0.
#[verifier::external_body]
fn estimate_strength(password: &str) -> (res: (u8, Option<String>))
    ensures
        res.0 == zxcvbn_estimate(password@).0,
        match zxcvbn_estimate(password@).1 {
            Some(w) => res.1 matches Some(t) && t@ == w,
            None => res.1 is None,
        },
        res.0 <= 4,
        password@.len() == 0 ==> res.0 == 0,
{
    let estimate = zxcvbn::zxcvbn(password, &[]);
    let warning = estimate.feedback().and_then(|f| f.warning()).map(|w| w.to_string());
    (u8::from(estimate.score()), warning)
}

/// A password was refused.
pub enum PasswordError {
    /// The password is too easy to guess; the estimator's warning, if it gave one.
    WeakPasswordError { feedback: Option<String> },
}

/// The score a password needs.
pub const MIN_PASSWORD_SCORE: u8 = 3;

/// Accepts a password whose score is at least three; refuses any other with the
/// estimator's warning as feedback.
pub fn check_password(password: &str) -> (res: Result<(), PasswordError>)
    ensures
        res is Ok <==> zxcvbn_estimate(password@).0 >= MIN_PASSWORD_SCORE,
        res matches Err(PasswordError::WeakPasswordError { feedback }) ==> match zxcvbn_estimate(
            password@,
        ).1 {
            Some(w) => feedback matches Some(t) && t@ == w,
            None => feedback is None,
        },
{
    let (score, warning) = estimate_strength(password);
    if score >= MIN_PASSWORD_SCORE {
        Ok(())
    } else {
        Err(PasswordError::WeakPasswordError { feedback: warning })
    }
}

/// What `argon2` decides for a password and a stored hash text: `None` when
/// `PasswordHash::new` does not read the text as a PHC string, otherwise whether
/// `Argon2::default().verify_password` accepts the password's bytes.
pub uninterp spec fn argon2_verdict(password: Seq<char>, phc: Seq<char>) -> Option<bool>;

/// `Argon2::default().hash_password` with a fresh salt of 16 random bytes (`rand::random`,
/// encoded by `SaltString::encode_b64`), as its PHC text. The salt is random, so the text is not stated; what holds of every
/// outcome is that the text reads as a hash that the same password verifies against.
/// Hashing refuses only passwords longer than `u32::MAX` bytes (`MAX_PWD_LEN`), which
/// the bound leaves out.
#[verifier::external_body]
pub(crate) fn hash_password(password: &str) -> (res: String)
    requires
        encode_utf8(password@).len() <= 0xFFFF_FFFF,
    ensures
        argon2_verdict(password@, res@) == Some(true),
{
    let bytes: [u8; 16] = rand::random();
    let salt = SaltString::encode_b64(&bytes);
    salt.and_then(|s| Argon2::default().hash_password(password.as_bytes(), &s).map(|h| h.to_string()))
        .unwrap_or_default()
}

/// `PasswordHash::new` on a stored hash text, then `Argon2::default().verify_password`
/// with the password's bytes.
#[verifier::external_body]
pub(crate) fn verify_password(password: &str, phc: &str) -> (res: Option<bool>)
    ensures
        res == argon2_verdict(password@, phc@),
{
    let hash = PasswordHash::new(phc).ok()?;
    Some(Argon2::default().verify_password(password.as_bytes(), &hash).is_ok())
}

} // verus!
