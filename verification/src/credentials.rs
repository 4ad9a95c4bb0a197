//! Credential hashing and verification.
//!
//! Passwords are hashed with a salted, computationally expensive one-way
//! function (bcrypt). The hash string is self-describing: it embeds the
//! algorithm version, cost and salt, so verification needs no other state.

use vstd::prelude::*;

verus! {

/// Whether bcrypt verification accepts `plain` against the hash string
/// `hash`. Verification recomputes the hash from the plaintext and the
/// cost and salt embedded in `hash`, so the outcome is a function of the
/// two strings alone.
pub uninterp spec fn bcrypt_accepts(plain: Seq<char>, hash: Seq<char>) -> bool;

/// Hashes a password with a fresh random salt at the default cost.
///
/// Relies on bcrypt::hash and bcrypt::verify: a hash produced by
/// `bcrypt::hash` embeds its own cost and salt, and `bcrypt::verify`
/// recomputes and compares against exactly those parts, so a produced
/// hash always verifies against its plaintext. The salt is random, so
/// nothing more is promised of the returned string. `None` is returned
/// where the hasher itself failed (it never panics here).
#[verifier::external_body]
pub fn hash_password(password: &str) -> (r: Option<String>)
    ensures
        r matches Some(h) ==> bcrypt_accepts(password@, h@),
{
    bcrypt::hash(password, bcrypt::DEFAULT_COST).ok()
}

/// Verifies a password against a stored hash string.
///
/// Relies on bcrypt::verify: deterministic in the plaintext and the hash
/// string. A malformed hash makes `bcrypt::verify` return an error, which
/// is treated as "no match", so this function never fails or panics.
#[verifier::external_body]
pub fn verify_password(password: &str, hash: &str) -> (r: bool)
    ensures
        r == bcrypt_accepts(password@, hash@),
{
    bcrypt::verify(password, hash).unwrap_or(false)
}

} // verus!
