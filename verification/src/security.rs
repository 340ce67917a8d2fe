//! Password hashing and verification, backed by Argon2id.
//!
//! The two outside calls are the only trusted code here.  Their results
//! are captured by two named spec functions: `phc_valid`, whether a
//! string parses as a PHC-encoded hash, and `phc_matches`, whether a
//! password verifies against such a string.  Both are deterministic
//! functions of their text arguments: verification re-runs the hash
//! with the salt and parameters carried inside the PHC string itself.

use argon2::password_hash::{PasswordHash, PasswordHasher, PasswordVerifier, SaltString};
use argon2::Argon2;
use rand_core::OsRng;
use vstd::prelude::*;

verus! {

/// Whether this text parses as a PHC-format password hash
/// (`PasswordHash::new` accepts it).
pub uninterp spec fn phc_valid(hash: Seq<char>) -> bool;

/// Whether this password verifies against this PHC-format hash: the
/// result of recomputing Argon2 with the salt and parameters embedded
/// in the hash and comparing digests.
pub uninterp spec fn phc_matches(hash: Seq<char>, password: Seq<char>) -> bool;

/// Hashes a password with Argon2id under a fresh random salt.
///
/// Relies on `Argon2::hash_password` and `SaltString::generate`: the
/// returned PHC string parses back, and verifying the same password
/// against it recomputes the same digest, so it matches.  The salt is
/// random, so nothing relates the outputs of two calls.  `None` reports
/// a hashing failure (resource exhaustion); nothing is promised then.
#[verifier::external_body]
pub fn hash_password(password: &str) -> (r: Option<String>)
    ensures
        (r matches Some(h) ==> phc_valid(h@) && phc_matches(h@, password@)),
{
    let salt = SaltString::generate(&mut OsRng);
    match Argon2::default().hash_password(password.as_bytes(), &salt) {
        Ok(h) => Some(h.to_string()),
        Err(_) => None,
    }
}

/// Verifies a password against a stored PHC-format hash.
///
/// Relies on `PasswordHash::new` and `Argon2::verify_password`: parsing
/// succeeds exactly on PHC-format text, and verification recomputes the
/// digest from the hash's own salt and parameters, a deterministic
/// function of the two strings.  `None` reports text that is not a
/// PHC-format hash at all.
#[verifier::external_body]
pub fn verify_password(stored_hash: &str, password: &str) -> (r: Option<bool>)
    ensures
        (r is Some) == phc_valid(stored_hash@),
        (r matches Some(b) ==> b == phc_matches(stored_hash@, password@)),
{
    match PasswordHash::new(stored_hash) {
        Ok(parsed) => Some(
            Argon2::default().verify_password(password.as_bytes(), &parsed).is_ok(),
        ),
        Err(_) => None,
    }
}

/// Hashing a secret and verifying that same secret against the result
/// never answers `false`: whenever both calls go through, the answer is
/// `true`.  (The two encoded strings of two hashing calls still differ,
/// since each draws a fresh salt.)
pub fn hash_then_verify(secret: &str) -> (r: Option<bool>)
    ensures
        (r matches Some(b) ==> b),
{
    let hash = match hash_password(secret) {
        Some(h) => h,
        None => {
            return None;
        },
    };
    verify_password(hash.as_str(), secret)
}

} // verus!
