use vstd::prelude::*;

use crate::errors::AuthError;

use argon2::password_hash::rand_core::OsRng;
use argon2::password_hash::{PasswordHash, SaltString};
use argon2::{Argon2, PasswordHasher, PasswordVerifier};

verus! {

/// Whether `hash` is an Argon2 hash of `password`: the result of
/// `argon2`'s password verification, which depends on the two strings
/// alone (the salt and parameters are embedded in `hash`).
pub uninterp spec fn hash_matches(hash: Seq<char>, password: Seq<char>) -> bool;

/// Relies on `argon2::Argon2::hash_password` with a fresh random salt:
/// the returned PHC string embeds the salt and parameters, and
/// `argon2`'s `verify_password` recomputes the same digest from it, so
/// the pair it was made from always verifies.
#[verifier::external_body]
fn argon2_hash(password: &str) -> (r: Result<String, AuthError>)
    ensures
        r is Ok ==> hash_matches(r->Ok_0@, password@),
        r is Err ==> r->Err_0 == AuthError::HashFailure,
{
    let salt = SaltString::generate(&mut OsRng);
    match Argon2::default().hash_password(password.as_bytes(), &salt) {
        Ok(hash) => Ok(hash.to_string()),
        Err(_) => Err(AuthError::HashFailure),
    }
}

/// Relies on `argon2::Argon2::verify_password`: it parses the PHC
/// string, recomputes the digest of `password` with the embedded salt
/// and parameters, and compares in constant time. The outcome is a
/// function of the two strings alone.
#[verifier::external_body]
fn argon2_verify(hash: &str, password: &str) -> (r: bool)
    ensures
        r == hash_matches(hash@, password@),
{
    match PasswordHash::new(hash) {
        Ok(parsed) => Argon2::default().verify_password(password.as_bytes(), &parsed).is_ok(),
        Err(_) => false,
    }
}

/// One-way hash of a raw password. Fails only on an internal hasher
/// fault, which is fatal; on success the returned string verifies
/// against the password it was made from.
pub fn hash_password(password: &str) -> (r: Result<String, AuthError>)
    ensures
        r is Ok ==> hash_matches(r->Ok_0@, password@),
        r is Err ==> r->Err_0 == AuthError::HashFailure,
{
    argon2_hash(password)
}

/// Check a raw password against a stored hash. A mismatch is a normal
/// `false`, never a fault.
pub fn verify_password(password: &str, hash: &str) -> (r: bool)
    ensures
        r == hash_matches(hash@, password@),
{
    argon2_verify(hash, password)
}

} // verus!
