//! Password credentials: salted, memory-hard hashing and verification.
//!
//! The Argon2id computation itself is done by the `argon2` crate. Its results
//! are known here only by name: [`phc_hash`] for the encoded hash of a password
//! under a salt, [`phc_verdict`] for the outcome of checking a password
//! against an encoded hash.

use vstd::prelude::*;
use crate::error::{AppError, Failure};

verus! {

#[verifier::external_type_specification]
#[verifier::external_body]
pub struct ExPasswordHashError(argon2::password_hash::Error);

/// The encoded hash that Argon2id with the default parameters gives a password
/// under a salt written in the PHC salt alphabet; `None` where the salt is
/// refused or hashing fails.
pub uninterp spec fn phc_hash(password: Seq<char>, salt: Seq<char>) -> Option<Seq<char>>;

/// The outcome of checking a password against an encoded hash: `None` where
/// the text is no encoded hash, otherwise whether the password matches it.
pub uninterp spec fn phc_verdict(password: Seq<char>, hash: Seq<char>) -> Option<bool>;

/// Calls `SaltString::generate` of `password-hash` with the operating system's
/// random source and returns the salt as text. Nothing is claimed of the
/// salt: it is chosen by chance.
#[verifier::external_body]
fn fresh_salt() -> (salt: String) {
    argon2::password_hash::SaltString::generate(&mut rand::rngs::OsRng).as_str().to_owned()
}

/// Calls `SaltString::from_b64` and `Argon2::default().hash_password` and
/// writes the result in the PHC string format. Claimed: the call is a function
/// of password and salt, named [`phc_hash`]; and a hash it returns is one that
/// `verify_password` accepts for the same password, since verification
/// recomputes the digest from the parameters and salt that the hash records.
#[verifier::external_body]
fn argon2_hash(password: &str, salt: &str) -> (r: Result<String, argon2::password_hash::Error>)
    ensures
        match r {
            Ok(h) => phc_hash(password@, salt@) == Some(h@)
                && phc_verdict(password@, h@) == Some(true),
            Err(_) => phc_hash(password@, salt@) is None,
        },
{
    let salt = argon2::password_hash::SaltString::from_b64(salt)?;
    let hasher = argon2::Argon2::default();
    let hash = argon2::PasswordHasher::hash_password(&hasher, password.as_bytes(), &salt)?;
    Ok(hash.to_string())
}

/// Calls `PasswordHash::new` and `Argon2::default().verify_password`.
/// Claimed: the call is a function of password and hash text, named
/// [`phc_verdict`]; the error is that of parsing the hash text, and any
/// failure of the verification itself counts as a mismatch. The memory used
/// is the amount that the hash text names.
#[verifier::external_body]
fn argon2_check(password: &str, hash: &str) -> (r: Result<bool, argon2::password_hash::Error>)
    ensures
        match r {
            Ok(matches) => phc_verdict(password@, hash@) == Some(matches),
            Err(_) => phc_verdict(password@, hash@) is None,
        },
{
    let parsed = argon2::password_hash::PasswordHash::new(hash)?;
    let verifier = argon2::Argon2::default();
    Ok(argon2::PasswordVerifier::verify_password(&verifier, password.as_bytes(), &parsed).is_ok())
}

/// Writes out the `Display` text of a `password-hash` error. Nothing is
/// claimed of the text.
#[verifier::external_body]
fn hash_error_text(e: &argon2::password_hash::Error) -> (text: String) {
    e.to_string()
}

/// What hashing a password under a given salt returns.
pub open spec fn hashing_outcome(password: Seq<char>, salt: Seq<char>, r: Result<String, AppError>) -> bool {
    match r {
        Ok(h) => phc_hash(password, salt) == Some(h@),
        Err(e) => phc_hash(password, salt) is None && is_hashing_failure(e@),
    }
}

/// An internal fault that reports a failed hashing.
pub open spec fn is_hashing_failure(f: Failure) -> bool {
    f matches Failure::Internal(m) && "Password hashing failed: "@.is_prefix_of(m)
}

/// An internal fault that reports a stored hash that cannot be read.
pub open spec fn is_unreadable_hash(f: Failure) -> bool {
    f matches Failure::Internal(m) && "Invalid password hash: "@.is_prefix_of(m)
}

/// Hashes a password under the given salt.
///
/// Returns the encoded hash exactly when Argon2id yields one for this salt,
/// and an internal fault otherwise.
pub fn hash_password_with_salt(password: &str, salt: &str) -> (r: Result<String, AppError>)
    ensures
        hashing_outcome(password@, salt@, r),
        r matches Ok(h) ==> phc_verdict(password@, h@) == Some(true),
{
    match argon2_hash(password, salt) {
        Ok(h) => Ok(h),
        Err(e) => {
            let detail = hash_error_text(&e);
            let text = "Password hashing failed: ".to_owned().concat(detail.as_str());
            Err(AppError::InternalError(text))
        },
    }
}

/// Hashes a password under a salt drawn freshly for this call.
///
/// The result is the encoded hash of the password under some salt, and a
/// hash that [`verify_password`] accepts for the same password; a failure is
/// an internal fault. Which salt is used is left to chance, so two calls on
/// one password need not agree.
pub fn hash_password(password: &str) -> (r: Result<String, AppError>)
    ensures
        match r {
            Ok(h) => (exists|salt: Seq<char>| phc_hash(password@, salt) == Some(h@))
                && phc_verdict(password@, h@) == Some(true),
            Err(e) => is_hashing_failure(e@),
        },
{
    let salt = fresh_salt();
    hash_password_with_salt(password, salt.as_str())
}

/// Checks a password against an encoded hash.
///
/// Returns `Ok(true)` on a match and `Ok(false)` on a mismatch. A hash text
/// that cannot be read is an internal fault, never a mismatch.
pub fn verify_password(password: &str, hash: &str) -> (r: Result<bool, AppError>)
    ensures
        match r {
            Ok(matches) => phc_verdict(password@, hash@) == Some(matches),
            Err(e) => phc_verdict(password@, hash@) is None && is_unreadable_hash(e@),
        },
{
    match argon2_check(password, hash) {
        Ok(matches) => Ok(matches),
        Err(e) => {
            let detail = hash_error_text(&e);
            let text = "Invalid password hash: ".to_owned().concat(detail.as_str());
            Err(AppError::InternalError(text))
        },
    }
}

} // verus!
