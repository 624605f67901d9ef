//! Passwords: hashing them, and checking one against a stored hash.

use argon2::password_hash::rand_core::OsRng;
use argon2::password_hash::{PasswordHash, PasswordHasher, PasswordVerifier, SaltString};
use argon2::Argon2;
use vstd::prelude::*;

verus! {

/// What checking a password against a stored hash gave.
#[derive(Clone, Copy, Debug, PartialEq, Eq, Structural)]
pub enum PasswordCheck {
    /// The password is the one that was hashed.
    Valid,
    /// The password is not the one that was hashed.
    Invalid,
    /// The check itself failed: the stored text is no password hash, or it
    /// asks for what the hashing function cannot do.
    Failed,
}

/// Why a password could not be hashed.
#[derive(Clone, Copy, Debug, PartialEq, Eq, Structural)]
pub enum PasswordError {
    HashingFailed,
}

/// What Argon2 makes of a password and a stored hash.
pub uninterp spec fn password_check_of(password: Seq<char>, hash: Seq<char>) -> PasswordCheck;

/// Trusted: `argon2::password_hash::PasswordHash::new`, then
/// `argon2::Argon2::default().verify_password`. A text that does not parse
/// as a hash is a failed check; a hash that the password does not match is an
/// invalid password; any other error is a failed check. The outcome depends
/// on the two texts alone; nothing more is claimed of it than that it has a
/// name.
#[verifier::external_body]
pub(crate) fn argon2_verify(password: &str, hash: &str) -> (check: PasswordCheck)
    ensures
        check == password_check_of(password@, hash@),
{
    let parsed = match PasswordHash::new(hash) {
        Ok(parsed) => parsed,
        Err(_) => return PasswordCheck::Failed,
    };
    match Argon2::default().verify_password(password.as_bytes(), &parsed) {
        Ok(()) => PasswordCheck::Valid,
        Err(argon2::password_hash::Error::Password) => PasswordCheck::Invalid,
        Err(_) => PasswordCheck::Failed,
    }
}

/// Trusted: `argon2::password_hash::SaltString::generate` over the
/// operating system's random source, then
/// `argon2::Argon2::default().hash_password`, written out as a PHC string.
/// The salt is random, so the hash is not named. What holds of every hash
/// that comes out: checking the password that was hashed against it finds
/// the password valid, since the check computes the same function under the
/// salt and the parameters that the hash carries.
#[verifier::external_body]
pub(crate) fn argon2_hash(password: &str) -> (hashed: Option<String>)
    ensures
        hashed is Some ==> password_check_of(password@, hashed->Some_0@) == PasswordCheck::Valid,
{
    let salt = SaltString::generate(&mut OsRng);
    Argon2::default().hash_password(password.as_bytes(), &salt).ok().map(|h| h.to_string())
}

/// Checks a password against a stored hash.
pub fn verify_password(password: &str, hash: &str) -> (check: PasswordCheck)
    ensures
        check == password_check_of(password@, hash@),
{
    argon2_verify(password, hash)
}

/// Hashes a password under a fresh random salt. The hash that comes out is
/// one that the password checks against.
pub fn hash_password(password: &str) -> (result: Result<String, PasswordError>)
    ensures
        result is Ok ==> password_check_of(password@, result->Ok_0@) == PasswordCheck::Valid,
        result is Err ==> result->Err_0 == PasswordError::HashingFailed,
{
    hashed_or_failed(argon2_hash(password))
}

/// The hash that was computed, or the error that says there is none.
pub fn hashed_or_failed(hashed: Option<String>) -> (result: Result<String, PasswordError>)
    ensures
        result == match hashed {
            Some(hash) => Ok::<String, PasswordError>(hash),
            None => Err(PasswordError::HashingFailed),
        },
{
    match hashed {
        Some(hash) => Ok(hash),
        None => Err(PasswordError::HashingFailed),
    }
}

} // verus!
