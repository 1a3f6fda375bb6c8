//! The credential verifier: one-way password hashing and checking, by
//! `bcrypt`.

use vstd::prelude::*;

verus! {

/// `bcrypt::BcryptError`, carried from the primitive to the place where it
/// becomes a [`HashingError`] or a mismatch. Nothing is read from it.
#[verifier::external_type_specification]
#[verifier::external_body]
pub struct ExBcryptError(bcrypt::BcryptError);

/// What `bcrypt::verify` makes of a password and a hash string: whether the
/// password is the hashed one, or `None` where it fails, as on a malformed
/// hash.
pub uninterp spec fn bcrypt_verified(password: Seq<char>, hash: Seq<char>) -> Option<bool>;

/// `bcrypt::hash` at `bcrypt::DEFAULT_COST`: a salted hash of the password.
/// The salt is random, so the string itself is not named. What holds of
/// every string that comes back is that `bcrypt::verify` accepts it for the
/// same password: `verify` takes the cost and the salt out of the string
/// that `hash` wrote, hashes the password again with them and compares the
/// digests.
/// The string is always the sixty characters that the primitive formats:
/// `$2b$`, the cost in two digits, which is `12` at the default cost, `$`,
/// and the salt and the digest in fifty-three characters.
#[verifier::external_body]
pub(crate) fn bcrypt_hash(password: &str) -> (r: Result<String, bcrypt::BcryptError>)
    ensures
        r matches Ok(hash) ==> bcrypt_verified(password@, hash@) == Some(true),
        r matches Ok(hash) ==> hash_shaped(hash@),
{
    bcrypt::hash(password, bcrypt::DEFAULT_COST)
}

/// `bcrypt::verify`: whether the password is the one that the hash string
/// was made of, or the crate's error.
#[verifier::external_body]
pub(crate) fn bcrypt_verify(password: &str, hash: &str) -> (r: Result<bool, bcrypt::BcryptError>)
    ensures
        r matches Ok(b) ==> bcrypt_verified(password@, hash@) == Some(b),
        r is Err ==> bcrypt_verified(password@, hash@) is None,
{
    bcrypt::verify(password, hash)
}

/// The shape of every hash made at the default work factor: sixty
/// characters, of which the first seven give the version and the cost.
pub open spec fn hash_shaped(hash: Seq<char>) -> bool {
    hash.len() == 60 && hash.take(7) == "$2b$12$"@
}

/// The hashing primitive failed.
#[derive(Debug, Clone, Copy, PartialEq, Eq, Structural)]
pub struct HashingError;

/// A password is accepted against a hash exactly when the primitive says
/// that it matches; a failure of the primitive counts as a mismatch.
pub open spec fn password_accepted(password: Seq<char>, hash: Seq<char>) -> bool {
    bcrypt_verified(password, hash) == Some(true)
}

/// Hashes a password with a fresh random salt, at the work factor that the
/// primitive has as its default. Two hashes of one password differ, so the
/// hash is not a function of the password; what it is known by is its
/// shape and that [`verify_password`] accepts it for this password. Fails
/// only where the
/// primitive does, and then with [`HashingError`], whatever the primitive's
/// own error was.
pub fn hash_password(password: &str) -> (r: Result<String, HashingError>)
    ensures
        r matches Ok(hash) ==> password_accepted(password@, hash@) && hash_shaped(hash@),
{
    match bcrypt_hash(password) {
        Ok(hash) => Ok(hash),
        Err(_) => Err(HashingError),
    }
}

/// What checking yields, given what the primitive returned.
pub fn accept_verdict(verdict: Option<bool>) -> (r: bool)
    ensures
        r == (verdict == Some(true)),
{
    match verdict {
        Some(matched) => matched,
        None => false,
    }
}

/// Checks a password against a hash string. A malformed hash, like every
/// other failure of the primitive, is a plain `false`.
pub fn verify_password(password: &str, hash: &str) -> (r: bool)
    ensures
        r == password_accepted(password@, hash@),
{
    let verdict = match bcrypt_verify(password, hash) {
        Ok(matched) => Some(matched),
        Err(_) => None,
    };
    accept_verdict(verdict)
}

} // verus!
