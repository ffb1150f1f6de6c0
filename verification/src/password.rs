//! Password hashing, done by the `bcrypt` crate. Hashes are never compared as text: the
//! only way to learn whether a password fits a hash is `bcrypt::verify`, whose answer is
//! given a name here so that contracts can speak of it.

use vstd::prelude::*;
use bcrypt::BcryptError;

verus! {

/// The error type of the `bcrypt` crate, carried through as an opaque value.
#[verifier::external_type_specification]
#[verifier::external_body]
pub struct ExBcryptError(BcryptError);

/// What `bcrypt::verify(password, hash)` answers: `Some(true)` if the password fits the
/// hash, `Some(false)` if it does not, `None` if the call fails because `hash` is not a
/// well-formed bcrypt hash.
pub uninterp spec fn bcrypt_verify(password: Seq<char>, hash: Seq<char>) -> Option<bool>;

/// Whether `password` fits the stored `hash`.
pub open spec fn password_matches(password: Seq<char>, hash: Seq<char>) -> bool {
    bcrypt_verify(password, hash) == Some(true)
}

/// Calls `bcrypt::hash` with the crate's default cost. The salt is drawn at random, so
/// two calls on one password differ; what holds of every hash that comes back is that the
/// password it was made from fits it, because `bcrypt::verify` reads cost and salt from the
/// hash and repeats the same computation.
#[verifier::external_body]
pub(crate) fn hash_password(password: &str) -> (outcome: Result<String, BcryptError>)
    ensures
        outcome matches Ok(hash) ==> password_matches(password@, hash@),
{
    bcrypt::hash(password, bcrypt::DEFAULT_COST)
}

/// Calls `bcrypt::verify`, which depends on its two arguments alone: the contract equates
/// its answer with `bcrypt_verify` of their views, a failed call standing for `None`.
#[verifier::external_body]
pub(crate) fn verify_password(password: &str, hash: &str) -> (outcome: Result<
    bool,
    BcryptError,
>)
    ensures
        match outcome {
            Ok(fits) => bcrypt_verify(password@, hash@) == Some(fits),
            Err(_) => bcrypt_verify(password@, hash@) is None,
        },
{
    bcrypt::verify(password, hash)
}

} // verus!
