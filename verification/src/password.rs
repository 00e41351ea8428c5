//! One-way hashing of credentials, and checking a credential against a stored hash.

use vstd::prelude::*;

verus! {

/// The hasher could not do its work: on hashing, an internal fault; on checking, a stored
/// hash that is not of the hasher's format. `reason` is the hasher's own description.
#[derive(Debug, Clone)]
pub struct HashFailure {
    pub reason: String,
}

/// `bcrypt::BcryptError`, carried as it is: only its text is asked for.
#[verifier::external_type_specification]
#[verifier::external_body]
pub struct ExBcryptError(bcrypt::BcryptError);

/// What `bcrypt::verify` answers for a password and a stored hash: whether they match, or
/// `None` where it refuses the hash.
pub uninterp spec fn bcrypt_verdict(password: Seq<char>, hash: Seq<char>) -> Option<bool>;

/// `bcrypt::hash` at `bcrypt::DEFAULT_COST`, with a salt drawn anew on each call.
/// Trusted: a hash that comes back is one that `bcrypt::verify` matches with the same
/// password. Which hash comes back is left open, and so is success.
#[verifier::external_body]
fn bcrypt_hash(password: &str) -> (hashed: Result<String, bcrypt::BcryptError>)
    ensures
        hashed matches Ok(hash) ==> bcrypt_verdict(password@, hash@) == Some(true),
{
    bcrypt::hash(password, bcrypt::DEFAULT_COST)
}

/// `bcrypt::verify`. Trusted: the answer is the named verdict, an error standing for none.
#[verifier::external_body]
fn bcrypt_verify(password: &str, hash: &str) -> (checked: Result<bool, bcrypt::BcryptError>)
    ensures
        match checked {
            Ok(matches) => bcrypt_verdict(password@, hash@) == Some(matches),
            Err(_) => bcrypt_verdict(password@, hash@) is None,
        },
{
    bcrypt::verify(password, hash)
}

/// The text that `bcrypt::BcryptError` displays. Nothing is claimed of it.
#[verifier::external_body]
fn bcrypt_error_text(error: &bcrypt::BcryptError) -> String {
    error.to_string()
}

/// The hasher's answer to a hashing request, as this library reports it: the hash, or a
/// `HashFailure` for any error.
pub fn hashed_credential(hashed: Result<String, bcrypt::BcryptError>) -> (outcome: Result<
    String,
    HashFailure,
>)
    ensures
        match hashed {
            Ok(hash) => outcome == Ok::<String, HashFailure>(hash),
            Err(_) => outcome is Err,
        },
{
    match hashed {
        Ok(hash) => Ok(hash),
        Err(error) => Err(HashFailure { reason: bcrypt_error_text(&error) }),
    }
}

/// The hasher's answer to a check, as this library reports it: a mismatch is `Ok(false)`,
/// not an error; an error of the hasher is a `HashFailure`.
pub fn credential_match(checked: Result<bool, bcrypt::BcryptError>) -> (outcome: Result<
    bool,
    HashFailure,
>)
    ensures
        match checked {
            Ok(matches) => outcome == Ok::<bool, HashFailure>(matches),
            Err(_) => outcome is Err,
        },
{
    match checked {
        Ok(matches) => Ok(matches),
        Err(error) => Err(HashFailure { reason: bcrypt_error_text(&error) }),
    }
}

/// Whether `hash` is a stored credential that `plaintext` matches.
pub open spec fn matches_hash(plaintext: Seq<char>, hash: Seq<char>) -> bool {
    bcrypt_verdict(plaintext, hash) == Some(true)
}

/// Hashes a credential for storage. A hash that comes back is one that `verify_password`
/// matches with the same credential.
pub fn hash_password(plaintext: &str) -> (outcome: Result<String, HashFailure>)
    ensures
        outcome matches Ok(hash) ==> matches_hash(plaintext@, hash@),
{
    hashed_credential(bcrypt_hash(plaintext))
}

/// Checks a credential against a stored hash: `Ok(true)` on a match, `Ok(false)` on a
/// mismatch, and a `HashFailure` exactly where the stored hash is refused as malformed.
pub fn verify_password(plaintext: &str, hash: &str) -> (outcome: Result<bool, HashFailure>)
    ensures
        match bcrypt_verdict(plaintext@, hash@) {
            Some(matches) => outcome == Ok::<bool, HashFailure>(matches),
            None => outcome is Err,
        },
        outcome == Ok::<bool, HashFailure>(true) <==> matches_hash(plaintext@, hash@),
{
    credential_match(bcrypt_verify(plaintext, hash))
}

} // verus!
