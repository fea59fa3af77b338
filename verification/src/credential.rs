//! One-way credential hashing and verification.
//!
//! A credential is an opaque, fixed-format hash string derived from a raw
//! password, a random per-credential salt and a fixed work factor. It is
//! never reversed and never compared byte-for-byte: verification re-derives
//! the hash under the credential's embedded salt and compares in constant
//! time. The salt is drawn fresh for every hash, so two hashes of one
//! password differ; yet each verifies against the password it was made from,
//! because the salt is embedded in the credential itself.

use vstd::prelude::*;

verus! {

/// How credential operations fail.
#[derive(Debug, Clone, Copy, PartialEq, Eq, Structural)]
pub enum CredentialError {
    /// An underlying cryptographic or allocation fault during hashing, or a
    /// stored credential that is not a hashing-format string.
    HashingFailure,
}

/// Whether a string is a well-formed bcrypt credential: it parses into the
/// bcrypt format (60 characters, version tag, salt and hash parts) and
/// carries a usable cost. A function of the string alone.
pub uninterp spec fn bcrypt_wellformed(credential: Seq<char>) -> bool;

/// Whether re-deriving the hash from `password` under the salt and cost
/// embedded in `credential` reproduces the credential's hash part: bcrypt's
/// password match, a function of the two strings alone.
pub uninterp spec fn bcrypt_matches(password: Seq<char>, credential: Seq<char>) -> bool;

/// Relies on bcrypt::hash with the crate's default cost: the salt comes from
/// OS randomness, so no relation between two hashes of one password can be
/// stated; every success is the 60-character bcrypt-format string the crate
/// documents, which parses back under the crate's own splitter
/// (`bcrypt_wellformed`) and whose re-derivation from the same password
/// reproduces it (`bcrypt_matches`: hashing and verification truncate the
/// password at 72 bytes alike).
#[verifier::external_body]
fn bcrypt_hash(password: &str) -> (r: Result<String, ()>)
    ensures
        r matches Ok(h) ==> h@.len() == 60 && bcrypt_wellformed(h@) && bcrypt_matches(
            password@,
            h@,
        ),
{
    bcrypt::hash(password, bcrypt::DEFAULT_COST).map_err(|_| ())
}

/// Relies on bcrypt::verify: it errors exactly on a credential that does not
/// parse as the bcrypt format with a usable cost (`bcrypt_wellformed`), and
/// otherwise re-derives the hash under the credential's embedded salt and
/// cost and answers, in constant time, whether it matches
/// (`bcrypt_matches`); no randomness and no clock enter this path.
#[verifier::external_body]
fn bcrypt_verify(password: &str, credential: &str) -> (r: Result<bool, ()>)
    ensures
        r is Ok <==> bcrypt_wellformed(credential@),
        r matches Ok(b) ==> b == bcrypt_matches(password@, credential@),
{
    bcrypt::verify(password, credential).map_err(|_| ())
}

/// What verification decides for a password and a stored credential: an
/// error on a credential that is not a hashing-format string, the match
/// answer otherwise.
pub open spec fn spec_verify_password(password: Seq<char>, credential: Seq<char>) -> Result<
    bool,
    CredentialError,
> {
    if bcrypt_wellformed(credential) {
        Ok(bcrypt_matches(password, credential))
    } else {
        Err(CredentialError::HashingFailure)
    }
}

/// Hash a raw password under the fixed default work factor. Every success
/// is a fresh, salted, 60-character credential string that matches the
/// password it was hashed from.
pub fn hash_password(password: &str) -> (r: Result<String, CredentialError>)
    ensures
        r matches Ok(h) ==> h@.len() == 60 && bcrypt_wellformed(h@) && bcrypt_matches(
            password@,
            h@,
        ),
        r matches Err(e) ==> e == CredentialError::HashingFailure,
{
    match bcrypt_hash(password) {
        Ok(h) => Ok(h),
        Err(_) => Err(CredentialError::HashingFailure),
    }
}

/// Whether a raw password matches a stored credential. A non-matching
/// password answers `false`, never an error; the error comes exactly on a
/// structurally malformed credential.
pub fn verify_password(password: &str, credential: &str) -> (r: Result<bool, CredentialError>)
    ensures
        r == spec_verify_password(password@, credential@),
{
    match bcrypt_verify(password, credential) {
        Ok(b) => Ok(b),
        Err(_) => Err(CredentialError::HashingFailure),
    }
}

/// Verifying a password against a credential hashed from that same password
/// answers true: hashing yields a well-formed credential that matches its
/// own password, and verification answers exactly that match.
pub proof fn lemma_hash_round_trip(password: Seq<char>, credential: Seq<char>)
    requires
        bcrypt_wellformed(credential),
        bcrypt_matches(password, credential),
    ensures
        spec_verify_password(password, credential) == Ok::<bool, CredentialError>(true),
{
}

} // verus!
