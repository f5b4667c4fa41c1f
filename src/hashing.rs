use vstd::prelude::*;
use crate::error::AuthError;

verus! {

/// What `bcrypt::verify` answers for a password and a stored hash: `Some(b)` when
/// the hash is well formed (`b` tells whether the password matches it), `None`
/// when the hash is malformed.
pub uninterp spec fn bcrypt_verdict(password: Seq<char>, hash: Seq<char>) -> Option<bool>;

/// The most bytes of a password that bcrypt reads.
pub const MAX_PASSWORD_BYTES: usize = 72;

/// The shape of a hash made at the default cost: `$2b$12$`, then 22 characters
/// of salt and 31 of digest, 60 characters in all.
pub open spec fn bcrypt_shaped(h: Seq<char>) -> bool {
    h.len() == 60 && h.subrange(0, 7) == "$2b$12$"@
}

/// Relies on `bcrypt::hash` with `bcrypt::DEFAULT_COST`: a fresh random salt is
/// drawn, and `bcrypt::verify` accepts the password against the hash it returns
/// (both run the same cost and salt through the same primitive). The hash is
/// written as version `2b`, the two-digit cost `12`, then 16 bytes of salt and
/// 23 of digest in bcrypt's unpadded base64. It fails only when the operating
/// system gives no randomness.
#[verifier::external_body]
fn bcrypt_hash(password: &str) -> (r: Option<String>)
    ensures
        r matches Some(h) ==> bcrypt_verdict(password@, h@) == Some(true),
        r matches Some(h) ==> bcrypt_shaped(h@),
{
    bcrypt::hash(password, bcrypt::DEFAULT_COST).ok()
}

/// Relies on `bcrypt::verify`: recomputes the hash with the cost and salt stored in
/// `hash` and compares the digests in constant time; an error for a malformed hash.
#[verifier::external_body]
fn bcrypt_verify(password: &str, hash: &str) -> (r: Option<bool>)
    ensures
        r == bcrypt_verdict(password@, hash@),
{
    bcrypt::verify(password, hash).ok()
}

/// The outcome of checking a password against a stored hash, given what the
/// hashing primitive answered.
pub open spec fn verification_outcome(verdict: Option<bool>) -> Result<bool, AuthError> {
    match verdict {
        Some(b) => Ok(b),
        None => Err(AuthError::HashingError),
    }
}

/// Hashes a password with a random salt. Every hash it returns verifies
/// against the same password and has the shape of a bcrypt hash. A password
/// longer than `MAX_PASSWORD_BYTES` bytes cannot be hashed whole, and is a
/// `HashingError`.
pub fn hash_password(password: &str) -> (r: Result<String, AuthError>)
    ensures
        r matches Ok(h) ==> verification_outcome(bcrypt_verdict(password@, h@)) == Ok::<
            bool,
            AuthError,
        >(true),
        r matches Ok(h) ==> bcrypt_shaped(h@),
        r matches Err(e) ==> e == AuthError::HashingError,
        password.len() > MAX_PASSWORD_BYTES ==> r == Err::<String, AuthError>(
            AuthError::HashingError,
        ),
{
    if password.len() > MAX_PASSWORD_BYTES {
        return Err(AuthError::HashingError);
    }
    match bcrypt_hash(password) {
        Some(h) => Ok(h),
        None => Err(AuthError::HashingError),
    }
}

/// Maps the primitive's answer to the result of a verification: a malformed
/// hash is a `HashingError`, a wrong password is `Ok(false)`.
pub fn verdict_to_result(verdict: Option<bool>) -> (r: Result<bool, AuthError>)
    ensures
        r == verification_outcome(verdict),
{
    match verdict {
        Some(b) => Ok(b),
        None => Err(AuthError::HashingError),
    }
}

/// Checks a password against a stored hash.
pub fn verify_password(password: &str, hash: &str) -> (r: Result<bool, AuthError>)
    ensures
        r == verification_outcome(bcrypt_verdict(password@, hash@)),
{
    verdict_to_result(bcrypt_verify(password, hash))
}

} // verus!
