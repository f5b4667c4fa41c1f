use vstd::prelude::*;
use crate::error::{AuthError, auth_message};
use crate::hashing::{bcrypt_verdict, verification_outcome, verify_password};
use crate::token::{TokenCodec, TOKEN_TTL_SECS, current_time, issued_token};
use crate::users::User;

verus! {

/// A login attempt: ephemeral, never stored.
#[derive(Debug, Clone)]
pub struct LoginRequest {
    pub email: String,
    pub password: String,
}

/// Who a login attempt authenticates: nobody when the email is unknown or the
/// password is wrong (the same `InvalidCredentials` either way); a malformed
/// stored hash is a `HashingError`.
pub open spec fn credential_outcome(found: Option<u128>, verified: Result<bool, AuthError>) -> Result<u128, AuthError> {
    match found {
        None => Err(AuthError::InvalidCredentials),
        Some(id) => match verified {
            Ok(true) => Ok(id),
            Ok(false) => Err(AuthError::InvalidCredentials),
            Err(e) => Err(e),
        },
    }
}

/// Decides a login attempt from the user found by email (its id, if any) and the
/// result of checking the password against that user's stored hash.
pub fn check_credentials(found: Option<u128>, verified: Result<bool, AuthError>) -> (r: Result<u128, AuthError>)
    ensures
        r == credential_outcome(found, verified),
{
    match found {
        None => Err(AuthError::InvalidCredentials),
        Some(id) => match verified {
            Ok(true) => Ok(id),
            Ok(false) => Err(AuthError::InvalidCredentials),
            Err(e) => Err(e),
        },
    }
}

/// The outcome of a login with `password` against the user found by email.
pub open spec fn login_outcome(found: Option<User>, password: Seq<char>) -> Result<u128, AuthError> {
    match found {
        None => credential_outcome(None, Ok(false)),
        Some(u) => credential_outcome(
            Some(u.id),
            verification_outcome(bcrypt_verdict(password, u.password_hash@)),
        ),
    }
}

/// Logs in at time `now`: `found` is the user that the store holds under
/// `req.email`, if any. On success the token issued for that user at `now`; a
/// time so late that the expiry would not fit is a `ClockError`.
pub fn login_at(codec: &TokenCodec, req: &LoginRequest, found: Option<User>, now: u64) -> (r: Result<String, AuthError>)
    ensures
        match login_outcome(found, req.password@) {
            Ok(id) => if now <= u64::MAX - TOKEN_TTL_SECS {
                r is Ok && r.unwrap()@ == issued_token(codec.secret(), id, now)
            } else {
                r == Err::<String, AuthError>(AuthError::ClockError)
            },
            Err(e) => r == Err::<String, AuthError>(e),
        },
{
    let user_id = check_user(req, found)?;
    codec.create_token_at(user_id, now)
}

/// Logs in at the current time: the credentials are checked first; a clock
/// before the epoch, or too far ahead, is then a `ClockError`.
pub fn login(codec: &TokenCodec, req: &LoginRequest, found: Option<User>) -> (r: Result<String, AuthError>)
    ensures
        match login_outcome(found, req.password@) {
            Ok(id) => r == Err::<String, AuthError>(AuthError::ClockError) || (r is Ok && exists|now: u64|
                now <= u64::MAX - TOKEN_TTL_SECS && r.unwrap()@ == issued_token(codec.secret(), id, now)),
            Err(e) => r == Err::<String, AuthError>(e),
        },
{
    let user_id = check_user(req, found)?;
    match current_time() {
        None => Err(AuthError::ClockError),
        Some(now) => codec.create_token_at(user_id, now),
    }
}

fn check_user(req: &LoginRequest, found: Option<User>) -> (r: Result<u128, AuthError>)
    ensures
        r == login_outcome(found, req.password@),
{
    match found {
        None => check_credentials(None, Ok(false)),
        Some(u) => {
            let verified = verify_password(req.password.as_str(), u.password_hash.as_str());
            check_credentials(Some(u.id), verified)
        },
    }
}

/// An unknown email and a wrong password for a known email fail alike: the
/// same error, hence the same message, whatever password came with the
/// unknown email.
pub proof fn lemma_login_failures_uniform(user: User, any_password: Seq<char>, wrong_password: Seq<char>)
    requires
        bcrypt_verdict(wrong_password, user.password_hash@) == Some(false),
    ensures
        login_outcome(None, any_password) == login_outcome(Some(user), wrong_password),
        login_outcome(None, any_password) == Err::<u128, AuthError>(AuthError::InvalidCredentials),
        auth_message(AuthError::InvalidCredentials) == "Invalid credentials"@,
{
}

} // verus!
