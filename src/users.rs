use vstd::prelude::*;
use crate::error::{ApiError, AuthError};
use crate::hashing::{bcrypt_shaped, bcrypt_verdict, hash_password, verification_outcome};

verus! {

/// A stored user record.
#[derive(Debug, Clone)]
pub struct User {
    /// The 128-bit value of the user's UUID.
    pub id: u128,
    pub username: String,
    pub email: String,
    /// Never shown to a client.
    pub password_hash: String,
    /// Microseconds since the Unix epoch.
    pub created_at: i64,
    /// Microseconds since the Unix epoch.
    pub updated_at: i64,
}

/// A registration request.
#[derive(Debug, Clone)]
pub struct NewUser {
    pub username: String,
    pub email: String,
    pub password: String,
}

/// A partial update: each present field replaces the stored one.
#[derive(Debug, Clone)]
pub struct UpdateUser {
    pub username: Option<String>,
    pub email: Option<String>,
    pub password: Option<String>,
}

/// The fields written to the store for a new or updated user.
#[derive(Debug, Clone)]
pub struct UserFields {
    pub username: String,
    pub email: String,
    pub password_hash: String,
}

/// Whether `hash` is a bcrypt hash of `password` that verifies.
pub open spec fn hashes_to(password: Seq<char>, hash: Seq<char>) -> bool {
    &&& verification_outcome(bcrypt_verdict(password, hash)) == Ok::<bool, AuthError>(true)
    &&& bcrypt_shaped(hash)
}

/// The fields to store for a registration: the name and email as given, and a
/// salted hash of the password (never the password itself).
pub fn create_user(new_user: NewUser) -> (r: Result<UserFields, AuthError>)
    ensures
        r matches Ok(f) ==> f.username@ == new_user.username@ && f.email@ == new_user.email@
            && hashes_to(new_user.password@, f.password_hash@),
        r matches Err(e) ==> e == AuthError::HashingError,
{
    let password_hash = hash_password(new_user.password.as_str())?;
    Ok(UserFields { username: new_user.username, email: new_user.email, password_hash })
}

/// The fields to store when `update` is applied to `current`: each field given
/// replaces the stored one; a new password is stored as a fresh hash of it,
/// otherwise the stored hash is kept.
pub fn update_user(current: User, update: UpdateUser) -> (r: Result<UserFields, AuthError>)
    ensures
        r matches Ok(f) ==> {
            &&& f.username@ == match update.username {
                Some(n) => n@,
                None => current.username@,
            }
            &&& f.email@ == match update.email {
                Some(m) => m@,
                None => current.email@,
            }
            &&& match update.password {
                Some(p) => hashes_to(p@, f.password_hash@),
                None => f.password_hash@ == current.password_hash@,
            }
        },
        r matches Err(e) ==> e == AuthError::HashingError && update.password is Some,
{
    let username = match update.username {
        Some(n) => n,
        None => current.username,
    };
    let email = match update.email {
        Some(m) => m,
        None => current.email,
    };
    let password_hash = match update.password {
        Some(p) => hash_password(p.as_str())?,
        None => current.password_hash,
    };
    Ok(UserFields { username, email, password_hash })
}

/// The answer to a deletion that removed `rows_affected` records: none removed
/// means the user was not found.
pub fn delete_user_outcome(rows_affected: u64) -> (r: Result<(), ApiError>)
    ensures
        rows_affected == 0 <==> r == Err::<(), ApiError>(ApiError::NotFound),
        rows_affected > 0 <==> r is Ok,
{
    if rows_affected == 0 {
        Err(ApiError::NotFound)
    } else {
        Ok(())
    }
}

} // verus!
