use vstd::prelude::*;

verus! {

/// Typed failures of the authentication core.
#[derive(Debug, Clone, Copy, PartialEq, Eq, Structural)]
pub enum AuthError {
    /// No signing secret was configured.
    ConfigError,
    /// A stored password hash is malformed, or the hashing primitive failed.
    HashingError,
    /// Unknown email or wrong password; the two are never told apart.
    InvalidCredentials,
    /// Bad signature, malformed token, or expired token.
    InvalidTokenError,
    /// The system clock is too far in the future to stamp an expiry.
    ClockError,
}

pub open spec fn auth_message(e: AuthError) -> Seq<char> {
    match e {
        AuthError::ConfigError => "Token secret is not configured"@,
        AuthError::HashingError => "Password hashing failed"@,
        AuthError::InvalidCredentials => "Invalid credentials"@,
        AuthError::InvalidTokenError => "Invalid token"@,
        AuthError::ClockError => "Clock out of range"@,
    }
}

impl AuthError {
    /// The message shown for this error; it never carries a secret, a password or a token.
    pub fn message(&self) -> (r: String)
        ensures
            r@ == auth_message(*self),
    {
        match self {
            AuthError::ConfigError => String::from_str("Token secret is not configured"),
            AuthError::HashingError => String::from_str("Password hashing failed"),
            AuthError::InvalidCredentials => String::from_str("Invalid credentials"),
            AuthError::InvalidTokenError => String::from_str("Invalid token"),
            AuthError::ClockError => String::from_str("Clock out of range"),
        }
    }
}

/// Error answered at the HTTP boundary.
#[derive(Debug, Clone, PartialEq, Eq)]
pub enum ApiError {
    BadRequest(String),
    NotFound,
    InternalServerError(String),
    Unauthorized,
}

pub open spec fn api_status(e: ApiError) -> u16 {
    match e {
        ApiError::BadRequest(_) => 400,
        ApiError::NotFound => 404,
        ApiError::InternalServerError(_) => 500,
        ApiError::Unauthorized => 401,
    }
}

impl ApiError {
    /// The HTTP status code of this error.
    pub fn status_code(&self) -> (r: u16)
        ensures
            r == api_status(*self),
    {
        match self {
            ApiError::BadRequest(_) => 400,
            ApiError::NotFound => 404,
            ApiError::InternalServerError(_) => 500,
            ApiError::Unauthorized => 401,
        }
    }

    /// The response body of this error: the message for 400 and 500, empty otherwise.
    pub fn body(&self) -> (r: String)
        ensures
            r@ == match *self {
                ApiError::BadRequest(m) => m@,
                ApiError::InternalServerError(m) => m@,
                _ => Seq::<char>::empty(),
            },
    {
        match self {
            ApiError::BadRequest(m) => m.clone(),
            ApiError::InternalServerError(m) => m.clone(),
            _ => String::new(),
        }
    }

    /// How an authentication failure is answered: every credential and token
    /// failure collapses to one opaque 401; hashing, configuration and clock
    /// failures are internal errors.
    pub fn from_auth(e: AuthError) -> (r: ApiError)
        ensures
            match e {
                AuthError::InvalidCredentials | AuthError::InvalidTokenError => r
                    == ApiError::Unauthorized,
                _ => r matches ApiError::InternalServerError(m) && m@ == auth_message(e),
            },
    {
        match e {
            AuthError::InvalidCredentials => ApiError::Unauthorized,
            AuthError::InvalidTokenError => ApiError::Unauthorized,
            _ => ApiError::InternalServerError(e.message()),
        }
    }
}

} // verus!
