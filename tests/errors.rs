use gestion_auth::error::{ApiError, AuthError};

#[test]
fn status_codes() {
    assert_eq!(ApiError::BadRequest("x".to_string()).status_code(), 400);
    assert_eq!(ApiError::NotFound.status_code(), 404);
    assert_eq!(ApiError::InternalServerError("y".to_string()).status_code(), 500);
    assert_eq!(ApiError::Unauthorized.status_code(), 401);
}

#[test]
fn bodies() {
    assert_eq!(ApiError::BadRequest("bad".to_string()).body(), "bad");
    assert_eq!(ApiError::InternalServerError("boom".to_string()).body(), "boom");
    assert_eq!(ApiError::NotFound.body(), "");
    assert_eq!(ApiError::Unauthorized.body(), "");
}

#[test]
fn auth_failures_at_the_boundary() {
    assert_eq!(ApiError::from_auth(AuthError::InvalidCredentials), ApiError::Unauthorized);
    assert_eq!(ApiError::from_auth(AuthError::InvalidTokenError), ApiError::Unauthorized);
    assert_eq!(
        ApiError::from_auth(AuthError::HashingError),
        ApiError::InternalServerError("Password hashing failed".to_string())
    );
    assert_eq!(
        ApiError::from_auth(AuthError::ConfigError),
        ApiError::InternalServerError("Token secret is not configured".to_string())
    );
}

#[test]
fn messages_hold_no_detail() {
    assert_eq!(AuthError::InvalidCredentials.message(), "Invalid credentials");
    assert_eq!(AuthError::InvalidTokenError.message(), "Invalid token");
    assert_eq!(AuthError::ClockError.message(), "Clock out of range");
}
