use gestion_auth::error::{ApiError, AuthError};
use gestion_auth::hashing::verify_password;
use gestion_auth::users::{create_user, delete_user_outcome, update_user, NewUser, UpdateUser, User};

fn stored() -> User {
    User {
        id: 5,
        username: "old".to_string(),
        email: "old@x.com".to_string(),
        password_hash: "$2b$04$EGdrhbKUv8Oc9vGiXX0HQOxSg445d458Muh7DAHskb6QbtCvdxcie".to_string(),
        created_at: 1,
        updated_at: 2,
    }
}

#[test]
fn new_user_password_is_stored_hashed() {
    let n = NewUser { username: "ann".to_string(), email: "ann@x.com".to_string(), password: "pw1".to_string() };
    let f = create_user(n).unwrap();
    assert_eq!(f.username, "ann");
    assert_eq!(f.email, "ann@x.com");
    assert_ne!(f.password_hash, "pw1");
    assert_eq!(verify_password("pw1", &f.password_hash), Ok(true));
}

#[test]
fn empty_update_keeps_every_field() {
    let u = UpdateUser { username: None, email: None, password: None };
    let f = update_user(stored(), u).unwrap();
    assert_eq!(f.username, "old");
    assert_eq!(f.email, "old@x.com");
    assert_eq!(f.password_hash, stored().password_hash);
}

#[test]
fn update_replaces_given_fields() {
    let u = UpdateUser { username: Some("new".to_string()), email: Some("new@x.com".to_string()), password: Some("fresh".to_string()) };
    let f = update_user(stored(), u).unwrap();
    assert_eq!(f.username, "new");
    assert_eq!(f.email, "new@x.com");
    assert_ne!(f.password_hash, stored().password_hash);
    assert_eq!(verify_password("fresh", &f.password_hash), Ok(true));
}

#[test]
fn deletion_outcomes() {
    assert_eq!(delete_user_outcome(0), Err(ApiError::NotFound));
    assert_eq!(delete_user_outcome(1), Ok(()));
    assert_eq!(delete_user_outcome(3), Ok(()));
}

#[test]
fn hashing_error_message() {
    assert_eq!(AuthError::HashingError.message(), "Password hashing failed");
}
