use gestion_auth::error::AuthError;
use gestion_auth::hashing::{hash_password, verdict_to_result, verify_password};

#[test]
fn hash_then_verify_accepts() {
    let h = hash_password("correct horse").unwrap();
    assert_ne!(h, "correct horse");
    assert_eq!(h.len(), 60);
    assert!(h.starts_with("$2b$12$"));
    assert_eq!(verify_password("correct horse", &h), Ok(true));
}

#[test]
fn other_password_does_not_verify() {
    let h = hash_password("password-one").unwrap();
    assert_eq!(verify_password("password-two", &h), Ok(false));
}

#[test]
fn two_hashes_of_one_password_differ_and_both_verify() {
    let a = hash_password("same").unwrap();
    let b = hash_password("same").unwrap();
    assert_ne!(a, b);
    assert_eq!(verify_password("same", &a), Ok(true));
    assert_eq!(verify_password("same", &b), Ok(true));
}

#[test]
fn malformed_hash_is_a_hashing_error() {
    assert_eq!(verify_password("x", "not-a-hash"), Err(AuthError::HashingError));
    assert_eq!(verify_password("x", ""), Err(AuthError::HashingError));
}

#[test]
fn known_hash_verifies() {
    // A cost-4 hash of "correctbatteryhorsestapler" made by another bcrypt implementation.
    let h = "$2b$04$EGdrhbKUv8Oc9vGiXX0HQOxSg445d458Muh7DAHskb6QbtCvdxcie";
    assert_eq!(verify_password("correctbatteryhorsestapler", h), Ok(true));
    assert_eq!(verify_password("correctbatteryhorsestaplers", h), Ok(false));
}

#[test]
fn verdicts_map_to_results() {
    assert_eq!(verdict_to_result(Some(true)), Ok(true));
    assert_eq!(verdict_to_result(Some(false)), Ok(false));
    assert_eq!(verdict_to_result(None), Err(AuthError::HashingError));
}

#[test]
fn password_longer_than_bcrypt_reads_is_refused() {
    let long = "x".repeat(73);
    assert_eq!(hash_password(&long), Err(AuthError::HashingError));
}
