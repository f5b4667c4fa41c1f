use gestion_auth::error::AuthError;
use gestion_auth::gate::{bearer_token_of, decide, GateDecision};
use gestion_auth::token::{Claims, TokenCodec};

const SUBJECT: u128 = 0x0123_4567_89ab_cdef_0123_4567_89ab_cdef;
const T0: u64 = 1_700_000_000;

fn codec() -> TokenCodec {
    TokenCodec::new(b"gate-secret".to_vec()).unwrap()
}

#[test]
fn bearer_prefix_is_stripped() {
    assert_eq!(bearer_token_of("Bearer abc.def"), Some("abc.def"));
    assert_eq!(bearer_token_of("Bearer "), None);
    assert_eq!(bearer_token_of("Bearer x"), Some("x"));
    assert_eq!(bearer_token_of("bearer abc"), None);
    assert_eq!(bearer_token_of("Bearerabc"), None);
    assert_eq!(bearer_token_of("Basic abc"), None);
    assert_eq!(bearer_token_of(""), None);
}

#[test]
fn valid_token_is_admitted_with_its_claims() {
    let c = codec();
    let t = c.create_token_at(SUBJECT, T0).unwrap();
    let header = format!("Bearer {}", t);
    let d = c.intercept_at(Some(&header), T0 + 5);
    assert_eq!(d, GateDecision::Admitted(Claims { sub: SUBJECT, iat: T0, exp: T0 + 86400 }));
}

#[test]
fn gate_rejects_every_failure_alike() {
    let c = codec();
    let t = c.create_token_at(SUBJECT, T0).unwrap();
    let missing = c.intercept_at(None, T0);
    let no_prefix = c.intercept_at(Some(&t), T0);
    let wrong_scheme = c.intercept_at(Some(&format!("Token {}", t)), T0);
    let expired = c.intercept_at(Some(&format!("Bearer {}", t)), T0 + 86401);
    let mut tampered = t.clone();
    let last = tampered.pop().unwrap();
    tampered.push(if last == 'A' { 'B' } else { 'A' });
    let forged = c.intercept_at(Some(&format!("Bearer {}", tampered)), T0);
    let empty = c.intercept_at(Some("Bearer "), T0);
    let other_secret = TokenCodec::new(b"another".to_vec()).unwrap().create_token_at(SUBJECT, T0).unwrap();
    let foreign = c.intercept_at(Some(&format!("Bearer {}", other_secret)), T0);
    for d in [missing, no_prefix, wrong_scheme, expired, forged, empty, foreign] {
        assert_eq!(d, GateDecision::Rejected);
    }
}

#[test]
fn gate_on_the_clock_admits_a_fresh_token() {
    let c = codec();
    let t = c.create_token(SUBJECT).unwrap();
    let d = c.intercept(Some(&format!("Bearer {}", t)));
    assert!(matches!(d, GateDecision::Admitted(cl) if cl.sub == SUBJECT));
    assert_eq!(c.intercept(None), GateDecision::Rejected);
}

#[test]
fn decisions_follow_verification() {
    let cl = Claims { sub: 1, iat: 2, exp: 3 };
    assert_eq!(decide(Ok(cl)), GateDecision::Admitted(cl));
    assert_eq!(decide(Err(AuthError::InvalidTokenError)), GateDecision::Rejected);
}

#[test]
fn same_request_gets_the_same_decision() {
    let c = codec();
    let t = c.create_token_at(SUBJECT, T0).unwrap();
    let header = format!("Bearer {}", t);
    assert_eq!(c.intercept_at(Some(&header), T0 + 1), c.intercept_at(Some(&header), T0 + 2));
}
