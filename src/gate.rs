use vstd::prelude::*;
use vstd::string::StringSliceAdditionalSpecFns;
use vstd::utf8::{decode_utf8, encode_utf8, encode_utf8_decode_utf8, is_char_boundary};
use crate::error::AuthError;
use crate::token::{
    Claims, TokenCodec, TOKEN_TTL_SECS, issued_token, lemma_issued_token_round_trip,
    token_outcome, verification_admits,
};

verus! {

/// The decision on one request to a protected route.
#[derive(Debug, Clone, Copy, PartialEq, Eq, Structural)]
pub enum GateDecision {
    /// The request goes on, carrying the verified claims.
    Admitted(Claims),
    /// The request is answered with 401; the cause is never told.
    Rejected,
}

/// The bytes of the scheme prefix `Bearer `.
pub open spec fn bearer_prefix() -> Seq<u8> {
    seq![66u8, 101u8, 97u8, 114u8, 101u8, 114u8, 32u8]
}

/// The token carried by an `Authorization` header value: what follows the
/// literal prefix `Bearer `; `None` when the prefix is missing or nothing
/// follows it.
pub open spec fn bearer_token(header: Seq<u8>) -> Option<Seq<char>> {
    if header.len() > 7 && header.subrange(0, 7) == bearer_prefix() && is_char_boundary(
        header,
        7,
    ) {
        Some(decode_utf8(header.subrange(7, header.len() as int)))
    } else {
        None
    }
}

/// The token a request presents, given its `Authorization` header if any.
pub open spec fn presented_token(authorization: Option<&str>) -> Option<Seq<char>> {
    match authorization {
        Some(h) => bearer_token(h.spec_bytes()),
        None => None,
    }
}

pub open spec fn decision_of(verified: Result<Claims, AuthError>) -> GateDecision {
    match verified {
        Ok(c) => GateDecision::Admitted(c),
        Err(_) => GateDecision::Rejected,
    }
}

/// The decision on a request that presents `presented`, verified at `now`.
pub open spec fn gate_decision(secret: Seq<u8>, presented: Option<Seq<char>>, now: u64) -> GateDecision {
    match presented {
        None => GateDecision::Rejected,
        Some(t) => decision_of(token_outcome(secret, t, now)),
    }
}

/// What may be decided on a request: no token is a rejection; otherwise the decision
/// follows a verification of the token, any failure being the same rejection.
pub open spec fn gate_admits(secret: Seq<u8>, presented: Option<Seq<char>>, now: u64, r: GateDecision) -> bool {
    match presented {
        None => r == GateDecision::Rejected,
        Some(t) => exists|v: Result<Claims, AuthError>|
            verification_admits(secret, t, now, v) && r == #[trigger] decision_of(v),
    }
}

/// Turns the verification of a presented token into the decision on the request.
pub fn decide(verified: Result<Claims, AuthError>) -> (r: GateDecision)
    ensures
        r == decision_of(verified),
{
    match verified {
        Ok(c) => GateDecision::Admitted(c),
        Err(_) => GateDecision::Rejected,
    }
}

/// Extracts the token from an `Authorization` header value.
pub fn bearer_token_of(header: &str) -> (r: Option<&str>)
    ensures
        match bearer_token(header.spec_bytes()) {
            None => r is None,
            Some(t) => r is Some && r.unwrap()@ == t,
        },
{
    let bytes = header.as_bytes();
    if bytes.len() <= 7 {
        return None;
    }
    if !(bytes[0] == 66u8 && bytes[1] == 101u8 && bytes[2] == 97u8 && bytes[3] == 114u8
        && bytes[4] == 101u8 && bytes[5] == 114u8 && bytes[6] == 32u8) {
        assert(header.spec_bytes().subrange(0, 7) != bearer_prefix()) by {
            if header.spec_bytes().subrange(0, 7) == bearer_prefix() {
                assert(bytes@[0] == header.spec_bytes().subrange(0, 7)[0]);
                assert(bytes@[1] == header.spec_bytes().subrange(0, 7)[1]);
                assert(bytes@[2] == header.spec_bytes().subrange(0, 7)[2]);
                assert(bytes@[3] == header.spec_bytes().subrange(0, 7)[3]);
                assert(bytes@[4] == header.spec_bytes().subrange(0, 7)[4]);
                assert(bytes@[5] == header.spec_bytes().subrange(0, 7)[5]);
                assert(bytes@[6] == header.spec_bytes().subrange(0, 7)[6]);
            }
        }
        return None;
    }
    assert(header.spec_bytes().subrange(0, 7) =~= bearer_prefix());
    if !header.is_char_boundary(7) {
        return None;
    }
    let (_, rest) = header.split_at(7);
    proof {
        encode_utf8_decode_utf8(rest@);
    }
    Some(rest)
}

impl TokenCodec {
    /// Gates a request at time `now`, given its `Authorization` header value if
    /// any: a missing header, a missing `Bearer ` prefix and every token failure
    /// all give the same `Rejected`; a valid token admits the request with its
    /// claims.
    pub fn intercept_at(&self, authorization: Option<&str>, now: u64) -> (r: GateDecision)
        ensures
            r == gate_decision(self.secret(), presented_token(authorization), now),
            gate_admits(self.secret(), presented_token(authorization), now, r),
            r matches GateDecision::Admitted(c) ==> now <= c.exp,
    {
        let token = match authorization {
            Some(h) => bearer_token_of(h),
            None => None,
        };
        match token {
            None => GateDecision::Rejected,
            Some(t) => {
                let verified = self.decode_token_at(t, now);
                let r = decide(verified);
                assert(verification_admits(self.secret(), t@, now, verified) && r == decision_of(verified));
                r
            },
        }
    }

    /// Gates a request at the current time; a clock before the epoch rejects it.
    pub fn intercept(&self, authorization: Option<&str>) -> (r: GateDecision)
        ensures
            presented_token(authorization) is None ==> r == GateDecision::Rejected,
            r == GateDecision::Rejected || exists|now: u64|
                r == gate_decision(self.secret(), presented_token(authorization), now),
    {
        match crate::token::current_time() {
            None => GateDecision::Rejected,
            Some(now) => self.intercept_at(authorization, now),
        }
    }
}

/// A request gets one and the same rejection for a request with no token (no
/// header, or no `Bearer ` prefix) and for one whose token was issued under this
/// secret but has expired.
pub proof fn lemma_gate_rejects_uniformly(
    secret: Seq<u8>,
    presented: Option<Seq<char>>,
    subject: u128,
    issued: u64,
    now: u64,
    r: GateDecision,
)
    requires
        issued <= u64::MAX - TOKEN_TTL_SECS,
        gate_admits(secret, presented, now, r),
        presented is None || (presented == Some(issued_token(secret, subject, issued)) && now
            > issued + TOKEN_TTL_SECS),
    ensures
        r == GateDecision::Rejected,
{
    if presented is Some {
        let v = choose|v: Result<Claims, AuthError>|
            verification_admits(secret, issued_token(secret, subject, issued), now, v) && r
                == #[trigger] decision_of(v);
        lemma_issued_token_round_trip(secret, subject, issued, now, v);
    }
}

} // verus!
