use vstd::prelude::*;
use crate::error::AuthError;
use vstd::arithmetic::power::pow;

verus! {

/// Lifetime of a token, in seconds: 24 hours.
pub const TOKEN_TTL_SECS: u64 = 86400;

/// The payload carried inside a token.
#[derive(Debug, Clone, Copy, PartialEq, Eq, Structural)]
pub struct Claims {
    /// The user identifier, as the 128-bit value of its UUID.
    pub sub: u128,
    /// Expiry, in seconds since the Unix epoch.
    pub exp: u64,
    /// Issuance time, in seconds since the Unix epoch.
    pub iat: u64,
}

/// What `jsonwebtoken::encode` returns for an HS256 token signed with `secret`
/// over the claims `{"sub": subject, "iat": iat, "exp": exp}`.
pub uninterp spec fn jwt_hs256(secret: Seq<u8>, subject: Seq<char>, iat: u64, exp: u64) -> Seq<char>;

/// What `jsonwebtoken::decode` yields for `token` under `secret` (HS256, the
/// signature checked, no claim checked): `None` for a rejected token, otherwise
/// the `sub`, `iat` and `exp` claims, each `None` where absent or mistyped.
pub uninterp spec fn jwt_claims(secret: Seq<u8>, token: Seq<char>) -> Option<(Option<Seq<char>>, Option<u64>, Option<u64>)>;

/// What `Uuid::parse_str` yields for `text`, as a 128-bit value.
pub uninterp spec fn uuid_value(text: Seq<char>) -> Option<u128>;

/// The lower-case hexadecimal digit of value `d`.
pub open spec fn hex_digit(d: int) -> char {
    "0123456789abcdef"@[d]
}

/// Which of the 32 hex digits stands at position `i` of the hyphenated text.
pub open spec fn uuid_digit_index(i: int) -> int {
    if i < 8 {
        i
    } else if i < 13 {
        i - 1
    } else if i < 18 {
        i - 2
    } else if i < 23 {
        i - 3
    } else {
        i - 4
    }
}

/// The `k`-th hex digit of `id`, most significant first.
pub open spec fn uuid_nibble(id: u128, k: int) -> int {
    (id as int / pow(16, (31 - k) as nat)) % 16
}

/// The hyphenated lower-case text of a UUID: 32 hex digits of its value, most
/// significant first, in groups of 8-4-4-4-12.
pub open spec fn uuid_text(id: u128) -> Seq<char> {
    Seq::new(
        36,
        |i: int|
            if i == 8 || i == 13 || i == 18 || i == 23 {
                '-'
            } else {
                hex_digit(uuid_nibble(id, uuid_digit_index(i)))
            },
    )
}

/// The view of what the decoding wrapper hands back.
pub open spec fn decoded_view(d: Option<(Option<String>, Option<u64>, Option<u64>)>) -> Option<(Option<Seq<char>>, Option<u64>, Option<u64>)> {
    match d {
        None => None,
        Some((s, i, e)) => Some(
            (
                match s {
                    Some(t) => Some(t@),
                    None => None,
                },
                i,
                e,
            ),
        ),
    }
}

/// Relies on `jsonwebtoken::encode` with the default header (HS256) and an HMAC
/// key: the claims are a JSON map of strings and integers, whose serialisation
/// cannot fail, and HMAC signing cannot fail, so the call always succeeds.
#[verifier::external_body]
fn jwt_encode(secret: &[u8], subject: &str, iat: u64, exp: u64) -> (r: Option<String>)
    ensures
        r is Some,
        r.unwrap()@ == jwt_hs256(secret@, subject@, iat, exp),
{
    let mut claims = serde_json::Map::new();
    claims.insert("sub".to_string(), serde_json::Value::from(subject));
    claims.insert("iat".to_string(), serde_json::Value::from(iat));
    claims.insert("exp".to_string(), serde_json::Value::from(exp));
    let key = jsonwebtoken::EncodingKey::from_secret(secret);
    jsonwebtoken::encode(&jsonwebtoken::Header::default(), &claims, &key).ok()
}

/// Relies on `jsonwebtoken::decode` with HS256, the signature checked and no
/// claim checked: `None` when the token is malformed or its signature does not
/// match `secret`; otherwise the `sub`, `iat` and `exp` claims, each `None`
/// where absent or of another JSON type. With no clock involved the result
/// depends on the secret and the token alone. A token without a `.` is
/// rejected (it is not split in three parts). A token that
/// `jsonwebtoken::encode` made with the same secret decodes to the claims it
/// was made from.
#[verifier::external_body]
fn jwt_decode(secret: &[u8], token: &str) -> (r: Option<(Option<String>, Option<u64>, Option<u64>)>)
    ensures
        decoded_view(r) == jwt_claims(secret@, token@),
        (forall|k: int| 0 <= k < token@.len() ==> token@[k] != '.') ==> r is None,
        forall|s: Seq<char>, i: u64, e: u64|
            token@ == #[trigger] jwt_hs256(secret@, s, i, e) ==> r is Some && r.unwrap().0 is Some
                && r.unwrap().0.unwrap()@ == s && r.unwrap().1 == Some(i) && r.unwrap().2 == Some(e),
{
    let mut validation = jsonwebtoken::Validation::new(jsonwebtoken::Algorithm::HS256);
    validation.validate_exp = false;
    validation.required_spec_claims.clear();
    let key = jsonwebtoken::DecodingKey::from_secret(secret);
    let data = jsonwebtoken::decode::<serde_json::Map<String, serde_json::Value>>(token, &key, &validation).ok()?;
    let c = data.claims;
    Some((c.get("sub").and_then(|v| v.as_str()).map(String::from), c.get("iat").and_then(|v| v.as_u64()), c.get("exp").and_then(|v| v.as_u64())))
}

/// Relies on `Uuid::from_u128` and the `Display` of `uuid::Uuid`, which writes
/// the hyphenated lower-case form.
#[verifier::external_body]
fn uuid_to_text(id: u128) -> (r: String)
    ensures
        r@ == uuid_text(id),
{
    uuid::Uuid::from_u128(id).to_string()
}

/// Relies on `Uuid::parse_str` and `Uuid::as_u128`: the text that `uuid` writes for
/// a UUID parses back to it; `None` for text that is no UUID.
#[verifier::external_body]
fn uuid_parse(text: &str) -> (r: Option<u128>)
    ensures
        r == uuid_value(text@),
        forall|id: u128| text@ == #[trigger] uuid_text(id) ==> r == Some(id),
{
    uuid::Uuid::parse_str(text).ok().map(|u| u.as_u128())
}

/// Relies on `std::time::SystemTime::elapsed` of `UNIX_EPOCH`: whole seconds
/// since the Unix epoch by the system clock, `None` when the clock reads earlier.
/// Nothing is known of the value.
#[verifier::external_body]
pub(crate) fn current_time() -> (r: Option<u64>) {
    std::time::UNIX_EPOCH.elapsed().ok().map(|d| d.as_secs())
}

/// The text of the token issued for `subject` at time `now`.
pub open spec fn issued_token(secret: Seq<u8>, subject: u128, now: u64) -> Seq<char>
    recommends
        now <= u64::MAX - TOKEN_TTL_SECS,
{
    jwt_hs256(secret, uuid_text(subject), now, (now + TOKEN_TTL_SECS) as u64)
}

/// What the claim check answers, given the decoded claims: a token missing a
/// claim, or checked after its expiry, is invalid.
pub open spec fn claims_outcome(sub: Option<u128>, iat: Option<u64>, exp: Option<u64>, now: u64) -> Result<Claims, AuthError> {
    match (sub, iat, exp) {
        (Some(s), Some(i), Some(e)) => if now <= e {
            Ok(Claims { sub: s, exp: e, iat: i })
        } else {
            Err(AuthError::InvalidTokenError)
        },
        _ => Err(AuthError::InvalidTokenError),
    }
}

/// What verifying `token` at time `now` answers: the decoded claims, with the
/// subject parsed as a UUID, checked for presence and expiry.
pub open spec fn token_outcome(secret: Seq<u8>, token: Seq<char>, now: u64) -> Result<Claims, AuthError> {
    match jwt_claims(secret, token) {
        None => Err(AuthError::InvalidTokenError),
        Some((s, i, e)) => claims_outcome(
            match s {
                Some(t) => uuid_value(t),
                None => None,
            },
            i,
            e,
            now,
        ),
    }
}

/// What verifying `token` at time `now` is known to answer: any failure is an
/// `InvalidTokenError`; accepted claims are not yet expired; a token made with
/// this secret decodes to its own claims, accepted exactly up to their expiry.
pub open spec fn verification_admits(secret: Seq<u8>, token: Seq<char>, now: u64, r: Result<Claims, AuthError>) -> bool {
    &&& (r matches Err(e) ==> e == AuthError::InvalidTokenError)
    &&& (r matches Ok(c) ==> now <= c.exp)
    &&& forall|s: u128, i: u64, e: u64|
        token == #[trigger] jwt_hs256(secret, uuid_text(s), i, e) ==> r == claims_outcome(
            Some(s),
            Some(i),
            Some(e),
            now,
        )
}

/// Decides on decoded claims at time `now`: all three must be present, and the
/// token must not have expired (`now > exp` rejects; no leeway).
pub fn check_claims(sub: Option<u128>, iat: Option<u64>, exp: Option<u64>, now: u64) -> (r: Result<Claims, AuthError>)
    ensures
        r == claims_outcome(sub, iat, exp, now),
{
    match (sub, iat, exp) {
        (Some(s), Some(i), Some(e)) => {
            if now <= e {
                Ok(Claims { sub: s, exp: e, iat: i })
            } else {
                Err(AuthError::InvalidTokenError)
            }
        },
        _ => Err(AuthError::InvalidTokenError),
    }
}

/// Decides on what decoding gave, the subject already parsed: a rejected
/// token is invalid; otherwise the claims are checked.
pub fn claims_decision(decoded: Option<(Option<u128>, Option<u64>, Option<u64>)>, now: u64) -> (r: Result<Claims, AuthError>)
    ensures
        r == match decoded {
            None => Err(AuthError::InvalidTokenError),
            Some((s, i, e)) => claims_outcome(s, i, e, now),
        },
{
    match decoded {
        None => Err(AuthError::InvalidTokenError),
        Some((s, i, e)) => check_claims(s, i, e, now),
    }
}

/// Issues and validates signed identity tokens under one secret.
pub struct TokenCodec {
    secret: Vec<u8>,
}

impl TokenCodec {
    /// The signing secret.
    pub closed spec fn secret(&self) -> Seq<u8> {
        self.secret@
    }

    /// A codec is well formed when its secret is not empty.
    pub open spec fn wf(&self) -> bool {
        self.secret().len() > 0
    }

    /// Builds a codec from the configured secret; an empty secret is a `ConfigError`.
    pub fn new(secret: Vec<u8>) -> (r: Result<TokenCodec, AuthError>)
        ensures
            secret@.len() == 0 <==> r is Err,
            r matches Err(e) ==> e == AuthError::ConfigError,
            r matches Ok(c) ==> c.wf() && c.secret() == secret@,
    {
        if secret.len() == 0 {
            Err(AuthError::ConfigError)
        } else {
            Ok(TokenCodec { secret })
        }
    }

    /// Issues the token for `subject` at time `now`, expiring `TOKEN_TTL_SECS`
    /// later; a time so late that the expiry would not fit is a `ClockError`.
    pub fn create_token_at(&self, subject: u128, now: u64) -> (r: Result<String, AuthError>)
        ensures
            now <= u64::MAX - TOKEN_TTL_SECS ==> r is Ok && r.unwrap()@ == issued_token(
                self.secret(),
                subject,
                now,
            ),
            now > u64::MAX - TOKEN_TTL_SECS ==> r == Err::<String, AuthError>(AuthError::ClockError),
    {
        if now > u64::MAX - TOKEN_TTL_SECS {
            return Err(AuthError::ClockError);
        }
        let sub = uuid_to_text(subject);
        let exp: u64 = now + TOKEN_TTL_SECS;
        Ok(jwt_encode(self.secret.as_slice(), sub.as_str(), now, exp).unwrap())
    }

    /// Issues the token for `subject` at the current time; a clock before the
    /// epoch, or too far ahead, is a `ClockError`.
    pub fn create_token(&self, subject: u128) -> (r: Result<String, AuthError>)
        ensures
            r matches Ok(t) ==> exists|now: u64|
                now <= u64::MAX - TOKEN_TTL_SECS && t@ == issued_token(self.secret(), subject, now),
            r matches Err(e) ==> e == AuthError::ClockError,
    {
        match current_time() {
            None => Err(AuthError::ClockError),
            Some(now) => self.create_token_at(subject, now),
        }
    }

    /// Verifies `token` at time `now`: signature, structure, then expiry.
    pub fn decode_token_at(&self, token: &str, now: u64) -> (r: Result<Claims, AuthError>)
        ensures
            r == token_outcome(self.secret(), token@, now),
            verification_admits(self.secret(), token@, now, r),
            (forall|k: int| 0 <= k < token@.len() ==> token@[k] != '.') ==> r == Err::<
                Claims,
                AuthError,
            >(AuthError::InvalidTokenError),
    {
        let parsed = match jwt_decode(self.secret.as_slice(), token) {
            None => None,
            Some((sub_text, iat, exp)) => {
                let sub = match sub_text {
                    Some(t) => uuid_parse(t.as_str()),
                    None => None,
                };
                Some((sub, iat, exp))
            },
        };
        claims_decision(parsed, now)
    }

    /// Verifies `token` at the current time.
    pub fn decode_token(&self, token: &str) -> (r: Result<Claims, AuthError>)
        ensures
            r == Err::<Claims, AuthError>(AuthError::ClockError) || exists|now: u64|
                r == token_outcome(self.secret(), token@, now) && verification_admits(
                    self.secret(),
                    token@,
                    now,
                    r,
                ),
    {
        match current_time() {
            None => Err(AuthError::ClockError),
            Some(now) => self.decode_token_at(token, now),
        }
    }
}

/// A token verified under the secret it was issued with names the subject it
/// was issued for, with `exp = iat + TOKEN_TTL_SECS`, as long as its lifetime
/// has not elapsed; once `now` is past the expiry it is rejected as invalid.
pub proof fn lemma_issued_token_round_trip(
    secret: Seq<u8>,
    subject: u128,
    issued: u64,
    now: u64,
    r: Result<Claims, AuthError>,
)
    requires
        issued <= u64::MAX - TOKEN_TTL_SECS,
        verification_admits(secret, issued_token(secret, subject, issued), now, r),
    ensures
        now <= issued + TOKEN_TTL_SECS ==> r == Ok::<Claims, AuthError>(
            Claims { sub: subject, exp: (issued + TOKEN_TTL_SECS) as u64, iat: issued },
        ),
        now > issued + TOKEN_TTL_SECS ==> r == Err::<Claims, AuthError>(AuthError::InvalidTokenError),
{
    let e = (issued + TOKEN_TTL_SECS) as u64;
    assert(issued_token(secret, subject, issued) == jwt_hs256(secret, uuid_text(subject), issued, e));
}

} // verus!
