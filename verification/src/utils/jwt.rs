//! The identity token codec: issues and verifies signed, time-limited
//! assertions that bind a request to a user identifier.

use jsonwebtoken::{decode, encode, Algorithm, DecodingKey, EncodingKey, Header, Validation};
use jsonwebtoken::errors::ErrorKind;
use serde_json::Value;
use vstd::prelude::*;
use vstd::string::*;

verus! {

/// How long an issued token stays valid: seven days, in seconds.
pub const TOKEN_TTL_SECONDS: u64 = 604800;

/// What a token asserts.
#[derive(Debug, PartialEq, Eq)]
pub struct Claims {
    /// The identifier of the user the token speaks for.
    pub sub: String,
    /// The last second, counted from the Unix epoch, at which the token is valid.
    pub exp: usize,
}

/// Why a token was not accepted.
#[derive(Clone, Copy, Debug, PartialEq, Eq, Structural)]
pub enum AuthError {
    /// The token could not be parsed or decoded, or lacks a claim.
    Malformed,
    /// The token's expiry lies before the present.
    Expired,
    /// The signature does not match the token under the signing key.
    SignatureInvalid,
}

/// Why no token was issued.
#[derive(Clone, Copy, Debug, PartialEq, Eq, Structural)]
pub enum IssueError {
    /// The expiry does not fit the claim.
    ExpiryOutOfRange,
    /// The signer produced no token.
    SigningFailed,
}

/// The reason the decoder gives for refusing a token.
#[derive(Clone, Copy, Debug, PartialEq, Eq, Structural)]
pub enum DecodeFailure {
    /// The signature does not match.
    InvalidSignature,
    /// The decoder found the expiry in the past.
    ExpiredSignature,
    /// Any other reason: the shape, the encoding, the algorithm, a claim.
    Other,
}

/// The two claims as the decoder found them: each is `None` where the token
/// does not hold it with the expected type.
#[derive(Debug, PartialEq, Eq)]
pub struct RawClaims {
    pub sub: Option<String>,
    pub exp: Option<u64>,
}

/// The mathematical content of a decoder's answer.
pub enum Decoded {
    Claims { sub: Option<Seq<char>>, exp: Option<u64> },
    Refused(DecodeFailure),
}

/// The content of a decoder's answer.
pub open spec fn decoded_view(answer: Result<RawClaims, DecodeFailure>) -> Decoded {
    match answer {
        Ok(raw) => Decoded::Claims {
            sub: match raw.sub {
                Some(s) => Some(s@),
                None => None,
            },
            exp: raw.exp,
        },
        Err(failure) => Decoded::Refused(failure),
    }
}

/// The compact HS256 token that carries `subject` and `expiry` under the key
/// `secret`, or `None` where the signer gives none.
pub uninterp spec fn hs256_token(subject: Seq<char>, expiry: u64, secret: Seq<char>) -> Option<
    Seq<char>,
>;

/// What decoding `token` as HS256 under the key `secret` gives, without any
/// look at the clock.
pub uninterp spec fn hs256_decoded(token: Seq<char>, secret: Seq<char>) -> Decoded;

/// The present moment in seconds since the Unix epoch, read with
/// `chrono::Utc::now`. Nothing is claimed of the value.
#[verifier::external_body]
pub(crate) fn unix_now() -> i64 {
    chrono::Utc::now().timestamp()
}

/// Signs the claims `sub` and `exp` with `jsonwebtoken::encode`, under the
/// default header (HS256) and the key `secret`. The contract only names the
/// result: the same claims and key give the same token.
#[verifier::external_body]
fn sign_hs256(subject: &str, expiry: u64, secret: &str) -> (token: Option<String>)
    ensures
        match token {
            Some(t) => hs256_token(subject@, expiry, secret@) == Some(t@),
            None => hs256_token(subject@, expiry, secret@) is None,
        },
{
    let mut claims = serde_json::Map::new();
    claims.insert("sub".to_string(), Value::from(subject));
    claims.insert("exp".to_string(), Value::from(expiry));
    encode(&Header::default(), &claims, &EncodingKey::from_secret(secret.as_bytes())).ok()
}

/// Decodes `token` with `jsonwebtoken::decode` as HS256 under the key
/// `secret`, with the decoder's own expiry check switched off so that it
/// never reads the clock, and takes the claims `sub` and `exp` out of the
/// payload. The contract only names the result: the same token and key give
/// the same answer.
#[verifier::external_body]
fn decode_hs256(token: &str, secret: &str) -> (answer: Result<RawClaims, DecodeFailure>)
    ensures
        decoded_view(answer) == hs256_decoded(token@, secret@),
{
    let mut rules = Validation::new(Algorithm::HS256);
    rules.validate_exp = false;
    match decode::<Value>(token, &DecodingKey::from_secret(secret.as_bytes()), &rules) {
        Ok(data) => Ok(RawClaims {
            sub: data.claims["sub"].as_str().map(str::to_string),
            exp: data.claims["exp"].as_u64(),
        }),
        Err(e) => Err(match e.kind() {
            ErrorKind::InvalidSignature => DecodeFailure::InvalidSignature,
            ErrorKind::ExpiredSignature => DecodeFailure::ExpiredSignature,
            _ => DecodeFailure::Other,
        }),
    }
}

/// The expiry of a token issued at `now` for `ttl` seconds, where it fits the claim.
pub open spec fn expiry_of(now: i64, ttl: u64) -> Option<u64> {
    if 0 <= now + ttl <= usize::MAX && now + ttl <= u64::MAX {
        Some((now + ttl) as u64)
    } else {
        None
    }
}

/// Computes `expiry_of`.
pub fn token_expiry(now: i64, ttl: u64) -> (expiry: Option<u64>)
    ensures
        expiry == expiry_of(now, ttl),
{
    let sum: i128 = now as i128 + ttl as i128;
    if sum < 0 || sum > usize::MAX as i128 || sum > u64::MAX as i128 {
        None
    } else {
        Some(sum as u64)
    }
}

/// What issuing gives: the signed token for `subject` that expires `ttl`
/// seconds after `now`.
pub open spec fn issued(subject: Seq<char>, ttl: u64, now: i64, secret: Seq<char>) -> Result<
    Seq<char>,
    IssueError,
> {
    match expiry_of(now, ttl) {
        None => Err(IssueError::ExpiryOutOfRange),
        Some(expiry) => match hs256_token(subject, expiry, secret) {
            Some(token) => Ok(token),
            None => Err(IssueError::SigningFailed),
        },
    }
}

/// The content of the outcome of issuing a token.
pub open spec fn token_view(result: Result<String, IssueError>) -> Result<Seq<char>, IssueError> {
    match result {
        Ok(token) => Ok(token@),
        Err(e) => Err(e),
    }
}

/// Issues a token for `subject` that expires `ttl` seconds after `now`,
/// signed with `secret`.
pub fn issue(subject: &str, ttl: u64, now: i64, secret: &str) -> (result: Result<
    String,
    IssueError,
>)
    ensures
        token_view(result) == issued(subject@, ttl, now, secret@),
{
    match token_expiry(now, ttl) {
        None => Err(IssueError::ExpiryOutOfRange),
        Some(expiry) => match sign_hs256(subject, expiry, secret) {
            Some(token) => Ok(token),
            None => Err(IssueError::SigningFailed),
        },
    }
}

/// Issues a token for `user_id`, valid for seven days from the present
/// moment: the outcome is that of `issue` at some reading of the clock.
pub fn generate_token(user_id: &str, secret: &str) -> (result: Result<String, IssueError>)
    ensures
        exists|now: i64| token_view(result) == issued(user_id@, TOKEN_TTL_SECONDS, now, secret@),
{
    let now = unix_now();
    let result = issue(user_id, TOKEN_TTL_SECONDS, now, secret);
    assert(token_view(result) == issued(user_id@, TOKEN_TTL_SECONDS, now, secret@));
    result
}

/// What a decoder's answer amounts to at the moment `now`: a refused token
/// is `SignatureInvalid` where the signature did not match, `Expired` where
/// the decoder judged it so, and `Malformed` otherwise; claims that are not
/// both present are `Malformed`; claims whose expiry lies before `now` are
/// `Expired`; all others are accepted.
pub open spec fn verdict(answer: Decoded, now: i64) -> Result<(Seq<char>, usize), AuthError> {
    match answer {
        Decoded::Refused(DecodeFailure::InvalidSignature) => Err(AuthError::SignatureInvalid),
        Decoded::Refused(DecodeFailure::ExpiredSignature) => Err(AuthError::Expired),
        Decoded::Refused(_) => Err(AuthError::Malformed),
        Decoded::Claims { sub: Some(sub), exp: Some(exp) } => if exp > usize::MAX {
            Err(AuthError::Malformed)
        } else if now > exp {
            Err(AuthError::Expired)
        } else {
            Ok((sub, exp as usize))
        },
        Decoded::Claims { .. } => Err(AuthError::Malformed),
    }
}

/// The content of the outcome of verifying a token: the subject and the
/// expiry of the claims, or the reason for the refusal.
pub open spec fn claims_view(result: Result<Claims, AuthError>) -> Result<
    (Seq<char>, usize),
    AuthError,
> {
    match result {
        Ok(claims) => Ok((claims.sub@, claims.exp)),
        Err(e) => Err(e),
    }
}

/// Judges a decoder's answer at the moment `now`.
pub fn check_claims(answer: Result<RawClaims, DecodeFailure>, now: i64) -> (result: Result<
    Claims,
    AuthError,
>)
    ensures
        claims_view(result) == verdict(decoded_view(answer), now),
{
    match answer {
        Err(DecodeFailure::InvalidSignature) => Err(AuthError::SignatureInvalid),
        Err(DecodeFailure::ExpiredSignature) => Err(AuthError::Expired),
        Err(_) => Err(AuthError::Malformed),
        Ok(raw) => match (raw.sub, raw.exp) {
            (Some(sub), Some(exp)) => {
                if exp > usize::MAX as u64 {
                    Err(AuthError::Malformed)
                } else if now >= 0 && now as u64 > exp {
                    Err(AuthError::Expired)
                } else {
                    Ok(Claims { sub, exp: exp as usize })
                }
            },
            _ => Err(AuthError::Malformed),
        },
    }
}

/// Verifies `token` under `secret` at the moment `now`.
pub fn verify(token: &str, secret: &str, now: i64) -> (result: Result<Claims, AuthError>)
    ensures
        claims_view(result) == verdict(hs256_decoded(token@, secret@), now),
{
    check_claims(decode_hs256(token, secret), now)
}

/// Verifies `token` under `secret` at the present moment: the outcome is
/// that of `verify` at some reading of the clock.
pub fn validate_token(token: &str, secret: &str) -> (result: Result<Claims, AuthError>)
    ensures
        exists|now: i64| claims_view(result) == verdict(hs256_decoded(token@, secret@), now),
{
    let now = unix_now();
    let result = verify(token, secret, now);
    assert(claims_view(result) == verdict(hs256_decoded(token@, secret@), now));
    result
}

} // verus!
