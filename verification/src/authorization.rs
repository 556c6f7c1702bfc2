//! Authorization: what every request passes before its payload is
//! looked at or the store is asked anything.

use crate::errors::{AppError, ErrorKind, ErrorView};
use crate::utils::ident::{fresh_uuid, parse_uuid, uuid_canonical};
use crate::utils::jwt::{
    claims_view, hs256_decoded, unix_now, verdict, verify, AuthError, Claims,
};
use crate::utils::text::{chars_of, has_prefix, slice_chars, strip_prefix};
use vstd::prelude::*;
use vstd::string::*;

verus! {

/// What a handler needs from outside the program's logic: the signing key,
/// the present moment in seconds since the Unix epoch, and an identifier
/// that no row has yet.
#[derive(Debug, Clone, PartialEq, Eq)]
pub struct Context {
    pub secret: String,
    pub now: i64,
    pub fresh_id: String,
}

impl Context {
    /// Reads the clock and draws a new identifier. Only the key is fixed by
    /// the argument: the moment and the identifier are whatever came back.
    pub fn capture(secret: &str) -> (context: Context)
        ensures
            context.secret@ == secret@,
    {
        Context { secret: String::from_str(secret), now: unix_now(), fresh_id: fresh_uuid() }
    }
}

/// The authenticated identity of a request: the user identifier that its
/// token asserts, in canonical text.
#[derive(Debug, Clone, PartialEq, Eq)]
pub struct Identity {
    pub user_id: String,
}

/// The bearer token of an authorization header: what follows `Bearer `,
/// where the header is present, begins so, and something follows.
pub open spec fn bearer_of(header: Option<Seq<char>>) -> Option<Seq<char>> {
    match header {
        Some(h) => if has_prefix(h, "Bearer "@) && h.len() > "Bearer "@.len() {
            Some(h.subrange("Bearer "@.len() as int, h.len() as int))
        } else {
            None
        },
        None => None,
    }
}

/// A refusal to authorize, with its message.
pub open spec fn unauthorized(message: Seq<char>) -> ErrorView {
    ErrorView { kind: ErrorKind::Unauthorized, message }
}

/// What authorization decides, in its strict order: the token is extracted, then
/// verified under `secret` at `now`, then its subject is read as an
/// identifier. Each step that fails refuses the request as `Unauthorized`;
/// where all succeed the result is the user identifier.
pub open spec fn admitted(header: Option<Seq<char>>, secret: Seq<char>, now: i64) -> Result<
    Seq<char>,
    ErrorView,
> {
    match bearer_of(header) {
        None => Err(unauthorized("Missing or empty token"@)),
        Some(token) => match verified_subject(verdict(hs256_decoded(token, secret), now)) {
            Err(e) => Err(e),
            Ok(subject) => identified(uuid_canonical(subject)),
        },
    }
}

/// The content of an outcome of authorization: the user identifier of the
/// identity, or the content of the refusal.
pub open spec fn admission_view(admission: Result<Identity, AppError>) -> Result<
    Seq<char>,
    ErrorView,
> {
    match admission {
        Ok(identity) => Ok(identity.user_id@),
        Err(e) => Err(e@),
    }
}

/// What the outcome of verifying a token gives: the subject of the claims,
/// or a refusal, whatever the reason the token was not accepted for.
pub open spec fn verified_subject(verified: Result<(Seq<char>, usize), AuthError>) -> Result<
    Seq<char>,
    ErrorView,
> {
    match verified {
        Ok((subject, _)) => Ok(subject),
        Err(_) => Err(unauthorized("Invalid or expired token"@)),
    }
}

/// Takes the subject out of the outcome of verifying a token: a token that
/// was not accepted is refused.
pub fn subject_of(verified: Result<Claims, AuthError>) -> (result: Result<String, AppError>)
    ensures
        match result {
            Ok(subject) => verified_subject(claims_view(verified)) == Ok::<Seq<char>, ErrorView>(
                subject@,
            ),
            Err(e) => verified_subject(claims_view(verified)) == Err::<Seq<char>, ErrorView>(e@),
        },
{
    match verified {
        Ok(claims) => Ok(claims.sub),
        Err(_) => Err(AppError::Unauthorized(String::from_str("Invalid or expired token"))),
    }
}

/// What reading the subject of a verified token as an identifier gives.
pub open spec fn identified(parsed: Option<Seq<char>>) -> Result<Seq<char>, ErrorView> {
    match parsed {
        Some(user_id) => Ok(user_id),
        None => Err(unauthorized("Invalid user ID in token"@)),
    }
}

/// Turns the subject of a verified token, read as an identifier, into the
/// identity of the request: a subject that spells none is refused.
pub fn identify(parsed: Option<String>) -> (result: Result<Identity, AppError>)
    ensures
        admission_view(result) == identified(chars_of(parsed)),
{
    match parsed {
        Some(user_id) => Ok(Identity { user_id }),
        None => Err(AppError::Unauthorized(String::from_str("Invalid user ID in token"))),
    }
}

/// Extracts the bearer token from an authorization header.
pub fn bearer_token(header: Option<&str>) -> (token: Option<String>)
    ensures
        chars_of(token) == bearer_of(slice_chars(header)),
{
    match header {
        None => None,
        Some(h) => match strip_prefix(h, "Bearer ") {
            None => None,
            Some(rest) => {
                if rest.as_str().unicode_len() == 0 {
                    None
                } else {
                    Some(rest)
                }
            },
        },
    }
}

/// Authorizes a request at the moment `now`.
pub fn authorize(header: Option<&str>, secret: &str, now: i64) -> (result: Result<
    Identity,
    AppError,
>)
    ensures
        admission_view(result) == admitted(slice_chars(header), secret@, now),
{
    let token = match bearer_token(header) {
        Some(token) => token,
        None => {
            return Err(AppError::Unauthorized(String::from_str("Missing or empty token")));
        },
    };
    let subject = match subject_of(verify(token.as_str(), secret, now)) {
        Ok(subject) => subject,
        Err(e) => {
            return Err(e);
        },
    };
    identify(parse_uuid(subject.as_str()))
}

/// Whatever is wrong with the header, the token or its subject, the caller
/// is told `Unauthorized` and nothing else: a subject that spells no
/// identifier is the caller's data, never a server error.
pub proof fn lemma_refusals_are_unauthorized(header: Option<Seq<char>>, secret: Seq<char>, now: i64)
    ensures
        admitted(header, secret, now) matches Err(e) ==> e.kind == ErrorKind::Unauthorized,
        header is None ==> admitted(header, secret, now) == Err::<Seq<char>, ErrorView>(
            unauthorized("Missing or empty token"@),
        ),
{
}

/// Where a request is admitted, its token was extracted from the header,
/// verified under the key at that moment, and its subject spelled the
/// identifier that is handed on.
pub proof fn lemma_admission_rests_on_the_token(
    header: Option<Seq<char>>,
    secret: Seq<char>,
    now: i64,
)
    requires
        admitted(header, secret, now) is Ok,
    ensures
        bearer_of(header) matches Some(token) && (verdict(hs256_decoded(token, secret), now)
            matches Ok((subject, expiry)) && now <= expiry && uuid_canonical(subject) == Some(
            admitted(header, secret, now)->Ok_0,
        )),
{
}

} // verus!
