//! Credentials: hashing a password and checking one against a stored hash.

use argon2::Argon2;
use argon2::password_hash::{PasswordHash, PasswordHasher, PasswordVerifier, SaltString};
use vstd::prelude::*;

verus! {

/// How a password fared against a stored hash.
#[derive(Clone, Copy, Debug, PartialEq, Eq, Structural)]
pub enum PasswordCheck {
    /// The password is the one that was hashed.
    Matches,
    /// The password is another, or the hash asks for what the hasher cannot do.
    Differs,
    /// The stored text is no hash in the PHC format.
    UnreadableHash,
}

/// How `password` fares against the stored `hash`, as Argon2 with its
/// default parameters judges it.
pub uninterp spec fn password_checked(password: Seq<char>, hash: Seq<char>) -> PasswordCheck;

/// Hashes `password` with `Argon2::default().hash_password` under a salt
/// drawn by `SaltString::generate` from the thread's random generator, and
/// returns the hash in the PHC format, or `None` where the hasher fails.
/// Nothing is claimed of the value: it differs from call to call.
#[verifier::external_body]
pub(crate) fn hash_password(password: &str) -> Option<String> {
    let salt = SaltString::generate(&mut rand::thread_rng());
    match Argon2::default().hash_password(password.as_bytes(), &salt) {
        Ok(hash) => Some(hash.to_string()),
        Err(_) => None,
    }
}

/// Parses `hash` with `PasswordHash::new` and checks `password` against it
/// with `Argon2::default().verify_password`. The contract only names the
/// answer: the same password and hash give the same answer.
#[verifier::external_body]
pub(crate) fn check_password(password: &str, hash: &str) -> (check: PasswordCheck)
    ensures
        check == password_checked(password@, hash@),
{
    match PasswordHash::new(hash) {
        Err(_) => PasswordCheck::UnreadableHash,
        Ok(parsed) => match Argon2::default().verify_password(password.as_bytes(), &parsed) {
            Ok(_) => PasswordCheck::Matches,
            Err(_) => PasswordCheck::Differs,
        },
    }
}

} // verus!
