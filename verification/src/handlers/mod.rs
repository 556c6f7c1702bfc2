//! The request handlers, one module per resource.
//!
//! Each handler is a conversation with the store. A function named after
//! the endpoint opens it from the raw request: it authorizes the header,
//! reads what has to be read with outside help, and hands on to its
//! companion whose name ends in `_with`, which takes those outcomes as
//! arguments and decides. An `advance` on the conversation's state then
//! takes each reply of the store.

pub mod auth;
pub mod department;
pub mod employee;
pub mod file;
pub mod user;

use crate::authorization::{admission_view, Identity};
use crate::errors::{AppError, ErrorView};
use crate::utils::validation::{rejection, validate_payload, Validate, Violation};
use vstd::prelude::*;

verus! {

/// What the entry of a handler with a payload decides, given the outcome of
/// authorization: a refusal stands, so that a caller without a valid token
/// learns nothing about the payload; then the payload is held to its rules.
pub open spec fn entered(admission: Result<Seq<char>, ErrorView>, violations: Seq<Violation>) -> Result<
    Seq<char>,
    ErrorView,
> {
    match admission {
        Err(e) => Err(e),
        Ok(user_id) => if violations.len() > 0 {
            Err(rejection(violations))
        } else {
            Ok(user_id)
        },
    }
}

/// Lets a refusal stand and validates the payload of a request that was
/// authorized.
pub fn enter<T: Validate>(admission: Result<Identity, AppError>, payload: &T) -> (result: Result<
    Identity,
    AppError,
>)
    ensures
        admission_view(result) == entered(admission_view(admission), payload.violations()),
{
    let identity = match admission {
        Ok(identity) => identity,
        Err(e) => {
            return Err(e);
        },
    };
    match validate_payload(payload) {
        Ok(_) => Ok(identity),
        Err(e) => Err(e),
    }
}

} // verus!
