//! The core of a staff-records service: who may call, what a payload must
//! look like, which statement goes to the store, and what each outcome
//! becomes on the way back.
//!
//! The crate does no input or output. Requests come in as plain values, the
//! store is asked through `store::Step`, and answers go out as plain values.

pub mod authorization;
pub mod errors;
pub mod handlers;
pub mod models;
pub mod query;
pub mod store;
pub mod utils;
