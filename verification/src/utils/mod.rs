//! Shared helpers: text, identifiers, tokens, credentials and payload rules.

pub mod ident;
pub mod jwt;
pub mod password;
pub mod text;
pub mod validation;
