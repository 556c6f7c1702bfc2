//! The department entity.

use vstd::prelude::*;

verus! {

/// A row of `departments`. Identifiers are in canonical textual form,
/// instants in seconds since the Unix epoch.
#[derive(Debug, Clone, PartialEq, Eq)]
pub struct Department {
    pub department_id: String,
    pub name: String,
    pub created_at: i64,
    pub updated_at: i64,
}

} // verus!
