//! The employee entity.

use vstd::prelude::*;

verus! {

/// A row of `employees`. Identifiers are in canonical textual form,
/// instants in seconds since the Unix epoch.
#[derive(Debug, Clone, PartialEq, Eq)]
pub struct Employee {
    pub employee_id: String,
    pub identity_number: String,
    pub name: String,
    pub employee_image_uri: Option<String>,
    pub gender: String,
    pub department_id: String,
    pub created_at: i64,
    pub updated_at: i64,
}

} // verus!
