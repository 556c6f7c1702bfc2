//! The uploaded-file entity.

use vstd::prelude::*;

verus! {

/// A row of `files`: an uploaded image, never changed once created.
#[derive(Debug, Clone, PartialEq, Eq)]
pub struct File {
    pub file_id: String,
    pub user_id: String,
    pub uri: String,
    pub created_at: i64,
}

} // verus!
