//! The user entity and the shapes in which a profile is read.

use vstd::prelude::*;

verus! {

/// A row of `users`. `password` holds the credential hash, never the password.
#[derive(Debug, Clone, PartialEq, Eq)]
pub struct User {
    pub user_id: String,
    pub email: String,
    pub password: String,
    pub name: Option<String>,
    pub user_image_uri: Option<String>,
    pub company_name: Option<String>,
    pub company_image_uri: Option<String>,
    pub created_at: Option<i64>,
    pub updated_at: Option<i64>,
}

/// A row of `users` without its timestamps.
#[derive(Debug, Clone, PartialEq, Eq)]
pub struct UserWithoutDates {
    pub user_id: String,
    pub email: String,
    pub password: String,
    pub name: Option<String>,
    pub user_image_uri: Option<String>,
    pub company_name: Option<String>,
    pub company_image_uri: Option<String>,
}

/// The profile of a user as it is read back: no identifier, no credential.
#[derive(Debug, Clone, PartialEq, Eq)]
pub struct GetUserProfileResponse {
    pub email: String,
    pub name: Option<String>,
    pub user_image_uri: Option<String>,
    pub company_name: Option<String>,
    pub company_image_uri: Option<String>,
}

} // verus!
