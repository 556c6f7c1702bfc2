//! The persisted entities, one row type each.

pub mod department;
pub mod employee;
pub mod file;
pub mod user;
