//! Source verification: issues, status and required tags.
pub mod issue;
pub mod subdirectory;
pub mod status;
pub mod tags;
