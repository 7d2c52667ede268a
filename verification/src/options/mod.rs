//! Option issues, validation helpers and rule messages.
pub mod option_issue;
pub mod options_validator;
pub mod rules;
