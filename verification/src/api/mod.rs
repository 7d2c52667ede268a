//! Indexer API models, errors and response interpretation.
pub mod api_error;
pub mod model;
