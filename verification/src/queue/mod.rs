//! The queue of sources: summaries of their progress.
pub mod summary;
