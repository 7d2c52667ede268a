//! Transcode planning: wanted formats, release names and job descriptions.
pub mod release;
pub mod url_check;
pub mod jobs;
pub mod variant;
