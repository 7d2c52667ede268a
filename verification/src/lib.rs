//! Verified core of caesura: option validation, torrent metadata rules,
//! transcode planning and status reporting.
pub mod api;
pub mod batch;
pub mod dependencies;
pub mod derive;
pub mod errors;
pub mod naming;
pub mod options;
pub mod queue;
pub mod text;
pub mod torrent;
pub mod transcode;
pub mod upload;
pub mod verify;
