//! Torrent metadata rules: piece length, source tags, duplication and content verification.
pub mod indexer;
pub mod metadata;
pub mod piece_length;
pub mod actions;
pub mod creator;
pub mod torrent_verifier;
