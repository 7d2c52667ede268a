//! Plain models of the indexer API's torrent and torrent group responses.
use vstd::prelude::*;

verus! {

/// An artist credited on a release.
#[derive(Clone, Debug, Default)]
pub struct Artist {
    /// Artist id.
    pub id: i64,
    /// Artist name.
    pub name: String,
}

/// Music specific information of a torrent group.
#[derive(Clone, Debug, Default)]
pub struct MusicInfo {
    /// Main artists.
    pub artists: Vec<Artist>,
}

/// A torrent group: a release (album, EP, single, etc.) with all its encodings.
#[derive(Clone, Debug, Default)]
pub struct Group {
    /// Group id.
    pub id: i64,
    /// Release name.
    pub name: String,
    /// Year of first release.
    pub year: u64,
    /// Category name, such as "Music".
    pub category_name: String,
    /// Tags, such as "classical".
    pub tags: Vec<String>,
    /// Artists of the release.
    pub music_info: MusicInfo,
}

/// A torrent: one encoding of a release.
#[derive(Clone, Debug, Default)]
pub struct Torrent {
    /// Torrent id.
    pub id: i64,
    /// Media, such as "CD", "WEB" or "Vinyl".
    pub media: String,
    /// Format, such as "FLAC" or "MP3".
    pub format: String,
    /// Encoding, such as "Lossless" or "24bit Lossless".
    pub encoding: String,
    /// Edition year, 0 when unset.
    pub remaster_year: u64,
    /// Edition title.
    pub remaster_title: String,
    /// Edition record label.
    pub remaster_record_label: String,
    /// Edition catalogue number.
    pub remaster_catalogue_number: String,
    /// Whether this is a scene release.
    pub scene: bool,
    /// Whether a lossy web release was approved.
    pub lossy_web_approved: bool,
    /// Whether a lossy master release was approved.
    pub lossy_master_approved: bool,
    /// Directory name of the torrent's content, with HTML entities encoded.
    pub file_path: String,
}

/// Response to a request for one torrent.
#[derive(Clone, Debug, Default)]
pub struct TorrentResponse {
    /// The torrent's group.
    pub group: Group,
    /// The torrent.
    pub torrent: Torrent,
}

} // verus!
