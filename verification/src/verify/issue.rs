//! Problems found while verifying a source.
use vstd::prelude::*;

verus! {

/// A reason a source fails verification.
#[derive(Clone, Debug)]
pub enum SourceIssue {
    /// A piece of the content does not match the torrent's hash.
    HashCheck {
        /// Index of the first piece that does not match.
        piece_index: usize,
    },
    /// The content holds more data than the torrent describes.
    ExcessContent,
    /// A file of the torrent is missing from the content directory.
    MissingFile {
        /// Path of the missing file.
        path: String,
    },
    /// A file of the torrent could not be opened.
    OpenFile {
        /// Path of the file.
        path: String,
        /// Why it could not be opened.
        error: String,
    },
    /// The source id could not be determined.
    IdError {
        /// Details of the failure.
        details: String,
    },
    /// All FLAC files share an unnecessary sub directory.
    UnnecessaryDirectory {
        /// The shared sub directory.
        prefix: String,
    },
}

} // verus!
