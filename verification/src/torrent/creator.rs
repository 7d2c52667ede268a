//! Settings for creating `.torrent` files and the plan for duplicating one
//! for another tracker.
use crate::text::{owned, spec_uppercase, to_uppercase};
use crate::torrent::indexer::{spec_indexer_from, Indexer};
use crate::torrent::metadata::{
    insert, keys_distinct, lookup, spec_first_announce, spec_is_source_equal, torrent_wf,
    BencodeValue, Dictionary, TorrentInfo,
};
use crate::torrent::piece_length::{num_threads, piece_length, spec_piece_length, MAX_THREADS};
use vstd::prelude::*;
use vstd::string::StringExecFns;

verus! {

/// Name of the application, as written in the `created by` field.
pub const APP_NAME: &'static str = "caesura";

/// Everything needed to build a `.torrent` file for a content directory.
#[derive(Debug)]
pub struct TorrentSettings {
    /// Piece size in bytes.
    pub piece_length: i64,
    /// Number of threads used to hash pieces.
    pub num_threads: usize,
    /// Tracker announce URL.
    pub announce: String,
    /// Whether the torrent is marked private.
    pub private: bool,
    /// Value of the top-level `created by` field.
    pub created_by: String,
    /// Value of the top-level `creation date` field.
    pub creation_date: i64,
    /// Value of the `source` field of the info dictionary.
    pub source: String,
    /// Name overriding the content directory's name, if any.
    pub name: Option<String>,
}

/// What to do to duplicate a `.torrent` file for a tracker.
#[derive(Debug)]
pub enum DuplicatePlan {
    /// The torrent already names the source and announce URL: copy the file.
    Copy,
    /// Write this rewritten torrent.
    Rewrite(TorrentInfo),
}

/// The source tag written for a source: the source upper-cased.
pub open spec fn spec_source_tag(source: Seq<char>) -> Seq<char> {
    spec_uppercase(source)
}

/// Whether a torrent may be copied unchanged for `source` and `announce_url`:
/// its source names the same indexer, and its first announce URL is the one
/// wanted.
pub open spec fn spec_copy_suffices(t: TorrentInfo, announce_url: Seq<char>, source: Seq<char>) -> bool {
    spec_is_source_equal(t, spec_indexer_from(source)) && spec_first_announce(t) == Some(announce_url)
}

/// Whether `after` is `before` retargeted to `announce_url` with source tag `tag`:
/// the announce URL is replaced, the announce list removed, the `source`
/// entry of the info dictionary set to `tag`, and everything else kept.
pub open spec fn is_retargeted(before: TorrentInfo, after: TorrentInfo, announce_url: Seq<char>, tag: Seq<char>) -> bool {
    &&& after.announce matches Some(a) && a@ == announce_url
    &&& after.announce_list is None
    &&& after.length == before.length
    &&& after.name == before.name
    &&& after.piece_length == before.piece_length
    &&& after.pieces == before.pieces
    &&& after.files == before.files
    &&& after.extra_fields == before.extra_fields
    &&& after.extra_info_fields matches Some(entries) && {
        &&& keys_distinct(entries@)
        &&& lookup(entries@, "source"@) matches Some(BencodeValue::String(s)) && s@ == tag
        &&& forall|k: Seq<char>|
            k != "source"@ ==> lookup(entries@, k) == (match before.extra_info_fields {
                Some(old_entries) => lookup(old_entries@, k),
                None => None,
            })
    }
}

/// Whether `s` are the settings for `content_size` bytes of content, the
/// announce URL, source, name and version given, with any thread count
/// from one to [`MAX_THREADS`].
pub open spec fn settings_for(
    s: TorrentSettings,
    content_size: u64,
    announce_url: Seq<char>,
    source: Seq<char>,
    torrent_name: Option<Seq<char>>,
    version: Seq<char>,
) -> bool {
    &&& s.piece_length as int == spec_piece_length(content_size as nat)
    &&& 1 <= s.num_threads <= MAX_THREADS
    &&& s.announce@ == announce_url
    &&& s.private
    &&& s.created_by@ == APP_NAME@ + " "@ + version
    &&& s.creation_date == 0
    &&& s.source@ == spec_source_tag(source)
    &&& match (s.name, torrent_name) {
        (Some(n), Some(m)) => n@ == m,
        (None, None) => true,
        _ => false,
    }
}

/// Settings do not depend on when they are made: two settings for the
/// same content size, announce URL, source, name and version agree in
/// everything but the thread count, the creation date being always 0.
pub proof fn settings_are_reproducible(
    a: TorrentSettings,
    b: TorrentSettings,
    content_size: u64,
    announce_url: Seq<char>,
    source: Seq<char>,
    torrent_name: Option<Seq<char>>,
    version: Seq<char>,
)
    requires
        settings_for(a, content_size, announce_url, source, torrent_name, version),
        settings_for(b, content_size, announce_url, source, torrent_name, version),
    ensures
        a.piece_length == b.piece_length,
        a.announce@ == b.announce@,
        a.private == b.private,
        a.created_by@ == b.created_by@,
        a.creation_date == b.creation_date == 0,
        a.source@ == b.source@,
        a.name is Some <==> b.name is Some,
        a.name matches Some(n) ==> b.name matches Some(m) && n@ == m@,
{
}

impl TorrentSettings {
    /// Settings for a torrent of `content_size` bytes of content.
    ///
    /// - `created by` names the application and `version`
    /// - `creation date` is 0 so that output is deterministic
    /// - the source tag is the source upper-cased
    pub fn new(
        content_size: u64,
        announce_url: String,
        source: &str,
        torrent_name: Option<String>,
        version: &str,
    ) -> (res: Self)
        ensures
            res.piece_length as int == spec_piece_length(content_size as nat),
            1 <= res.num_threads <= MAX_THREADS,
            res.announce == announce_url,
            res.private,
            res.created_by@ == APP_NAME@ + " "@ + version@,
            res.creation_date == 0,
            res.source@ == spec_source_tag(source@),
            res.name == torrent_name,
            settings_for(
                res,
                content_size,
                announce_url@,
                source@,
                match torrent_name {
                    Some(n) => Some(n@),
                    None => None,
                },
                version@,
            ),
    {
        let mut created_by = owned(APP_NAME);
        created_by.append(" ");
        created_by.append(version);
        Self {
            piece_length: piece_length(content_size),
            num_threads: num_threads(),
            announce: announce_url,
            private: true,
            created_by,
            creation_date: 0,
            source: to_uppercase(source),
            name: torrent_name,
        }
    }
}

/// Creates and duplicates `.torrent` files: this type holds the decisions,
/// the files are written by the caller.
pub struct TorrentCreator;

impl TorrentCreator {
    /// Decide how to duplicate `torrent` for a tracker.
    ///
    /// - Copies if the source and announce URL already match
    /// - Otherwise rewrites the announce URL and source tag
    pub fn duplicate_plan(torrent: TorrentInfo, announce_url: String, source: &str) -> (res: DuplicatePlan)
        requires
            torrent_wf(torrent),
        ensures
            res is Copy <==> spec_copy_suffices(torrent, announce_url@, source@),
            res matches DuplicatePlan::Rewrite(t) ==> is_retargeted(
                torrent,
                t,
                announce_url@,
                spec_source_tag(source@),
            ),
    {
        let first = torrent.first_announce();
        let same_announce = match &first {
            Some(a) => crate::torrent::indexer::str_eq(a.as_str(), announce_url.as_str()),
            None => false,
        };
        let indexer = Indexer::from(source);
        if torrent.is_source_equal(&indexer) && same_announce {
            return DuplicatePlan::Copy;
        }
        let ghost before = torrent;
        let mut torrent = torrent;
        torrent.announce = Some(announce_url);
        torrent.announce_list = None;
        let mut fields: Dictionary = match torrent.extra_info_fields {
            Some(f) => f,
            None => Vec::new(),
        };
        let tag = to_uppercase(source);
        let ghost old_fields = fields@;
        insert(&mut fields, owned("source"), BencodeValue::String(tag));
        proof {
            assert forall|k: Seq<char>| k != "source"@ implies lookup(fields@, k) == (match before.extra_info_fields {
                Some(old_entries) => lookup(old_entries@, k),
                None => None,
            }) by {
                assert(lookup(fields@, k) == lookup(old_fields, k));
            }
        }
        torrent.extra_info_fields = Some(fields);
        DuplicatePlan::Rewrite(torrent)
    }
}

} // verus!
