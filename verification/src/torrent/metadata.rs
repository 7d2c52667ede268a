//! Plain model of `.torrent` metadata and access to the fields stored in its
//! extra dictionaries.
use crate::torrent::indexer::{
    spec_indexer_from, spec_indexer_name, spec_match_with_alts, str_eq, Indexer,
};
use vstd::prelude::*;

verus! {

/// A bencoded value.
#[derive(Debug)]
pub enum BencodeValue {
    /// UTF-8 string.
    String(String),
    /// Raw bytes.
    Bytes(Vec<u8>),
    /// Integer.
    Integer(i64),
    /// List of values.
    List(Vec<BencodeValue>),
    /// Dictionary with string keys, each key at most once.
    Dictionary(Vec<(String, BencodeValue)>),
    /// Dictionary with byte keys, each key at most once.
    RawDictionary(Vec<(Vec<u8>, BencodeValue)>),
}

/// A dictionary of extra fields: string keys, each at most once.
pub type Dictionary = Vec<(String, BencodeValue)>;

/// One file of a multi-file torrent.
#[derive(Debug)]
pub struct TorrentFile {
    /// File size in bytes.
    pub length: i64,
    /// Path of the file relative to the torrent's root directory.
    pub path: String,
    /// Fields of the file entry beyond length and path.
    pub extra_fields: Option<Dictionary>,
}

/// Metadata of a version 1 `.torrent` file.
#[derive(Debug)]
pub struct TorrentInfo {
    /// URL of the torrent's tracker.
    pub announce: Option<String>,
    /// Tiers of tracker URLs.
    pub announce_list: Option<Vec<Vec<String>>>,
    /// Total size in bytes of all files.
    pub length: i64,
    /// The files; `None` for a single-file torrent.
    pub files: Option<Vec<TorrentFile>>,
    /// The file name of a single-file torrent, or the root directory name.
    pub name: String,
    /// Piece size in bytes.
    pub piece_length: i64,
    /// SHA-1 digest of each piece.
    pub pieces: Vec<Vec<u8>>,
    /// Top-level fields beyond the standard ones.
    pub extra_fields: Option<Dictionary>,
    /// Fields of the `info` dictionary beyond the standard ones.
    pub extra_info_fields: Option<Dictionary>,
}

/// The value stored under `key`, if any.
pub open spec fn lookup(entries: Seq<(String, BencodeValue)>, key: Seq<char>) -> Option<BencodeValue>
    decreases entries.len(),
{
    if entries.len() == 0 {
        None
    } else if entries[0].0@ == key {
        Some(entries[0].1)
    } else {
        lookup(entries.drop_first(), key)
    }
}

/// Whether no key occurs twice in a dictionary.
pub open spec fn keys_distinct(entries: Seq<(String, BencodeValue)>) -> bool {
    forall|i: int, j: int|
        0 <= i < j < entries.len() ==> (#[trigger] entries[i]).0@ != (#[trigger] entries[j]).0@
}

/// The string stored under `key` in an optional dictionary, if a string is
/// stored there.
pub open spec fn spec_get_string(dict: Option<Seq<(String, BencodeValue)>>, key: Seq<char>) -> Option<Seq<char>> {
    match dict {
        None => None,
        Some(entries) => match lookup(entries, key) {
            Some(BencodeValue::String(s)) => Some(s@),
            _ => None,
        },
    }
}

/// Character sequence of an optional string slice.
pub open spec fn opt_str_view(o: Option<&str>) -> Option<Seq<char>> {
    match o {
        Some(s) => Some(s@),
        None => None,
    }
}

/// Character sequence of an optional string.
pub open spec fn opt_string_view(o: Option<String>) -> Option<Seq<char>> {
    match o {
        Some(s) => Some(s@),
        None => None,
    }
}

/// Sequence model of an optional dictionary.
pub open spec fn dict_view(d: Option<Dictionary>) -> Option<Seq<(String, BencodeValue)>> {
    match d {
        Some(v) => Some(v@),
        None => None,
    }
}

/// Position of `key` in `entries`, or `entries.len()` when absent.
fn find_key(entries: &Vec<(String, BencodeValue)>, key: &str) -> (res: usize)
    ensures
        res <= entries@.len(),
        res < entries@.len() ==> entries@[res as int].0@ == key@,
        forall|j: int| 0 <= j < res ==> entries@[j].0@ != key@,
        res < entries@.len() ==> lookup(entries@, key@) == Some(entries@[res as int].1),
        res == entries@.len() ==> lookup(entries@, key@) is None,
{
    let mut i: usize = 0;
    assert(entries@.skip(0) =~= entries@);
    while i < entries.len()
        invariant
            i <= entries@.len(),
            forall|j: int| 0 <= j < i ==> entries@[j].0@ != key@,
            lookup(entries@, key@) == lookup(entries@.skip(i as int), key@),
        decreases entries@.len() - i,
    {
        assert(entries@.skip(i as int)[0] == entries@[i as int]);
        if str_eq(entries[i].0.as_str(), key) {
            return i;
        }
        assert(entries@.skip(i as int).drop_first() =~= entries@.skip(i + 1));
        i = i + 1;
    }
    i
}

/// The string stored under `key` in an optional dictionary.
pub fn get_string<'a>(dict: &'a Option<Dictionary>, key: &str) -> (res: Option<&'a str>)
    ensures
        opt_str_view(res) == spec_get_string(dict_view(*dict), key@),
{
    match dict {
        None => None,
        Some(entries) => {
            let i = find_key(entries, key);
            if i < entries.len() {
                match &entries[i].1 {
                    BencodeValue::String(s) => Some(s.as_str()),
                    _ => None,
                }
            } else {
                None
            }
        },
    }
}

/// Sets `key` to `value`: replaces the value of an existing entry in place,
/// otherwise appends a new entry.
pub open spec fn spec_insert(entries: Seq<(String, BencodeValue)>, key: String, value: BencodeValue) -> Seq<(String, BencodeValue)> {
    if exists|i: int| 0 <= i < entries.len() && #[trigger] entries[i].0@ == key@ {
        let i = choose|i: int| 0 <= i < entries.len() && #[trigger] entries[i].0@ == key@;
        entries.update(i, (entries[i].0, value))
    } else {
        entries.push((key, value))
    }
}

proof fn lemma_lookup_absent(entries: Seq<(String, BencodeValue)>, key: Seq<char>)
    requires
        forall|j: int| 0 <= j < entries.len() ==> entries[j].0@ != key,
    ensures
        lookup(entries, key) is None,
    decreases entries.len(),
{
    if entries.len() > 0 {
        lemma_lookup_absent(entries.drop_first(), key);
    }
}

proof fn lemma_lookup_at(entries: Seq<(String, BencodeValue)>, key: Seq<char>, i: int)
    requires
        0 <= i < entries.len(),
        entries[i].0@ == key,
        forall|j: int| 0 <= j < i ==> entries[j].0@ != key,
    ensures
        lookup(entries, key) == Some(entries[i].1),
    decreases i,
{
    if i > 0 {
        lemma_lookup_at(entries.drop_first(), key, i - 1);
    }
}

/// Sets `key` to `value` in a dictionary whose keys are distinct.
pub fn insert(entries: &mut Dictionary, key: String, value: BencodeValue)
    requires
        keys_distinct(old(entries)@),
    ensures
        final(entries)@ == spec_insert(old(entries)@, key, value),
        keys_distinct(final(entries)@),
        lookup(final(entries)@, key@) == Some(value),
        forall|k: Seq<char>| k != key@ ==> lookup(#[trigger] final(entries)@, k) == lookup(old(entries)@, k),
{
    let ghost before = entries@;
    let i = find_key(entries, key.as_str());
    if i < entries.len() {
        let existing = entries[i].0.clone();
        entries.set(i, (existing, value));
        proof {
            assert(exists|j: int| 0 <= j < before.len() && #[trigger] before[j].0@ == key@);
            let c = choose|j: int| 0 <= j < before.len() && #[trigger] before[j].0@ == key@;
            assert(c == i as int) by {
                if c < i {
                    assert(before[c].0@ != key@);
                }
                if c > i {
                    assert(before[i as int].0@ != before[c].0@);
                }
            }
            assert(entries@ =~= spec_insert(before, key, value));
            lemma_lookup_at(entries@, key@, i as int);
            assert forall|k: Seq<char>| k != key@ implies lookup(#[trigger] entries@, k) == lookup(before, k) by {
                lemma_lookup_same(before, entries@, k);
            }
        }
    } else {
        let ghost key_view = key@;
        entries.push((key, value));
        proof {
            assert(!exists|j: int| 0 <= j < before.len() && #[trigger] before[j].0@ == key_view);
            assert(entries@ =~= spec_insert(before, entries@.last().0, value));
            lemma_lookup_at(entries@, key_view, before.len() as int);
            assert forall|k: Seq<char>| k != key_view implies lookup(#[trigger] entries@, k) == lookup(before, k) by {
                lemma_lookup_same(before, entries@, k);
            }
        }
    }
}

/// Two dictionaries whose common entries have the same keys, whose entries
/// with key `k` have the same values, and whose extra entries lack `k`, give
/// the same value for `k`.
proof fn lemma_lookup_same(a: Seq<(String, BencodeValue)>, b: Seq<(String, BencodeValue)>, k: Seq<char>)
    requires
        a.len() <= b.len(),
        forall|j: int| 0 <= j < a.len() ==> (#[trigger] b[j]).0@ == a[j].0@,
        forall|j: int| 0 <= j < a.len() && a[j].0@ == k ==> b[j].1 == a[j].1,
        forall|j: int| a.len() <= j < b.len() ==> (#[trigger] b[j]).0@ != k,
    ensures
        lookup(b, k) == lookup(a, k),
    decreases a.len(),
{
    if a.len() == 0 {
        lemma_lookup_absent(b, k);
    } else {
        assert(b[0].0@ == a[0].0@);
        if a[0].0@ != k {
            lemma_lookup_same(a.drop_first(), b.drop_first(), k);
        }
    }
}

/// The indexer a torrent's `source` tag names, if it has one.
pub open spec fn spec_source(t: TorrentInfo) -> Option<Seq<char>> {
    spec_get_string(dict_view(t.extra_info_fields), "source"@)
}

/// Whether a torrent's source tag names `source`, with RED/PTH equivalence.
pub open spec fn spec_is_source_equal(t: TorrentInfo, source: crate::torrent::indexer::IndexerView) -> bool {
    match spec_source(t) {
        None => false,
        Some(s) => spec_match_with_alts(source, spec_indexer_from(s)),
    }
}

impl TorrentInfo {
    /// Source tag (e.g. "RED", "OPS") from the info dictionary.
    pub fn source(&self) -> (res: Option<&str>)
        ensures
            opt_str_view(res) == spec_source(*self),
    {
        get_string(&self.extra_info_fields, "source")
    }

    /// Comment field from the top-level dictionary.
    pub fn comment(&self) -> (res: Option<&str>)
        ensures
            opt_str_view(res) == spec_get_string(dict_view(self.extra_fields), "comment"@),
    {
        get_string(&self.extra_fields, "comment")
    }

    /// `created by` field from the top-level dictionary.
    pub fn created_by(&self) -> (res: Option<&str>)
        ensures
            opt_str_view(res) == spec_get_string(dict_view(self.extra_fields), "created by"@),
    {
        get_string(&self.extra_fields, "created by")
    }

    /// Check if the torrent source matches, with RED/PTH equivalence.
    pub fn is_source_equal(&self, source: &Indexer) -> (res: bool)
        ensures
            res == spec_is_source_equal(*self, source@),
    {
        let torrent_source = match self.source() {
            None => {
                return false;
            },
            Some(s) => s,
        };
        let torrent_source = Indexer::from(torrent_source);
        source.match_with_alts(&torrent_source)
    }

    /// The tracker URL a torrent announces to first: the first URL of the
    /// first tier of its announce list, or else its announce URL.
    pub fn first_announce(&self) -> (res: Option<String>)
        ensures
            opt_string_view(res) == spec_first_announce(*self),
    {
        if let Some(list) = &self.announce_list {
            if list.len() > 0 && list[0].len() > 0 {
                return Some(list[0][0].clone());
            }
        }
        self.announce.clone()
    }
}

/// The tracker URL a torrent announces to first.
pub open spec fn spec_first_announce(t: TorrentInfo) -> Option<Seq<char>> {
    match t.announce_list {
        Some(list) if list@.len() > 0 && list@[0]@.len() > 0 => Some(list@[0]@[0]@),
        _ => opt_string_view(t.announce),
    }
}

/// Whether every dictionary of a torrent that the library edits has distinct keys.
pub open spec fn torrent_wf(t: TorrentInfo) -> bool {
    match t.extra_info_fields {
        None => true,
        Some(entries) => keys_distinct(entries@),
    }
}


impl TorrentInfo {
    /// Whether each key of the info dictionary's extra fields occurs once,
    /// as a duplicate plan needs.
    pub fn is_well_formed(&self) -> (res: bool)
        ensures
            res == torrent_wf(*self),
    {
        match &self.extra_info_fields {
            None => true,
            Some(entries) => {
                let mut i: usize = 0;
                while i < entries.len()
                    invariant
                        self.extra_info_fields == Some(*entries),
                        i <= entries@.len(),
                        forall|a: int, b: int|
                            0 <= a < b < entries@.len() && a < i ==> (#[trigger] entries@[a]).0@
                                != (#[trigger] entries@[b]).0@,
                    decreases entries@.len() - i,
                {
                    let mut j: usize = i + 1;
                    while j < entries.len()
                        invariant
                            self.extra_info_fields == Some(*entries),
                            i < entries@.len(),
                            i + 1 <= j <= entries@.len(),
                            forall|a: int, b: int|
                                0 <= a < b < entries@.len() && a < i ==> (#[trigger] entries@[a]).0@
                                    != (#[trigger] entries@[b]).0@,
                            forall|b: int| i < b < j ==> entries@[i as int].0@ != (#[trigger] entries@[b]).0@,
                        decreases entries@.len() - j,
                    {
                        if crate::torrent::indexer::str_eq(entries[i].0.as_str(), entries[j].0.as_str()) {
                            assert(entries@[i as int].0@ == entries@[j as int].0@);
                            assert(!keys_distinct(entries@));
                            return false;
                        }
                        j = j + 1;
                    }
                    i = i + 1;
                }
                true
            },
        }
    }
}

} // verus!
