//! Required audio tags of a FLAC source.
use crate::text::owned;
use crate::torrent::indexer::str_eq;
use vstd::prelude::*;

verus! {

/// Which of the checked tags a FLAC file carries, after conversion to ID3v2.
#[derive(Clone, Copy, Debug, Default)]
pub struct TagPresence {
    /// An artist tag is set.
    pub artist: bool,
    /// An album tag is set.
    pub album: bool,
    /// A title tag is set.
    pub title: bool,
    /// A composer tag is set.
    pub composer: bool,
    /// A numeric track number is set.
    pub track_number: bool,
}

/// Whether a group is tagged classical.
pub open spec fn spec_is_classical(group_tags: Seq<Seq<char>>) -> bool {
    group_tags.contains("classical"@)
}

/// Names of the tags a FLAC file lacks, in order: artist, album, title,
/// composer (required only of classical releases) and track number.
pub open spec fn spec_missing_tags(p: TagPresence, classical: bool) -> Seq<Seq<char>> {
    (if p.artist { seq![] } else { seq!["artist"@] })
        + (if p.album { seq![] } else { seq!["album"@] })
        + (if p.title { seq![] } else { seq!["title"@] })
        + (if classical && !p.composer { seq!["composer"@] } else { seq![] })
        + (if p.track_number { seq![] } else { seq!["track_number"@] })
}

/// Each required tag is reported exactly when it is absent: artist, album,
/// title and track number whenever their flag is unset, and composer only
/// for a classical release without one.
pub proof fn missing_tags_name_each_absent_tag(p: TagPresence, classical: bool)
    ensures
        spec_missing_tags(p, classical).contains("artist"@) <==> !p.artist,
        spec_missing_tags(p, classical).contains("album"@) <==> !p.album,
        spec_missing_tags(p, classical).contains("title"@) <==> !p.title,
        spec_missing_tags(p, classical).contains("composer"@) <==> (classical && !p.composer),
        spec_missing_tags(p, classical).contains("track_number"@) <==> !p.track_number,
        spec_missing_tags(p, classical).no_duplicates(),
        forall|i: int|
            0 <= i < spec_missing_tags(p, classical).len() ==> {
                let n = #[trigger] spec_missing_tags(p, classical)[i];
                n == "artist"@ || n == "album"@ || n == "title"@ || n == "composer"@ || n
                    == "track_number"@
            },
{
    reveal_strlit("artist");
    reveal_strlit("album");
    reveal_strlit("title");
    reveal_strlit("composer");
    reveal_strlit("track_number");
    let a: Seq<Seq<char>> = if p.artist { seq![] } else { seq!["artist"@] };
    let b: Seq<Seq<char>> = if p.album { seq![] } else { seq!["album"@] };
    let c: Seq<Seq<char>> = if p.title { seq![] } else { seq!["title"@] };
    let d: Seq<Seq<char>> = if classical && !p.composer { seq!["composer"@] } else { seq![] };
    let e: Seq<Seq<char>> = if p.track_number { seq![] } else { seq!["track_number"@] };
    let m = spec_missing_tags(p, classical);
    assert(m == a + b + c + d + e);
    assert forall|x: Seq<char>| m.contains(x) <==> (a.contains(x) || b.contains(x) || c.contains(x)
        || d.contains(x) || e.contains(x)) by {
        concat_contains(a, b, x);
        concat_contains(a + b, c, x);
        concat_contains(a + b + c, d, x);
        concat_contains(a + b + c + d, e, x);
    }
    assert forall|x: Seq<char>| a.contains(x) <==> (!p.artist && x == "artist"@) by {
        if !p.artist && x == "artist"@ {
            assert(a[0] == x);
        }
    }
    assert forall|x: Seq<char>| b.contains(x) <==> (!p.album && x == "album"@) by {
        if !p.album && x == "album"@ {
            assert(b[0] == x);
        }
    }
    assert forall|x: Seq<char>| c.contains(x) <==> (!p.title && x == "title"@) by {
        if !p.title && x == "title"@ {
            assert(c[0] == x);
        }
    }
    assert forall|x: Seq<char>| d.contains(x) <==> (classical && !p.composer && x == "composer"@) by {
        if classical && !p.composer && x == "composer"@ {
            assert(d[0] == x);
        }
    }
    assert forall|x: Seq<char>| e.contains(x) <==> (!p.track_number && x == "track_number"@) by {
        if !p.track_number && x == "track_number"@ {
            assert(e[0] == x);
        }
    }
    assert("artist"@.len() == 6 && "album"@.len() == 5 && "title"@.len() == 5 && "composer"@.len() == 8
        && "track_number"@.len() == 12);
    assert("artist"@ != "album"@ && "artist"@ != "title"@ && "artist"@ != "composer"@ && "artist"@
        != "track_number"@);
    assert("album"@ != "title"@ && "album"@ != "composer"@ && "album"@ != "track_number"@) by {
        assert("album"@[0] != "title"@[0]);
    }
    assert("title"@ != "composer"@ && "title"@ != "track_number"@);
    assert("composer"@ != "track_number"@);
    assert(m.no_duplicates()) by {
        assert forall|i: int, j: int| 0 <= i < m.len() && 0 <= j < m.len() && i != j implies m[i] != m[j] by {
            assert(m =~= a + b + c + d + e);
        }
    }
    assert forall|i: int| 0 <= i < m.len() implies {
        let n = #[trigger] m[i];
        n == "artist"@ || n == "album"@ || n == "title"@ || n == "composer"@ || n == "track_number"@
    } by {
        assert(m.contains(m[i]));
    }
}

/// An element is in `a + b` exactly when it is in `a` or in `b`.
proof fn concat_contains(a: Seq<Seq<char>>, b: Seq<Seq<char>>, x: Seq<char>)
    ensures
        (a + b).contains(x) <==> (a.contains(x) || b.contains(x)),
{
    if a.contains(x) {
        let i = choose|i: int| 0 <= i < a.len() && a[i] == x;
        assert((a + b)[i] == x);
    }
    if b.contains(x) {
        let i = choose|i: int| 0 <= i < b.len() && b[i] == x;
        assert((a + b)[a.len() + i] == x);
    }
    if (a + b).contains(x) {
        let i = choose|i: int| 0 <= i < (a + b).len() && (a + b)[i] == x;
        if i < a.len() {
            assert(a[i] == x);
        } else {
            assert(b[i - a.len()] == x);
        }
    }
}

/// Checks that FLAC files carry the tags required of a source.
pub struct TagVerifier;

impl TagVerifier {
    /// Whether `group_tags` holds "classical".
    pub fn is_classical(group_tags: &Vec<String>) -> (res: bool)
        ensures
            res == spec_is_classical(Seq::new(group_tags@.len(), |i: int| group_tags@[i]@)),
    {
        let ghost tags = Seq::new(group_tags@.len(), |i: int| group_tags@[i]@);
        let mut i: usize = 0;
        while i < group_tags.len()
            invariant
                i <= group_tags@.len(),
                tags == Seq::new(group_tags@.len(), |i: int| group_tags@[i]@),
                forall|j: int| 0 <= j < i ==> tags[j] != "classical"@,
            decreases group_tags@.len() - i,
        {
            if str_eq(group_tags[i].as_str(), "classical") {
                assert(tags[i as int] == "classical"@);
                return true;
            }
            i = i + 1;
        }
        false
    }

    /// Names of the required tags a FLAC file lacks.
    pub fn missing(present: &TagPresence, group_tags: &Vec<String>) -> (res: Vec<String>)
        ensures
            Seq::new(res@.len(), |i: int| res@[i]@) == spec_missing_tags(
                *present,
                spec_is_classical(Seq::new(group_tags@.len(), |i: int| group_tags@[i]@)),
            ),
    {
        let mut missing: Vec<String> = Vec::new();
        if !present.artist {
            missing.push(owned("artist"));
        }
        if !present.album {
            missing.push(owned("album"));
        }
        if !present.title {
            missing.push(owned("title"));
        }
        let classical = Self::is_classical(group_tags);
        if classical && !present.composer {
            missing.push(owned("composer"));
        }
        if !present.track_number {
            missing.push(owned("track_number"));
        }
        assert(Seq::new(missing@.len(), |i: int| missing@[i]@) =~= spec_missing_tags(*present, classical));
        missing
    }
}

} // verus!
