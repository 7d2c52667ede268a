//! Verify that content matches the piece hashes of a `.torrent` file.
//!
//! Content files are read by the caller; this module decides, piece by piece,
//! whether what was read matches the torrent.
use crate::torrent::metadata::TorrentInfo;
use crate::verify::issue::SourceIssue;
use sha1::Digest;
use vstd::prelude::*;

verus! {

/// Name for the SHA-1 digest of a byte sequence.
pub uninterp spec fn spec_sha1(data: Seq<u8>) -> Seq<u8>;

/// Name for what `Path::join` gives for a base path and a relative path.
pub uninterp spec fn spec_join_path(base: Seq<char>, relative: Seq<char>) -> Seq<char>;

/// SHA-1 digest of `data`.
///
/// Trusted: calls `sha1::Sha1::digest`; claims the result is the named digest
/// of the argument and is 20 bytes long, as the crate's output size states.
#[verifier::external_body]
fn sha1_digest(data: &[u8]) -> (res: Vec<u8>)
    ensures
        res@ == spec_sha1(data@),
        res@.len() == 20,
{
    sha1::Sha1::digest(data).to_vec()
}

/// Joins a relative path onto a base path.
///
/// Trusted: calls `std::path::Path::join` and converts the result to a string;
/// claims only that the result is the named function of the arguments.
#[verifier::external_body]
pub(crate) fn join_path(base: &str, relative: &str) -> (res: String)
    ensures
        res@ == spec_join_path(base@, relative@),
{
    std::path::Path::new(base).join(relative).to_string_lossy().into_owned()
}

/// The ordered paths of the content files of a torrent under `directory`.
pub open spec fn spec_file_paths(t: TorrentInfo, directory: Seq<char>) -> Seq<Seq<char>> {
    match t.files {
        Some(files) => Seq::new(files@.len(), |i: int| spec_join_path(directory, files@[i].path@)),
        None => seq![spec_join_path(directory, t.name@)],
    }
}

/// Build the ordered list of file paths from the torrent metadata.
pub fn get_file_paths(torrent: &TorrentInfo, directory: &str) -> (res: Vec<String>)
    ensures
        Seq::new(res@.len(), |i: int| res@[i]@) == spec_file_paths(*torrent, directory@),
{
    let mut paths: Vec<String> = Vec::new();
    match &torrent.files {
        Some(files) => {
            let mut i: usize = 0;
            while i < files.len()
                invariant
                    i <= files@.len(),
                    paths@.len() == i,
                    forall|k: int|
                        0 <= k < i ==> (#[trigger] paths@[k])@ == spec_join_path(
                            directory@,
                            files@[k].path@,
                        ),
                decreases files@.len() - i,
            {
                paths.push(join_path(directory, files[i].path.as_str()));
                i = i + 1;
            }
        },
        None => {
            paths.push(join_path(directory, torrent.name.as_str()));
        },
    }
    assert(Seq::new(paths@.len(), |i: int| paths@[i]@) =~= spec_file_paths(*torrent, directory@));
    paths
}

/// What reading the next piece of content gave.
#[derive(Debug)]
pub enum HashEvent {
    /// The content is exhausted.
    End,
    /// The digest of the next piece.
    Digest(Vec<u8>),
    /// Reading the content failed.
    ReadError,
}

/// Model of a [`HashEvent`].
pub enum HashEventView {
    End,
    Digest(Seq<u8>),
    ReadError,
}

impl View for HashEvent {
    type V = HashEventView;

    open spec fn view(&self) -> HashEventView {
        match self {
            HashEvent::End => HashEventView::End,
            HashEvent::Digest(d) => HashEventView::Digest(d@),
            HashEvent::ReadError => HashEventView::ReadError,
        }
    }
}

/// Where verification stands after one event.
#[derive(Debug)]
pub enum VerifyStep {
    /// The piece matched: read the next one.
    Continue,
    /// Verification is over: `None` if the content matches, else the issue.
    Finished(Option<SourceIssue>),
    /// Reading the content failed.
    Failed,
}

/// Model of a [`VerifyStep`]: the issue is reduced to what decides it, and
/// any other issue is kept apart from a read failure.
pub enum StepView {
    Continue,
    Passed,
    HashCheck(nat),
    ExcessContent,
    OtherIssue,
    Failed,
}

/// Model of a verification step.
pub open spec fn step_view(s: VerifyStep) -> StepView {
    match s {
        VerifyStep::Continue => StepView::Continue,
        VerifyStep::Finished(None) => StepView::Passed,
        VerifyStep::Finished(Some(SourceIssue::HashCheck { piece_index })) => StepView::HashCheck(
            piece_index as nat,
        ),
        VerifyStep::Finished(Some(SourceIssue::ExcessContent)) => StepView::ExcessContent,
        VerifyStep::Finished(Some(_)) => StepView::OtherIssue,
        VerifyStep::Failed => StepView::Failed,
    }
}

/// The step taken when piece `index` of `pieces` is checked against `event`:
/// while pieces remain, a matching digest continues, a different digest or an
/// early end fails the hash check at `index`; once all pieces matched, the
/// end of content passes and any further piece is excess content. A read
/// error always fails.
pub open spec fn spec_step(pieces: Seq<Seq<u8>>, index: nat, event: HashEventView) -> StepView {
    if index < pieces.len() {
        match event {
            HashEventView::End => StepView::HashCheck(index),
            HashEventView::Digest(d) => if d == pieces[index as int] {
                StepView::Continue
            } else {
                StepView::HashCheck(index)
            },
            HashEventView::ReadError => StepView::Failed,
        }
    } else {
        match event {
            HashEventView::End => StepView::Passed,
            HashEventView::Digest(_) => StepView::ExcessContent,
            HashEventView::ReadError => StepView::Failed,
        }
    }
}

/// The outcome of verifying from piece `index` on when the content yields
/// `events` in order; `Continue` if the events run out first.
pub open spec fn spec_run(pieces: Seq<Seq<u8>>, index: nat, events: Seq<HashEventView>) -> StepView
    decreases events.len(),
{
    if events.len() == 0 {
        StepView::Continue
    } else {
        match spec_step(pieces, index, events[0]) {
            StepView::Continue => spec_run(pieces, index + 1, events.drop_first()),
            other => other,
        }
    }
}

/// Whether two byte sequences are equal.
pub fn bytes_eq(a: &Vec<u8>, b: &Vec<u8>) -> (res: bool)
    ensures
        res == (a@ == b@),
{
    if a.len() != b.len() {
        return false;
    }
    let mut i: usize = 0;
    while i < a.len()
        invariant
            a.len() == b.len(),
            i <= a.len(),
            forall|j: int| 0 <= j < i ==> a@[j] == b@[j],
        decreases a.len() - i,
    {
        if a[i] != b[i] {
            return false;
        }
        i = i + 1;
    }
    assert(a@ =~= b@);
    true
}

/// Verifies that content matches the piece hashes of a `.torrent` file,
/// one piece at a time, as the caller reads it.
pub struct TorrentVerifier;

impl TorrentVerifier {
    /// The digest of one piece of content, or `None` once the content is
    /// exhausted (an empty chunk).
    ///
    /// The caller reads up to one piece length of bytes at a time; a shorter
    /// final chunk is hashed as it is.
    pub fn digest_piece(chunk: &[u8]) -> (res: Option<Vec<u8>>)
        ensures
            chunk@.len() == 0 ==> res is None,
            chunk@.len() > 0 ==> (res matches Some(d) && d@ == spec_sha1(chunk@) && d@.len() == 20),
    {
        if chunk.len() == 0 {
            None
        } else {
            Some(sha1_digest(chunk))
        }
    }

    /// Check the next event of the content against the torrent's pieces.
    ///
    /// - `index` is the number of pieces that already matched
    pub fn step(pieces: &Vec<Vec<u8>>, index: usize, event: HashEvent) -> (res: VerifyStep)
        requires
            index <= pieces@.len(),
        ensures
            step_view(res) == spec_step(
                Seq::new(pieces@.len(), |i: int| pieces@[i]@),
                index as nat,
                event@,
            ),
    {
        let ghost model = Seq::new(pieces@.len(), |i: int| pieces@[i]@);
        if index < pieces.len() {
            match event {
                HashEvent::End => VerifyStep::Finished(Some(SourceIssue::HashCheck { piece_index: index })),
                HashEvent::Digest(d) => {
                    if bytes_eq(&d, &pieces[index]) {
                        VerifyStep::Continue
                    } else {
                        VerifyStep::Finished(Some(SourceIssue::HashCheck { piece_index: index }))
                    }
                },
                HashEvent::ReadError => VerifyStep::Failed,
            }
        } else {
            match event {
                HashEvent::End => VerifyStep::Finished(None),
                HashEvent::Digest(_) => VerifyStep::Finished(Some(SourceIssue::ExcessContent)),
                HashEvent::ReadError => VerifyStep::Failed,
            }
        }
    }
}

/// Content passes verification exactly when it yields the torrent's piece
/// digests in order and then ends.
pub proof fn verification_passes_iff_digests_match(pieces: Seq<Seq<u8>>, events: Seq<HashEventView>)
    ensures
        spec_run(pieces, 0, events) == StepView::Passed <==> {
            &&& events.len() > pieces.len()
            &&& forall|i: int| 0 <= i < pieces.len() ==> events[i] == HashEventView::Digest(pieces[i])
            &&& events[pieces.len() as int] == HashEventView::End
        },
{
    lemma_run_passes(pieces, 0, events);
}

proof fn lemma_run_passes(pieces: Seq<Seq<u8>>, index: nat, events: Seq<HashEventView>)
    requires
        index <= pieces.len(),
    ensures
        spec_run(pieces, index, events) == StepView::Passed <==> {
            &&& events.len() > pieces.len() - index
            &&& forall|i: int|
                0 <= i < pieces.len() - index ==> events[i] == HashEventView::Digest(pieces[index + i])
            &&& events[pieces.len() - index] == HashEventView::End
        },
    decreases events.len(),
{
    if events.len() > 0 {
        if index < pieces.len() {
            lemma_run_passes(pieces, index + 1, events.drop_first());
            if spec_run(pieces, index, events) == StepView::Passed {
                assert forall|i: int| 0 <= i < pieces.len() - index implies events[i]
                    == HashEventView::Digest(pieces[index + i]) by {
                    if i > 0 {
                        assert(events.drop_first()[i - 1] == events[i]);
                    }
                }
            } else {
                if events.len() > pieces.len() - index && (forall|i: int|
                    0 <= i < pieces.len() - index ==> events[i] == HashEventView::Digest(
                        pieces[index + i],
                    )) && events[pieces.len() - index] == HashEventView::End {
                    assert(events[0] == HashEventView::Digest(pieces[index as int]));
                    assert forall|i: int| 0 <= i < pieces.len() - (index + 1) implies events.drop_first()[i]
                        == HashEventView::Digest(pieces[(index + 1) + i]) by {
                        assert(events[i + 1] == HashEventView::Digest(pieces[index + (i + 1)]));
                    }
                    assert(events.drop_first()[pieces.len() - (index + 1)] == events[pieces.len() - index]);
                    assert(false);
                }
            }
        }
    }
}

/// A piece that differs from the torrent fails the hash check at the first
/// such piece, provided every earlier piece matched.
pub proof fn first_mismatch_is_reported(pieces: Seq<Seq<u8>>, events: Seq<HashEventView>, k: nat)
    requires
        k < pieces.len(),
        k < events.len(),
        forall|i: int| 0 <= i < k ==> events[i] == HashEventView::Digest(pieces[i]),
        events[k as int] matches HashEventView::Digest(d) && d != pieces[k as int],
    ensures
        spec_run(pieces, 0, events) == StepView::HashCheck(k),
{
    lemma_mismatch(pieces, 0, events, k);
}

proof fn lemma_mismatch(pieces: Seq<Seq<u8>>, index: nat, events: Seq<HashEventView>, k: nat)
    requires
        index <= k,
        k < pieces.len(),
        k - index < events.len(),
        forall|i: int| 0 <= i < k - index ==> events[i] == HashEventView::Digest(pieces[index + i]),
        events[k - index] matches HashEventView::Digest(d) && d != pieces[k as int],
    ensures
        spec_run(pieces, index, events) == StepView::HashCheck(k),
    decreases k - index,
{
    if index < k {
        assert(events[0] == HashEventView::Digest(pieces[index as int]));
        assert forall|i: int| 0 <= i < k - (index + 1) implies events.drop_first()[i]
            == HashEventView::Digest(pieces[(index + 1) + i]) by {
            assert(events[i + 1] == HashEventView::Digest(pieces[index + (i + 1)]));
        }
        lemma_mismatch(pieces, index + 1, events.drop_first(), k);
    }
}


/// The chunks content is read in: `piece_length` bytes at a time, the last
/// one possibly shorter; none for empty content.
pub open spec fn spec_chunks(content: Seq<u8>, piece_length: nat) -> Seq<Seq<u8>>
    decreases content.len(),
{
    if content.len() == 0 || piece_length == 0 {
        Seq::empty()
    } else if content.len() <= piece_length {
        seq![content]
    } else {
        seq![content.take(piece_length as int)] + spec_chunks(content.skip(piece_length as int), piece_length)
    }
}

/// What reading `content` piece by piece yields: the digest of each chunk,
/// then the end.
pub open spec fn content_events(content: Seq<u8>, piece_length: nat) -> Seq<HashEventView> {
    let chunks = spec_chunks(content, piece_length);
    Seq::new(chunks.len(), |i: int| HashEventView::Digest(spec_sha1(chunks[i]))).push(HashEventView::End)
}

/// Content is read in `⌈len / piece_length⌉` chunks, chunk `i` being the
/// bytes from `i * piece_length` up to the next multiple or the end: 12
/// bytes read 4 at a time give 3 chunks, and a shorter last chunk is read
/// on its own.
pub proof fn chunks_split_content(content: Seq<u8>, piece_length: nat)
    requires
        piece_length > 0,
    ensures
        spec_chunks(content, piece_length).len() == (content.len() + piece_length - 1) / (piece_length as int),
        forall|i: int|
            0 <= i < spec_chunks(content, piece_length).len() ==> #[trigger] spec_chunks(content, piece_length)[i]
                == content.subrange(
                i * piece_length,
                if (i + 1) * piece_length < content.len() {
                    (i + 1) * piece_length
                } else {
                    content.len() as int
                },
            ),
    decreases content.len(),
{
    let n = content.len() as int;
    let p = piece_length as int;
    let c = spec_chunks(content, piece_length);
    if n == 0 {
        assert((n + p - 1) / p == 0) by (nonlinear_arith)
            requires
                n == 0,
                p > 0,
        ;
    } else if n <= p {
        assert((n + p - 1) / p == 1) by (nonlinear_arith)
            requires
                0 < n <= p,
        ;
        assert forall|i: int| 0 <= i < c.len() implies #[trigger] c[i] == content.subrange(
            i * p,
            if (i + 1) * p < n {
                (i + 1) * p
            } else {
                n
            },
        ) by {
            assert(i == 0);
            assert(content.subrange(0, n) =~= content);
        }
    } else {
        let rest = content.skip(p);
        chunks_split_content(rest, piece_length);
        let rc = spec_chunks(rest, piece_length);
        let m = rest.len() as int;
        assert(m == n - p);
        assert((n + p - 1) / p == (m + p - 1) / p + 1) by (nonlinear_arith)
            requires
                m == n - p,
                p > 0,
        {
            assert(n + p - 1 == (m + p - 1) + p * 1);
        }
        assert(c == seq![content.take(p)] + rc);
        assert forall|i: int| 0 <= i < c.len() implies #[trigger] c[i] == content.subrange(
            i * p,
            if (i + 1) * p < n {
                (i + 1) * p
            } else {
                n
            },
        ) by {
            if i == 0 {
                assert(content.take(p) =~= content.subrange(0, p));
                assert(i * p == 0 && (i + 1) * p == p);
            } else {
                let j = i - 1;
                assert(c[i] == rc[j]);
                let q = (m + p - 1) / p;
                assert(j + 1 <= q);
                vstd::arithmetic::div_mod::lemma_fundamental_div_mod(m + p - 1, p);
                vstd::arithmetic::div_mod::lemma_mod_bound(m + p - 1, p);
                assert((j + 1) * p <= q * p) by (nonlinear_arith)
                    requires
                        j + 1 <= q,
                        p > 0,
                ;
                assert(p * q == q * p) by (nonlinear_arith);
                assert(j * p + p == (j + 1) * p) by (nonlinear_arith);
                assert(j * p < m);
                assert(i * p == j * p + p) by (nonlinear_arith)
                    requires
                        j == i - 1,
                ;
                assert((i + 1) * p == (j + 1) * p + p) by (nonlinear_arith)
                    requires
                        j == i - 1,
                ;
                assert(j * p >= 0) by (nonlinear_arith)
                    requires
                        j >= 0,
                        p > 0,
                ;
                let hi = if (j + 1) * p < m {
                    (j + 1) * p
                } else {
                    m
                };
                assert(rc[j] == rest.subrange(j * p, hi));
                assert(rest.subrange(j * p, hi) =~= content.subrange(j * p + p, hi + p));
                let hi2 = if (i + 1) * p < n {
                    (i + 1) * p
                } else {
                    n
                };
                assert(hi + p == hi2);
                assert(c[i] == content.subrange(i * p, hi2));
            }
        }
    }
}

/// Content passes verification exactly when it is read in as many chunks
/// as the torrent has pieces and the SHA-1 digest of each chunk is the
/// corresponding piece.
pub proof fn content_passes_iff_chunks_match(pieces: Seq<Seq<u8>>, content: Seq<u8>, piece_length: nat)
    ensures
        spec_run(pieces, 0, content_events(content, piece_length)) == StepView::Passed <==> {
            let chunks = spec_chunks(content, piece_length);
            &&& chunks.len() == pieces.len()
            &&& forall|i: int| 0 <= i < pieces.len() ==> spec_sha1(#[trigger] chunks[i]) == pieces[i]
        },
{
    let chunks = spec_chunks(content, piece_length);
    let events = content_events(content, piece_length);
    verification_passes_iff_digests_match(pieces, events);
    assert(events.len() == chunks.len() + 1);
    assert forall|i: int| 0 <= i < chunks.len() implies #[trigger] events[i] == HashEventView::Digest(
        spec_sha1(chunks[i]),
    ) by {}
    assert(events[chunks.len() as int] == HashEventView::End);
    if spec_run(pieces, 0, events) == StepView::Passed {
        if pieces.len() < chunks.len() {
            assert(events[pieces.len() as int] is Digest);
        }
        assert forall|i: int| 0 <= i < pieces.len() implies spec_sha1(#[trigger] chunks[i]) == pieces[i] by {
            assert(events[i] == HashEventView::Digest(pieces[i]));
        }
    }
    if chunks.len() == pieces.len() && forall|i: int| 0 <= i < pieces.len() ==> spec_sha1(#[trigger] chunks[i])
        == pieces[i] {
        assert forall|i: int| 0 <= i < pieces.len() implies events[i] == HashEventView::Digest(pieces[i]) by {
            assert(spec_sha1(chunks[i]) == pieces[i]);
        }
    }
}

} // verus!
