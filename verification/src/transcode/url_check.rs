//! Decisions taken on a torrent permalink, from finding its torrent to
//! uploading the transcodes.
//!
//! The caller fetches, reads, hashes, asks and transcodes; these functions
//! decide what happens next.
use crate::api::model::{Group, Torrent};
use crate::text::{join, owned, spec_join, views_of};
use crate::torrent::torrent_verifier::{join_path, spec_join_path};
use crate::transcode::release::{get_transcode_formats, spec_transcode_formats, ReleaseType};
use vstd::prelude::*;
use vstd::string::StringExecFns;

verus! {

/// Why a permalink is skipped.
#[derive(Clone, Copy, Debug, Eq, PartialEq, Structural)]
pub enum UrlSkip {
    /// The permalink lacks a group id or a torrent id.
    InvalidPermalink,
    /// The group holds no torrent with the torrent id.
    TorrentNotFound,
    /// The torrent is a scene release, which is unsupported.
    SceneRelease,
    /// The torrent is neither FLAC nor 24 bit FLAC.
    NotFlac,
    /// Every wanted format already exists.
    NothingToTranscode,
    /// The FLAC files have invalid tags.
    InvalidTags,
    /// The local files do not match the torrent's hashes.
    HashCheckFailed,
    /// The spectrograms were rejected on review.
    SpectrogramsRejected,
    /// The release has more than two channels, which is unsupported.
    Multichannel,
}

/// What was found out about the source torrent of a permalink.
#[derive(Clone, Copy, Debug)]
pub struct SourceAssessment {
    /// Warn that the torrent is an approved lossy web or master release.
    pub lossy_warning: bool,
    /// Report that some torrent of the group has an unknown encoding.
    pub unknown_encoding: bool,
    /// Why the permalink is skipped, if it is.
    pub skip: Option<UrlSkip>,
}

/// Find the source torrent of a permalink among the torrents of its group.
///
/// - Skips when the group id or the torrent id could not be read
/// - Skips when no torrent of the group has the torrent id
/// - Otherwise gives the index of the first torrent with the torrent id
pub fn locate_torrent(group_id: Option<i64>, torrent_id: Option<i64>, torrents: &Vec<Torrent>) -> (res: Result<usize, UrlSkip>)
    ensures
        (group_id is None || torrent_id is None) ==> res == Err::<usize, UrlSkip>(
            UrlSkip::InvalidPermalink,
        ),
        torrent_id matches Some(id) ==> group_id is Some ==> match res {
            Ok(i) => i < torrents@.len() && torrents@[i as int].id == id && forall|j: int|
                0 <= j < i ==> torrents@[j].id != id,
            Err(skip) => skip == UrlSkip::TorrentNotFound && forall|j: int|
                0 <= j < torrents@.len() ==> torrents@[j].id != id,
        },
{
    if group_id.is_none() || torrent_id.is_none() {
        return Err(UrlSkip::InvalidPermalink);
    }
    let id = match torrent_id {
        Some(id) => id,
        None => {
            return Err(UrlSkip::InvalidPermalink);
        },
    };
    let mut i: usize = 0;
    while i < torrents.len()
        invariant
            group_id is Some,
            torrent_id == Some(id),
            i <= torrents@.len(),
            forall|j: int| 0 <= j < i ==> torrents@[j].id != id,
        decreases torrents@.len() - i,
    {
        if torrents[i].id == id {
            return Ok(i);
        }
        i = i + 1;
    }
    Err(UrlSkip::TorrentNotFound)
}

fn has_unknown(existing: &Vec<Option<ReleaseType>>) -> (res: bool)
    ensures
        res == existing@.contains(None),
{
    let mut i: usize = 0;
    while i < existing.len()
        invariant
            i <= existing@.len(),
            forall|j: int| 0 <= j < i ==> existing@[j] != None::<ReleaseType>,
        decreases existing@.len() - i,
    {
        if existing[i].is_none() {
            assert(existing@[i as int] == None::<ReleaseType>);
            return true;
        }
        i = i + 1;
    }
    false
}

/// Whether a release type is a FLAC source: FLAC or 24 bit FLAC.
pub open spec fn is_flac_source(t: ReleaseType) -> bool {
    t == ReleaseType::Flac || t == ReleaseType::Flac24
}

/// Assess the source torrent of a permalink.
///
/// - A scene release is skipped before anything else
/// - Otherwise an approved lossy web or master release is warned about, and
///   so is a group where some torrent's encoding is unknown (`None` in
///   `existing_formats`)
/// - A source that is neither FLAC nor 24 bit FLAC is then skipped
pub fn assess_source(torrent: &Torrent, existing_formats: &Vec<Option<ReleaseType>>, source_format: ReleaseType) -> (res: SourceAssessment)
    ensures
        torrent.scene ==> res.skip == Some(UrlSkip::SceneRelease) && !res.lossy_warning
            && !res.unknown_encoding,
        !torrent.scene ==> {
            &&& res.lossy_warning == (torrent.lossy_web_approved || torrent.lossy_master_approved)
            &&& res.unknown_encoding == existing_formats@.contains(None)
            &&& res.skip == (if is_flac_source(source_format) {
                None
            } else {
                Some(UrlSkip::NotFlac)
            })
        },
{
    if torrent.scene {
        return SourceAssessment {
            lossy_warning: false,
            unknown_encoding: false,
            skip: Some(UrlSkip::SceneRelease),
        };
    }
    let lossy_warning = torrent.lossy_web_approved || torrent.lossy_master_approved;
    let unknown_encoding = has_unknown(existing_formats);
    let is_flac = source_format == ReleaseType::Flac24 || source_format == ReleaseType::Flac;
    SourceAssessment {
        lossy_warning,
        unknown_encoding,
        skip: if is_flac {
            None
        } else {
            Some(UrlSkip::NotFlac)
        },
    }
}

/// The known release types of a group's torrents, in order.
pub open spec fn spec_known_formats(existing: Seq<Option<ReleaseType>>) -> Seq<ReleaseType>
    decreases existing.len(),
{
    if existing.len() == 0 {
        Seq::empty()
    } else {
        let rest = spec_known_formats(existing.drop_last());
        match existing.last() {
            Some(t) => rest.push(t),
            None => rest,
        }
    }
}

/// The formats to transcode to: the allowed formats that do not exist yet,
/// other than 24 bit FLAC; when the check of existing formats is skipped,
/// only the source's own format counts as existing.
pub open spec fn spec_wanted_formats(
    allowed: Seq<ReleaseType>,
    existing: Seq<Option<ReleaseType>>,
    source_format: ReleaseType,
    skip_existing_formats_check: bool,
) -> Seq<ReleaseType> {
    if skip_existing_formats_check {
        spec_transcode_formats(allowed, seq![source_format])
    } else {
        spec_transcode_formats(allowed, spec_known_formats(existing))
    }
}

/// The formats to transcode the source to.
pub fn wanted_formats(
    allowed: &Vec<ReleaseType>,
    existing: &Vec<Option<ReleaseType>>,
    source_format: ReleaseType,
    skip_existing_formats_check: bool,
) -> (res: Vec<ReleaseType>)
    ensures
        res@ == spec_wanted_formats(allowed@, existing@, source_format, skip_existing_formats_check),
{
    if skip_existing_formats_check {
        let mut only_source: Vec<ReleaseType> = Vec::new();
        only_source.push(source_format);
        assert(only_source@ =~= seq![source_format]);
        return get_transcode_formats(allowed, only_source);
    }
    let mut known: Vec<ReleaseType> = Vec::new();
    let mut i: usize = 0;
    while i < existing.len()
        invariant
            i <= existing@.len(),
            known@ == spec_known_formats(existing@.take(i as int)),
        decreases existing@.len() - i,
    {
        assert(existing@.take(i + 1).drop_last() =~= existing@.take(i as int));
        if let Some(t) = existing[i] {
            known.push(t);
        }
        i = i + 1;
    }
    assert(existing@.take(existing@.len() as int) =~= existing@);
    get_transcode_formats(allowed, known)
}

/// What the transcode formats of `allowed` against `existing` hold: the
/// allowed formats other than 24 bit FLAC that are not in `existing`.
proof fn transcode_formats_contains(allowed: Seq<ReleaseType>, existing: Seq<ReleaseType>, t: ReleaseType)
    ensures
        spec_transcode_formats(allowed, existing).contains(t) <==> (allowed.contains(t) && t
            != ReleaseType::Flac24 && !existing.contains(t)),
{
    let pred = |r: ReleaseType| r != ReleaseType::Flac24 && !existing.contains(r);
    assert(spec_transcode_formats(allowed, existing) == allowed.filter(pred));
    if allowed.filter(pred).contains(t) {
        let j = choose|j: int| 0 <= j < allowed.filter(pred).len() && allowed.filter(pred)[j] == t;
        allowed.lemma_filter_pred(pred, j);
        allowed.lemma_filter_contains_rev(pred, t);
    }
    if allowed.contains(t) && pred(t) {
        let i = choose|i: int| 0 <= i < allowed.len() && allowed[i] == t;
        allowed.lemma_filter_contains(pred, i);
    }
}

/// A format is among the known formats exactly when some entry of
/// `existing` is that format.
proof fn known_formats_contains(existing: Seq<Option<ReleaseType>>, t: ReleaseType)
    ensures
        spec_known_formats(existing).contains(t) <==> exists|i: int|
            0 <= i < existing.len() && existing[i] == Some(t),
    decreases existing.len(),
{
    if existing.len() > 0 {
        let rest = existing.drop_last();
        known_formats_contains(rest, t);
        let known = spec_known_formats(existing);
        let known_rest = spec_known_formats(rest);
        if exists|i: int| 0 <= i < existing.len() && existing[i] == Some(t) {
            let i = choose|i: int| 0 <= i < existing.len() && existing[i] == Some(t);
            if i < existing.len() - 1 {
                assert(rest[i] == Some(t));
                let j = choose|j: int| 0 <= j < known_rest.len() && known_rest[j] == t;
                assert(known[j] == t);
            } else {
                assert(known[known.len() - 1] == t);
            }
        }
        if known.contains(t) {
            let j = choose|j: int| 0 <= j < known.len() && known[j] == t;
            if j < known_rest.len() {
                assert(known_rest[j] == t);
                let i = choose|i: int| 0 <= i < rest.len() && rest[i] == Some(t);
                assert(existing[i] == Some(t));
            } else {
                assert(existing[existing.len() - 1] == Some(t));
            }
        }
    }
}

/// Existing formats are skipped. Every wanted format is allowed and is not
/// 24 bit FLAC. Without the skip flag no wanted format is a format the group
/// already has, and every allowed format other than 24 bit FLAC that the
/// group lacks is wanted; with the skip flag exactly the allowed formats
/// other than 24 bit FLAC and the source's own format are wanted.
pub proof fn wanted_formats_skip_existing(
    allowed: Seq<ReleaseType>,
    existing: Seq<Option<ReleaseType>>,
    source_format: ReleaseType,
    skip_existing_formats_check: bool,
)
    ensures
        forall|t: ReleaseType|
            #[trigger] spec_wanted_formats(allowed, existing, source_format, skip_existing_formats_check).contains(t)
                ==> allowed.contains(t) && t != ReleaseType::Flac24,
        !skip_existing_formats_check ==> forall|i: int, t: ReleaseType|
            0 <= i < existing.len() && #[trigger] existing[i] == Some(t) ==> !(#[trigger] spec_wanted_formats(
                allowed,
                existing,
                source_format,
                skip_existing_formats_check,
            ).contains(t)),
        !skip_existing_formats_check ==> forall|t: ReleaseType|
            allowed.contains(t) && t != ReleaseType::Flac24 && (forall|i: int|
                0 <= i < existing.len() ==> existing[i] != Some(t)) ==> #[trigger] spec_wanted_formats(
                allowed,
                existing,
                source_format,
                skip_existing_formats_check,
            ).contains(t),
        skip_existing_formats_check ==> forall|t: ReleaseType|
            #[trigger] spec_wanted_formats(allowed, existing, source_format, skip_existing_formats_check).contains(t)
                <==> (allowed.contains(t) && t != ReleaseType::Flac24 && t != source_format),
{
    let wanted = spec_wanted_formats(allowed, existing, source_format, skip_existing_formats_check);
    if skip_existing_formats_check {
        assert forall|t: ReleaseType| wanted.contains(t) <==> (allowed.contains(t) && t
            != ReleaseType::Flac24 && t != source_format) by {
            transcode_formats_contains(allowed, seq![source_format], t);
            assert(seq![source_format].contains(t) <==> t == source_format) by {
                if t == source_format {
                    assert(seq![source_format][0] == t);
                }
            }
        }
    } else {
        let known = spec_known_formats(existing);
        assert forall|t: ReleaseType| wanted.contains(t) <==> (allowed.contains(t) && t
            != ReleaseType::Flac24 && !(exists|i: int| 0 <= i < existing.len() && existing[i] == Some(t))) by {
            transcode_formats_contains(allowed, known, t);
            known_formats_contains(existing, t);
        }
    }
}

/// A stage of handling a permalink once its formats are chosen.
#[derive(Clone, Copy, Debug, Eq, PartialEq, Structural)]
pub enum UrlStage {
    /// Check the tags of the FLAC files.
    ReadTags,
    /// Check the local files against the torrent's hashes.
    HashCheck,
    /// Draw the spectrograms.
    Spectrograms,
    /// Ask whether the spectrograms look right.
    ReviewSpectrograms,
    /// Check the number of channels.
    CheckChannels,
    /// Transcode, then create and upload the torrents.
    Transcode,
}

/// What to do after a stage.
#[derive(Clone, Copy, Debug, Eq, PartialEq, Structural)]
pub enum UrlStep {
    /// Run this stage next.
    Run(UrlStage),
    /// Skip the permalink, saying why.
    Skip(UrlSkip),
    /// Stop handling the permalink without a message.
    Stop,
    /// The permalink is handled.
    Done,
}

/// Options that decide which stages run.
#[derive(Clone, Copy, Debug)]
pub struct UrlOptions {
    /// Do not check the local files against the torrent's hashes.
    pub skip_hash_check: bool,
    /// Do not draw and review spectrograms.
    pub skip_spectrogram: bool,
}

/// The stage after the tags are read and found acceptable.
pub open spec fn after_tags(o: UrlOptions) -> UrlStep {
    if !o.skip_hash_check {
        UrlStep::Run(UrlStage::HashCheck)
    } else {
        after_hash_check(o)
    }
}

/// The stage after the hash check passed, or was skipped.
pub open spec fn after_hash_check(o: UrlOptions) -> UrlStep {
    if !o.skip_spectrogram {
        UrlStep::Run(UrlStage::Spectrograms)
    } else {
        UrlStep::Run(UrlStage::CheckChannels)
    }
}

/// The step after `stage` given whether it succeeded: unacceptable tags,
/// a failed hash check, rejected spectrograms or a multichannel release
/// skip the permalink; failing to draw spectrograms stops it; the hash
/// check and spectrograms run only when enabled.
pub open spec fn spec_url_after(stage: UrlStage, ok: bool, o: UrlOptions) -> UrlStep {
    match stage {
        UrlStage::ReadTags => if ok {
            after_tags(o)
        } else {
            UrlStep::Skip(UrlSkip::InvalidTags)
        },
        UrlStage::HashCheck => if ok {
            after_hash_check(o)
        } else {
            UrlStep::Skip(UrlSkip::HashCheckFailed)
        },
        UrlStage::Spectrograms => if ok {
            UrlStep::Run(UrlStage::ReviewSpectrograms)
        } else {
            UrlStep::Stop
        },
        UrlStage::ReviewSpectrograms => if ok {
            UrlStep::Run(UrlStage::CheckChannels)
        } else {
            UrlStep::Skip(UrlSkip::SpectrogramsRejected)
        },
        UrlStage::CheckChannels => if ok {
            UrlStep::Run(UrlStage::Transcode)
        } else {
            UrlStep::Skip(UrlSkip::Multichannel)
        },
        UrlStage::Transcode => UrlStep::Done,
    }
}

impl UrlOptions {
    /// The first stage once the formats to transcode to are known; a
    /// permalink with nothing to transcode is skipped.
    pub fn first_step(&self, formats: &Vec<ReleaseType>) -> (res: UrlStep)
        ensures
            res == (if formats@.len() == 0 {
                UrlStep::Skip(UrlSkip::NothingToTranscode)
            } else {
                UrlStep::Run(UrlStage::ReadTags)
            }),
    {
        if formats.len() == 0 {
            UrlStep::Skip(UrlSkip::NothingToTranscode)
        } else {
            UrlStep::Run(UrlStage::ReadTags)
        }
    }

    /// The step after `stage`, given whether it succeeded. For the tags,
    /// success means they are valid or belong to a vinyl release whose track
    /// numbers are to be fixed by hand.
    pub fn after(&self, stage: UrlStage, ok: bool) -> (res: UrlStep)
        ensures
            res == spec_url_after(stage, ok, *self),
    {
        match stage {
            UrlStage::ReadTags => if !ok {
                UrlStep::Skip(UrlSkip::InvalidTags)
            } else if !self.skip_hash_check {
                UrlStep::Run(UrlStage::HashCheck)
            } else if !self.skip_spectrogram {
                UrlStep::Run(UrlStage::Spectrograms)
            } else {
                UrlStep::Run(UrlStage::CheckChannels)
            },
            UrlStage::HashCheck => if !ok {
                UrlStep::Skip(UrlSkip::HashCheckFailed)
            } else if !self.skip_spectrogram {
                UrlStep::Run(UrlStage::Spectrograms)
            } else {
                UrlStep::Run(UrlStage::CheckChannels)
            },
            UrlStage::Spectrograms => if ok {
                UrlStep::Run(UrlStage::ReviewSpectrograms)
            } else {
                UrlStep::Stop
            },
            UrlStage::ReviewSpectrograms => if ok {
                UrlStep::Run(UrlStage::CheckChannels)
            } else {
                UrlStep::Skip(UrlSkip::SpectrogramsRejected)
            },
            UrlStage::CheckChannels => if ok {
                UrlStep::Run(UrlStage::Transcode)
            } else {
                UrlStep::Skip(UrlSkip::Multichannel)
            },
            UrlStage::Transcode => UrlStep::Done,
        }
    }
}

/// What the tags of a release allow.
#[derive(Clone, Copy, Debug, Eq, PartialEq, Structural)]
pub struct TagDecision {
    /// The tags are acceptable: valid, or a vinyl release whose track
    /// numbers are to be fixed by hand.
    pub acceptable: bool,
    /// The transcodes must be checked and uploaded by hand.
    pub manual_upload_required: bool,
}

/// Decide on the tags: a vinyl release with missing or non numeric track
/// numbers goes on, to be fixed and uploaded by hand; other invalid tags
/// skip the permalink.
pub fn tag_decision(valid: bool, invalid_track_number_vinyl: bool) -> (res: TagDecision)
    ensures
        res.acceptable == (valid || invalid_track_number_vinyl),
        res.manual_upload_required == (!valid && invalid_track_number_vinyl),
{
    if !valid && invalid_track_number_vinyl {
        TagDecision { acceptable: true, manual_upload_required: true }
    } else if !valid {
        TagDecision { acceptable: false, manual_upload_required: false }
    } else {
        TagDecision { acceptable: true, manual_upload_required: false }
    }
}

/// Whether the transcodes of a permalink are left to be uploaded by hand.
pub fn manual_upload(automatic_upload: bool, manual_upload_required: bool) -> (res: bool)
    ensures
        res == (!automatic_upload || manual_upload_required),
{
    !automatic_upload || manual_upload_required
}

/// The announce URL of a tracker for a passkey.
pub fn announce_url(tracker_url: &str, passkey: &str) -> (res: String)
    ensures
        res@ == tracker_url@ + "/"@ + passkey@ + "/announce"@,
{
    let mut s = owned(tracker_url);
    s.append("/");
    s.append(passkey);
    s.append("/announce");
    s
}

/// The name of the `.torrent` file of a release.
pub fn torrent_file_name(release_name: &str) -> (res: String)
    ensures
        res@ == release_name@ + ".torrent"@,
{
    let mut s = owned(release_name);
    s.append(".torrent");
    s
}

/// The artists of a group as shown to the user: their names joined by ", ".
pub fn artists_line(group: &Group) -> (res: String)
    ensures
        res@ == "Artist(s): "@ + spec_join(
            Seq::new(group.music_info.artists@.len(), |i: int| group.music_info.artists@[i].name@),
            ", "@,
        ),
{
    let artists = &group.music_info.artists;
    let mut names: Vec<String> = Vec::new();
    let mut i: usize = 0;
    while i < artists.len()
        invariant
            i <= artists@.len(),
            names@.len() == i,
            forall|k: int| 0 <= k < i ==> (#[trigger] names@[k])@ == artists@[k].name@,
        decreases artists@.len() - i,
    {
        names.push(artists[i].name.clone());
        i = i + 1;
    }
    assert(views_of(names@) =~= Seq::new(artists@.len(), |i: int| artists@[i].name@));
    let joined = join(&names, ", ");
    let mut s = owned("Artist(s): ");
    s.append(joined.as_str());
    s
}

/// The step reached by running the stages from `stage` with the successive
/// outcomes `outcomes`; `Run` of the next stage when the outcomes run out.
pub open spec fn spec_url_run(stage: UrlStage, outcomes: Seq<bool>, o: UrlOptions) -> UrlStep
    decreases outcomes.len(),
{
    if outcomes.len() == 0 {
        UrlStep::Run(stage)
    } else {
        match spec_url_after(stage, outcomes[0], o) {
            UrlStep::Run(next) => spec_url_run(next, outcomes.drop_first(), o),
            other => other,
        }
    }
}

/// The number of checks still to run from `stage` before the transcode,
/// when every check passes.
pub open spec fn checks_left(stage: UrlStage, o: UrlOptions) -> nat {
    let after_hash: nat = if o.skip_spectrogram { 1 } else { 3 };
    match stage {
        UrlStage::ReadTags => 1 + (if o.skip_hash_check { after_hash } else { 1 + after_hash }),
        UrlStage::HashCheck => 1 + after_hash,
        UrlStage::Spectrograms => 3,
        UrlStage::ReviewSpectrograms => 2,
        UrlStage::CheckChannels => 1,
        UrlStage::Transcode => 0,
    }
}

proof fn lemma_url_fails(stage: UrlStage, outcomes: Seq<bool>, o: UrlOptions, k: int)
    requires
        0 <= k < outcomes.len(),
        k < checks_left(stage, o),
        !outcomes[k],
        forall|j: int| 0 <= j < k ==> outcomes[j],
    ensures
        spec_url_run(stage, outcomes, o) != UrlStep::Done,
    decreases outcomes.len(),
{
    if k > 0 {
        match spec_url_after(stage, outcomes[0], o) {
            UrlStep::Run(next) => {
                assert(checks_left(next, o) == checks_left(stage, o) - 1);
                assert forall|j: int| 0 <= j < k - 1 implies outcomes.drop_first()[j] by {
                    assert(outcomes.drop_first()[j] == outcomes[j + 1]);
                }
                assert(outcomes.drop_first()[k - 1] == outcomes[k]);
                lemma_url_fails(next, outcomes.drop_first(), o, k - 1);
            },
            _ => {},
        }
    }
}

proof fn lemma_url_passes(stage: UrlStage, outcomes: Seq<bool>, o: UrlOptions)
    requires
        outcomes.len() == checks_left(stage, o) + 1,
        forall|j: int| 0 <= j < outcomes.len() ==> outcomes[j],
    ensures
        spec_url_run(stage, outcomes, o) == UrlStep::Done,
    decreases outcomes.len(),
{
    assert(outcomes[0]);
    match spec_url_after(stage, true, o) {
        UrlStep::Run(next) => {
            assert(checks_left(next, o) == checks_left(stage, o) - 1);
            assert forall|j: int| 0 <= j < outcomes.drop_first().len() implies outcomes.drop_first()[j] by {
                assert(outcomes.drop_first()[j] == outcomes[j + 1]);
            }
            lemma_url_passes(next, outcomes.drop_first(), o);
        },
        _ => {},
    }
}

/// A permalink whose formats were chosen is transcoded and finished only
/// when every check that runs passes: once one fails, the permalink is
/// skipped or stopped; when all pass, it is done after the enabled checks
/// and the transcode.
pub proof fn url_done_only_when_every_check_passes(o: UrlOptions, outcomes: Seq<bool>)
    ensures
        (exists|k: int|
            0 <= k < outcomes.len() && k < checks_left(UrlStage::ReadTags, o) && !outcomes[k]
                && forall|j: int| 0 <= j < k ==> outcomes[j]) ==> spec_url_run(
            UrlStage::ReadTags,
            outcomes,
            o,
        ) != UrlStep::Done,
        outcomes.len() == checks_left(UrlStage::ReadTags, o) + 1 && (forall|j: int|
            0 <= j < outcomes.len() ==> outcomes[j]) ==> spec_url_run(UrlStage::ReadTags, outcomes, o)
            == UrlStep::Done,
{
    if exists|k: int|
        0 <= k < outcomes.len() && k < checks_left(UrlStage::ReadTags, o) && !outcomes[k] && forall|j: int|
            0 <= j < k ==> outcomes[j] {
        let k = choose|k: int|
            0 <= k < outcomes.len() && k < checks_left(UrlStage::ReadTags, o) && !outcomes[k]
                && forall|j: int| 0 <= j < k ==> outcomes[j];
        lemma_url_fails(UrlStage::ReadTags, outcomes, o, k);
    }
    if outcomes.len() == checks_left(UrlStage::ReadTags, o) + 1 && (forall|j: int|
        0 <= j < outcomes.len() ==> outcomes[j]) {
        lemma_url_passes(UrlStage::ReadTags, outcomes, o);
    }
}


/// Name for what `html_escape::decode_html_entities` returns for a string.
pub uninterp spec fn spec_decode_html_entities(text: Seq<char>) -> Seq<char>;

/// `text` with its HTML entities decoded.
///
/// Trusted: calls `html_escape::decode_html_entities`; claims only that the
/// result is the named function of the argument.
#[verifier::external_body]
fn decode_html_entities(text: &str) -> (res: String)
    ensures
        res@ == spec_decode_html_entities(text@),
{
    html_escape::decode_html_entities(text).into_owned()
}

/// The directory of a torrent's FLAC files: its file path, whose HTML
/// entities the indexer encodes, decoded and joined onto the content
/// directory.
pub fn flac_directory(content_directory: &str, file_path: &str) -> (res: String)
    ensures
        res@ == spec_join_path(content_directory@, spec_decode_html_entities(file_path@)),
{
    let decoded = decode_html_entities(file_path);
    join_path(content_directory, decoded.as_str())
}

} // verus!
