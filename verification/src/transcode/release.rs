//! Release types, the formats still wanted for a release, and release naming.
use crate::api::model::{Group, Torrent};
use crate::text::{digit_char, chars_of, decimal, owned, push_char, spec_decimal, spec_uppercase, to_uppercase};
use vstd::prelude::*;
use vstd::string::StringExecFns;

verus! {

/// An encoding of a release.
#[derive(Clone, Copy, Debug, Eq, Hash, PartialEq, Structural)]
pub enum ReleaseType {
    /// 24 bit FLAC.
    Flac24,
    /// 16 bit FLAC.
    Flac,
    /// MP3 at a constant 320 kbps.
    Mp3320,
    /// MP3 at variable bit rate V0.
    Mp3V0,
}

/// The formats to transcode to: the allowed formats, in order, other than
/// 24 bit FLAC and the formats that already exist.
pub open spec fn spec_transcode_formats(allowed: Seq<ReleaseType>, existing: Seq<ReleaseType>) -> Seq<ReleaseType> {
    allowed.filter(|r: ReleaseType| r != ReleaseType::Flac24 && !existing.contains(r))
}

fn contains_type(v: &Vec<ReleaseType>, r: ReleaseType) -> (res: bool)
    ensures
        res == v@.contains(r),
{
    let mut i: usize = 0;
    while i < v.len()
        invariant
            i <= v@.len(),
            forall|j: int| 0 <= j < i ==> v@[j] != r,
        decreases v@.len() - i,
    {
        if v[i] == r {
            return true;
        }
        i = i + 1;
    }
    false
}

/// The formats to transcode to: the allowed formats, in order, other than
/// 24 bit FLAC and the formats that already exist.
pub fn get_transcode_formats(allowed_transcode_formats: &Vec<ReleaseType>, existing_formats: Vec<ReleaseType>) -> (res: Vec<ReleaseType>)
    ensures
        res@ == spec_transcode_formats(allowed_transcode_formats@, existing_formats@),
{
    let ghost pred = |r: ReleaseType| r != ReleaseType::Flac24 && !existing_formats@.contains(r);
    let mut out: Vec<ReleaseType> = Vec::new();
    let mut i: usize = 0;
    while i < allowed_transcode_formats.len()
        invariant
            i <= allowed_transcode_formats@.len(),
            pred == (|r: ReleaseType| r != ReleaseType::Flac24 && !existing_formats@.contains(r)),
            out@ == allowed_transcode_formats@.take(i as int).filter(pred),
        decreases allowed_transcode_formats@.len() - i,
    {
        let r = allowed_transcode_formats[i];
        proof {
            reveal_with_fuel(Seq::filter, 1);
            assert(allowed_transcode_formats@.take(i + 1).drop_last() =~= allowed_transcode_formats@.take(
                i as int,
            ));
        }
        if r != ReleaseType::Flac24 && !contains_type(&existing_formats, r) {
            out.push(r);
        }
        i = i + 1;
    }
    assert(allowed_transcode_formats@.take(allowed_transcode_formats@.len() as int)
        =~= allowed_transcode_formats@);
    out
}

/// Characters that may not appear in a release directory name.
pub const FORBIDDEN_CHARACTERS: [char; 9] = ['<', '>', ':', '"', '/', '\\', '|', '?', '*'];

/// Whether `c` may not appear in a release directory name.
pub open spec fn is_forbidden(c: char) -> bool {
    c == '<' || c == '>' || c == ':' || c == '"' || c == '/' || c == '\\' || c == '|' || c == '?'
        || c == '*'
}

fn forbidden(c: char) -> (res: bool)
    ensures
        res == is_forbidden(c),
{
    let mut i: usize = 0;
    let chars = FORBIDDEN_CHARACTERS;
    assert(chars@ == seq!['<', '>', ':', '"', '/', '\\', '|', '?', '*']);
    while i < 9
        invariant
            i <= 9,
            chars@ == seq!['<', '>', ':', '"', '/', '\\', '|', '?', '*'],
            forall|j: int| 0 <= j < i ==> chars@[j] != c,
        decreases 9 - i,
    {
        if chars[i] == c {
            return true;
        }
        i = i + 1;
    }
    false
}

/// `s` with every forbidden character replaced by an underscore.
pub open spec fn spec_sanitize(s: Seq<char>) -> Seq<char> {
    s.map_values(|c: char| if is_forbidden(c) { '_' } else { c })
}

/// `s` without colons.
pub open spec fn spec_without_colons(s: Seq<char>) -> Seq<char> {
    s.filter(|c: char| c != ':')
}

/// The artist shown in a release name: "Various Artists" for more than one
/// artist, else the only artist's name.
pub open spec fn spec_artist_label(group: Group) -> Seq<char> {
    if group.music_info.artists@.len() > 1 {
        "Various Artists"@
    } else {
        group.music_info.artists@[0].name@
    }
}

/// The year shown for a release: the edition year, or the group's year when
/// the edition year is 0.
pub open spec fn spec_release_year(group: Group, torrent: Torrent) -> u64 {
    if torrent.remaster_year != 0 {
        torrent.remaster_year
    } else {
        group.year
    }
}

/// Whether an edition title is longer than one byte in UTF-8: two or more
/// characters, or one character outside ASCII.
pub open spec fn spec_title_is_long(title: Seq<char>) -> bool {
    title.len() >= 2 || (title.len() == 1 && title[0] > '\u{7f}')
}

fn title_is_long(title: &str) -> (res: bool)
    ensures
        res == spec_title_is_long(title@),
{
    let cs = chars_of(title);
    cs.len() >= 2 || (cs.len() == 1 && cs[0] > '\u{7f}')
}

/// The base name of a release: "{artist} - {name} ({edition}) [{year}]", the
/// edition only when its title is longer than one byte, with colons removed
/// from the name and forbidden characters replaced by underscores.
pub open spec fn spec_base_name(group: Group, torrent: Torrent) -> Seq<char> {
    let head = spec_artist_label(group) + " - "@ + spec_without_colons(group.name@);
    let year = spec_decimal(spec_release_year(group, torrent) as nat);
    spec_sanitize(
        if spec_title_is_long(torrent.remaster_title@) {
            head + " ("@ + torrent.remaster_title@ + ") ["@ + year + "]"@
        } else {
            head + " ["@ + year + "]"@
        },
    )
}

/// A release directory name holds no forbidden character, whatever the
/// group's artists, name and year and the edition's title and year; in
/// particular a `/` in the edition title never reaches the name.
pub proof fn base_name_has_no_forbidden_character(group: Group, torrent: Torrent)
    ensures
        forall|i: int|
            0 <= i < spec_base_name(group, torrent).len() ==> !is_forbidden(
                #[trigger] spec_base_name(group, torrent)[i],
            ),
        forall|i: int|
            0 <= i < spec_base_name(group, torrent).len() ==> #[trigger] spec_base_name(group, torrent)[i]
                != '/',
{
}

/// Decimal digits are never forbidden.
proof fn decimal_is_clean(n: nat)
    ensures
        forall|i: int| 0 <= i < spec_decimal(n).len() ==> !is_forbidden(#[trigger] spec_decimal(n)[i]),
    decreases n,
{
    if n >= 10 {
        decimal_is_clean(n / 10);
        let d = spec_decimal(n);
        let prefix = spec_decimal(n / 10);
        assert(d == prefix.push(digit_char(n % 10)));
        assert forall|i: int| 0 <= i < d.len() implies !is_forbidden(#[trigger] d[i]) by {
            if i < prefix.len() {
                assert(d[i] == prefix[i]);
            }
        }
    }
}

/// Replacing forbidden characters works piece by piece.
proof fn sanitize_concat(a: Seq<char>, b: Seq<char>)
    ensures
        spec_sanitize(a + b) == spec_sanitize(a) + spec_sanitize(b),
{
    assert(spec_sanitize(a + b) =~= spec_sanitize(a) + spec_sanitize(b));
}

/// Text without forbidden characters is left as it is.
proof fn sanitize_clean(t: Seq<char>)
    requires
        forall|i: int| 0 <= i < t.len() ==> !is_forbidden(#[trigger] t[i]),
    ensures
        spec_sanitize(t) == t,
{
    assert(spec_sanitize(t) =~= t);
}

/// A release directory name ends with its year in brackets: the edition
/// year, or the group's year when the edition has none. An edition title
/// longer than one byte stands in parentheses right before it, with its
/// forbidden characters replaced by underscores; a shorter one is left out.
pub proof fn base_name_ends_with_edition_and_year(group: Group, torrent: Torrent)
    ensures
        ({
            let name = spec_base_name(group, torrent);
            let year = spec_decimal(
                (if torrent.remaster_year != 0 {
                    torrent.remaster_year
                } else {
                    group.year
                }) as nat,
            );
            let title = torrent.remaster_title@;
            let tail = if title.len() >= 2 || (title.len() == 1 && title[0] > '\u{7f}') {
                " ("@ + spec_sanitize(title) + ") ["@ + year + "]"@
            } else {
                " ["@ + year + "]"@
            };
            tail.len() <= name.len() && name.subrange(name.len() - tail.len(), name.len() as int) == tail
        }),
{
    reveal_strlit(" (");
    reveal_strlit(") [");
    reveal_strlit(" [");
    reveal_strlit("]");
    let head = spec_artist_label(group) + " - "@ + spec_without_colons(group.name@);
    let year = spec_decimal(spec_release_year(group, torrent) as nat);
    let title = torrent.remaster_title@;
    decimal_is_clean(spec_release_year(group, torrent) as nat);
    sanitize_clean(year);
    sanitize_clean(" ("@);
    sanitize_clean(") ["@);
    sanitize_clean(" ["@);
    sanitize_clean("]"@);
    let name = spec_base_name(group, torrent);
    if spec_title_is_long(title) {
        sanitize_concat(head, " ("@);
        sanitize_concat(head + " ("@, title);
        sanitize_concat(head + " ("@ + title, ") ["@);
        sanitize_concat(head + " ("@ + title + ") ["@, year);
        sanitize_concat(head + " ("@ + title + ") ["@ + year, "]"@);
        let tail = " ("@ + spec_sanitize(title) + ") ["@ + year + "]"@;
        assert(name =~= spec_sanitize(head) + tail);
        assert(name.subrange(name.len() - tail.len(), name.len() as int) =~= tail);
    } else {
        sanitize_concat(head, " ["@);
        sanitize_concat(head + " ["@, year);
        sanitize_concat(head + " ["@ + year, "]"@);
        let tail = " ["@ + year + "]"@;
        assert(name =~= spec_sanitize(head) + tail);
        assert(name.subrange(name.len() - tail.len(), name.len() as int) =~= tail);
    }
}

fn without_colons(s: &str) -> (res: String)
    ensures
        res@ == spec_without_colons(s@),
{
    let cs = chars_of(s);
    let mut out = String::new();
    let ghost pred = |c: char| c != ':';
    let mut i: usize = 0;
    while i < cs.len()
        invariant
            cs@ == s@,
            i <= cs@.len(),
            pred == (|c: char| c != ':'),
            out@ == s@.take(i as int).filter(pred),
        decreases cs@.len() - i,
    {
        proof {
            reveal_with_fuel(Seq::filter, 1);
            assert(s@.take(i + 1).drop_last() =~= s@.take(i as int));
        }
        if cs[i] != ':' {
            push_char(&mut out, cs[i]);
        }
        i = i + 1;
    }
    assert(s@.take(cs@.len() as int) =~= s@);
    out
}

fn sanitize(s: &str) -> (res: String)
    ensures
        res@ == spec_sanitize(s@),
{
    let cs = chars_of(s);
    let mut out = String::new();
    let mut i: usize = 0;
    while i < cs.len()
        invariant
            cs@ == s@,
            i <= cs@.len(),
            out@ == spec_sanitize(s@.take(i as int)),
        decreases cs@.len() - i,
    {
        let c = cs[i];
        push_char(&mut out, if forbidden(c) { '_' } else { c });
        assert(spec_sanitize(s@.take(i + 1)) =~= spec_sanitize(s@.take(i as int)).push(
            if is_forbidden(c) { '_' } else { c },
        ));
        i = i + 1;
    }
    assert(s@.take(cs@.len() as int) =~= s@);
    out
}

/// The base name of a release directory for `torrent` of `group`.
pub fn get_base_name(group: Group, torrent: Torrent) -> (res: String)
    requires
        group.music_info.artists@.len() >= 1,
    ensures
        res@ == spec_base_name(group, torrent),
{
    let mut raw = if group.music_info.artists.len() > 1 {
        owned("Various Artists")
    } else {
        group.music_info.artists[0].name.clone()
    };
    let year = if torrent.remaster_year != 0 {
        torrent.remaster_year
    } else {
        group.year
    };
    let group_name = without_colons(group.name.as_str());
    raw.append(" - ");
    raw.append(group_name.as_str());
    let year_text = decimal(year);
    if title_is_long(torrent.remaster_title.as_str()) {
        raw.append(" (");
        raw.append(torrent.remaster_title.as_str());
        raw.append(") [");
    } else {
        raw.append(" [");
    }
    raw.append(year_text.as_str());
    raw.append("]");
    sanitize(raw.as_str())
}

/// The label of a release type within a release name.
pub open spec fn spec_format_label(format: ReleaseType) -> Seq<char> {
    match format {
        ReleaseType::Flac24 => "FLAC 24bit"@,
        ReleaseType::Flac => "FLAC"@,
        ReleaseType::Mp3320 => "MP3 - 320"@,
        ReleaseType::Mp3V0 => "MP3 - V0"@,
    }
}

/// The label of a release type within a release name.
pub fn format_label(format: ReleaseType) -> (res: &'static str)
    ensures
        res@ == spec_format_label(format),
{
    match format {
        ReleaseType::Flac24 => "FLAC 24bit",
        ReleaseType::Flac => "FLAC",
        ReleaseType::Mp3320 => "MP3 - 320",
        ReleaseType::Mp3V0 => "MP3 - V0",
    }
}

/// The name of a transcoded release: "{base} ({MEDIA} - {format})", with the
/// media upper-cased.
pub fn transcode_release_name(base_name: &str, media: &str, format: ReleaseType) -> (res: String)
    ensures
        res@ == base_name@ + " ("@ + spec_uppercase(media@) + " - "@ + spec_format_label(format)
            + ")"@,
{
    let mut out = owned(base_name);
    out.append(" (");
    let upper = to_uppercase(media);
    out.append(upper.as_str());
    out.append(" - ");
    out.append(format_label(format));
    out.append(")");
    out
}

} // verus!
