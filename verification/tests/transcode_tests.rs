use caesura::api::model::{Artist, Group, MusicInfo, Torrent};
use caesura::transcode::release::{format_label, get_base_name, get_transcode_formats, transcode_release_name, ReleaseType};
use caesura::transcode::release::ReleaseType::{Flac, Flac24, Mp3320, Mp3V0};

#[test]
fn get_transcode_formats_from_flac24_skips_existing() {
    let allowed_transcode_formats = vec![Flac, Mp3320, Mp3V0];
    let existing_formats = vec![Flac24, Mp3320];
    let result = get_transcode_formats(&allowed_transcode_formats, existing_formats);
    assert_eq!(result, [Flac, Mp3V0]);
}

#[test]
fn get_transcode_formats_from_flac_skips_existing() {
    let allowed_transcode_formats = vec![Flac, Mp3320, Mp3V0];
    let existing_formats = vec![Flac, Mp3320];
    let result = get_transcode_formats(&allowed_transcode_formats, existing_formats);
    assert_eq!(result, [Mp3V0]);
}

#[test]
fn get_transcode_formats_from_flac24_without_skips_exiting() {
    let allowed_transcode_formats = vec![Flac, Mp3320, Mp3V0];
    let source_format = Flac;
    let existing_formats = vec![source_format];
    let result = get_transcode_formats(&allowed_transcode_formats, existing_formats);
    assert_eq!(result, [Mp3320, Mp3V0]);
}

#[test]
fn get_transcode_formats_from_flac_without_skips_existing() {
    let allowed_transcode_formats = vec![Flac, Mp3320, Mp3V0];
    let source_format = Flac;
    let existing_formats = vec![source_format];
    let result = get_transcode_formats(&allowed_transcode_formats, existing_formats);
    assert_eq!(result, [Mp3320, Mp3V0]);
}

#[test]
fn get_transcode_formats_from_flac_applies_allowed() {
    let allowed_transcode_formats = vec![Mp3320, Mp3V0];
    let existing_formats = vec![Flac, Mp3320];
    let result = get_transcode_formats(&allowed_transcode_formats, existing_formats);
    assert_eq!(result, [Mp3V0]);
}

#[test]
fn get_transcode_formats_from_flac_applies_allowed_none() {
    let allowed_transcode_formats = vec![Mp3320];
    let existing_formats = vec![Flac, Mp3320];
    let result = get_transcode_formats(&allowed_transcode_formats, existing_formats);
    assert_eq!(result, Vec::<ReleaseType>::new());
}

#[test]
fn get_transcode_formats_never_yields_flac24() {
    let result = get_transcode_formats(&vec![Flac24, Flac, Flac24], Vec::new());
    assert_eq!(result, [Flac]);
}

fn group(artists: &[&str], name: &str, year: u64) -> Group {
    Group {
        name: name.to_owned(),
        year,
        music_info: MusicInfo {
            artists: artists
                .iter()
                .map(|a| Artist { id: 1, name: (*a).to_owned() })
                .collect(),
        },
        ..Group::default()
    }
}

fn torrent(remaster_year: u64, remaster_title: &str) -> Torrent {
    Torrent {
        remaster_year,
        remaster_title: remaster_title.to_owned(),
        media: "web".to_owned(),
        ..Torrent::default()
    }
}

#[test]
fn base_name_single_artist() {
    let name = get_base_name(group(&["Artist"], "Album", 2001), torrent(2010, ""));
    assert_eq!(name, "Artist - Album [2010]");
}

#[test]
fn base_name_various_artists_and_group_year() {
    let name = get_base_name(group(&["A", "B"], "Best: Of", 1999), torrent(0, "Deluxe"));
    assert_eq!(name, "Various Artists - Best Of (Deluxe) [1999]");
}

#[test]
fn base_name_short_title_and_forbidden_characters() {
    let name = get_base_name(group(&["AC/DC"], "Why?", 1980), torrent(1980, "X"));
    assert_eq!(name, "AC_DC - Why_ [1980]");
    let name = get_base_name(group(&["A"], "B", 1980), torrent(1980, "é"));
    assert_eq!(name, "A - B (é) [1980]");
}

#[test]
fn release_name_adds_media_and_format() {
    assert_eq!(format_label(Flac24), "FLAC 24bit");
    assert_eq!(format_label(Flac), "FLAC");
    assert_eq!(format_label(Mp3320), "MP3 - 320");
    assert_eq!(format_label(Mp3V0), "MP3 - V0");
    assert_eq!(transcode_release_name("A - B [2000]", "web", Mp3V0), "A - B [2000] (WEB - MP3 - V0)");
}
