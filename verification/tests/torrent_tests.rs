use caesura::torrent::actions::{TorrentCreateAction, TorrentReadAction, TorrentVerifyAction};
use caesura::torrent::creator::{DuplicatePlan, TorrentCreator, TorrentSettings, APP_NAME};
use caesura::torrent::indexer::Indexer;
use caesura::torrent::metadata::{insert, BencodeValue, TorrentFile, TorrentInfo};
use caesura::torrent::piece_length::{num_threads, piece_length, threads_for, MAX_THREADS};
use caesura::torrent::torrent_verifier::{get_file_paths, HashEvent, TorrentVerifier, VerifyStep};
use caesura::verify::issue::SourceIssue;

const KIB: i64 = 1024;
const MIB: i64 = KIB * 1024;
const GIB: i64 = MIB * 1024;

fn length_and_count(size: i64) -> (i64, i64) {
    let length = piece_length(size as u64);
    let count = (size + length - 1) / length;
    (length, count)
}

#[test]
#[allow(clippy::identity_op)]
fn _piece_length() {
    assert_eq!(length_and_count(1), (16 * KIB, 1));
    assert_eq!(length_and_count(1 * MIB), (16 * KIB, 64));
    assert_eq!(length_and_count(5 * MIB), (32 * KIB, 160));
    assert_eq!(length_and_count(10 * MIB), (64 * KIB, 160));
    assert_eq!(length_and_count(50 * MIB), (128 * KIB, 400));
    assert_eq!(length_and_count(100 * MIB), (128 * KIB, 800));
    assert_eq!(length_and_count(150 * MIB), (256 * KIB, 600));
    assert_eq!(length_and_count(250 * MIB), (256 * KIB, 1_000));
    assert_eq!(length_and_count(500 * MIB), (256 * KIB, 2_000));
    assert_eq!(length_and_count(750 * MIB), (512 * KIB, 1_500));
    assert_eq!(length_and_count(1 * GIB), (512 * KIB, 2_048));
    assert_eq!(length_and_count(2 * GIB), (512 * KIB, 4_096));
    assert_eq!(length_and_count(5 * GIB), (1 * MIB, 5_120));
    assert_eq!(length_and_count(10 * GIB), (2 * MIB, 5_120));
    assert_eq!(length_and_count(15 * GIB), (2 * MIB, 7_680));
    assert_eq!(length_and_count(20 * GIB), (2 * MIB, 10_240));
    assert_eq!(length_and_count(50 * GIB), (4 * MIB, 12_800));
    assert_eq!(length_and_count(100 * GIB), (4 * MIB, 25_600));
    assert_eq!(length_and_count(500 * GIB), (8 * MIB, 64_000));
    assert_eq!(length_and_count(1024 * GIB), (16 * MIB, 65_536));
    assert_eq!(piece_length(u64::MAX), 16 * MIB);
}

#[test]
fn piece_length_edges() {
    assert_eq!(piece_length(0), 16 * KIB);
    assert_eq!(piece_length(2), 16 * KIB);
    assert_eq!(piece_length(1 << 21), 16 * KIB);
    assert_eq!(piece_length((1 << 21) + 1), 32 * KIB);
    let mut previous = 0;
    for shift in 0..64 {
        let length = piece_length(1u64 << shift);
        assert!(length >= previous);
        assert!(length >= 16 * KIB && length <= 16 * MIB);
        assert_eq!(length & (length - 1), 0);
        previous = length;
    }
}

#[test]
fn threads_are_capped() {
    assert_eq!(threads_for(1), 1);
    assert_eq!(threads_for(4), 4);
    assert_eq!(threads_for(128), MAX_THREADS);
    let n = num_threads();
    assert!(n >= 1 && n <= MAX_THREADS);
}

fn torrent_with_source(source: Option<&str>) -> TorrentInfo {
    let extra_info_fields =
        source.map(|s| vec![("source".to_owned(), BencodeValue::String(s.to_owned()))]);
    TorrentInfo {
        announce: None,
        announce_list: None,
        length: 0,
        files: None,
        name: String::new(),
        piece_length: 16384,
        pieces: Vec::new(),
        extra_fields: None,
        extra_info_fields,
    }
}

fn test(source: &str, torrent_source: &str) -> bool {
    let torrent = torrent_with_source(Some(torrent_source));
    let source = Indexer::from(source);
    torrent.is_source_equal(&source)
}

#[test]
fn is_source_equal() {
    assert!(test("ops", "ops"));
    assert!(test("pth", "pth"));
    assert!(test("red", "red"));
    assert!(test("red", "RED"));
    assert!(test("RED", "RED"));
    assert!(test("red", "pth"));
    assert!(test("red", "PTH"));
    assert!(test("abc", "AbC"));
    assert!(!test("red", "ops"));
    assert!(!test("red", "OPS"));
    assert!(!test("RED", "OPS"));
    assert!(!test("pth", "red"));
}

#[test]
fn is_source_equal_without_source_is_false() {
    let torrent = torrent_with_source(None);
    assert!(!torrent.is_source_equal(&Indexer::from("red")));
    assert_eq!(torrent.source(), None);
}

#[test]
fn indexer_from_is_case_insensitive() {
    assert!(matches!(Indexer::from("RED"), Indexer::Red));
    assert!(matches!(Indexer::from("Pth"), Indexer::Pth));
    assert!(matches!(Indexer::from("ops"), Indexer::Ops));
    assert_eq!(Indexer::from("AbC").name(), "abc");
    assert_eq!(Indexer::from("RED").name(), "red");
}

#[test]
fn extra_field_accessors() {
    let mut torrent = torrent_with_source(Some("OPS"));
    torrent.extra_fields = Some(vec![
        ("comment".to_owned(), BencodeValue::String("hello".to_owned())),
        ("created by".to_owned(), BencodeValue::String("caesura 1.0".to_owned())),
        ("creation date".to_owned(), BencodeValue::Integer(0)),
    ]);
    assert_eq!(torrent.source(), Some("OPS"));
    assert_eq!(torrent.comment(), Some("hello"));
    assert_eq!(torrent.created_by(), Some("caesura 1.0"));
}

#[test]
fn insert_replaces_or_appends() {
    let mut entries = vec![
        ("a".to_owned(), BencodeValue::Integer(1)),
        ("source".to_owned(), BencodeValue::String("RED".to_owned())),
    ];
    insert(&mut entries, "source".to_owned(), BencodeValue::String("OPS".to_owned()));
    assert_eq!(entries.len(), 2);
    assert!(matches!(&entries[1].1, BencodeValue::String(s) if s == "OPS"));
    insert(&mut entries, "b".to_owned(), BencodeValue::Integer(2));
    assert_eq!(entries.len(), 3);
    assert_eq!(entries[2].0, "b");
}

#[test]
fn settings_follow_content_and_indexer() {
    let settings = TorrentSettings::new(
        5 * 1024 * 1024,
        "https://example.com/announce".to_owned(),
        "red",
        None,
        "v1.2.3",
    );
    assert_eq!(settings.piece_length, 32 * KIB);
    assert_eq!(settings.announce, "https://example.com/announce");
    assert!(settings.private);
    assert_eq!(settings.created_by, format!("{APP_NAME} v1.2.3"));
    assert_eq!(settings.creation_date, 0);
    assert_eq!(settings.source, "RED");
    assert_eq!(settings.name, None);
    let settings = TorrentSettings::new(1, "u".to_owned(), "tst", Some("n".to_owned()), "x");
    assert_eq!(settings.source, "TST");
    assert_eq!(settings.name, Some("n".to_owned()));
}

fn announced(source: &str, announce: &str) -> TorrentInfo {
    let mut torrent = torrent_with_source(Some(source));
    torrent.announce = Some(announce.to_owned());
    torrent.pieces = vec![vec![1; 20], vec![2; 20]];
    torrent
}

#[test]
fn duplicate_copies_when_source_and_announce_match() {
    let torrent = announced("RED", "https://a/announce");
    let plan = TorrentCreator::duplicate_plan(torrent, "https://a/announce".to_owned(), "red");
    assert!(matches!(plan, DuplicatePlan::Copy));
}

#[test]
fn duplicate_rewrites_when_source_differs() {
    let torrent = announced("RED", "https://a/announce");
    let plan = TorrentCreator::duplicate_plan(torrent, "https://other/announce".to_owned(), "ops");
    match plan {
        DuplicatePlan::Rewrite(t) => {
            assert_eq!(t.announce, Some("https://other/announce".to_owned()));
            assert!(t.announce_list.is_none());
            assert_eq!(t.source(), Some("OPS"));
            assert_eq!(t.pieces, vec![vec![1; 20], vec![2; 20]]);
        }
        DuplicatePlan::Copy => panic!("expected a rewrite"),
    }
}

#[test]
fn duplicate_rewrites_when_announce_differs() {
    let mut torrent = announced("RED", "https://a/announce");
    torrent.announce_list = Some(vec![vec!["https://tier/announce".to_owned()]]);
    let plan = TorrentCreator::duplicate_plan(torrent, "https://a/announce".to_owned(), "red");
    match plan {
        DuplicatePlan::Rewrite(t) => {
            assert_eq!(t.announce, Some("https://a/announce".to_owned()));
            assert!(t.announce_list.is_none());
            assert_eq!(t.source(), Some("RED"));
        }
        DuplicatePlan::Copy => panic!("expected a rewrite"),
    }
}

#[test]
fn first_announce_prefers_the_announce_list() {
    let mut torrent = announced("RED", "https://a/announce");
    assert_eq!(torrent.first_announce(), Some("https://a/announce".to_owned()));
    torrent.announce_list = Some(vec![vec!["https://t1".to_owned(), "https://t2".to_owned()]]);
    assert_eq!(torrent.first_announce(), Some("https://t1".to_owned()));
}

#[test]
fn digest_piece_is_sha1() {
    assert!(TorrentVerifier::digest_piece(&[]).is_none());
    let digest = TorrentVerifier::digest_piece(b"abc").expect("non-empty chunk");
    let expected: Vec<u8> = vec![
        0xa9, 0x99, 0x3e, 0x36, 0x47, 0x06, 0x81, 0x6a, 0xba, 0x3e, 0x25, 0x71, 0x78, 0x50, 0xc2,
        0x6c, 0x9c, 0xd0, 0xd8, 0x9d,
    ];
    assert_eq!(digest, expected);
}

#[test]
fn verify_steps_through_pieces() {
    let a = TorrentVerifier::digest_piece(b"first").expect("digest");
    let b = TorrentVerifier::digest_piece(b"second").expect("digest");
    let pieces = vec![a.clone(), b.clone()];
    assert!(matches!(TorrentVerifier::step(&pieces, 0, HashEvent::Digest(a.clone())), VerifyStep::Continue));
    assert!(matches!(
        TorrentVerifier::step(&pieces, 1, HashEvent::Digest(a.clone())),
        VerifyStep::Finished(Some(SourceIssue::HashCheck { piece_index: 1 }))
    ));
    assert!(matches!(
        TorrentVerifier::step(&pieces, 1, HashEvent::End),
        VerifyStep::Finished(Some(SourceIssue::HashCheck { piece_index: 1 }))
    ));
    assert!(matches!(TorrentVerifier::step(&pieces, 2, HashEvent::End), VerifyStep::Finished(None)));
    assert!(matches!(
        TorrentVerifier::step(&pieces, 2, HashEvent::Digest(b)),
        VerifyStep::Finished(Some(SourceIssue::ExcessContent))
    ));
    assert!(matches!(TorrentVerifier::step(&pieces, 0, HashEvent::ReadError), VerifyStep::Failed));
}

#[test]
fn file_paths_follow_the_torrent() {
    let mut torrent = torrent_with_source(None);
    torrent.name = "album".to_owned();
    assert_eq!(get_file_paths(&torrent, "/content"), vec!["/content/album".to_owned()]);
    torrent.files = Some(vec![
        TorrentFile { length: 1, path: "a/1.flac".to_owned(), extra_fields: None },
        TorrentFile { length: 2, path: "2.flac".to_owned(), extra_fields: None },
    ]);
    assert_eq!(
        get_file_paths(&torrent, "/content"),
        vec!["/content/a/1.flac".to_owned(), "/content/2.flac".to_owned()]
    );
}

#[test]
fn action_messages() {
    assert_eq!(TorrentCreateAction::BuildTorrent.to_string(), "build torrent");
    assert_eq!(TorrentCreateAction::CopyTorrent.to_string(), "copy torrent");
    assert_eq!(TorrentCreateAction::ReadDirectory.to_string(), "read directory");
    assert_eq!(TorrentCreateAction::ReadMetadata.to_string(), "read metadata");
    assert_eq!(TorrentCreateAction::ReadTorrent.to_string(), "read torrent");
    assert_eq!(TorrentCreateAction::WriteTorrent.to_string(), "write torrent");
    assert_eq!(TorrentReadAction::ReadTorrent.to_string(), "read torrent");
    assert_eq!(TorrentVerifyAction::ReadTorrent.to_string(), "read torrent");
    assert_eq!(TorrentVerifyAction::HashContent.to_string(), "hash content");
}

#[test]
fn well_formed_info_keys() {
    let mut torrent = torrent_with_source(Some("RED"));
    assert!(torrent.is_well_formed());
    torrent.extra_info_fields = Some(vec![
        ("source".to_owned(), BencodeValue::Integer(1)),
        ("x".to_owned(), BencodeValue::Integer(2)),
        ("source".to_owned(), BencodeValue::Integer(3)),
    ]);
    assert!(!torrent.is_well_formed());
    assert!(torrent_with_source(None).is_well_formed());
}
