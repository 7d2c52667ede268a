use caesura::api::api_error::{action_url, interpret_response, signed_decimal, ApiError};
use caesura::api::model::{Artist, Group, MusicInfo, Torrent};
use caesura::batch::{
    skip_reason, validation_gate, BatchPlan, BatchProgress, ItemFailure, ItemStage, ItemStep, StageOutcome,
};
use caesura::dependencies::{path_order, path_precedes};
use caesura::errors::{AppError, CommandError};
use caesura::queue::summary::{QueueItemStatus, QueueSummary, StageCounts};
use caesura::text::{decimal, join, pad_left, pad_right};
use caesura::transcode::jobs::{
    additional_id, additional_work, plan_additional, AdditionalOptions, AdditionalPlan, AdditionalWork,
    ImageExtension, Resize, Size,
    SpectrogramJob, TargetFormat, CONVERT, SOX,
};
use caesura::transcode::release::ReleaseType;
use caesura::transcode::release::ReleaseType::{Flac, Flac24, Mp3320, Mp3V0};
use caesura::transcode::url_check::{
    announce_url, artists_line, assess_source, flac_directory, locate_torrent, manual_upload, tag_decision, torrent_file_name,
    wanted_formats, TagDecision, UrlOptions, UrlSkip, UrlStage, UrlStep,
};
use caesura::transcode::variant::{transcode_id, TranscodeJob, Variant};
use caesura::upload::{create_description, PackageInfo};
use caesura::verify::issue::SourceIssue;
use caesura::verify::status::VerifyStatus;
use caesura::verify::tags::{TagPresence, TagVerifier};

fn command_error(stderr: &str, stdout: &str) -> CommandError {
    CommandError {
        stderr: stderr.to_owned(),
        stdout: stdout.to_owned(),
        exit_code: Some(1),
        exit_signal: None,
        exit_stopped_signal: None,
    }
}

#[test]
fn command_error_message_prefers_stderr() {
    assert_eq!(command_error("bad", "out").to_string(), "bad");
    assert_eq!(command_error("", "out").to_string(), "out");
    assert_eq!(command_error("", "").to_string(), "unexplained failure");
}

#[test]
fn app_error_messages() {
    let e = AppError::new("read config", "file system");
    assert_eq!(e.to_string(), "Failed to read config\nA file system error occured");
    let e = AppError::command::<()>(command_error("sox died", ""), "transcode", "sox").unwrap_err();
    assert_eq!(e.kind, "sox");
    assert_eq!(e.source, Some("sox died".to_owned()));
    assert_eq!(e.to_string(), "Failed to transcode\nA sox error occured due to sox died");
    let io = std::io::Error::new(std::io::ErrorKind::NotFound, "gone");
    let e = AppError::io::<()>(io, "open file").unwrap_err();
    assert_eq!(e.kind, "file system");
    assert_eq!(e.to_string(), "Failed to open file\nA file system error occured due to gone");
    let json = serde_json::from_str::<u32>("x").unwrap_err();
    let e = AppError::deserialization::<()>(json, "parse").unwrap_err();
    assert_eq!(e.kind, "deserialization");
    assert!(e.source.is_some());
    assert_eq!(AppError::http_kind(Some("Not Found")), "Not Found");
    assert_eq!(AppError::http_kind(None), "API");
}

#[test]
fn api_messages_and_urls() {
    assert_eq!(action_url("https://x.y", "torrent", 42), "https://x.y/ajax.php?action=torrent&id=42");
    assert_eq!(action_url("https://x.y", "download", -7), "https://x.y/ajax.php?action=download&id=-7");
    assert_eq!(signed_decimal(i64::MIN), "-9223372036854775808");
    assert_eq!(signed_decimal(0), "0");
    assert_eq!(ApiError::TorrentNotFound.to_string(), "Torrent not found");
    assert_eq!(
        ApiError::RequestFailure("u".to_owned(), "e".to_owned()).to_string(),
        "API request (u) failed: e"
    );
    assert_eq!(
        ApiError::FileDoesNotExist("/a b".to_owned()).to_string(),
        "File does not exist: \"/a b\""
    );
    assert_eq!(
        ApiError::EmptyResponse.to_string(),
        "API response status was success but response was unexpectedly empty."
    );
}

#[test]
fn api_responses_are_interpreted() {
    assert!(matches!(interpret_response("success", Some(5), ApiError::GroupNotFound), Ok(5)));
    assert!(matches!(
        interpret_response::<u8>("success", None, ApiError::GroupNotFound),
        Err(ApiError::EmptyResponse)
    ));
    assert!(matches!(
        interpret_response("failure", Some(5), ApiError::GroupNotFound),
        Err(ApiError::GroupNotFound)
    ));
}

#[test]
fn batch_stages() {
    let plan = BatchPlan { spectrogram: true, upload: false };
    assert_eq!(plan.first_stage(), ItemStage::Id);
    assert_eq!(plan.after(ItemStage::Id, false), ItemStep::Skip);
    assert_eq!(plan.after(ItemStage::Verify, true), ItemStep::Run(ItemStage::Spectrogram));
    assert_eq!(plan.after(ItemStage::Transcode, true), ItemStep::Run(ItemStage::Save));
    assert_eq!(plan.after(ItemStage::Transcode, false), ItemStep::Fail(ItemFailure::Transcode));
    assert_eq!(plan.after(ItemStage::Save, true), ItemStep::Done);
    let plan = BatchPlan { spectrogram: false, upload: true };
    assert_eq!(plan.after(ItemStage::Verify, true), ItemStep::Run(ItemStage::Transcode));
    assert_eq!(plan.after(ItemStage::Transcode, true), ItemStep::Run(ItemStage::Upload));
    assert_eq!(plan.after(ItemStage::Upload, false), ItemStep::Fail(ItemFailure::Upload));
    assert_eq!(ItemFailure::Upload.reason(), "upload failed");
    assert_eq!(ItemFailure::Transcode.reason(), "transcode failed");
}

#[test]
fn batch_limit_and_reasons() {
    let mut progress = BatchProgress::new(Some(2));
    assert!(!progress.record_done());
    assert!(progress.record_done());
    let mut unlimited = BatchProgress::new(None);
    assert!(!unlimited.record_done());
    assert_eq!(skip_reason(&vec!["a".to_owned(), "b".to_owned()]), "a\nb\n");
    assert_eq!(skip_reason(&Vec::new()), "");
}

fn item(indexer: &str, verify: Option<bool>, upload: Option<bool>) -> QueueItemStatus {
    QueueItemStatus {
        indexer: indexer.to_owned(),
        verify,
        spectrogram: None,
        transcode: verify,
        upload,
    }
}

#[test]
fn queue_summary_counts() {
    let items = vec![
        item("red", Some(true), Some(true)),
        item("ops", Some(false), None),
        item("red", None, None),
    ];
    let summary = QueueSummary::from_items(&items);
    assert_eq!(summary.total, 3);
    assert_eq!(summary.indexer, vec![("red".to_owned(), 2), ("ops".to_owned(), 1)]);
    assert_eq!(summary.verify, StageCounts { none: 1, success: 1, failure: 1 });
    assert_eq!(summary.spectrogram, StageCounts { none: 3, success: 0, failure: 0 });
    assert_eq!(summary.upload, StageCounts { none: 2, success: 1, failure: 0 });
    for counts in [summary.verify, summary.spectrogram, summary.transcode, summary.upload] {
        assert_eq!(counts.none + counts.success + counts.failure, summary.total);
    }
}

#[test]
fn batch_item_processed_only_when_every_stage_succeeds() {
    let plan = BatchPlan { spectrogram: true, upload: true };
    let mut stage = plan.first_stage();
    let mut steps = 0;
    loop {
        match plan.after(stage, true) {
            ItemStep::Run(next) => stage = next,
            ItemStep::Done => break,
            other => panic!("unexpected step {other:?}"),
        }
        steps += 1;
    }
    assert_eq!(steps, 7 - 1);
    assert_eq!(plan.after(ItemStage::Source, false), ItemStep::Skip);
}

#[test]
fn text_helpers() {
    assert_eq!(decimal(0), "0");
    assert_eq!(decimal(u64::MAX), "18446744073709551615");
    assert_eq!(pad_left("7", 3), "  7");
    assert_eq!(pad_left("1234", 3), "1234");
    assert_eq!(pad_right("V0", 7), "V0     ");
    assert_eq!(join(&vec!["a".to_owned(), "b".to_owned()], ", "), "a, b");
}

#[test]
fn job_commands() {
    let info = Resize {
        input: "in.png".to_owned(),
        output: "out.jpg".to_owned(),
        max_pixel_size: 1280,
        quality: 80,
    }
    .to_info();
    assert_eq!(info.program, CONVERT);
    assert_eq!(
        info.args,
        vec!["in.png", "-resize", "1280x1280>", "-quality", "80%", "out.jpg"]
    );
    let job = SpectrogramJob {
        id: "s".to_owned(),
        source_path: "a.flac".to_owned(),
        output_path: "a.png".to_owned(),
        image_title: "A".to_owned(),
        size: Size::Zoom,
    };
    let info = job.to_info();
    assert_eq!(info.program, SOX);
    assert_eq!(
        info.args,
        vec![
            "a.flac", "-n", "remix", "1", "spectrogram", "-x", "500", "-y", "1025", "-z", "120",
            "-w", "Kaiser", "-S", "1:00", "-d", "0:02", "-t", "A", "-c", "red_oxide", "-o", "a.png"
        ]
    );
    let full = SpectrogramJob { size: Size::Full, ..job }.to_info();
    assert_eq!(full.args.len(), 19);
    assert_eq!(full.args[5..9], ["-x", "3000", "-y", "513"]);
}

#[test]
fn additional_files() {
    let options = AdditionalOptions {
        max_file_size: 1000,
        no_image_compression: false,
        no_png_to_jpg: false,
        hard_link: true,
    };
    assert_eq!(
        plan_additional("png", 5000, &options, false),
        AdditionalPlan::Resize { output_extension: Some(ImageExtension::Jpg) }
    );
    assert_eq!(
        plan_additional("png", 5000, &options, true),
        AdditionalPlan::Resize { output_extension: Some(ImageExtension::PngJpg) }
    );
    assert_eq!(
        plan_additional("jpg", 5000, &options, false),
        AdditionalPlan::Resize { output_extension: None }
    );
    assert_eq!(
        plan_additional("pdf", 5000, &options, false),
        AdditionalPlan::Include { hard_link: true, large_warning: Some(5) }
    );
    assert_eq!(
        plan_additional("png", 10, &options, false),
        AdditionalPlan::Include { hard_link: true, large_warning: None }
    );
    assert_eq!(ImageExtension::PngJpg.as_str(), "png.jpg");
    assert_eq!(additional_id(TargetFormat::V0, 7), "Additional V0       7");
    assert_eq!(TargetFormat::_320.debug_name(), "_320");
    assert!(TargetFormat::V0.is_mp3());
    assert!(!TargetFormat::Flac.is_mp3());
}

#[test]
fn variants_by_target() {
    assert!(matches!(
        Variant::for_target(TargetFormat::Flac, "i".to_owned(), "o".to_owned(), Some(48000), false),
        Variant::Resample(r) if r.resample_rate == 48000
    ));
    assert!(matches!(
        Variant::for_target(TargetFormat::Flac, "i".to_owned(), "o".to_owned(), None, true),
        Variant::Include(i) if i.hard_link
    ));
    assert!(matches!(
        Variant::for_target(TargetFormat::V0, "i".to_owned(), "o".to_owned(), None, true),
        Variant::Transcode(d, e) if d.resample_rate.is_none() && e.format == TargetFormat::V0
    ));
}

#[test]
fn permalinks() {
    let torrents = vec![
        Torrent { id: 1, ..Torrent::default() },
        Torrent { id: 2, ..Torrent::default() },
    ];
    assert_eq!(locate_torrent(None, Some(1), &torrents), Err(UrlSkip::InvalidPermalink));
    assert_eq!(locate_torrent(Some(9), None, &torrents), Err(UrlSkip::InvalidPermalink));
    assert_eq!(locate_torrent(Some(9), Some(2), &torrents), Ok(1));
    assert_eq!(locate_torrent(Some(9), Some(3), &torrents), Err(UrlSkip::TorrentNotFound));
    let scene = Torrent { scene: true, ..Torrent::default() };
    let a = assess_source(&scene, &vec![None], ReleaseType::Flac);
    assert_eq!(a.skip, Some(UrlSkip::SceneRelease));
    assert!(!a.unknown_encoding);
    let lossy = Torrent { lossy_web_approved: true, ..Torrent::default() };
    let a = assess_source(&lossy, &vec![Some(ReleaseType::Flac), None], ReleaseType::Flac);
    assert_eq!(a.skip, None);
    assert!(a.lossy_warning);
    assert!(a.unknown_encoding);
    let a = assess_source(&Torrent::default(), &Vec::new(), ReleaseType::Flac24);
    assert_eq!(a.skip, None);
    assert!(!a.lossy_warning);
    let a = assess_source(&Torrent::default(), &Vec::new(), ReleaseType::Mp3V0);
    assert_eq!(a.skip, Some(UrlSkip::NotFlac));
}

#[test]
fn permalink_formats_and_stages() {
    let allowed = vec![Flac, Mp3320, Mp3V0];
    let existing = vec![Some(Flac24), None, Some(Mp3320)];
    assert_eq!(wanted_formats(&allowed, &existing, Flac24, false), vec![Flac, Mp3V0]);
    assert_eq!(wanted_formats(&allowed, &existing, Flac, true), vec![Mp3320, Mp3V0]);
    let options = UrlOptions { skip_hash_check: false, skip_spectrogram: false };
    assert_eq!(options.first_step(&Vec::new()), UrlStep::Skip(UrlSkip::NothingToTranscode));
    assert_eq!(options.first_step(&vec![Flac]), UrlStep::Run(UrlStage::ReadTags));
    assert_eq!(options.after(UrlStage::ReadTags, true), UrlStep::Run(UrlStage::HashCheck));
    assert_eq!(options.after(UrlStage::ReadTags, false), UrlStep::Skip(UrlSkip::InvalidTags));
    assert_eq!(options.after(UrlStage::HashCheck, false), UrlStep::Skip(UrlSkip::HashCheckFailed));
    assert_eq!(options.after(UrlStage::HashCheck, true), UrlStep::Run(UrlStage::Spectrograms));
    assert_eq!(options.after(UrlStage::Spectrograms, false), UrlStep::Stop);
    assert_eq!(options.after(UrlStage::ReviewSpectrograms, false), UrlStep::Skip(UrlSkip::SpectrogramsRejected));
    assert_eq!(options.after(UrlStage::CheckChannels, false), UrlStep::Skip(UrlSkip::Multichannel));
    assert_eq!(options.after(UrlStage::CheckChannels, true), UrlStep::Run(UrlStage::Transcode));
    assert_eq!(options.after(UrlStage::Transcode, true), UrlStep::Done);
    let quick = UrlOptions { skip_hash_check: true, skip_spectrogram: true };
    assert_eq!(quick.after(UrlStage::ReadTags, true), UrlStep::Run(UrlStage::CheckChannels));
    let mut stage = UrlStage::ReadTags;
    let mut count = 0;
    loop {
        match options.after(stage, true) {
            UrlStep::Run(next) => stage = next,
            UrlStep::Done => break,
            other => panic!("unexpected step {other:?}"),
        }
        count += 1;
    }
    assert_eq!(count, 5);
}

#[test]
fn permalink_helpers() {
    assert_eq!(tag_decision(true, false), TagDecision { acceptable: true, manual_upload_required: false });
    assert_eq!(tag_decision(false, true), TagDecision { acceptable: true, manual_upload_required: true });
    assert_eq!(tag_decision(false, false), TagDecision { acceptable: false, manual_upload_required: false });
    assert!(manual_upload(false, false));
    assert!(manual_upload(true, true));
    assert!(!manual_upload(true, false));
    assert_eq!(announce_url("https://t.example", "abc"), "https://t.example/abc/announce");
    assert_eq!(torrent_file_name("A - B [2000] (WEB - FLAC)"), "A - B [2000] (WEB - FLAC).torrent");
    let group = Group {
        music_info: MusicInfo {
            artists: vec![
                Artist { id: 1, name: "A".to_owned() },
                Artist { id: 2, name: "B".to_owned() },
            ],
        },
        ..Group::default()
    };
    assert_eq!(artists_line(&group), "Artist(s): A, B");
}

#[test]
fn tags_required_of_sources() {
    let none = TagPresence::default();
    let classical = vec!["rock".to_owned(), "classical".to_owned()];
    assert!(TagVerifier::is_classical(&classical));
    assert_eq!(
        TagVerifier::missing(&none, &classical),
        vec!["artist", "album", "title", "composer", "track_number"]
    );
    assert_eq!(
        TagVerifier::missing(&none, &vec!["rock".to_owned()]),
        vec!["artist", "album", "title", "track_number"]
    );
    let all = TagPresence { artist: true, album: true, title: true, composer: true, track_number: true };
    assert!(TagVerifier::missing(&all, &classical).is_empty());
}

#[test]
fn verify_statuses() {
    assert!(VerifyStatus::verified().verified);
    let s = VerifyStatus::from_issues(Vec::new());
    assert!(s.verified && s.issues.is_none());
    let s = VerifyStatus::from_issues(vec![SourceIssue::ExcessContent]);
    assert!(!s.verified);
    assert_eq!(s.issues.map(|v| v.len()), Some(1));
    let s = VerifyStatus::from_issue(SourceIssue::HashCheck { piece_index: 3 });
    assert!(!s.verified);
}

#[test]
fn upload_description() {
    let package = PackageInfo {
        name: "caesura".to_owned(),
        version: "1.0.0".to_owned(),
        repository: "https://repo".to_owned(),
    };
    let text = create_description(
        &package,
        "https://x/torrents.php?id=1&torrentid=2",
        "FLAC",
        &vec!["flac -d | lame".to_owned()],
        Some("info"),
    );
    assert_eq!(
        text,
        "[quote]Transcoded and uploaded with [url=https://repo][b]caesura[/b] v1.0.0[/url][/quote]\
[quote][pad=0|10|0|20]Source[/pad] [url=https://x/torrents.php?id=1&torrentid=2]FLAC[/url][/quote]\
[quote][pad=0|10|0|0]Transcode[/pad] [code]flac -d | lame[/code][/quote]\
[quote][pad=0|10|0|19]Details[/pad] [hide][pre]info[/pre][/hide][/quote]\
[quote][url=https://repo]Learn how easy it is to create and upload transcodes yourself![/url][/quote]"
    );
    let short = create_description(&package, "u", "t", &Vec::new(), None);
    assert!(!short.contains("Details"));
}

#[test]
fn additional_work_builds_the_job() {
    let work = additional_work(
        4,
        TargetFormat::_320,
        "/src/CD1/cover.png",
        "/out/A (320)",
        "CD1",
        "cover.png",
        AdditionalPlan::Resize { output_extension: Some(ImageExtension::PngJpg) },
        1280,
        80,
    );
    match work {
        AdditionalWork::Resize(job) => {
            assert_eq!(job.id, "Additional _320     4");
            assert_eq!(job.resize.input, "/src/CD1/cover.png");
            assert_eq!(job.resize.output, "/out/A (320)/CD1/cover.png.jpg");
            assert_eq!(job.resize.max_pixel_size, 1280);
            assert_eq!(job.resize.quality, 80);
        }
        AdditionalWork::Include { .. } => panic!("expected a resize"),
    }
    let work = additional_work(
        0,
        TargetFormat::Flac,
        "/src/log.txt",
        "/out/A (FLAC)",
        "",
        "log.txt",
        AdditionalPlan::Include { hard_link: true, large_warning: None },
        1280,
        80,
    );
    match work {
        AdditionalWork::Include { source, destination, hard_link, large_warning } => {
            assert_eq!(source, "/src/log.txt");
            assert_eq!(destination, "/out/A (FLAC)/log.txt");
            assert!(hard_link);
            assert_eq!(large_warning, None);
        }
        AdditionalWork::Resize(_) => panic!("expected an include"),
    }
}

#[test]
fn transcode_jobs_have_ids_and_tags_for_mp3() {
    assert_eq!(TargetFormat::Flac.name(), "FLAC");
    assert_eq!(transcode_id(TargetFormat::V0, 12), "Transcode V0   12");
    assert_eq!(transcode_id(TargetFormat::Flac, 3), "Transcode FLAC  3");
    let job = TranscodeJob::new(1, TargetFormat::_320, "i".to_owned(), "o".to_owned(), None, false, Some(7u8));
    assert_eq!(job.id, "Transcode 320   1");
    assert_eq!(job.tags, Some(7));
    assert!(matches!(job.variant, Variant::Transcode(_, _)));
    let job = TranscodeJob::new(2, TargetFormat::Flac, "i".to_owned(), "o".to_owned(), None, true, Some(7u8));
    assert_eq!(job.tags, None);
    assert!(matches!(job.variant, Variant::Include(_)));
}

#[test]
fn flac_directory_decodes_entities() {
    assert_eq!(flac_directory("/content", "Artist &amp; Band - Album"), "/content/Artist & Band - Album");
    assert_eq!(flac_directory("/content", "Plain"), "/content/Plain");
}

#[test]
fn paths_are_ordered_component_wise() {
    let paths = vec![
        "a-b/x.flac".to_owned(),
        "a/b.flac".to_owned(),
        "a/a.flac".to_owned(),
        "B.flac".to_owned(),
    ];
    assert_eq!(path_order(&paths), vec![3, 2, 1, 0]);
    assert!(path_precedes("a/z", "a-b"));
    assert!(!path_precedes("a", "a"));
    assert!(path_precedes("a", "a/b"));
    assert_eq!(path_order(&Vec::new()), Vec::<usize>::new());
}

#[test]
fn batch_gate_and_errors() {
    assert!(validation_gate(&vec![true, true]));
    assert!(!validation_gate(&vec![true, false, true]));
    assert!(validation_gate(&Vec::new()));
    let plan = BatchPlan { spectrogram: true, upload: true };
    assert_eq!(plan.after_outcome(ItemStage::Id, StageOutcome::Errored), ItemStep::Skip);
    assert_eq!(plan.after_outcome(ItemStage::Source, StageOutcome::Errored), ItemStep::Skip);
    assert_eq!(plan.after_outcome(ItemStage::Spectrogram, StageOutcome::Errored), ItemStep::Abort);
    assert_eq!(plan.after_outcome(ItemStage::Spectrogram, StageOutcome::Failed), ItemStep::Run(ItemStage::Transcode));
    assert_eq!(plan.after_outcome(ItemStage::Transcode, StageOutcome::Errored), ItemStep::Abort);
    assert_eq!(plan.after_outcome(ItemStage::Transcode, StageOutcome::Failed), ItemStep::Fail(ItemFailure::Transcode));
    assert_eq!(plan.after_outcome(ItemStage::Upload, StageOutcome::Errored), ItemStep::Abort);
    assert_eq!(plan.after_outcome(ItemStage::Save, StageOutcome::Errored), ItemStep::Abort);
    assert_eq!(plan.after_outcome(ItemStage::Save, StageOutcome::Succeeded), ItemStep::Done);
}
