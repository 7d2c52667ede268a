use caesura::dependencies::{details_tool, DetailsTool, EyeD3Command, MetaflacCommand, EYED3, METAFLAC};
use caesura::transcode::jobs::TargetFormat;
use caesura::upload::{
    missing_torrent_message, StepOutcome, UploadFormatStatus, UploadRun, UploadStep, UploadSteps,
};
use caesura::verify::status::TimeStamp;

#[test]
fn target_steps_follow_options() {
    let all = UploadSteps {
        copy_torrent_to: true,
        copy_transcode_to_content_dir: true,
        copy_transcode_to: true,
        dry_run: false,
    };
    assert_eq!(
        all.target_steps(),
        vec![
            UploadStep::CheckTorrent,
            UploadStep::VerifyContent,
            UploadStep::CopyTorrent,
            UploadStep::CopyToContent,
            UploadStep::CopyTranscode,
            UploadStep::Upload,
        ]
    );
    let none = UploadSteps {
        copy_torrent_to: false,
        copy_transcode_to_content_dir: false,
        copy_transcode_to: false,
        dry_run: true,
    };
    assert_eq!(
        none.target_steps(),
        vec![UploadStep::CheckTorrent, UploadStep::VerifyContent, UploadStep::DryRun]
    );
}

#[test]
fn copy_failures_are_recoverable() {
    assert!(UploadStep::CheckTorrent.is_fatal());
    assert!(UploadStep::VerifyContent.is_fatal());
    assert!(UploadStep::Upload.is_fatal());
    assert!(!UploadStep::CopyTorrent.is_fatal());
    assert!(!UploadStep::CopyToContent.is_fatal());
    assert!(!UploadStep::CopyTranscode.is_fatal());
}

#[test]
fn upload_run_records_errors_and_formats() {
    let mut run = UploadRun::new();
    assert!(run.success());
    run.record(UploadStep::CheckTorrent, StepOutcome::Succeeded);
    run.record(UploadStep::CopyTorrent, StepOutcome::Failed("copy failed".to_owned()));
    assert!(run.success());
    run.record(UploadStep::Upload, StepOutcome::Uploaded(UploadFormatStatus { format: TargetFormat::V0, id: 7 }));
    run.record(UploadStep::DryRun, StepOutcome::Uploaded(UploadFormatStatus { format: TargetFormat::V0, id: 8 }));
    run.record(UploadStep::Upload, StepOutcome::Failed("rejected".to_owned()));
    assert!(!run.success());
    let status = run.finish(TimeStamp { seconds: 5 });
    assert!(!status.success);
    assert_eq!(status.completed, TimeStamp { seconds: 5 });
    assert_eq!(status.errors, Some(vec!["copy failed".to_owned(), "rejected".to_owned()]));
    let formats = status.formats.expect("one format uploaded");
    assert_eq!(formats.len(), 1);
    assert_eq!(formats[0].id, 7);
}

#[test]
fn upload_run_without_events() {
    let status = UploadRun::new().finish(TimeStamp { seconds: 1 });
    assert!(status.success);
    assert!(status.errors.is_none());
    assert!(status.formats.is_none());
}

#[test]
fn missing_torrent() {
    assert_eq!(
        missing_torrent_message("/t/a.torrent"),
        "The torrent file does not exist: /t/a.torrent"
    );
}

#[test]
fn metadata_commands() {
    let info = EyeD3Command::display_info("/m/a.mp3");
    assert_eq!(info.program, EYED3);
    assert_eq!(info.args, vec!["/m/a.mp3".to_owned(), "--no-color".to_owned(), "-r".to_owned()]);
    let info = MetaflacCommand::list_info("/m/a.flac");
    assert_eq!(info.program, METAFLAC);
    assert_eq!(
        info.args,
        vec![
            "--list".to_owned(),
            "--block-type=VORBIS_COMMENT".to_owned(),
            "--block-type=STREAMINFO".to_owned(),
            "/m/a.flac".to_owned(),
        ]
    );
}

#[test]
fn metaflac_listing() {
    assert_eq!(MetaflacCommand::relative_path("CD1", "01 Intro"), "CD1/01 Intro.flac");
    let sections = vec![
        ("a.flac".to_owned(), "one\n".to_owned()),
        ("b.flac".to_owned(), "two\n".to_owned()),
    ];
    let sep = "------------------------------";
    assert_eq!(
        MetaflacCommand::listing(&sections),
        format!("{sep}\na.flac\n{sep}\none\n{sep}\nb.flac\n{sep}\ntwo\n")
    );
    assert_eq!(MetaflacCommand::listing(&Vec::new()), "");
}

#[test]
fn details_are_listed_by_format() {
    assert_eq!(details_tool(TargetFormat::Flac), DetailsTool::Metaflac);
    assert_eq!(details_tool(TargetFormat::_320), DetailsTool::EyeD3);
    assert_eq!(details_tool(TargetFormat::V0), DetailsTool::EyeD3);
}

#[test]
fn next_step_walks_the_target() {
    let o = UploadSteps {
        copy_torrent_to: false,
        copy_transcode_to_content_dir: true,
        copy_transcode_to: false,
        dry_run: true,
    };
    let mut step = UploadStep::CheckTorrent;
    let mut seen = vec![step];
    while let Some(next) = o.next_step(step, true) {
        seen.push(next);
        step = next;
    }
    assert_eq!(seen, o.target_steps());
    assert_eq!(o.next_step(UploadStep::VerifyContent, false), None);
    assert_eq!(o.next_step(UploadStep::CopyToContent, false), Some(UploadStep::DryRun));
    let all = UploadSteps { copy_torrent_to: true, copy_transcode_to_content_dir: false, copy_transcode_to: true, dry_run: false };
    assert_eq!(all.next_step(UploadStep::CopyTorrent, true), Some(UploadStep::CopyTranscode));
    assert_eq!(all.next_step(UploadStep::CopyTranscode, true), Some(UploadStep::Upload));
    assert_eq!(all.next_step(UploadStep::Upload, true), None);
}

#[test]
fn dry_run_records_no_format() {
    let mut run = UploadRun::new();
    run.record(UploadStep::DryRun, StepOutcome::Succeeded);
    let status = run.finish(TimeStamp { seconds: 2 });
    assert!(status.formats.is_none());
    assert!(status.success);
}
