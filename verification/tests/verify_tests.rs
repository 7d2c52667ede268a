use caesura::verify::issue::SourceIssue;
use caesura::verify::subdirectory::{components, FlacFile, VerifyCommand};

#[test]
fn test_subdirectory_checks() {
    let source_dir = "source/dir";

    // Good source because all flacs share the 'b' subdirectory.
    let result = VerifyCommand::subdirectory_checks(&[
        FlacFile::new("source/dir/a.flac", source_dir),
        FlacFile::new("source/dir/b.flac", source_dir),
    ]);
    assert_eq!(result.len(), 0);

    // Bad source because all flacs share the 'c' subdirectory.
    let result = VerifyCommand::subdirectory_checks(&[
        FlacFile::new("source/dir/a/b.flac", source_dir),
        FlacFile::new("source/dir/a/c.flac", source_dir),
    ]);
    assert_eq!(result.len(), 1);

    // Good multi-cd source
    let result = VerifyCommand::subdirectory_checks(&[
        FlacFile::new("source/dir/CD1/a.flac", source_dir),
        FlacFile::new("source/dir/CD2/b.flac", source_dir),
    ]);
    assert_eq!(result.len(), 0);

    // Bad source because all flacs share the unnecessary 'c' subdirectory.
    let result = VerifyCommand::subdirectory_checks(&[FlacFile::new("source/dir/c/d.flac", source_dir)]);
    assert_eq!(result.len(), 1);
    assert!(matches!(
        &result[0],
        SourceIssue::UnnecessaryDirectory { prefix } if prefix == "c"
    ));

    // Good single-file release directly in source directory
    let result = VerifyCommand::subdirectory_checks(&[FlacFile::new("/root/album/track.flac", "/root/album/")]);
    assert_eq!(result.len(), 0);
}

#[test]
fn path_components_skip_empty_and_current_segments() {
    assert_eq!(components("a//b/./c.flac"), vec!["a", "b", "c.flac"]);
    assert_eq!(components("/root/album/"), vec!["/", "root", "album"]);
    assert_eq!(components(""), Vec::<String>::new());
    assert_eq!(components("/"), vec!["/"]);
}

#[test]
fn flac_sub_directory_lies_between_source_and_name() {
    let flac = FlacFile::new("src/x/CD1/disc/t.flac", "src/x");
    assert_eq!(flac.path, "src/x/CD1/disc/t.flac");
    assert_eq!(flac.sub_dir, vec!["CD1", "disc"]);
    let top = FlacFile::new("src/x/t.flac", "src/x/");
    assert!(top.sub_dir.is_empty());
}

#[test]
fn shared_nested_prefix_is_joined_and_empty_list_passes() {
    let result = VerifyCommand::subdirectory_checks(&[
        FlacFile::new("s/a/b/CD1/1.flac", "s"),
        FlacFile::new("s/a/b/CD2/2.flac", "s"),
        FlacFile::new("s/a/b/3.flac", "s"),
    ]);
    assert_eq!(result.len(), 1);
    assert!(matches!(
        &result[0],
        SourceIssue::UnnecessaryDirectory { prefix } if prefix == "a/b"
    ));
    assert!(VerifyCommand::subdirectory_checks(&[]).is_empty());
}
