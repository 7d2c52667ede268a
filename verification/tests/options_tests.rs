use caesura::options::option_issue::{is_snake_case, snake_to_kebab, OptionIssue, OptionIssueKind};
use caesura::options::options_validator::OptionsValidator;
use caesura::options::rules::OptionRule;

fn run_with_validator(f: impl FnOnce(&mut OptionsValidator)) -> Vec<OptionIssue> {
    let mut validator = OptionsValidator::new();
    f(&mut validator);
    validator.into_issues()
}

fn reasons(issue: &OptionIssue) -> Vec<&str> {
    issue
        .additional
        .iter()
        .filter_map(|(k, v)| if k == "reason" { Some(v.as_str()) } else { None })
        .collect()
}

#[test]
fn options_validator_check_url_scheme() {
    let issues = run_with_validator(|v| v.check_url("indexer_url", "ftp://example.com"));
    assert_eq!(issues.len(), 1);
    assert_eq!(issues[0].kind, OptionIssueKind::UrlInvalid);
    assert_eq!(issues[0].keys, vec!["indexer_url".to_owned()]);
    assert_eq!(reasons(&issues[0]), vec!["must start with http:// or https://"]);
}

#[test]
fn options_validator_check_url_trailing_slash() {
    let issues = run_with_validator(|v| v.check_url("indexer_url", "https://example.com/"));
    assert_eq!(issues.len(), 1);
    assert_eq!(issues[0].kind, OptionIssueKind::UrlInvalid);
    assert_eq!(reasons(&issues[0]), vec!["must not end with a trailing slash"]);
}

#[test]
fn options_validator_check_url_both_problems() {
    let issues = run_with_validator(|v| v.check_url("indexer_url", "ftp://example.com/"));
    assert_eq!(issues.len(), 1);
    assert_eq!(issues[0].kind, OptionIssueKind::UrlInvalid);
    assert_eq!(
        reasons(&issues[0]),
        vec![
            "must start with http:// or https://",
            "must not end with a trailing slash"
        ]
    );
}

#[test]
fn options_validator_check_url_clean() {
    let issues = run_with_validator(|v| v.check_url("indexer_url", "https://example.com"));
    assert!(issues.is_empty());
}

#[test]
fn options_validator_check_dir_exists_missing() {
    let issues = run_with_validator(|v| {
        let path = "/no/such/path/at/all";
        v.check_dir_found("output", path, std::path::Path::new(path).is_dir());
    });
    assert_eq!(issues.len(), 1);
    assert_eq!(issues[0].kind, OptionIssueKind::DirectoryNotFound);
}

#[test]
fn options_validator_check_dir_exists_present() {
    let issues = run_with_validator(|v| v.check_dir_found("output", ".", std::path::Path::new(".").is_dir()));
    assert!(issues.is_empty());
}

#[test]
fn options_validator_check_non_empty_empty() {
    let empty: Vec<u8> = Vec::new();
    let issues = run_with_validator(|v| v.check_non_empty("content", &empty));
    assert_eq!(issues.len(), 1);
    assert_eq!(issues[0].kind, OptionIssueKind::RequiredNonEmpty);
}

#[test]
fn options_validator_check_non_empty_populated() {
    let populated = vec![1u8];
    let issues = run_with_validator(|v| v.check_non_empty("content", &populated));
    assert!(issues.is_empty());
}

#[test]
fn options_validator_check_dependent_missing() {
    let issues = run_with_validator(|v| {
        v.check_dependent("upload", true, "transcode", false);
    });
    assert_eq!(issues.len(), 1);
    assert_eq!(issues[0].kind, OptionIssueKind::DependencyMissing);
    assert_eq!(issues[0].keys, vec!["upload".to_owned(), "transcode".to_owned()]);
}

#[test]
fn options_validator_check_dependent_satisfied() {
    let issues = run_with_validator(|v| {
        v.check_dependent("upload", true, "transcode", true);
    });
    assert!(issues.is_empty());
}

#[test]
fn options_validator_check_dependent_absent_option_needs_nothing() {
    let issues = run_with_validator(|v| {
        v.check_dependent("upload", false, "transcode", false);
    });
    assert!(issues.is_empty());
}

#[test]
fn options_validator_check_set_reports_missing_value() {
    let missing: Option<u32> = None;
    let present: Option<u32> = Some(3);
    let issues = run_with_validator(|v| {
        v.check_set("api_key", &missing);
        v.check_set("content", &present);
    });
    assert_eq!(issues.len(), 1);
    assert_eq!(issues[0].kind, OptionIssueKind::Required);
    assert_eq!(issues[0].keys, vec!["api_key".to_owned()]);
}

#[test]
fn options_validator_check_dir_found_follows_the_flag() {
    let issues = run_with_validator(|v| {
        v.check_dir_found("output", "/a", true);
        v.check_dir_found("output", "/b", false);
    });
    assert_eq!(issues.len(), 1);
    assert_eq!(issues[0].kind, OptionIssueKind::DirectoryNotFound);
    assert_eq!(issues[0].additional, vec![("path".to_owned(), "/b".to_owned())]);
}

#[test]
fn options_validator_check_is_true_only_without_issues() {
    let mut validator = OptionsValidator::new();
    assert!(validator.check());
    validator.push(OptionIssue::required("content"));
    assert!(!validator.check());
    let issues = validator.into_issues();
    assert_eq!(issues.len(), 1);
}

#[test]
fn option_issue_display_required() {
    let issue = OptionIssue::required("indexer_url");
    assert_eq!(issue.to_string(), "Required\n▷ key: indexer_url\n▷ flag: --indexer-url");
}

#[test]
fn option_issue_display_required_non_empty() {
    let issue = OptionIssue::required_non_empty("content");
    assert_eq!(issue.to_string(), "Required\n▷ key: content\n▷ flag: --content");
}

#[test]
fn option_issue_display_required_one_of() {
    let issue = OptionIssue::required_one_of(&["indexer_url", "announce_url"]);
    assert_eq!(
        issue.to_string(),
        "At least one required\n▷ key: indexer_url\n▷ flag: --indexer-url\n▷ key: announce_url\n▷ flag: --announce-url"
    );
}

#[test]
fn option_issue_display_dependency_missing() {
    let issue = OptionIssue::dependency_missing("upload", "transcode");
    assert_eq!(
        issue.to_string(),
        "Dependency missing\n▷ key: upload\n▷ flag: --upload\n▷ requires key: transcode\n▷ requires flag: --transcode"
    );
}

#[test]
fn option_issue_display_url_invalid_scheme() {
    let issue = OptionIssue::url_invalid(
        "indexer_url",
        "not-a-valid-url.example",
        &["must start with http:// or https://"],
    );
    assert_eq!(
        issue.to_string(),
        "Invalid URL\n▷ key: indexer_url\n▷ flag: --indexer-url\n▷ url: not-a-valid-url.example\n▷ reason: must start with http:// or https://"
    );
}

#[test]
fn option_issue_display_url_invalid_multiple_reasons() {
    let issue = OptionIssue::url_invalid(
        "indexer_url",
        "ftp://example.com/",
        &[
            "must start with http:// or https://",
            "must not end with a trailing slash",
        ],
    );
    assert_eq!(
        issue.to_string(),
        "Invalid URL\n▷ key: indexer_url\n▷ flag: --indexer-url\n▷ url: ftp://example.com/\n▷ reason: must start with http:// or https://\n▷ reason: must not end with a trailing slash"
    );
}

#[test]
fn option_issue_display_directory_not_found() {
    let issue = OptionIssue::directory_not_found("output", "/no/such/dir");
    assert_eq!(
        issue.to_string(),
        "Directory not found\n▷ key: output\n▷ flag: --output\n▷ path: /no/such/dir"
    );
}

#[test]
fn option_issue_display_file_not_found() {
    let issue = OptionIssue::file_not_found("config", "/no/such/file.yml");
    assert_eq!(
        issue.to_string(),
        "File not found\n▷ key: config\n▷ flag: --config\n▷ path: /no/such/file.yml"
    );
}

#[test]
fn option_issue_display_path_not_found() {
    let issue = OptionIssue::path_not_found("queue_add_path", "/no/such/path");
    assert_eq!(
        issue.to_string(),
        "Path not found\n▷ key: queue_add_path\n▷ flag: --queue-add-path\n▷ path: /no/such/path"
    );
}

#[test]
fn option_issue_display_duration_invalid() {
    let issue = OptionIssue::duration_invalid(
        "wait_before_upload",
        "not-a-duration",
        "expected number followed by unit",
    );
    assert_eq!(
        issue.to_string(),
        "Invalid duration\n▷ key: wait_before_upload\n▷ flag: --wait-before-upload\n▷ duration: not-a-duration\n▷ reason: expected number followed by unit"
    );
}

#[test]
fn option_issue_display_hash_invalid() {
    let issue = OptionIssue::hash_invalid("queue_rm_hash", "zz", "invalid hex character");
    assert_eq!(
        issue.to_string(),
        "Invalid hash\n▷ key: queue_rm_hash\n▷ flag: --queue-rm-hash\n▷ hash: zz\n▷ reason: invalid hex character"
    );
}

#[test]
fn option_issue_display_default_changed() {
    let issue = OptionIssue::default_changed("output", "./output", "Default changed in v0.27.0.");
    assert_eq!(
        issue.to_string(),
        "Default changed\n▷ key: output\n▷ flag: --output\n▷ value: ./output\n▷ details: Default changed in v0.27.0."
    );
}

#[test]
fn option_issue_display_config_invalid() {
    let issue = OptionIssue::config_invalid("missing field `indexer` at line 3 column 1");
    assert_eq!(
        issue.to_string(),
        "Invalid config\n▷ reason: missing field `indexer` at line 3 column 1"
    );
}

#[test]
fn option_issue_display_cli_argument_invalid() {
    let issue = OptionIssue::cli_argument_invalid("SharedOptions", "missing required argument");
    assert_eq!(
        issue.to_string(),
        "Invalid CLI argument\n▷ options: SharedOptions\n▷ reason: missing required argument"
    );
}

#[test]
fn option_issue_constructors_fill_keys_kind_and_context() {
    let issue = OptionIssue::required_one_of(&["a", "b_c"]);
    assert_eq!(issue.keys, vec!["a".to_owned(), "b_c".to_owned()]);
    assert_eq!(issue.kind, OptionIssueKind::RequiredOneOf);
    assert!(issue.additional.is_empty());
    let issue = OptionIssue::config_invalid("bad");
    assert!(issue.keys.is_empty());
    assert_eq!(issue.additional, vec![("reason".to_owned(), "bad".to_owned())]);
}

#[test]
fn snake_case_ids_are_recognised() {
    assert!(is_snake_case("indexer_url"));
    assert!(is_snake_case("a1_b2"));
    assert!(is_snake_case("x"));
    assert!(!is_snake_case(""));
    assert!(!is_snake_case("indexer-url"));
    assert!(!is_snake_case("Indexer_url"));
    assert!(!is_snake_case("_indexer"));
    assert!(!is_snake_case("indexer_"));
    assert!(!is_snake_case("indexer__url"));
    assert!(!is_snake_case("1abc"));
}

#[test]
fn snake_to_kebab_replaces_every_underscore() {
    assert_eq!(snake_to_kebab("queue_add_path"), "queue-add-path");
    assert_eq!(snake_to_kebab("output"), "output");
    assert_eq!(snake_to_kebab(""), "");
}

#[test]
fn option_rule_messages() {
    assert_eq!(
        OptionRule::Changed("output".to_owned(), "./o".to_owned(), "moved".to_owned()).to_string(),
        "output use has changed: ./o\nmoved"
    );
    assert_eq!(OptionRule::NotSet("api_key".to_owned()).to_string(), "api_key is not set");
    assert_eq!(
        OptionRule::AtLeastOne(vec!["a".to_owned(), "b".to_owned(), "c".to_owned()]).to_string(),
        "at least one of a, b, c must be set"
    );
    assert_eq!(
        OptionRule::Dependent("upload".to_owned(), "transcode".to_owned()).to_string(),
        "upload requires transcode to be set"
    );
    assert_eq!(
        OptionRule::IsEmpty("content".to_owned()).to_string(),
        "content must have at least one value"
    );
    assert_eq!(
        OptionRule::UrlNotHttp("url".to_owned(), "ftp://x".to_owned()).to_string(),
        "url must start with https:// or http://: ftp://x"
    );
    assert_eq!(
        OptionRule::UrlInvalidSuffix("url".to_owned(), "http://x/".to_owned()).to_string(),
        "url must not end with /: http://x/"
    );
    assert_eq!(
        OptionRule::DoesNotExist("output".to_owned(), "/x".to_owned()).to_string(),
        "output does not exist: /x"
    );
    assert_eq!(
        OptionRule::DurationInvalid("wait".to_owned(), "1q".to_owned()).to_string(),
        "wait could not be parsed: 1q"
    );
    assert_eq!(
        OptionRule::HashInvalid("hash".to_owned(), "zz".to_owned()).to_string(),
        "hash could not be parsed as a hash: zz"
    );
    assert_eq!(
        OptionRule::ConfigDeserialize("bad yaml".to_owned()).to_string(),
        "config file could not be deserialized: bad yaml"
    );
    assert_eq!(
        OptionRule::CliExtract("verbosity".to_owned(), "oops".to_owned()).to_string(),
        "verbosity could not be extracted from CLI arguments: oops"
    );
}

#[test]
fn option_rule_show_lists_headline_then_messages() {
    assert!(OptionRule::show(&Vec::new()).is_empty());
    let lines = OptionRule::show(&vec![
        OptionRule::NotSet("api_key".to_owned()),
        OptionRule::IsEmpty("content".to_owned()),
    ]);
    assert_eq!(
        lines,
        vec![
            "Invalid configuration".to_owned(),
            "api_key is not set".to_owned(),
            "content must have at least one value".to_owned(),
        ]
    );
}

#[test]
fn options_validator_report_lists_issues() {
    let mut validator = OptionsValidator::new();
    assert!(validator.report().is_empty());
    validator.check_url("indexer_url", "https://example.com/");
    validator.check_dependent("upload", true, "transcode", false);
    assert_eq!(
        validator.report(),
        vec![
            "Invalid configuration".to_owned(),
            "Invalid URL\n▷ key: indexer_url\n▷ flag: --indexer-url\n▷ url: https://example.com/\n▷ reason: must not end with a trailing slash".to_owned(),
            "Dependency missing\n▷ key: upload\n▷ flag: --upload\n▷ requires key: transcode\n▷ requires flag: --transcode".to_owned(),
        ]
    );
}

#[test]
fn kebab_flags_map_back_to_ids() {
    for id in ["queue_add_path", "a1_b2", "x"] {
        let flag = snake_to_kebab(id);
        assert!(!flag.contains('_'));
        assert_eq!(flag.replace('-', "_"), id);
    }
}
