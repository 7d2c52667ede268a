//! Application errors and failed external command output.
use crate::text::owned;
use vstd::prelude::*;
use vstd::string::StringExecFns;

verus! {

#[verifier::external_type_specification]
#[verifier::external_body]
pub struct ExClaxonError(claxon::Error);

#[verifier::external_type_specification]
#[verifier::external_body]
pub struct ExIoError(std::io::Error);

#[verifier::external_type_specification]
#[verifier::external_body]
pub struct ExReqwestError(reqwest::Error);

#[verifier::external_type_specification]
#[verifier::external_body]
pub struct ExReqwestResponse(reqwest::Response);

#[verifier::external_type_specification]
#[verifier::external_body]
pub struct ExAudiotagsError(audiotags::Error);

#[verifier::external_type_specification]
#[verifier::external_body]
pub struct ExJoinError(tokio::task::JoinError);

#[verifier::external_type_specification]
#[verifier::external_body]
pub struct ExSerdeJsonError(serde_json::Error);

/// Message of a FLAC decoding error.
///
/// Trusted: formats the error with its `Display` impl; the text of an opaque
/// error value is not stated.
#[verifier::external_body]
fn claxon_message(error: &claxon::Error) -> (res: String) {
    error.to_string()
}

/// Message of an I/O error.
///
/// Trusted: formats the error with its `Display` impl; the text of an opaque
/// error value is not stated.
#[verifier::external_body]
fn io_message(error: &std::io::Error) -> (res: String) {
    error.to_string()
}

/// Message of an HTTP client error.
///
/// Trusted: formats the error with its `Display` impl; the text of an opaque
/// error value is not stated.
#[verifier::external_body]
fn reqwest_message(error: &reqwest::Error) -> (res: String) {
    error.to_string()
}

/// Canonical reason phrase of the HTTP status an HTTP client error carries.
///
/// Trusted: calls `reqwest::Error::status` and `StatusCode::canonical_reason`;
/// which status an opaque error carries is not stated.
#[verifier::external_body]
fn reqwest_error_reason(error: &reqwest::Error) -> (res: Option<&'static str>) {
    error.status().and_then(|code| code.canonical_reason())
}

/// Canonical reason phrase of the HTTP status of a response.
///
/// Trusted: calls `reqwest::Response::status` and
/// `StatusCode::canonical_reason`; the status of an opaque response is not
/// stated.
#[verifier::external_body]
fn response_reason(response: &reqwest::Response) -> (res: Option<&'static str>) {
    response.status().canonical_reason()
}

/// Message of an audio tag error.
///
/// Trusted: formats the error with its `Display` impl; the text of an opaque
/// error value is not stated.
#[verifier::external_body]
fn audiotags_message(error: &audiotags::Error) -> (res: String) {
    error.to_string()
}

/// Message of a task join error.
///
/// Trusted: formats the error with its `Display` impl; the text of an opaque
/// error value is not stated.
#[verifier::external_body]
fn join_message(error: &tokio::task::JoinError) -> (res: String) {
    error.to_string()
}

/// Message of a JSON deserialization error.
///
/// Trusted: formats the error with its `Display` impl; the text of an opaque
/// error value is not stated.
#[verifier::external_body]
fn serde_json_message(error: &serde_json::Error) -> (res: String) {
    error.to_string()
}

/// Output of an external command that failed.
#[derive(Clone, Debug)]
pub struct CommandError {
    /// Standard error of the command.
    pub stderr: String,
    /// Standard output of the command.
    pub stdout: String,
    /// Exit code, if the command exited.
    pub exit_code: Option<i32>,
    /// Signal that terminated the command, if any.
    pub exit_signal: Option<i32>,
    /// Signal that stopped the command, if any.
    pub exit_stopped_signal: Option<i32>,
}

/// The message of a failed command: its standard error, else its standard
/// output, else "unexplained failure".
pub open spec fn spec_command_message(e: CommandError) -> Seq<char> {
    if e.stderr@.len() > 0 {
        e.stderr@
    } else if e.stdout@.len() > 0 {
        e.stdout@
    } else {
        "unexplained failure"@
    }
}

impl CommandError {
    /// The message of a failed command.
    pub fn to_string(&self) -> (res: String)
        ensures
            res@ == spec_command_message(*self),
    {
        if self.stderr.as_str().is_empty() == false {
            self.stderr.clone()
        } else if self.stdout.as_str().is_empty() == false {
            self.stdout.clone()
        } else {
            owned("unexplained failure")
        }
    }
}

/// An error of the application: what was being done, what kind of failure
/// it was, and the message of the underlying error if there is one.
#[derive(Clone, Debug)]
pub struct AppError {
    /// What was being done.
    pub action: String,
    /// Kind of failure.
    pub kind: String,
    /// Expected value, if relevant.
    pub expected: Option<String>,
    /// Actual value, if relevant.
    pub actual: Option<String>,
    /// Message of the underlying error, if any.
    pub source: Option<String>,
}

/// Whether `e` records `action` and `kind` with no expected or actual value.
pub open spec fn records(e: AppError, action: Seq<char>, kind: Seq<char>) -> bool {
    &&& e.action@ == action
    &&& e.kind@ == kind
    &&& e.expected is None
    &&& e.actual is None
}

/// The kind recorded for an HTTP failure: the status reason when there is
/// one, else "API".
pub open spec fn spec_http_kind(reason: Option<&str>) -> Seq<char> {
    match reason {
        Some(r) => r@,
        None => "API"@,
    }
}

/// The message of an application error.
pub open spec fn spec_app_message(e: AppError) -> Seq<char> {
    let head = "Failed to "@ + e.action@ + "\nA "@ + e.kind@ + " error occured"@;
    match e.source {
        Some(s) => head + " due to "@ + s@,
        None => head,
    }
}

impl AppError {
    fn with_source(action: &str, kind: &str, source: Option<String>) -> (res: Self)
        ensures
            records(res, action@, kind@),
            res.source == source,
    {
        Self { action: owned(action), kind: owned(kind), expected: None, actual: None, source }
    }

    /// An error of `kind` while doing `action`.
    pub fn new(action: &str, kind: &str) -> (res: Self)
        ensures
            records(res, action@, kind@),
            res.source is None,
    {
        Self::with_source(action, kind, None)
    }

    /// A FLAC decoding failure while doing `action`.
    pub fn claxon<T>(error: claxon::Error, action: &str) -> (res: Result<T, AppError>)
        ensures
            res matches Err(e) && records(e, action@, "FLAC"@) && e.source is Some,
    {
        Err(Self::with_source(action, "FLAC", Some(claxon_message(&error))))
    }

    /// A failed external command while doing `action`.
    pub fn command<T>(error: CommandError, action: &str, kind: &str) -> (res: Result<T, AppError>)
        ensures
            res matches Err(e) && records(e, action@, kind@) && (e.source matches Some(s) && s@
                == spec_command_message(error)),
    {
        Err(Self::with_source(action, kind, Some(error.to_string())))
    }

    /// A file system failure while doing `action`.
    pub fn io<T>(error: std::io::Error, action: &str) -> (res: Result<T, AppError>)
        ensures
            res matches Err(e) && records(e, action@, "file system"@) && e.source is Some,
    {
        Err(Self::with_source(action, "file system", Some(io_message(&error))))
    }

    /// A failed API request while doing `action`; the kind is the reason
    /// phrase of the response status, if there was one, else "API".
    pub fn request<T>(error: reqwest::Error, action: &str) -> (res: Result<T, AppError>)
        ensures
            res matches Err(e) && e.action@ == action@ && e.expected is None && e.actual is None
                && e.source is Some,
    {
        let reason = reqwest_error_reason(&error);
        Err(Self::with_source(action, Self::http_kind(reason), Some(reqwest_message(&error))))
    }

    /// An unsuccessful API response while doing `action`; the kind is the
    /// reason phrase of the response status, if any, else "API".
    pub fn response<T>(response: reqwest::Response, action: &str) -> (res: Result<T, AppError>)
        ensures
            res matches Err(e) && e.action@ == action@ && e.expected is None && e.actual is None
                && e.source is None,
    {
        let reason = response_reason(&response);
        Err(Self::with_source(action, Self::http_kind(reason), None))
    }

    /// The kind recorded for an HTTP failure with the given status reason.
    pub fn http_kind(reason: Option<&'static str>) -> (res: &'static str)
        ensures
            res@ == spec_http_kind(reason),
    {
        match reason {
            Some(r) => r,
            None => "API",
        }
    }

    /// An audio tag failure while doing `action`.
    pub fn tag<T>(error: audiotags::Error, action: &str) -> (res: Result<T, AppError>)
        ensures
            res matches Err(e) && records(e, action@, "audio tag"@) && e.source is Some,
    {
        Err(Self::with_source(action, "audio tag", Some(audiotags_message(&error))))
    }

    /// A failed task while doing `action`.
    pub fn task<T>(error: tokio::task::JoinError, action: &str) -> (res: Result<T, AppError>)
        ensures
            res matches Err(e) && records(e, action@, "task"@) && e.source is Some,
    {
        Err(Self::with_source(action, "task", Some(join_message(&error))))
    }

    /// A deserialization failure while doing `action`.
    pub fn deserialization<T>(error: serde_json::Error, action: &str) -> (res: Result<T, AppError>)
        ensures
            res matches Err(e) && records(e, action@, "deserialization"@) && e.source is Some,
    {
        Err(Self::with_source(action, "deserialization", Some(serde_json_message(&error))))
    }

    /// The message of the error: what failed and what kind of error it was,
    /// followed by the underlying error's message if there is one.
    pub fn to_string(&self) -> (res: String)
        ensures
            res@ == spec_app_message(*self),
    {
        let mut message = owned("Failed to ");
        message.append(self.action.as_str());
        message.append("\nA ");
        message.append(self.kind.as_str());
        message.append(" error occured");
        if let Some(source) = &self.source {
            message.append(" due to ");
            message.append(source.as_str());
        }
        message
    }
}

} // verus!
