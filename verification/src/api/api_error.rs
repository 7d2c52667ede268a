//! Errors of the indexer API client and interpretation of its responses.
use crate::text::{owned, spec_decimal};
use vstd::prelude::*;
use vstd::string::StringExecFns;

verus! {

/// Name for the `Debug` rendering of a path given as a string.
pub uninterp spec fn spec_debug_path(path: Seq<char>) -> Seq<char>;

/// The `Debug` rendering of a path.
///
/// Trusted: formats `std::path::Path::new(path)` with `{:?}`; claims only that
/// the result is the named function of the argument.
#[verifier::external_body]
pub(crate) fn debug_path(path: &str) -> (res: String)
    ensures
        res@ == spec_debug_path(path@),
{
    format!("{:?}", std::path::Path::new(path))
}

/// Failure of a request to the indexer API.
#[derive(Clone, Debug)]
pub enum ApiError {
    /// The HTTP client failed; holds the client error's message.
    ClientFailure(String),
    /// A request failed; holds the URL and the error's message.
    RequestFailure(String, String),
    /// A response could not be deserialized; holds the URL and the error's message.
    DeserializationFailure(String, String),
    /// Input was invalid.
    InvalidInput,
    /// No group id was found.
    GroupIdNotFound,
    /// No torrent id was found.
    TorrentIdNotFound,
    /// The torrent was not found.
    TorrentNotFound,
    /// The group was not found.
    GroupNotFound,
    /// The torrent belongs to another group than expected.
    GroupMisMatch,
    /// The torrent file is not from RED.
    NotRedactedTorrent,
    /// A file does not exist; holds its path.
    FileDoesNotExist(String),
    /// The response reported success but held no content.
    EmptyResponse,
}

/// The message of an API error.
pub open spec fn spec_api_message(e: ApiError) -> Seq<char> {
    match e {
        ApiError::ClientFailure(error) => "Client failed: "@ + error@,
        ApiError::RequestFailure(url, error) => "API request ("@ + url@ + ") failed: "@ + error@,
        ApiError::DeserializationFailure(url, error) => "API request ("@ + url@
            + ") deserialization failed: "@ + error@,
        ApiError::InvalidInput => "Invalid input"@,
        ApiError::GroupIdNotFound => "Group id not found"@,
        ApiError::TorrentIdNotFound => "Torrent id not found"@,
        ApiError::TorrentNotFound => "Torrent not found"@,
        ApiError::GroupNotFound => "Group not found"@,
        ApiError::GroupMisMatch => "Unexpected group mismatch"@,
        ApiError::NotRedactedTorrent => "Torrent file is not red"@,
        ApiError::FileDoesNotExist(path) => "File does not exist: "@ + spec_debug_path(path@),
        ApiError::EmptyResponse => "API response status was success but response was unexpectedly empty."@,
    }
}

impl ApiError {
    /// The message of the error.
    pub fn to_string(&self) -> (res: String)
        ensures
            res@ == spec_api_message(*self),
    {
        match self {
            ApiError::ClientFailure(error) => {
                let mut s = owned("Client failed: ");
                s.append(error.as_str());
                s
            },
            ApiError::RequestFailure(url, error) => {
                let mut s = owned("API request (");
                s.append(url.as_str());
                s.append(") failed: ");
                s.append(error.as_str());
                s
            },
            ApiError::DeserializationFailure(url, error) => {
                let mut s = owned("API request (");
                s.append(url.as_str());
                s.append(") deserialization failed: ");
                s.append(error.as_str());
                s
            },
            ApiError::InvalidInput => owned("Invalid input"),
            ApiError::GroupIdNotFound => owned("Group id not found"),
            ApiError::TorrentIdNotFound => owned("Torrent id not found"),
            ApiError::TorrentNotFound => owned("Torrent not found"),
            ApiError::GroupNotFound => owned("Group not found"),
            ApiError::GroupMisMatch => owned("Unexpected group mismatch"),
            ApiError::NotRedactedTorrent => owned("Torrent file is not red"),
            ApiError::FileDoesNotExist(path) => {
                let mut s = owned("File does not exist: ");
                let p = debug_path(path.as_str());
                s.append(p.as_str());
                s
            },
            ApiError::EmptyResponse => owned(
                "API response status was success but response was unexpectedly empty.",
            ),
        }
    }
}

/// The decimal representation of a signed integer, with a leading minus sign
/// when negative.
pub open spec fn spec_signed_decimal(n: int) -> Seq<char> {
    if n < 0 {
        seq!['-'] + spec_decimal((-n) as nat)
    } else {
        spec_decimal(n as nat)
    }
}

/// The decimal representation of a signed integer.
pub fn signed_decimal(n: i64) -> (res: String)
    ensures
        res@ == spec_signed_decimal(n as int),
{
    if n < 0 {
        let magnitude: u64 = if n == i64::MIN {
            9223372036854775808u64
        } else {
            (-n) as u64
        };
        let mut s = String::new();
        crate::text::push_char(&mut s, '-');
        let digits = crate::text::decimal(magnitude);
        s.append(digits.as_str());
        s
    } else {
        crate::text::decimal(n as u64)
    }
}

/// The URL of an API action on an id: "{api_url}/ajax.php?action={action}&id={id}".
pub open spec fn spec_action_url(api_url: Seq<char>, action: Seq<char>, id: int) -> Seq<char> {
    api_url + "/ajax.php?action="@ + action + "&id="@ + spec_signed_decimal(id)
}

/// The URL of an API action on an id.
pub fn action_url(api_url: &str, action: &str, id: i64) -> (res: String)
    ensures
        res@ == spec_action_url(api_url@, action@, id as int),
{
    let mut s = owned(api_url);
    s.append("/ajax.php?action=");
    s.append(action);
    s.append("&id=");
    let digits = signed_decimal(id);
    s.append(digits.as_str());
    s
}

/// What an API response gives: its content when its status is "success"
/// and it holds content; `non_success_error` for any other status; and
/// [`ApiError::EmptyResponse`] for a successful response without content.
pub fn interpret_response<T>(status: &str, response: Option<T>, non_success_error: ApiError) -> (res: Result<T, ApiError>)
    ensures
        status@ != "success"@ ==> res == Err::<T, ApiError>(non_success_error),
        status@ == "success"@ ==> match response {
            Some(r) => res == Ok::<T, ApiError>(r),
            None => res matches Err(ApiError::EmptyResponse),
        },
{
    if !crate::torrent::indexer::str_eq(status, "success") {
        return Err(non_success_error);
    }
    match response {
        Some(r) => Ok(r),
        None => Err(ApiError::EmptyResponse),
    }
}

} // verus!
