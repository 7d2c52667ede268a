//! The actions that can fail while creating, reading or verifying a torrent.
use crate::text::owned;
use vstd::prelude::*;

verus! {

/// Actions that can fail during torrent creation.
#[derive(Clone, Copy, Debug, PartialEq, Eq, Structural)]
pub enum TorrentCreateAction {
    BuildTorrent,
    CopyTorrent,
    ReadDirectory,
    ReadMetadata,
    ReadTorrent,
    WriteTorrent,
}

/// The message of a [`TorrentCreateAction`].
pub open spec fn spec_create_action_text(a: TorrentCreateAction) -> Seq<char> {
    match a {
        TorrentCreateAction::BuildTorrent => "build torrent"@,
        TorrentCreateAction::CopyTorrent => "copy torrent"@,
        TorrentCreateAction::ReadDirectory => "read directory"@,
        TorrentCreateAction::ReadMetadata => "read metadata"@,
        TorrentCreateAction::ReadTorrent => "read torrent"@,
        TorrentCreateAction::WriteTorrent => "write torrent"@,
    }
}

impl TorrentCreateAction {
    /// The action as it reads in an error message.
    pub fn to_string(&self) -> (res: String)
        ensures
            res@ == spec_create_action_text(*self),
    {
        match self {
            TorrentCreateAction::BuildTorrent => owned("build torrent"),
            TorrentCreateAction::CopyTorrent => owned("copy torrent"),
            TorrentCreateAction::ReadDirectory => owned("read directory"),
            TorrentCreateAction::ReadMetadata => owned("read metadata"),
            TorrentCreateAction::ReadTorrent => owned("read torrent"),
            TorrentCreateAction::WriteTorrent => owned("write torrent"),
        }
    }
}

/// Actions that can fail during torrent reading.
#[derive(Clone, Copy, Debug, PartialEq, Eq, Structural)]
pub enum TorrentReadAction {
    ReadTorrent,
}

impl TorrentReadAction {
    /// The action as it reads in an error message.
    pub fn to_string(&self) -> (res: String)
        ensures
            res@ == "read torrent"@,
    {
        owned("read torrent")
    }
}

/// Actions that can fail during torrent verification.
#[derive(Clone, Copy, Debug, PartialEq, Eq, Structural)]
pub enum TorrentVerifyAction {
    ReadTorrent,
    HashContent,
}

/// The message of a [`TorrentVerifyAction`].
pub open spec fn spec_verify_action_text(a: TorrentVerifyAction) -> Seq<char> {
    match a {
        TorrentVerifyAction::ReadTorrent => "read torrent"@,
        TorrentVerifyAction::HashContent => "hash content"@,
    }
}

impl TorrentVerifyAction {
    /// The action as it reads in an error message.
    pub fn to_string(&self) -> (res: String)
        ensures
            res@ == spec_verify_action_text(*self),
    {
        match self {
            TorrentVerifyAction::ReadTorrent => owned("read torrent"),
            TorrentVerifyAction::HashContent => owned("hash content"),
        }
    }
}

} // verus!
