//! The entries of a playlist and the messages that controller and player
//! exchange.

use crate::skip::Skip;
use vstd::prelude::*;

verus! {

/// One playable entry of a playlist. It does not change once it is made.
#[derive(Debug, Clone, PartialEq, Eq)]
pub struct Source {
    path: String,
    skip: Skip,
}

/// A `Source` as plain values.
pub struct SourceView {
    pub path: Seq<char>,
    pub skip: Skip,
}

impl View for Source {
    type V = SourceView;

    closed spec fn view(&self) -> SourceView {
        SourceView { path: self.path@, skip: self.skip }
    }
}

impl Source {
    /// The entry that plays `path` under the policy `skip`.
    pub fn new(path: String, skip: Skip) -> (source: Source)
        ensures
            source@ == (SourceView { path: path@, skip }),
    {
        Source { path, skip }
    }

    /// The path of the media file.
    pub fn path(&self) -> (path: &String)
        ensures
            path@ == self@.path,
    {
        &self.path
    }

    /// The policy that moves the playlist on from this entry.
    pub fn skip(&self) -> (skip: Skip)
        ensures
            skip == self@.skip,
    {
        self.skip
    }

    /// The same entry under another policy.
    pub fn with_skip(self, skip: Skip) -> (source: Source)
        ensures
            source@ == (SourceView { path: self@.path, skip }),
    {
        Source { path: self.path, skip }
    }
}

/// A message between controller and player. `Start` travels from the
/// controller to the player, `VideoEnded` from the player to the controller.
#[derive(Debug, Clone, PartialEq, Eq)]
pub enum ProjectorCommand {
    /// Open `path` and play it; `skip` is the text of the entry's policy.
    Start { path: String, skip: String },
    /// The session that was playing has reached its natural end.
    VideoEnded,
}

/// A `ProjectorCommand` as plain values.
pub enum CommandView {
    Start { path: Seq<char>, skip: Seq<char> },
    VideoEnded,
}

impl View for ProjectorCommand {
    type V = CommandView;

    open spec fn view(&self) -> CommandView {
        match *self {
            ProjectorCommand::Start { path, skip } => CommandView::Start {
                path: path@,
                skip: skip@,
            },
            ProjectorCommand::VideoEnded => CommandView::VideoEnded,
        }
    }
}

} // verus!
