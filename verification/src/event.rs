//! The data model of one filesystem change notification.

use vstd::prelude::*;

verus! {

/// How much of a rename one notification reports: both ends paired together,
/// or only the old path, or only the new path.
#[derive(Clone, Copy, Debug, PartialEq, Eq, Structural)]
pub enum RenameMode {
    Both,
    From,
    To,
}

/// The sub-kind of a modification notification.
#[derive(Clone, Copy, Debug, PartialEq, Eq, Structural)]
pub enum ModifyKind {
    Name(RenameMode),
    Data,
    Metadata,
    Other,
    Any,
}

/// The kind of a filesystem change notification.
#[derive(Clone, Copy, Debug, PartialEq, Eq, Structural)]
pub enum EventKind {
    Create,
    Modify(ModifyKind),
    Remove,
    Access,
    Other,
    Any,
}

/// One reported filesystem change: a kind and the ordered set of affected
/// paths. A two-path notification is a correlated rename (old path first,
/// new path second).
#[derive(Clone, Debug, PartialEq, Eq)]
pub struct Notification {
    pub kind: EventKind,
    pub paths: Vec<String>,
}

/// The views of a sequence of owned strings.
pub open spec fn string_views(paths: Seq<String>) -> Seq<Seq<char>> {
    paths.map_values(|p: String| p@)
}

impl Notification {
    /// A notification carries at least one affected path.
    pub open spec fn wf(&self) -> bool {
        self.paths@.len() >= 1
    }

    /// The affected paths, as the mathematical model sees them.
    pub open spec fn path_views(&self) -> Seq<Seq<char>> {
        string_views(self.paths@)
    }

    pub fn new(kind: EventKind, paths: Vec<String>) -> (n: Notification)
        requires
            paths@.len() >= 1,
        ensures
            n.wf(),
            n.kind == kind,
            n.paths@ == paths@,
    {
        Notification { kind, paths }
    }
}

/// What the event source hands the queue for each observed change: either a
/// notification, or the message of an error the source ran into instead.
#[derive(Clone, Debug, PartialEq, Eq)]
pub enum SourceMessage {
    Change(Notification),
    Failure(String),
}

} // verus!
