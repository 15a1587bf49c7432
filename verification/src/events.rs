//! Event values: the raw notification kinds an operating-system watcher
//! reports, and the public event values delivered to consumers.  Events
//! are immutable once constructed; an error event never carries a path.

use vstd::prelude::*;

verus! {

/// The kind of a raw notification, before translation.
#[derive(Clone, Copy, Debug, PartialEq, Eq, Structural)]
pub enum RawKind {
    Create,
    Modify,
    Remove,
    Any,
    Other,
}

/// One path referenced by a raw notification, with whether it names a
/// directory at the time the notification was observed.
pub struct PathInfo {
    pub path: String,
    pub is_dir: bool,
}

/// A raw notification: the referenced paths and the reported kind.
pub struct RawEvent {
    pub paths: Vec<PathInfo>,
    pub kind: RawKind,
}

/// A public watch event.
#[derive(Debug)]
pub enum WatchEvent {
    Created(String),
    Modified(String),
    Deleted(String),
    Renamed { from: String, to: String },
    Error(String),
}

/// The mathematical value of a watch event.
pub enum WatchEventV {
    Created(Seq<char>),
    Modified(Seq<char>),
    Deleted(Seq<char>),
    Renamed { from: Seq<char>, to: Seq<char> },
    Error(Seq<char>),
}

impl View for WatchEvent {
    type V = WatchEventV;

    open spec fn view(&self) -> WatchEventV {
        match self {
            WatchEvent::Created(p) => WatchEventV::Created(p@),
            WatchEvent::Modified(p) => WatchEventV::Modified(p@),
            WatchEvent::Deleted(p) => WatchEventV::Deleted(p@),
            WatchEvent::Renamed { from, to } => WatchEventV::Renamed { from: from@, to: to@ },
            WatchEvent::Error(m) => WatchEventV::Error(m@),
        }
    }
}

impl WatchEventV {
    /// The path an event refers to; a rename is identified by its
    /// destination, and an error has no path.
    pub open spec fn spec_path(self) -> Option<Seq<char>> {
        match self {
            WatchEventV::Created(p) => Some(p),
            WatchEventV::Modified(p) => Some(p),
            WatchEventV::Deleted(p) => Some(p),
            WatchEventV::Renamed { from, to } => Some(to),
            WatchEventV::Error(m) => None,
        }
    }

    pub open spec fn spec_type(self) -> Seq<char> {
        match self {
            WatchEventV::Created(p) => "created"@,
            WatchEventV::Modified(p) => "modified"@,
            WatchEventV::Deleted(p) => "deleted"@,
            WatchEventV::Renamed { from, to } => "renamed"@,
            WatchEventV::Error(m) => "error"@,
        }
    }
}

impl Clone for WatchEvent {
    fn clone(&self) -> (r: Self)
        ensures
            r@ == self@,
    {
        match self {
            WatchEvent::Created(p) => WatchEvent::Created(p.clone()),
            WatchEvent::Modified(p) => WatchEvent::Modified(p.clone()),
            WatchEvent::Deleted(p) => WatchEvent::Deleted(p.clone()),
            WatchEvent::Renamed { from, to } => WatchEvent::Renamed {
                from: from.clone(),
                to: to.clone(),
            },
            WatchEvent::Error(m) => WatchEvent::Error(m.clone()),
        }
    }
}

impl WatchEvent {
    pub fn path(&self) -> (r: Option<&str>)
        ensures
            match r {
                Some(p) => self@.spec_path() == Some(p@),
                None => self@.spec_path() is None,
            },
    {
        match self {
            WatchEvent::Created(p) => Some(p.as_str()),
            WatchEvent::Modified(p) => Some(p.as_str()),
            WatchEvent::Deleted(p) => Some(p.as_str()),
            WatchEvent::Renamed { from, to } => Some(to.as_str()),
            WatchEvent::Error(m) => None,
        }
    }

    pub fn event_type(&self) -> (r: &str)
        ensures
            r@ == self@.spec_type(),
    {
        match self {
            WatchEvent::Created(p) => "created",
            WatchEvent::Modified(p) => "modified",
            WatchEvent::Deleted(p) => "deleted",
            WatchEvent::Renamed { from, to } => "renamed",
            WatchEvent::Error(m) => "error",
        }
    }
}

} // verus!
