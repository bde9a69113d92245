//! Notifications as the library sees them: a change kind, the affected paths
//! as sequences of components, and a hint that events may have been lost.

use vstd::prelude::*;

verus! {

/// The kind of filesystem change a notification reports. Only `Remove` can
/// ever lead to a filesystem mutation.
#[derive(Clone, Copy, Debug, PartialEq, Eq, Structural)]
pub enum EventKind {
    Create,
    Modify,
    Remove,
    Other,
}

/// One filesystem change notification, reduced to plain values: each path is
/// the sequence of its components (for an absolute path the first component
/// is the root directory itself).
#[derive(Clone, Debug)]
pub struct Notification {
    pub kind: EventKind,
    pub paths: Vec<Vec<String>>,
    pub rescan: bool,
}

/// The mathematical image of a `Notification`: paths as sequences of
/// sequences of characters.
pub struct NotificationModel {
    pub kind: EventKind,
    pub paths: Seq<Seq<Seq<char>>>,
    pub rescan: bool,
}

impl Notification {
    pub open spec fn model(&self) -> NotificationModel {
        NotificationModel { kind: self.kind, paths: self.paths.deep_view(), rescan: self.rescan }
    }
}

/// Why a notification was abandoned without any filesystem action.
#[derive(Clone, Copy, Debug, PartialEq, Eq, Structural)]
pub enum ProcessError {
    /// The notification carried no path at all.
    MissingPath,
    /// The notification's path does not lie under the watched root.
    PathOutsideRoot,
    /// The notification's path is the watched root itself.
    NoParent,
}

} // verus!
