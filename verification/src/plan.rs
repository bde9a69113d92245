//! The event processor's planning stage: turn one notification into at most
//! one prune candidate, or into a report. This stage is pure; the caller
//! carries out the filesystem work a `PruneCheck` asks for.

use vstd::prelude::*;

use crate::event::{EventKind, Notification, NotificationModel, ProcessError};

verus! {

/// `root` is an initial run of `path`'s components.
pub open spec fn starts_with(path: Seq<Seq<char>>, root: Seq<Seq<char>>) -> bool {
    &&& root.len() <= path.len()
    &&& forall|i: int| 0 <= i < root.len() ==> path[i] == root[i]
}

/// What one notification asks the caller to do.
pub enum Action {
    /// Log only; no filesystem mutation. `rel` is the event path relative to
    /// the watched root.
    Report { kind: EventKind, rel: Vec<String> },
    /// A removal happened at `removed` (relative to the root): re-read
    /// `parent` (its containing directory, also relative) and, if that fresh
    /// read finds no entries, remove `parent`.
    PruneCheck { removed: Vec<String>, parent: Vec<String> },
}

/// The mathematical image of an `Action`.
pub enum ActionModel {
    Report { kind: EventKind, rel: Seq<Seq<char>> },
    PruneCheck { removed: Seq<Seq<char>>, parent: Seq<Seq<char>> },
}

impl Action {
    pub open spec fn model(&self) -> ActionModel {
        match self {
            Action::Report { kind, rel } => ActionModel::Report {
                kind: *kind,
                rel: rel.deep_view(),
            },
            Action::PruneCheck { removed, parent } => ActionModel::PruneCheck {
                removed: removed.deep_view(),
                parent: parent.deep_view(),
            },
        }
    }
}

/// Everything the caller must do for one notification: possibly warn that
/// events were lost, then either carry out the action or report the error.
pub struct Decision {
    /// The notification carried a rescan hint: warn, then proceed anyway.
    pub warn_lost: bool,
    pub action: Result<Action, ProcessError>,
}

/// The mathematical image of a `Decision`.
pub struct DecisionModel {
    pub warn_lost: bool,
    pub action: Result<ActionModel, ProcessError>,
}

impl Decision {
    pub open spec fn model(&self) -> DecisionModel {
        DecisionModel {
            warn_lost: self.warn_lost,
            action: match self.action {
                Ok(a) => Ok(a.model()),
                Err(e) => Err(e),
            },
        }
    }
}

/// The action one notification calls for. The first path decides; a
/// notification with no path, a path not under the root, or a path naming the
/// root itself is abandoned with the matching error. A removal strictly below
/// a first-level entry yields a `PruneCheck` of its parent; any other
/// notification — including a removal directly under the root, whose parent
/// is the root itself and is never pruned — is only reported.
pub open spec fn action_model(n: NotificationModel, root: Seq<Seq<char>>) -> Result<
    ActionModel,
    ProcessError,
> {
    if n.paths.len() == 0 {
        Err(ProcessError::MissingPath)
    } else if !starts_with(n.paths[0], root) {
        Err(ProcessError::PathOutsideRoot)
    } else if n.paths[0].len() == root.len() {
        Err(ProcessError::NoParent)
    } else {
        let rel = n.paths[0].skip(root.len() as int);
        if n.kind == EventKind::Remove && rel.len() >= 2 {
            Ok(ActionModel::PruneCheck { removed: rel, parent: rel.drop_last() })
        } else {
            Ok(ActionModel::Report { kind: n.kind, rel })
        }
    }
}

/// The whole decision: the rescan warning is surfaced whatever the action,
/// even for a notification that is then abandoned.
pub open spec fn decision_model(n: NotificationModel, root: Seq<Seq<char>>) -> DecisionModel {
    DecisionModel { warn_lost: n.rescan, action: action_model(n, root) }
}

/// Does `path` start with the components of `root`?
fn is_prefix(root: &Vec<String>, path: &Vec<String>) -> (r: bool)
    ensures
        r == starts_with(path.deep_view(), root.deep_view()),
{
    if root.len() > path.len() {
        return false;
    }
    let mut i: usize = 0;
    while i < root.len()
        invariant
            i <= root@.len(),
            root@.len() <= path@.len(),
            forall|j: int| 0 <= j < i ==> path.deep_view()[j] == root.deep_view()[j],
        decreases root@.len() - i,
    {
        if !(root[i] == path[i]) {
            assert(path.deep_view()[i as int] != root.deep_view()[i as int]);
            return false;
        }
        i += 1;
    }
    true
}

/// A copy of `src[from..to]`.
fn copy_range(src: &Vec<String>, from: usize, to: usize) -> (out: Vec<String>)
    requires
        from <= to <= src@.len(),
    ensures
        out.deep_view() == src.deep_view().subrange(from as int, to as int),
{
    let mut out: Vec<String> = Vec::new();
    let mut i: usize = from;
    while i < to
        invariant
            from <= i <= to,
            to <= src@.len(),
            out.deep_view() =~= src.deep_view().subrange(from as int, i as int),
        decreases to - i,
    {
        let ghost prev = out.deep_view();
        let segment = src[i].clone();
        out.push(segment);
        proof {
            assert(out.deep_view() =~= prev.push(src.deep_view()[i as int]));
        }
        i += 1;
    }
    proof {
        assert(out.deep_view() =~= src.deep_view().subrange(from as int, to as int));
    }
    out
}

/// Plan one notification against the watched root, both given as component
/// sequences. Pure: the single filesystem mutation the system ever performs
/// is only ever requested through the returned `PruneCheck`.
pub fn plan_notification(n: &Notification, root: &Vec<String>) -> (d: Decision)
    ensures
        d.model() == decision_model(n.model(), root.deep_view()),
{
    let warn_lost = n.rescan;
    if n.paths.len() == 0 {
        return Decision { warn_lost, action: Err(ProcessError::MissingPath) };
    }
    let first = &n.paths[0];
    if !is_prefix(root, first) {
        return Decision { warn_lost, action: Err(ProcessError::PathOutsideRoot) };
    }
    if first.len() == root.len() {
        return Decision { warn_lost, action: Err(ProcessError::NoParent) };
    }
    let rel = copy_range(first, root.len(), first.len());
    let is_removal = match n.kind {
        EventKind::Remove => true,
        _ => false,
    };
    if is_removal && rel.len() >= 2 {
        let parent = copy_range(&rel, 0, rel.len() - 1);
        return Decision { warn_lost, action: Ok(Action::PruneCheck { removed: rel, parent }) };
    }
    Decision { warn_lost, action: Ok(Action::Report { kind: n.kind, rel }) }
}

/// Plan a whole batch: each notification is planned exactly as it would be
/// alone, so no notification's outcome depends on the ones around it. This is
/// the dispatch loop's sequential core; the loop may run the units in any
/// order or interleaving.
pub fn plan_all(batch: &Vec<Notification>, root: &Vec<String>) -> (ds: Vec<Decision>)
    ensures
        ds@.len() == batch@.len(),
        forall|i: int|
            0 <= i < batch@.len() ==> (#[trigger] ds@[i]).model() == decision_model(
                batch@[i].model(),
                root.deep_view(),
            ),
{
    let mut ds: Vec<Decision> = Vec::new();
    let mut i: usize = 0;
    while i < batch.len()
        invariant
            i <= batch@.len(),
            ds@.len() == i,
            forall|j: int|
                0 <= j < i ==> (#[trigger] ds@[j]).model() == decision_model(
                    batch@[j].model(),
                    root.deep_view(),
                ),
        decreases batch@.len() - i,
    {
        let d = plan_notification(&batch[i], root);
        ds.push(d);
        i += 1;
    }
    ds
}

} // verus!
