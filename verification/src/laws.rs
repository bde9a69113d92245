//! The guarantees the pipeline lives by, stated over the planning and action
//! models and proved once for all inputs.

use vstd::prelude::*;

use crate::event::{EventKind, NotificationModel, ProcessError};
use crate::plan::{action_model, decision_model, starts_with, ActionModel, DecisionModel};
use crate::prune::{prune_command_model, PruneCommand};

verus! {

/// The decisions for a whole stream of notifications, each taken as if it
/// were alone.
pub open spec fn decisions_model(
    batch: Seq<NotificationModel>,
    root: Seq<Seq<char>>,
) -> Seq<DecisionModel> {
    batch.map(|i: int, n: NotificationModel| decision_model(n, root))
}

/// Root protection: whatever a notification holds, a prune candidate lies
/// strictly inside the watched root — its relative path is nonempty, so the
/// absolute directory it names is longer than, and different from, the root
/// itself. The candidate is also exactly the removed entry's parent.
pub proof fn lemma_root_never_pruned(n: NotificationModel, root: Seq<Seq<char>>)
    ensures
        action_model(n, root) matches Ok(ActionModel::PruneCheck { removed, parent }) ==> {
            &&& parent.len() >= 1
            &&& removed.len() == parent.len() + 1
            &&& parent == removed.drop_last()
            &&& (root + parent).len() > root.len()
            &&& root + parent != root
        },
{
    match action_model(n, root) {
        Ok(ActionModel::PruneCheck { removed, parent }) => {
            assert((root + parent).len() == root.len() + parent.len());
        },
        _ => {},
    }
}

/// Non-removal kinds are inert: a create, modify or other notification never
/// yields a prune candidate, so it never leads to a filesystem mutation.
pub proof fn lemma_non_removal_inert(n: NotificationModel, root: Seq<Seq<char>>)
    requires
        n.kind != EventKind::Remove,
    ensures
        !(action_model(n, root) matches Ok(ActionModel::PruneCheck { .. })),
{
}

/// Re-verified emptiness: a removal is commanded exactly when the fresh read,
/// made at action time, found the candidate empty. A directory with entries
/// is never removed on stale information.
pub proof fn lemma_remove_only_when_observed_empty(fresh_read: Option<bool>)
    ensures
        prune_command_model(fresh_read) == PruneCommand::Remove <==> fresh_read == Some(true),
{
}

/// Idempotence under races: a prune candidate that is already gone — its
/// fresh read failed — is reported and left alone; the unit neither removes
/// anything nor escalates.
pub proof fn lemma_missing_parent_tolerated()
    ensures
        prune_command_model(None) == PruneCommand::ReportUnreadable,
        prune_command_model(None) != PruneCommand::Remove,
{
}

/// Liveness at the model's boundary: a removal notification whose path lies
/// under the root and at least two levels below it always yields a prune
/// candidate for its parent, and a fresh read that finds that parent empty
/// always commands its removal. The cascade then rests on the event source
/// reporting each such removal in turn.
pub proof fn lemma_prune_follows_removal(n: NotificationModel, root: Seq<Seq<char>>)
    requires
        n.kind == EventKind::Remove,
        n.paths.len() >= 1,
        starts_with(n.paths[0], root),
        n.paths[0].len() >= root.len() + 2,
    ensures
        action_model(n, root) == Ok::<ActionModel, ProcessError>(
            ActionModel::PruneCheck {
                removed: n.paths[0].skip(root.len() as int),
                parent: n.paths[0].skip(root.len() as int).drop_last(),
            },
        ),
        prune_command_model(Some(true)) == PruneCommand::Remove,
{
}

/// Malformed-notification isolation: a notification with no path, or with a
/// path outside the root, is abandoned with an error, and every other
/// notification in the stream is decided exactly as it would be alone.
pub proof fn lemma_malformed_isolated(
    batch: Seq<NotificationModel>,
    root: Seq<Seq<char>>,
    i: int,
    j: int,
)
    requires
        0 <= i < batch.len(),
        0 <= j < batch.len(),
        i != j,
        batch[i].paths.len() == 0 || !starts_with(batch[i].paths[0], root),
    ensures
        decisions_model(batch, root)[i].action is Err,
        decisions_model(batch, root)[j] == decision_model(batch[j], root),
{
}

/// Concurrent units are independent: two notifications are decided the same
/// whichever order they are taken in, so racing sibling removals each prune
/// their own parent regardless of interleaving.
pub proof fn lemma_units_independent(
    a: NotificationModel,
    b: NotificationModel,
    root: Seq<Seq<char>>,
)
    ensures
        decisions_model(seq![a, b], root) == seq![
            decision_model(a, root),
            decision_model(b, root),
        ],
        decisions_model(seq![b, a], root) == seq![
            decision_model(b, root),
            decision_model(a, root),
        ],
{
    assert(decisions_model(seq![a, b], root) =~= seq![
        decision_model(a, root),
        decision_model(b, root),
    ]);
    assert(decisions_model(seq![b, a], root) =~= seq![
        decision_model(b, root),
        decision_model(a, root),
    ]);
}

} // verus!
