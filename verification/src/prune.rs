//! The event processor's action stage: given the outcome of re-reading a
//! prune candidate at action time, decide whether to remove it. Emptiness is
//! never cached — the caller must re-read the directory immediately before
//! asking, and a removal is commanded only on a fresh, successful, empty
//! read.

use vstd::prelude::*;

verus! {

/// What to do with a prune candidate after its fresh read.
#[derive(Clone, Copy, Debug, PartialEq, Eq, Structural)]
pub enum PruneCommand {
    /// The fresh read found no entries: remove the directory.
    Remove,
    /// The fresh read found entries: leave the directory alone.
    Leave,
    /// The directory could not be read — most often it is already gone,
    /// removed by a racing unit or externally: report, take no action.
    ReportUnreadable,
}

/// The command a fresh read calls for: `Some(true)` means the candidate was
/// read and found empty, `Some(false)` read and found occupied, `None`
/// unreadable.
pub open spec fn prune_command_model(fresh_read: Option<bool>) -> PruneCommand {
    match fresh_read {
        Some(true) => PruneCommand::Remove,
        Some(false) => PruneCommand::Leave,
        None => PruneCommand::ReportUnreadable,
    }
}

/// Decide a prune candidate's fate from its fresh read alone. Removal is
/// commanded exactly when the read, made at action time, found the directory
/// empty; a failed read — the parent already removed, say — is reported, not
/// fatal.
pub fn confirm_prune(fresh_read: Option<bool>) -> (c: PruneCommand)
    ensures
        c == prune_command_model(fresh_read),
{
    match fresh_read {
        Some(true) => PruneCommand::Remove,
        Some(false) => PruneCommand::Leave,
        None => PruneCommand::ReportUnreadable,
    }
}

} // verus!
