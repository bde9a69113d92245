//! The boundary to the watcher: one trusted conversion from a raw watcher
//! event to the library's plain-value notification, and the verified planning
//! of such an event.

use vstd::prelude::*;

use crate::event::{EventKind, Notification, NotificationModel};
use crate::plan::{decision_model, plan_notification, Decision};

verus! {

#[verifier::external_type_specification]
#[verifier::external_body]
pub struct ExEvent(notify::Event);

/// The notification a watcher event reduces to. The reduction reads only the
/// event value itself — its kind, its paths and its rescan flag — so it is a
/// function of that value alone.
pub uninterp spec fn notified(event: notify::Event) -> NotificationModel;

/// Relies on notify::Event: `kind`'s `is_remove`/`is_create`/`is_modify`
/// classify the change (everything else, access included, is other),
/// `need_rescan` reports whether the event carries the rescan flag, and
/// `paths` holds the affected paths, each split here into its components.
#[verifier::external_body]
fn notification_from_event(event: &notify::Event) -> (n: Notification)
    ensures
        n.model() == notified(*event),
{
    let kind = if event.kind.is_remove() {
        EventKind::Remove
    } else if event.kind.is_create() {
        EventKind::Create
    } else if event.kind.is_modify() {
        EventKind::Modify
    } else {
        EventKind::Other
    };
    let paths = event
        .paths
        .iter()
        .map(|p| p.components().map(|c| c.as_os_str().to_string_lossy().into_owned()).collect())
        .collect();
    Notification { kind, paths, rescan: event.need_rescan() }
}

/// Reduce one watcher event to a plain-value notification and plan it against
/// the watched root. The returned notification is exactly the event's
/// reduction, and the returned decision is exactly the planned one for it.
pub fn decide_event(event: &notify::Event, root: &Vec<String>) -> (r: (Notification, Decision))
    ensures
        r.0.model() == notified(*event),
        r.1.model() == decision_model(notified(*event), root.deep_view()),
{
    let n = notification_from_event(event);
    let d = plan_notification(&n, root);
    (n, d)
}

} // verus!
