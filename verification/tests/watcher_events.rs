//! Decisions taken on real watcher events, through the trusted conversion.

use std::path::PathBuf;

use notify::event::{CreateKind, Flag, ModifyKind, RemoveKind};
use notify::{Event, EventKind};

use dirprune::event::EventKind as Kind;
use dirprune::event::ProcessError;
use dirprune::plan::Action;
use dirprune::source::decide_event;

fn comp_list(parts: &[&str]) -> Vec<String> {
    parts.iter().map(|s| s.to_string()).collect()
}

#[test]
fn remove_event_is_split_into_components_and_planned() {
    let e = Event::new(EventKind::Remove(RemoveKind::File))
        .add_path(PathBuf::from("/r/a/b/f.txt"));
    let (n, d) = decide_event(&e, &comp_list(&["/", "r"]));
    assert_eq!(n.kind, Kind::Remove);
    assert_eq!(n.paths, vec![comp_list(&["/", "r", "a", "b", "f.txt"])]);
    assert!(!n.rescan);
    assert!(!d.warn_lost);
    match d.action {
        Ok(Action::PruneCheck { removed, parent }) => {
            assert_eq!(removed, comp_list(&["a", "b", "f.txt"]));
            assert_eq!(parent, comp_list(&["a", "b"]));
        }
        _ => panic!("a removal two levels down must yield a prune candidate"),
    }
}

#[test]
fn create_event_is_only_reported() {
    let e = Event::new(EventKind::Create(CreateKind::File))
        .add_path(PathBuf::from("/r/a/new.txt"));
    let (n, d) = decide_event(&e, &comp_list(&["/", "r"]));
    assert_eq!(n.kind, Kind::Create);
    match d.action {
        Ok(Action::Report { kind, rel }) => {
            assert_eq!(kind, Kind::Create);
            assert_eq!(rel, comp_list(&["a", "new.txt"]));
        }
        _ => panic!("a create event must never ask for a mutation"),
    }
}

#[test]
fn modify_and_other_events_are_classified() {
    let e = Event::new(EventKind::Modify(ModifyKind::Any)).add_path(PathBuf::from("/r/a/t"));
    let (n, _) = decide_event(&e, &comp_list(&["/", "r"]));
    assert_eq!(n.kind, Kind::Modify);

    let e = Event::new(EventKind::Any).add_path(PathBuf::from("/r/a/t"));
    let (n, _) = decide_event(&e, &comp_list(&["/", "r"]));
    assert_eq!(n.kind, Kind::Other);
}

#[test]
fn rescan_flag_becomes_a_warning() {
    let e = Event::new(EventKind::Remove(RemoveKind::Folder))
        .add_path(PathBuf::from("/r/a/b"))
        .set_flag(Flag::Rescan);
    let (n, d) = decide_event(&e, &comp_list(&["/", "r"]));
    assert!(n.rescan);
    assert!(d.warn_lost);
}

#[test]
fn event_without_a_path_is_abandoned() {
    let e = Event::new(EventKind::Remove(RemoveKind::File));
    let (n, d) = decide_event(&e, &comp_list(&["/", "r"]));
    assert!(n.paths.is_empty());
    assert_eq!(d.action.err(), Some(ProcessError::MissingPath));
}

#[test]
fn event_outside_the_root_is_abandoned() {
    let e = Event::new(EventKind::Remove(RemoveKind::File))
        .add_path(PathBuf::from("/somewhere/else/f.txt"));
    let (_, d) = decide_event(&e, &comp_list(&["/", "r"]));
    assert_eq!(d.action.err(), Some(ProcessError::PathOutsideRoot));
}
