use ffs::classify::{classify, LogAction};
use ffs::event::{EventKind, ModifyKind, Notification, RenameMode};

fn note(kind: EventKind, paths: &[&str]) -> Notification {
    Notification::new(kind, paths.iter().map(|p| p.to_string()).collect())
}

#[test]
fn create_logs_every_path() {
    let n = note(EventKind::Create, &["a.txt", "b.txt"]);
    let actions = classify(&n);
    assert_eq!(
        actions,
        vec![
            LogAction::Created("a.txt".to_string()),
            LogAction::Created("b.txt".to_string()),
        ]
    );
}

#[test]
fn remove_logs_every_path() {
    let n = note(EventKind::Remove, &["gone.txt"]);
    let actions = classify(&n);
    assert_eq!(actions, vec![LogAction::Removed("gone.txt".to_string())]);
}

#[test]
fn modify_data_logs_every_path() {
    let n = note(EventKind::Modify(ModifyKind::Data), &["x", "y"]);
    let actions = classify(&n);
    assert_eq!(
        actions,
        vec![
            LogAction::Modified("x".to_string()),
            LogAction::Modified("y".to_string()),
        ]
    );
}

#[test]
fn modify_metadata_and_any_log_every_path() {
    for kind in [ModifyKind::Metadata, ModifyKind::Any, ModifyKind::Other] {
        let n = note(EventKind::Modify(kind), &["m"]);
        assert_eq!(classify(&n), vec![LogAction::Modified("m".to_string())]);
    }
}

#[test]
fn paired_rename_logs_exactly_one_correlated_line() {
    let n = note(
        EventKind::Modify(ModifyKind::Name(RenameMode::Both)),
        &["a.txt", "b.txt"],
    );
    let actions = classify(&n);
    assert_eq!(
        actions,
        vec![LogAction::Renamed("a.txt".to_string(), "b.txt".to_string())]
    );
    for a in &actions {
        assert!(!matches!(a, LogAction::Created(_)));
        assert!(!matches!(a, LogAction::Removed(_)));
    }
}

#[test]
fn paired_rename_uses_only_first_two_paths() {
    let n = note(
        EventKind::Modify(ModifyKind::Name(RenameMode::Both)),
        &["a", "b", "c"],
    );
    assert_eq!(
        classify(&n),
        vec![LogAction::Renamed("a".to_string(), "b".to_string())]
    );
}

#[test]
fn paired_rename_with_one_path_is_suppressed() {
    let n = note(EventKind::Modify(ModifyKind::Name(RenameMode::Both)), &["a"]);
    assert_eq!(classify(&n), vec![]);
}

#[test]
fn half_renames_are_suppressed() {
    for mode in [RenameMode::From, RenameMode::To] {
        let n = note(EventKind::Modify(ModifyKind::Name(mode)), &["a", "b"]);
        assert_eq!(classify(&n), vec![]);
    }
}

#[test]
fn noise_kinds_are_suppressed() {
    for kind in [EventKind::Access, EventKind::Other, EventKind::Any] {
        let n = note(kind, &["noisy.txt"]);
        assert_eq!(classify(&n), vec![]);
    }
}

#[test]
fn rendered_lines_match_the_log_format() {
    assert_eq!(
        LogAction::Created("a.txt".to_string()).line(),
        "Created: a.txt"
    );
    assert_eq!(
        LogAction::Renamed("a.txt".to_string(), "b.txt".to_string()).line(),
        "Rename: a.txt → b.txt"
    );
    assert_eq!(
        LogAction::Modified("m.txt".to_string()).line(),
        "Modified: m.txt"
    );
    assert_eq!(
        LogAction::Removed("r.txt".to_string()).line(),
        "Removed: r.txt"
    );
}
