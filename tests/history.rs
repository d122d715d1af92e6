use abuild::commands::{
    confirmation, history_report, set_confirmation, unset_confirmation, CommandError,
    ResolutionError,
};
use abuild::oplog::{LogError, OpKind, Record, Session};
use abuild::table::Duplicate;
use abuild::tree::Change;

fn s(x: &str) -> String {
    x.to_string()
}

fn value(session: &Session, project: Option<&str>, key: &str) -> Option<String> {
    session.tree().own_value(&project.map(s), &s(key))
}

#[test]
fn workspace_lifecycle_scenario() {
    let mut w = Session::new();
    assert_eq!(w.init(true, 1), Ok(()));
    assert!(w.tree().is_initialized());
    assert_eq!(w.log_len(), 1);
    assert_eq!(w.cursor(), 1);

    assert_eq!(w.create_project(s("app"), true, 2), Ok(()));
    assert!(w.tree().has_project(&s("app")));
    assert_eq!(w.cursor(), 2);

    assert_eq!(w.set_value(Some(s("app")), s("config.version"), s("1.0.0"), 3), Ok(()));
    assert_eq!(value(&w, Some("app"), "config.version"), Some(s("1.0.0")));
    assert_eq!(w.cursor(), 3);

    let undone = w.undo().unwrap();
    assert_eq!(undone.kind, OpKind::SetValue);
    assert_eq!(value(&w, Some("app"), "config.version"), None);
    assert_eq!(w.cursor(), 2);

    let undone = w.undo().unwrap();
    assert_eq!(undone.kind, OpKind::Create);
    assert!(matches!(undone.change, Change::Project(ref n, None) if n == "app"));
    assert!(!w.tree().has_project(&s("app")));
    assert_eq!(w.cursor(), 1);

    let redone = w.redo().unwrap();
    assert_eq!(redone.kind, OpKind::Create);
    assert!(w.tree().has_project(&s("app")));
    assert_eq!(w.cursor(), 2);
}

#[test]
fn undoing_every_operation_restores_the_start() {
    let mut w = Session::new();
    w.init(true, 1).unwrap();
    w.set_value(None, s("config.author"), s("ann"), 2).unwrap();
    w.create_project(s("a"), true, 3).unwrap();
    w.set_value(Some(s("a")), s("k"), s("v"), 4).unwrap();
    w.set_value(None, s("config.author"), s("bob"), 5).unwrap();
    w.unset_value(Some(s("a")), s("k"), 6).unwrap();
    w.remove_project(s("a"), false, 7).unwrap();
    for _ in 0..7 {
        w.undo().unwrap();
    }
    assert!(!w.tree().is_initialized());
    assert_eq!(w.tree().project_count(), 0);
    assert_eq!(w.cursor(), 0);
    assert_eq!(w.undo().err(), Some(LogError::NoOperationToUndo));
}

#[test]
fn undo_then_redo_reproduces_the_state() {
    let mut w = Session::new();
    w.init(true, 1).unwrap();
    w.set_value(None, s("x"), s("1"), 2).unwrap();
    w.set_value(None, s("x"), s("2"), 3).unwrap();
    w.create_project(s("p"), true, 4).unwrap();
    w.set_value(Some(s("p")), s("x"), s("3"), 5).unwrap();

    w.undo().unwrap();
    w.undo().unwrap();
    w.undo().unwrap();
    // the state after the first two operations
    assert_eq!(value(&w, None, "x"), Some(s("1")));
    assert!(!w.tree().has_project(&s("p")));

    w.redo().unwrap();
    w.redo().unwrap();
    w.redo().unwrap();
    assert_eq!(value(&w, None, "x"), Some(s("2")));
    assert_eq!(value(&w, Some("p"), "x"), Some(s("3")));
    assert_eq!(w.tree().effective_value(&Some(s("p")), &s("x")), Some(s("3")));
    assert_eq!(w.cursor(), 5);
    assert_eq!(w.log_len(), 5);
}

#[test]
fn a_new_operation_drops_the_redo_tail() {
    let mut w = Session::new();
    w.init(true, 1).unwrap();
    w.set_value(None, s("a"), s("1"), 2).unwrap();
    w.set_value(None, s("b"), s("2"), 3).unwrap();
    w.undo().unwrap();
    w.undo().unwrap();
    assert_eq!(w.log_len(), 3);
    w.set_value(None, s("c"), s("3"), 4).unwrap();
    assert_eq!(w.log_len(), 2);
    assert_eq!(w.cursor(), 2);
    assert_eq!(w.redo().err(), Some(LogError::NoOperationToRedo));
    assert_eq!(w.redo().err(), Some(LogError::NoOperationToRedo));
    assert_eq!(value(&w, None, "a"), None);
    assert_eq!(value(&w, None, "c"), Some(s("3")));
}

#[test]
fn undo_and_redo_on_an_empty_history() {
    let mut w = Session::new();
    assert_eq!(w.undo().err(), Some(LogError::NoOperationToUndo));
    assert_eq!(w.redo().err(), Some(LogError::NoOperationToRedo));
    assert_eq!(w.cursor(), 0);
}

#[test]
fn entries_keep_both_directions() {
    let mut w = Session::new();
    w.init(true, 10).unwrap();
    w.set_value(None, s("k"), s("v"), 11).unwrap();
    w.set_value(None, s("k"), s("w"), 12).unwrap();
    let e = &w.entries()[2];
    assert_eq!(e.sequence_id, 3);
    assert_eq!(e.timestamp, 12);
    assert_eq!(e.kind, OpKind::SetValue);
    assert!(matches!(&e.forward, Change::Entry(None, k, Some(v)) if k == "k" && v == "w"));
    assert!(matches!(&e.inverse, Change::Entry(None, k, Some(v)) if k == "k" && v == "v"));
}

#[test]
fn unset_of_a_missing_key_is_logged_and_undone_as_a_no_op() {
    let mut w = Session::new();
    w.init(true, 1).unwrap();
    w.unset_value(None, s("nothing"), 2).unwrap();
    assert_eq!(w.cursor(), 2);
    w.undo().unwrap();
    assert_eq!(value(&w, None, "nothing"), None);
}

#[test]
fn init_needs_an_empty_directory() {
    let mut w = Session::new();
    assert_eq!(w.init(false, 1), Err(CommandError::TargetNotEmpty(None)));
    assert_eq!(w.log_len(), 0);
    w.init(true, 1).unwrap();
    assert_eq!(w.init(true, 2), Err(CommandError::TargetNotEmpty(None)));
    assert_eq!(w.log_len(), 1);
}

#[test]
fn create_needs_a_workspace_and_an_empty_directory() {
    let mut w = Session::new();
    assert_eq!(
        w.create_project(s("p"), true, 1),
        Err(CommandError::Resolution(ResolutionError::NoWorkspaceFound))
    );
    w.init(true, 1).unwrap();
    assert_eq!(w.create_project(s("p"), false, 2), Err(CommandError::TargetNotEmpty(Some(s("p")))));
    w.create_project(s("p"), true, 2).unwrap();
    assert_eq!(w.create_project(s("p"), true, 3), Err(CommandError::TargetNotEmpty(Some(s("p")))));
}

#[test]
fn commands_on_a_missing_project_fail() {
    let mut w = Session::new();
    w.init(true, 1).unwrap();
    let missing = Err(CommandError::Resolution(ResolutionError::ProjectNotFound(s("q"))));
    assert_eq!(w.remove_project(s("q"), false, 2), missing);
    assert_eq!(w.set_value(Some(s("q")), s("k"), s("v"), 2), missing);
    assert_eq!(w.unset_value(Some(s("q")), s("k"), 2), missing);
    assert_eq!(w.log_len(), 1);
}

#[test]
fn set_without_a_workspace_fails() {
    let mut w = Session::new();
    assert_eq!(
        w.set_value(None, s("k"), s("v"), 1),
        Err(CommandError::Resolution(ResolutionError::NoWorkspaceFound))
    );
}

#[test]
fn removing_a_workspace_takes_its_projects_and_undo_brings_them_back() {
    let mut w = Session::new();
    assert_eq!(
        w.remove_workspace(false, 1),
        Err(CommandError::Resolution(ResolutionError::NoWorkspaceFound))
    );
    w.init(true, 1).unwrap();
    w.set_value(None, s("author"), s("me"), 2).unwrap();
    w.create_project(s("p"), true, 3).unwrap();
    w.set_value(Some(s("p")), s("k"), s("v"), 4).unwrap();
    w.create_project(s("q"), true, 5).unwrap();
    assert_eq!(w.remove_workspace(false, 6), Ok(()));
    assert!(!w.tree().is_initialized());
    assert_eq!(w.tree().project_count(), 0);
    let undone = w.undo().unwrap();
    assert_eq!(undone.kind, OpKind::Remove);
    assert!(w.tree().is_initialized());
    assert_eq!(w.tree().project_count(), 2);
    assert_eq!(value(&w, Some("p"), "k"), Some(s("v")));
    assert_eq!(value(&w, None, "author"), Some(s("me")));
    w.redo().unwrap();
    assert_eq!(w.tree().project_count(), 0);
}

#[test]
fn nothing_is_removed_while_a_build_holds_the_output() {
    let mut w = Session::new();
    w.init(true, 1).unwrap();
    w.create_project(s("p"), true, 2).unwrap();
    assert_eq!(w.remove_project(s("p"), true, 3), Err(CommandError::TargetBusy));
    assert_eq!(w.remove_workspace(true, 3), Err(CommandError::TargetBusy));
    assert_eq!(w.log_len(), 2);
    assert!(w.tree().has_project(&s("p")));
    assert_eq!(w.remove_project(s("p"), false, 3), Ok(()));
}

#[test]
fn project_values_come_before_workspace_values() {
    let mut w = Session::new();
    w.init(true, 1).unwrap();
    w.create_project(s("p"), true, 2).unwrap();
    w.set_value(None, s("k"), s("ws"), 3).unwrap();
    assert_eq!(w.tree().effective_value(&Some(s("p")), &s("k")), Some(s("ws")));
    w.set_value(Some(s("p")), s("k"), s("proj"), 4).unwrap();
    assert_eq!(w.tree().effective_value(&Some(s("p")), &s("k")), Some(s("proj")));
    assert_eq!(w.tree().effective_value(&None, &s("k")), Some(s("ws")));
    assert_eq!(w.tree().effective_value(&None, &s("other")), None);
}

#[test]
fn confirmations_name_the_scope() {
    assert_eq!(
        confirmation(OpKind::Create, &s("w"), &None),
        "workspace 'w' was created successfully."
    );
    assert_eq!(
        confirmation(OpKind::Init, &s("w"), &None),
        "workspace 'w' was initialized successfully."
    );
    assert_eq!(
        confirmation(OpKind::Remove, &s("w"), &Some(s("p"))),
        "project 'p' was removed successfully."
    );
    assert_eq!(
        set_confirmation(&s("w"), &None, &s("config.author"), &s("your_name")),
        "the workspace 'w' config.author was set to \"your_name\"."
    );
    assert_eq!(
        set_confirmation(&s("w"), &Some(s("my_project")), &s("config.version"), &s("1.0.0")),
        "the project 'my_project' config.version was set to \"1.0.0\"."
    );
    assert_eq!(
        unset_confirmation(&s("w"), &None, &s("k")),
        "the workspace 'w' k was unset."
    );
    assert_eq!(history_report(OpKind::UnsetValue), "the last operation is 'unset'");
}

#[test]
fn a_session_comes_back_from_its_log() {
    let mut w = Session::new();
    w.init(true, 1).unwrap();
    w.create_project(s("app"), true, 2).unwrap();
    w.set_value(Some(s("app")), s("k"), s("v"), 3).unwrap();
    w.set_value(None, s("author"), s("me"), 4).unwrap();
    w.undo().unwrap();
    let records: Vec<Record> = w
        .entries()
        .iter()
        .map(|o| Record {
            kind: o.kind,
            scope: o.scope.clone(),
            change: o.forward.duplicate(),
            timestamp: o.timestamp,
        })
        .collect();
    let back = Session::replay(records, w.cursor()).ok().unwrap();
    assert_eq!(back.cursor(), 3);
    assert_eq!(back.log_len(), 4);
    assert_eq!(value(&back, Some("app"), "k"), Some(s("v")));
    assert_eq!(value(&back, None, "author"), None);
    assert_eq!(back.entries()[3].timestamp, 4);
    let mut back = back;
    assert_eq!(back.redo().unwrap().kind, OpKind::SetValue);
    assert_eq!(value(&back, None, "author"), Some(s("me")));
}

#[test]
fn a_cursor_past_the_log_is_corruption() {
    let r = Session::replay(Vec::new(), 1);
    assert_eq!(r.err(), Some(LogError::Corrupted));
}
