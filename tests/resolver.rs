use abuild::commands::ResolutionError;
use abuild::oplog::Session;
use abuild::resolve::{
    effective_profile, find_workspace, is_within, join_path, require_single_project, resolve_scope,
    ScopeOptions,
};

fn s(x: &str) -> String {
    x.to_string()
}

fn workspace_with(projects: &[&str]) -> Session {
    let mut w = Session::new();
    w.init(true, 1).unwrap();
    for (i, p) in projects.iter().enumerate() {
        w.create_project(s(p), true, 2 + i as u64).unwrap();
    }
    w
}

#[test]
fn an_explicit_workspace_ignores_cwd() {
    let w = workspace_with(&["app", "lib"]);
    let opts = ScopeOptions { workspace: Some(s("/w")), project: None, profile: None };
    for cwd in ["/w/app/src", "/", "/elsewhere", "/w/lib"] {
        let markers = vec![s("/"), s("/w")];
        assert_eq!(find_workspace(&opts.workspace, &s(cwd), &markers), Ok(s("/w")));
        assert_eq!(find_workspace(&opts.workspace, &s(cwd), &vec![]), Ok(s("/w")));
        assert_eq!(resolve_scope(&opts, &s("/w"), &s(cwd), w.tree()), Ok(None));
    }
}

#[test]
fn the_deepest_marker_above_cwd_is_the_workspace() {
    let markers = vec![s("/"), s("/home/u/w"), s("/home/u"), s("/home/u/w2")];
    assert_eq!(find_workspace(&None, &s("/home/u/w/app/src"), &markers), Ok(s("/home/u/w")));
    assert_eq!(find_workspace(&None, &s("/home/u/w2"), &markers), Ok(s("/home/u/w2")));
    assert_eq!(find_workspace(&None, &s("/home/u/w20"), &markers), Ok(s("/home/u")));
    assert_eq!(find_workspace(&None, &s("/tmp"), &markers), Ok(s("/")));
}

#[test]
fn no_marker_means_no_workspace() {
    let markers = vec![s("/home/u/w")];
    assert_eq!(
        find_workspace(&None, &s("/home/u/other"), &markers),
        Err(ResolutionError::NoWorkspaceFound)
    );
    assert_eq!(find_workspace(&None, &s("/x"), &vec![]), Err(ResolutionError::NoWorkspaceFound));
}

#[test]
fn the_project_holding_cwd_is_inferred() {
    let w = workspace_with(&["app", "lib", "app2"]);
    let opts = ScopeOptions::default();
    assert_eq!(resolve_scope(&opts, &s("/w"), &s("/w/app/src/x"), w.tree()), Ok(Some(s("app"))));
    assert_eq!(resolve_scope(&opts, &s("/w"), &s("/w/app2"), w.tree()), Ok(Some(s("app2"))));
    assert_eq!(resolve_scope(&opts, &s("/w"), &s("/w"), w.tree()), Ok(None));
    assert_eq!(resolve_scope(&opts, &s("/w"), &s("/w/target/debug"), w.tree()), Ok(None));
}

#[test]
fn a_named_project_must_exist() {
    let w = workspace_with(&["app"]);
    let named = ScopeOptions { workspace: None, project: Some(s("app")), profile: None };
    assert_eq!(resolve_scope(&named, &s("/w"), &s("/w/elsewhere"), w.tree()), Ok(Some(s("app"))));
    let missing = ScopeOptions { workspace: None, project: Some(s("nope")), profile: None };
    assert_eq!(
        resolve_scope(&missing, &s("/w"), &s("/w"), w.tree()),
        Err(ResolutionError::ProjectNotFound(s("nope")))
    );
}

#[test]
fn a_command_needing_one_project_refuses_several() {
    let one = workspace_with(&["app"]);
    assert_eq!(require_single_project(&None, one.tree()), Ok(s("app")));
    let two = workspace_with(&["app", "lib"]);
    assert_eq!(require_single_project(&None, two.tree()), Err(ResolutionError::AmbiguousScope));
    assert_eq!(require_single_project(&Some(s("lib")), two.tree()), Ok(s("lib")));
    let none = workspace_with(&[]);
    assert_eq!(require_single_project(&None, none.tree()), Err(ResolutionError::NoProject));
}

#[test]
fn the_profile_falls_back_to_configuration_then_debug() {
    let mut w = workspace_with(&["app"]);
    assert_eq!(effective_profile(&None, w.tree(), &None), "debug");
    w.set_value(None, s("profile.default"), s("release"), 9).unwrap();
    assert_eq!(effective_profile(&None, w.tree(), &Some(s("app"))), "release");
    w.set_value(Some(s("app")), s("profile.default"), s("minsizerel"), 10).unwrap();
    assert_eq!(effective_profile(&None, w.tree(), &Some(s("app"))), "minsizerel");
    assert_eq!(effective_profile(&Some(s("nightly")), w.tree(), &Some(s("app"))), "nightly");
}

#[test]
fn paths_nest_at_separators() {
    assert!(is_within(&s("/w"), &s("/w")));
    assert!(is_within(&s("/w"), &s("/w/a")));
    assert!(!is_within(&s("/w"), &s("/wa")));
    assert!(is_within(&s("/"), &s("/anything")));
    assert!(!is_within(&s("/w/a"), &s("/w")));
    assert_eq!(join_path(&s("/w"), &s("app")), "/w/app");
    assert_eq!(join_path(&s("/"), &s("app")), "/app");
    assert_eq!(join_path(&s(""), &s("bin")), "bin");
}
