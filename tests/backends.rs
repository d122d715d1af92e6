use abuild::backend::{
    configured_binaries, detect, exit_outcome, next_step, plan_build, plan_clean, plan_rebuild,
    plan_run, select_binaries, translate_profile, Action, BackendError, BackendKind, BuildBackend,
    Invocation, Step,
};
use abuild::oplog::Session;

fn s(x: &str) -> String {
    x.to_string()
}

fn names(v: &[&str]) -> Vec<String> {
    v.iter().map(|x| s(x)).collect()
}

fn backend(kind: BackendKind, marker: &str) -> BuildBackend {
    BuildBackend { kind, marker: s(marker) }
}

fn argv(i: &Invocation) -> Vec<&str> {
    i.argv.iter().map(|a| a.as_str()).collect()
}

#[test]
fn cmake_wins_over_a_plain_makefile_in_any_order() {
    let a = detect(&names(&["Makefile", "CMakeLists.txt", "README.md"])).unwrap();
    let b = detect(&names(&["CMakeLists.txt", "README.md", "Makefile"])).unwrap();
    assert_eq!(a.kind, BackendKind::CMake);
    assert_eq!(a, b);
    for _ in 0..3 {
        assert_eq!(detect(&names(&["Makefile", "CMakeLists.txt"])).unwrap(), a);
    }
}

#[test]
fn detection_follows_the_priority_order() {
    let all = names(&["Makefile", "app.sln", "CMakeLists.txt", "Cargo.toml"]);
    assert_eq!(detect(&all).unwrap(), backend(BackendKind::NativeToolchain, "Cargo.toml"));
    let sln = names(&["Makefile", "x.csproj", "y.sln"]);
    assert_eq!(detect(&sln).unwrap(), backend(BackendKind::Solution, "x.csproj"));
    assert_eq!(detect(&names(&["Makefile"])).unwrap(), backend(BackendKind::Make, "Makefile"));
    assert_eq!(detect(&names(&["src", "makefile.txt", ".sln.bak"])), Err(BackendError::NoBackendDetected));
    assert_eq!(detect(&vec![]), Err(BackendError::NoBackendDetected));
}

#[test]
fn profiles_are_translated_by_table() {
    assert_eq!(translate_profile(BackendKind::Solution, &s("debug")), Ok(s("Debug")));
    assert_eq!(translate_profile(BackendKind::CMake, &s("relwithdebinfo")), Ok(s("RelWithDebInfo")));
    assert_eq!(translate_profile(BackendKind::CMake, &s("minsizerel")), Ok(s("MinSizeRel")));
    assert_eq!(translate_profile(BackendKind::NativeToolchain, &s("debug")), Ok(s("dev")));
    assert_eq!(translate_profile(BackendKind::Make, &s("release")), Ok(s("release")));
    assert_eq!(
        translate_profile(BackendKind::Solution, &s("minsizerel")),
        Err(BackendError::UnsupportedProfile(s("minsizerel")))
    );
    assert_eq!(
        translate_profile(BackendKind::NativeToolchain, &s("Debug")),
        Err(BackendError::UnsupportedProfile(s("Debug")))
    );
}

#[test]
fn building_an_unknown_binary_names_it() {
    let b = backend(BackendKind::NativeToolchain, "Cargo.toml");
    let configured = names(&["app", "tool"]);
    let err = plan_build(&b, &s("debug"), &Some(s("x")), &configured).err().unwrap();
    assert_eq!(err, BackendError::UnknownBinary(s("x")));
    let err = plan_build(&b, &s("debug"), &Some(s("x")), &vec![]).err().unwrap();
    assert_eq!(err, BackendError::UnknownBinary(s("x")));
    assert_eq!(select_binaries(&configured, &Some(s("tool"))), Ok(names(&["tool"])));
    assert_eq!(select_binaries(&configured, &None), Ok(configured.clone()));
}

#[test]
fn build_steps_one_per_binary() {
    let b = backend(BackendKind::NativeToolchain, "Cargo.toml");
    let plan = plan_build(&b, &s("release"), &None, &names(&["app", "tool"])).ok().unwrap();
    assert_eq!(plan.len(), 2);
    assert_eq!(plan[0].step, Step::Build);
    assert_eq!(argv(&plan[0]), vec!["cargo", "build", "--profile", "release", "--bin", "app"]);
    assert_eq!(argv(&plan[1]), vec!["cargo", "build", "--profile", "release", "--bin", "tool"]);
    let none = plan_build(&b, &s("release"), &None, &vec![]).ok().unwrap();
    assert!(none.is_empty());
}

#[test]
fn command_lines_per_backend() {
    let cmake = backend(BackendKind::CMake, "CMakeLists.txt");
    let plan = plan_build(&cmake, &s("debug"), &Some(s("app")), &names(&["app"])).ok().unwrap();
    assert_eq!(
        argv(&plan[0]),
        vec!["cmake", "--build", "target/debug/build", "--config", "Debug", "--target", "app"]
    );
    let sln = backend(BackendKind::Solution, "w.sln");
    let plan = plan_clean(&sln, &s("release")).ok().unwrap();
    assert_eq!(argv(&plan[0]), vec!["msbuild", "w.sln", "/p:Configuration=Release", "/t:Clean"]);
    let make = backend(BackendKind::Make, "Makefile");
    let plan = plan_build(&make, &s("debug"), &None, &names(&["a"])).ok().unwrap();
    assert_eq!(argv(&plan[0]), vec!["make", "PROFILE=debug", "a"]);
    let plan = plan_run(&make, &s("debug"), &None, &names(&["a"]), &names(&["-v", "x"])).ok().unwrap();
    assert_eq!(plan[0].step, Step::Run);
    assert_eq!(argv(&plan[0]), vec!["target/debug/build/a", "-v", "x"]);
    let cargo = backend(BackendKind::NativeToolchain, "Cargo.toml");
    let plan = plan_run(&cargo, &s("debug"), &Some(s("a")), &names(&["a"]), &names(&["1"])).ok().unwrap();
    assert_eq!(argv(&plan[0]), vec!["cargo", "run", "--profile", "dev", "--bin", "a", "--", "1"]);
}

#[test]
fn rebuild_stops_when_clean_fails() {
    let b = backend(BackendKind::Make, "Makefile");
    let plan = plan_rebuild(&b, &s("debug"), &None, &names(&["a", "b"])).ok().unwrap();
    assert_eq!(plan.len(), 3);
    assert_eq!(plan[0].step, Step::Clean);
    assert_eq!(argv(&plan[0]), vec!["make", "PROFILE=debug", "clean"]);
    assert_eq!(plan[1].step, Step::Build);
    assert_eq!(next_step(&plan, 0, None), Action::Start(0));
    assert_eq!(
        next_step(&plan, 1, Some(2)),
        Action::Finish(Err(BackendError::Failed { step: Step::Clean, code: 2 }))
    );
    assert_eq!(next_step(&plan, 1, Some(0)), Action::Start(1));
    assert_eq!(next_step(&plan, 3, Some(0)), Action::Finish(Ok(())));
    assert_eq!(
        next_step(&plan, 2, Some(1)),
        Action::Finish(Err(BackendError::Failed { step: Step::Build, code: 1 }))
    );
}

#[test]
fn rebuild_cleans_even_with_nothing_to_build() {
    let b = backend(BackendKind::NativeToolchain, "Cargo.toml");
    let plan = plan_rebuild(&b, &s("debug"), &None, &vec![]).ok().unwrap();
    assert_eq!(plan.len(), 1);
    assert_eq!(argv(&plan[0]), vec!["cargo", "clean", "--profile", "dev"]);
    assert_eq!(next_step(&plan, 1, Some(0)), Action::Finish(Ok(())));
}

#[test]
fn exit_codes_become_outcomes() {
    assert_eq!(exit_outcome(Step::Build, 0), Ok(()));
    assert_eq!(exit_outcome(Step::Run, 3), Err(BackendError::Failed { step: Step::Run, code: 3 }));
}

#[test]
fn binaries_come_from_binary_keys() {
    let mut w = Session::new();
    w.init(true, 1).unwrap();
    w.create_project(s("p"), true, 2).unwrap();
    w.set_value(Some(s("p")), s("binary.app"), s("src/main.c"), 3).unwrap();
    w.set_value(Some(s("p")), s("binary.tool"), s("src/tool.c"), 4).unwrap();
    w.set_value(Some(s("p")), s("binary."), s("ignored"), 5).unwrap();
    w.set_value(Some(s("p")), s("config.version"), s("1"), 6).unwrap();
    let mut bins = configured_binaries(w.tree(), &Some(s("p")));
    bins.sort();
    assert_eq!(bins, names(&["app", "tool"]));
    assert!(configured_binaries(w.tree(), &None).is_empty());
    assert!(configured_binaries(w.tree(), &Some(s("missing"))).is_empty());
}
