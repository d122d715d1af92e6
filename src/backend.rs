//! The build backends: which native tool drives a project, how a uniform
//! profile name reads in its vocabulary, and the command lines it is run
//! with.

use vstd::prelude::*;
use crate::resolve::views;
use crate::tree::{opt_str, own_config, Tree};

verus! {

/// The families of native build tools.
#[derive(Clone, Copy, Debug, PartialEq, Eq, Structural)]
pub enum BackendKind {
    /// A language-native manifest (`Cargo.toml`).
    NativeToolchain,
    /// `CMakeLists.txt`.
    CMake,
    /// A solution or project file (`*.sln`, `*.csproj`).
    Solution,
    /// A plain `Makefile`.
    Make,
}

/// The step of a build-family command that a child process ran.
#[derive(Clone, Copy, Debug, PartialEq, Eq, Structural)]
pub enum Step {
    Build,
    Clean,
    Run,
}

/// Why a build-family command failed.
#[derive(Clone, Debug, PartialEq, Eq)]
pub enum BackendError {
    /// No marker file of any backend is in the project directory.
    NoBackendDetected,
    /// The profile has no name in the detected backend's vocabulary.
    UnsupportedProfile(String),
    /// No binary of this name is configured.
    UnknownBinary(String),
    /// The backend's tool could not be started.
    SpawnFailed(Step),
    /// The backend's tool exited with a nonzero code.
    Failed { step: Step, code: i32 },
    /// Another command holds the profile's output directory.
    TargetBusy,
}

/// A detected backend with the marker file it was detected from.
#[derive(Clone, Debug, PartialEq, Eq)]
pub struct BuildBackend {
    pub kind: BackendKind,
    pub marker: String,
}

pub open spec fn ends_with(s: Seq<char>, suffix: Seq<char>) -> bool {
    suffix.len() <= s.len() && s.skip(s.len() - suffix.len()) == suffix
}

/// File `name` marks a project of backend `kind`.
pub open spec fn marks(kind: BackendKind, name: Seq<char>) -> bool {
    match kind {
        BackendKind::NativeToolchain => name == "Cargo.toml"@,
        BackendKind::CMake => name == "CMakeLists.txt"@,
        BackendKind::Solution => ends_with(name, ".sln"@) || ends_with(name, ".csproj"@),
        BackendKind::Make => name == "Makefile"@,
    }
}

/// The backends in the order their markers are checked.
pub open spec fn priority() -> Seq<BackendKind> {
    seq![BackendKind::NativeToolchain, BackendKind::CMake, BackendKind::Solution, BackendKind::Make]
}

pub open spec fn marked_in(kind: BackendKind, names: Seq<Seq<char>>) -> bool {
    exists|i: int| 0 <= i < names.len() && marks(kind, #[trigger] names[i])
}

/// The first backend, in the order of `priority`, with a marker among
/// `names`.
pub open spec fn detect_kind(names: Seq<Seq<char>>) -> Option<BackendKind> {
    if marked_in(priority()[0], names) {
        Some(priority()[0])
    } else if marked_in(priority()[1], names) {
        Some(priority()[1])
    } else if marked_in(priority()[2], names) {
        Some(priority()[2])
    } else if marked_in(priority()[3], names) {
        Some(priority()[3])
    } else {
        None
    }
}

proof fn lemma_marked_in_set(kind: BackendKind, a: Seq<Seq<char>>, b: Seq<Seq<char>>)
    requires
        a.to_set() == b.to_set(),
    ensures
        marked_in(kind, a) == marked_in(kind, b),
{
    if marked_in(kind, a) {
        let i = choose|i: int| 0 <= i < a.len() && marks(kind, #[trigger] a[i]);
        assert(a.to_set().contains(a[i]));
        assert(b.to_set().contains(a[i]));
        let j = choose|j: int| 0 <= j < b.len() && b[j] == a[i];
        assert(marks(kind, b[j]));
    }
    if marked_in(kind, b) {
        let i = choose|i: int| 0 <= i < b.len() && marks(kind, #[trigger] b[i]);
        assert(b.to_set().contains(b[i]));
        assert(a.to_set().contains(b[i]));
        let j = choose|j: int| 0 <= j < a.len() && a[j] == b[i];
        assert(marks(kind, a[j]));
    }
}

/// Detection is deterministic: the backend chosen depends on which files
/// the directory holds, not on the order in which they are listed; and where
/// both a CMake marker and a plain `Makefile` are present (and no native
/// manifest), CMake is chosen.
pub proof fn lemma_detection_deterministic(a: Seq<Seq<char>>, b: Seq<Seq<char>>)
    requires
        a.to_set() == b.to_set(),
    ensures
        detect_kind(a) == detect_kind(b),
        a.contains("CMakeLists.txt"@) && a.contains("Makefile"@) && !marked_in(
            BackendKind::NativeToolchain,
            a,
        ) ==> detect_kind(a) == Some(BackendKind::CMake),
{
    lemma_marked_in_set(BackendKind::NativeToolchain, a, b);
    lemma_marked_in_set(BackendKind::CMake, a, b);
    lemma_marked_in_set(BackendKind::Solution, a, b);
    lemma_marked_in_set(BackendKind::Make, a, b);
    if a.contains("CMakeLists.txt"@) {
        let i = choose|i: int| 0 <= i < a.len() && a[i] == "CMakeLists.txt"@;
        assert(marks(BackendKind::CMake, a[i]));
    }
}

fn has_suffix(s: &String, suffix: &str) -> (r: bool)
    ensures
        r == ends_with(s@, suffix@),
{
    let n = s.as_str().unicode_len();
    let m = suffix.unicode_len();
    if m > n {
        return false;
    }
    let mut i: usize = 0;
    while i < m
        invariant
            n == s@.len(),
            m == suffix@.len(),
            m <= n,
            i <= m,
            forall|j: int| 0 <= j < i ==> s@[n - m + j] == suffix@[j],
        decreases m - i,
    {
        if s.as_str().get_char(n - m + i) != suffix.get_char(i) {
            assert(s@.skip(n - m)[i as int] != suffix@[i as int]);
            return false;
        }
        i = i + 1;
    }
    assert(s@.skip(n - m) =~= suffix@);
    true
}

fn is_marker(kind: BackendKind, name: &String) -> (r: bool)
    ensures
        r == marks(kind, name@),
{
    match kind {
        BackendKind::NativeToolchain => *name == String::from_str("Cargo.toml"),
        BackendKind::CMake => *name == String::from_str("CMakeLists.txt"),
        BackendKind::Solution => has_suffix(name, ".sln") || has_suffix(name, ".csproj"),
        BackendKind::Make => *name == String::from_str("Makefile"),
    }
}

fn first_marker(kind: BackendKind, names: &Vec<String>) -> (r: Option<usize>)
    ensures
        match r {
            Some(i) => i < names@.len() && marks(kind, names@[i as int]@) && forall|j: int|
                0 <= j < i ==> !marks(kind, #[trigger] names@[j]@),
            None => !marked_in(kind, views(names@)),
        },
{
    let mut i: usize = 0;
    while i < names.len()
        invariant
            i <= names@.len(),
            forall|j: int| 0 <= j < i ==> !marks(kind, #[trigger] names@[j]@),
        decreases names@.len() - i,
    {
        if is_marker(kind, &names[i]) {
            return Some(i);
        }
        i = i + 1;
    }
    proof {
        assert forall|j: int| 0 <= j < views(names@).len() implies !marks(
            kind,
            #[trigger] views(names@)[j],
        ) by {
            assert(views(names@)[j] == names@[j]@);
        }
    }
    None
}

/// The backend of a project whose directory holds the files `names`: the
/// first in priority order with a marker there, with the first of its
/// markers in the listing.
pub fn detect(names: &Vec<String>) -> (r: Result<BuildBackend, BackendError>)
    ensures
        match detect_kind(views(names@)) {
            Some(k) => r is Ok && r->Ok_0.kind == k && exists|i: int|
                0 <= i < names@.len() && names@[i]@ == r->Ok_0.marker@ && marks(k, names@[i]@)
                    && forall|j: int| 0 <= j < i ==> !marks(k, #[trigger] names@[j]@),
            None => r == Err::<BuildBackend, BackendError>(BackendError::NoBackendDetected),
        },
{
    let order = [BackendKind::NativeToolchain, BackendKind::CMake, BackendKind::Solution, BackendKind::Make];
    let mut k: usize = 0;
    while k < 4
        invariant
            0 <= k <= 4,
            order@ == priority(),
            forall|j: int| 0 <= j < k ==> !marked_in(#[trigger] priority()[j], views(names@)),
        decreases 4 - k,
    {
        if let Some(i) = first_marker(order[k], names) {
            proof {
                assert(views(names@)[i as int] == names@[i as int]@);
                assert(marked_in(priority()[k as int], views(names@)));
                assert(!marked_in(priority()[0], views(names@)) || k == 0);
            }
            return Ok(BuildBackend { kind: order[k], marker: names[i].clone() });
        }
        k = k + 1;
    }
    proof {
        assert(!marked_in(priority()[0], views(names@)));
        assert(!marked_in(priority()[1], views(names@)));
        assert(!marked_in(priority()[2], views(names@)));
        assert(!marked_in(priority()[3], views(names@)));
    }
    Err(BackendError::NoBackendDetected)
}

/// Each backend's names for the uniform profiles it supports.
pub open spec fn profile_table(kind: BackendKind) -> Seq<(Seq<char>, Seq<char>)> {
    match kind {
        BackendKind::NativeToolchain => seq![("debug"@, "dev"@), ("release"@, "release"@)],
        BackendKind::CMake => seq![
            ("debug"@, "Debug"@),
            ("release"@, "Release"@),
            ("relwithdebinfo"@, "RelWithDebInfo"@),
            ("minsizerel"@, "MinSizeRel"@),
        ],
        BackendKind::Solution => seq![("debug"@, "Debug"@), ("release"@, "Release"@)],
        BackendKind::Make => seq![("debug"@, "debug"@), ("release"@, "release"@)],
    }
}

/// The native name of uniform profile `p` for `kind`, where the table has
/// one.
pub open spec fn native_profile(kind: BackendKind, p: Seq<char>) -> Option<Seq<char>> {
    if exists|i: int| 0 <= i < profile_table(kind).len() && (#[trigger] profile_table(kind)[i]).0 == p {
        Some(
            profile_table(kind)[choose|i: int|
                0 <= i < profile_table(kind).len() && (#[trigger] profile_table(kind)[i]).0 == p].1,
        )
    } else {
        None
    }
}

proof fn lemma_uniform_names_distinct(kind: BackendKind)
    ensures
        forall|a: int, b: int|
            0 <= a < b < profile_table(kind).len() ==> (#[trigger] profile_table(kind)[a]).0.len()
                != (#[trigger] profile_table(kind)[b]).0.len(),
{
    reveal_strlit("debug");
    reveal_strlit("release");
    reveal_strlit("relwithdebinfo");
    reveal_strlit("minsizerel");
}

fn pair(a: &str, b: &str) -> (r: (String, String))
    ensures
        r.0@ == a@,
        r.1@ == b@,
{
    (String::from_str(a), String::from_str(b))
}

fn table_of(kind: BackendKind) -> (r: Vec<(String, String)>)
    ensures
        r@.len() == profile_table(kind).len(),
        forall|i: int|
            0 <= i < r@.len() ==> (#[trigger] r@[i]).0@ == profile_table(kind)[i].0 && r@[i].1@
                == profile_table(kind)[i].1,
{
    match kind {
        BackendKind::NativeToolchain => vec![pair("debug", "dev"), pair("release", "release")],
        BackendKind::CMake => vec![
            pair("debug", "Debug"),
            pair("release", "Release"),
            pair("relwithdebinfo", "RelWithDebInfo"),
            pair("minsizerel", "MinSizeRel"),
        ],
        BackendKind::Solution => vec![pair("debug", "Debug"), pair("release", "Release")],
        BackendKind::Make => vec![pair("debug", "debug"), pair("release", "release")],
    }
}

/// Profile `profile` in the vocabulary of backend `kind`; a name the table
/// lacks is refused, never passed on as it is.
pub fn translate_profile(kind: BackendKind, profile: &String) -> (r: Result<String, BackendError>)
    ensures
        match native_profile(kind, profile@) {
            Some(n) => r is Ok && r->Ok_0@ == n,
            None => r is Err && match r->Err_0 {
                BackendError::UnsupportedProfile(p) => p@ == profile@,
                _ => false,
            },
        },
{
    let table = table_of(kind);
    proof { lemma_uniform_names_distinct(kind); }
    let mut i: usize = 0;
    while i < table.len()
        invariant
            i <= table@.len(),
            table@.len() == profile_table(kind).len(),
            forall|j: int|
                0 <= j < table@.len() ==> (#[trigger] table@[j]).0@ == profile_table(kind)[j].0
                    && table@[j].1@ == profile_table(kind)[j].1,
            forall|j: int| 0 <= j < i ==> profile_table(kind)[j].0 != profile@,
        decreases table@.len() - i,
    {
        if table[i].0 == *profile {
            proof {
                lemma_uniform_names_distinct(kind);
                let c = choose|c: int|
                    0 <= c < profile_table(kind).len() && (#[trigger] profile_table(kind)[c]).0
                        == profile@;
                assert(c == i) by {
                    if c != i {
                        assert(c > i);
                        assert(profile_table(kind)[c].0 == profile_table(kind)[i as int].0);
                        assert(profile_table(kind)[i as int].0.len() != profile_table(kind)[c].0.len());
                    }
                }
            }
            return Ok(table[i].1.clone());
        }
        i = i + 1;
    }
    Err(BackendError::UnsupportedProfile(profile.clone()))
}

/// The directory a profile's build output goes to.
pub open spec fn build_dir(profile: Seq<char>) -> Seq<char> {
    "target/"@ + profile + "/build"@
}

/// The command line that builds binary `bin` in native profile `p`;
/// `profile` is the uniform name.
pub open spec fn build_argv(
    b: BuildBackend,
    profile: Seq<char>,
    p: Seq<char>,
    bin: Seq<char>,
) -> Seq<Seq<char>> {
    match b.kind {
        BackendKind::NativeToolchain => seq!["cargo"@, "build"@, "--profile"@, p, "--bin"@, bin],
        BackendKind::CMake => seq![
            "cmake"@,
            "--build"@,
            build_dir(profile),
            "--config"@,
            p,
            "--target"@,
            bin,
        ],
        BackendKind::Solution => seq!["msbuild"@, b.marker@, "/p:Configuration="@ + p, "/t:"@ + bin],
        BackendKind::Make => seq!["make"@, "PROFILE="@ + p, bin],
    }
}

/// The command line that cleans native profile `p`.
pub open spec fn clean_argv(b: BuildBackend, profile: Seq<char>, p: Seq<char>) -> Seq<Seq<char>> {
    match b.kind {
        BackendKind::NativeToolchain => seq!["cargo"@, "clean"@, "--profile"@, p],
        BackendKind::CMake => seq![
            "cmake"@,
            "--build"@,
            build_dir(profile),
            "--config"@,
            p,
            "--target"@,
            "clean"@,
        ],
        BackendKind::Solution => seq!["msbuild"@, b.marker@, "/p:Configuration="@ + p, "/t:Clean"@],
        BackendKind::Make => seq!["make"@, "PROFILE="@ + p, "clean"@],
    }
}

/// The command line that runs binary `bin` with `args`.
pub open spec fn run_argv(
    b: BuildBackend,
    profile: Seq<char>,
    p: Seq<char>,
    bin: Seq<char>,
    args: Seq<Seq<char>>,
) -> Seq<Seq<char>> {
    match b.kind {
        BackendKind::NativeToolchain => seq![
            "cargo"@,
            "run"@,
            "--profile"@,
            p,
            "--bin"@,
            bin,
            "--"@,
        ] + args,
        _ => seq![build_dir(profile) + "/"@ + bin] + args,
    }
}

fn s(lit: &str) -> (r: String)
    ensures
        r@ == lit@,
{
    String::from_str(lit)
}

fn cat(a: &str, b: &String) -> (r: String)
    ensures
        r@ == a@ + b@,
{
    String::from_str(a).concat(b.as_str())
}

fn build_dir_of(profile: &String) -> (r: String)
    ensures
        r@ == build_dir(profile@),
{
    cat("target/", profile).concat("/build")
}

fn build_command(b: &BuildBackend, profile: &String, p: &String, bin: &String) -> (r: Vec<String>)
    ensures
        views(r@) == build_argv(*b, profile@, p@, bin@),
{
    let r = match b.kind {
        BackendKind::NativeToolchain => vec![
            s("cargo"),
            s("build"),
            s("--profile"),
            p.clone(),
            s("--bin"),
            bin.clone(),
        ],
        BackendKind::CMake => vec![
            s("cmake"),
            s("--build"),
            build_dir_of(profile),
            s("--config"),
            p.clone(),
            s("--target"),
            bin.clone(),
        ],
        BackendKind::Solution => vec![
            s("msbuild"),
            b.marker.clone(),
            cat("/p:Configuration=", p),
            cat("/t:", bin),
        ],
        BackendKind::Make => vec![s("make"), cat("PROFILE=", p), bin.clone()],
    };
    assert(views(r@) =~= build_argv(*b, profile@, p@, bin@));
    r
}

fn clean_command(b: &BuildBackend, profile: &String, p: &String) -> (r: Vec<String>)
    ensures
        views(r@) == clean_argv(*b, profile@, p@),
{
    let r = match b.kind {
        BackendKind::NativeToolchain => vec![s("cargo"), s("clean"), s("--profile"), p.clone()],
        BackendKind::CMake => vec![
            s("cmake"),
            s("--build"),
            build_dir_of(profile),
            s("--config"),
            p.clone(),
            s("--target"),
            s("clean"),
        ],
        BackendKind::Solution => vec![
            s("msbuild"),
            b.marker.clone(),
            cat("/p:Configuration=", p),
            s("/t:Clean"),
        ],
        BackendKind::Make => vec![s("make"), cat("PROFILE=", p), s("clean")],
    };
    assert(views(r@) =~= clean_argv(*b, profile@, p@));
    r
}

fn run_command(
    b: &BuildBackend,
    profile: &String,
    p: &String,
    bin: &String,
    args: &Vec<String>,
) -> (r: Vec<String>)
    ensures
        views(r@) == run_argv(*b, profile@, p@, bin@, views(args@)),
{
    let mut r = match b.kind {
        BackendKind::NativeToolchain => vec![
            s("cargo"),
            s("run"),
            s("--profile"),
            p.clone(),
            s("--bin"),
            bin.clone(),
            s("--"),
        ],
        _ => vec![build_dir_of(profile).concat("/").concat(bin.as_str())],
    };
    let ghost head = views(r@);
    let mut i: usize = 0;
    while i < args.len()
        invariant
            i <= args@.len(),
            views(r@) == head + views(args@).take(i as int),
        decreases args@.len() - i,
    {
        let ghost before = r@;
        r.push(args[i].clone());
        assert(views(r@) =~= views(before).push(args@[i as int]@));
        assert(views(args@).take(i + 1) =~= views(args@).take(i as int).push(args@[i as int]@));
        assert(views(r@) =~= head + views(args@).take(i + 1));
        i = i + 1;
    }
    assert(views(args@).take(args@.len() as int) =~= views(args@));
    proof {
        if b.kind == BackendKind::NativeToolchain {
            assert(head =~= seq!["cargo"@, "run"@, "--profile"@, p@, "--bin"@, bin@, "--"@]);
        } else {
            assert(head =~= seq![build_dir(profile@) + "/"@ + bin@]);
        }
    }
    r
}

/// One child process to run: the step it belongs to and its command line.
pub struct Invocation {
    pub step: Step,
    pub argv: Vec<String>,
}

pub open spec fn argvs(v: Seq<Invocation>) -> Seq<Seq<Seq<char>>> {
    v.map_values(|i: Invocation| views(i.argv@))
}

pub open spec fn steps(v: Seq<Invocation>) -> Seq<Step> {
    v.map_values(|i: Invocation| i.step)
}

/// The prefix of the configuration keys that name a scope's binaries:
/// `binary.<name>`.
pub const BINARY_KEY_PREFIX: &'static str = "binary.";

/// Key `k` names binary `name`.
pub open spec fn binary_key(k: Seq<char>, name: Seq<char>) -> bool {
    name.len() > 0 && k == BINARY_KEY_PREFIX@ + name
}

/// The binaries configured in a scope's own configuration, one for each
/// key `binary.<name>`.
pub fn configured_binaries(tree: &Tree, project: &Option<String>) -> (r: Vec<String>)
    ensures
        forall|i: int|
            0 <= i < r@.len() ==> own_config(tree@, opt_str(*project)).contains_key(
                BINARY_KEY_PREFIX@ + #[trigger] r@[i]@,
            ) && r@[i]@.len() > 0,
        forall|k: Seq<char>, n: Seq<char>|
            #![trigger binary_key(k, n)]
            own_config(tree@, opt_str(*project)).contains_key(k) && binary_key(k, n) ==> exists|i: int|
                0 <= i < r@.len() && r@[i]@ == n,
{
    let keys = tree.own_keys(project);
    let prefix = String::from_str(BINARY_KEY_PREFIX);
    let plen = prefix.as_str().unicode_len();
    let mut out: Vec<String> = Vec::new();
    let mut i: usize = 0;
    while i < keys.len()
        invariant
            i <= keys@.len(),
            prefix@ == BINARY_KEY_PREFIX@,
            plen == prefix@.len(),
            forall|k: Seq<char>|
                own_config(tree@, opt_str(*project)).contains_key(k) <==> exists|j: int|
                    0 <= j < keys@.len() && #[trigger] keys@[j]@ == k,
            forall|j: int|
                0 <= j < out@.len() ==> own_config(tree@, opt_str(*project)).contains_key(
                    BINARY_KEY_PREFIX@ + #[trigger] out@[j]@,
                ) && out@[j]@.len() > 0,
            forall|j: int, n: Seq<char>|
                #![trigger keys@[j], binary_key(keys@[j]@, n)]
                0 <= j < i && binary_key(keys@[j]@, n) ==> exists|o: int|
                    0 <= o < out@.len() && out@[o]@ == n,
        decreases keys@.len() - i,
    {
        let key = &keys[i];
        let klen = key.as_str().unicode_len();
        if klen > plen && crate::resolve::has_prefix(key, &prefix) {
            let name = key.as_str().substring_char(plen, klen).to_string();
            proof {
                assert(key@ =~= prefix@ + name@);
                assert(own_config(tree@, opt_str(*project)).contains_key(key@));
            }
            let ghost before = out@;
            out.push(name);
            proof {
                assert forall|j: int, n: Seq<char>|
                    #![trigger keys@[j], binary_key(keys@[j]@, n)]
                    0 <= j <= i && binary_key(keys@[j]@, n) implies exists|o: int|
                        0 <= o < out@.len() && out@[o]@ == n by {
                    if j < i {
                        let o = choose|o: int| 0 <= o < before.len() && before[o]@ == n;
                        assert(out@[o] == before[o]);
                    } else {
                        assert(n =~= keys@[j]@.skip(plen as int));
                        assert(out@[before.len() as int]@ == n);
                    }
                }
                assert forall|j: int| 0 <= j < out@.len() implies own_config(
                    tree@,
                    opt_str(*project),
                ).contains_key(BINARY_KEY_PREFIX@ + #[trigger] out@[j]@) && out@[j]@.len() > 0 by {
                    if j < before.len() {
                        assert(out@[j] == before[j]);
                    }
                }
            }
        } else {
            proof {
                assert forall|n: Seq<char>| !binary_key(#[trigger] keys@[i as int]@, n) by {
                    if binary_key(keys@[i as int]@, n) {
                        assert(keys@[i as int]@.take(plen as int) =~= prefix@);
                    }
                }
            }
        }
        i = i + 1;
    }
    proof {
        assert forall|k: Seq<char>, n: Seq<char>|
            #![trigger binary_key(k, n)]
            own_config(tree@, opt_str(*project)).contains_key(k) && binary_key(k, n) implies exists|o: int|
                0 <= o < out@.len() && out@[o]@ == n by {
            let j = choose|j: int| 0 <= j < keys@.len() && #[trigger] keys@[j]@ == k;
            assert(binary_key(keys@[j]@, n));
        }
    }
    out
}

/// The binaries a command applies to: the one named, which must be
/// configured, or all configured ones.
pub fn select_binaries(configured: &Vec<String>, binary: &Option<String>) -> (r: Result<
    Vec<String>,
    BackendError,
>)
    ensures
        match binary {
            None => r is Ok && views(r->Ok_0@) == views(configured@),
            Some(x) => if views(configured@).contains(x@) {
                r is Ok && views(r->Ok_0@) == seq![x@]
            } else {
                r is Err && match r->Err_0 {
                    BackendError::UnknownBinary(n) => n@ == x@,
                    _ => false,
                }
            },
        },
{
    match binary {
        None => {
            let mut out: Vec<String> = Vec::new();
            let mut i: usize = 0;
            while i < configured.len()
                invariant
                    i <= configured@.len(),
                    views(out@) == views(configured@).take(i as int),
                decreases configured@.len() - i,
            {
                let ghost before = out@;
                out.push(configured[i].clone());
                assert(views(out@) =~= views(before).push(configured@[i as int]@));
                assert(views(configured@).take(i + 1) =~= views(configured@).take(i as int).push(
                    configured@[i as int]@,
                ));
                assert(views(out@) =~= views(configured@).take(i + 1));
                i = i + 1;
            }
            assert(views(configured@).take(configured@.len() as int) =~= views(configured@));
            Ok(out)
        },
        Some(x) => {
            let mut i: usize = 0;
            while i < configured.len()
                invariant
                    i <= configured@.len(),
                    *binary == Some(*x),
                    forall|j: int| 0 <= j < i ==> configured@[j]@ != x@,
                decreases configured@.len() - i,
            {
                if configured[i] == *x {
                    let r = vec![x.clone()];
                    proof {
                        assert(views(configured@)[i as int] == x@);
                        assert(views(r@) =~= seq![x@]);
                    }
                    return Ok(r);
                }
                i = i + 1;
            }
            proof {
                if views(configured@).contains(x@) {
                    let j = choose|j: int| 0 <= j < views(configured@).len() && views(configured@)[j] == x@;
                    assert(configured@[j]@ == x@);
                }
            }
            Err(BackendError::UnknownBinary(x.clone()))
        },
    }
}

/// The build steps for `bins` in uniform profile `profile` (native `p`).
fn build_steps(b: &BuildBackend, profile: &String, p: &String, bins: &Vec<String>, out: &mut Vec<
    Invocation,
>)
    ensures
        final(out)@.len() == old(out)@.len() + bins@.len(),
        forall|i: int| 0 <= i < old(out)@.len() ==> #[trigger] final(out)@[i] == old(out)@[i],
        forall|i: int|
            0 <= i < bins@.len() ==> #[trigger] final(out)@[old(out)@.len() + i].step == Step::Build
                && views(final(out)@[old(out)@.len() + i].argv@) == build_argv(
                *b,
                profile@,
                p@,
                bins@[i]@,
            ),
{
    let ghost start = out@;
    let mut i: usize = 0;
    while i < bins.len()
        invariant
            i <= bins@.len(),
            out@.len() == start.len() + i,
            forall|j: int| 0 <= j < start.len() ==> #[trigger] out@[j] == start[j],
            forall|j: int|
                0 <= j < i ==> #[trigger] out@[start.len() + j].step == Step::Build && views(
                    out@[start.len() + j].argv@,
                ) == build_argv(*b, profile@, p@, bins@[j]@),
        decreases bins@.len() - i,
    {
        out.push(Invocation { step: Step::Build, argv: build_command(b, profile, p, &bins[i]) });
        i = i + 1;
    }
}

/// The steps of `build`: one per selected binary, none where no binary is
/// configured.
pub fn plan_build(
    b: &BuildBackend,
    profile: &String,
    binary: &Option<String>,
    configured: &Vec<String>,
) -> (r: Result<Vec<Invocation>, BackendError>)
    ensures
        native_profile(b.kind, profile@) is None ==> r is Err && match r->Err_0 {
            BackendError::UnsupportedProfile(p) => p@ == profile@,
            _ => false,
        },
        native_profile(b.kind, profile@) is Some ==> match binary {
            Some(x) if !views(configured@).contains(x@) => r is Err && match r->Err_0 {
                BackendError::UnknownBinary(n) => n@ == x@,
                _ => false,
            },
            _ => r is Ok && ({
                let bins = match binary {
                    Some(x) => seq![x@],
                    None => views(configured@),
                };
                &&& r->Ok_0@.len() == bins.len()
                &&& forall|i: int|
                    0 <= i < bins.len() ==> (#[trigger] r->Ok_0@[i]).step == Step::Build && views(
                        r->Ok_0@[i].argv@,
                    ) == build_argv(*b, profile@, native_profile(b.kind, profile@).unwrap(), bins[i])
            }),
        },
{
    let p = match translate_profile(b.kind, profile) {
        Ok(p) => p,
        Err(e) => return Err(e),
    };
    let bins = match select_binaries(configured, binary) {
        Ok(bins) => bins,
        Err(e) => return Err(e),
    };
    let mut out: Vec<Invocation> = Vec::new();
    build_steps(b, profile, &p, &bins, &mut out);
    proof {
        assert forall|i: int| 0 <= i < bins@.len() implies (#[trigger] out@[i]).step == Step::Build
            && views(out@[i].argv@) == build_argv(*b, profile@, p@, views(bins@)[i]) by {
            assert(out@[0 + i] == out@[i]);
            assert(bins@[i]@ == views(bins@)[i]);
        }
    }
    Ok(out)
}

/// The steps of `rebuild`: a clean of the profile, then the build steps.
pub fn plan_rebuild(
    b: &BuildBackend,
    profile: &String,
    binary: &Option<String>,
    configured: &Vec<String>,
) -> (r: Result<Vec<Invocation>, BackendError>)
    ensures
        native_profile(b.kind, profile@) is None ==> r is Err && match r->Err_0 {
            BackendError::UnsupportedProfile(p) => p@ == profile@,
            _ => false,
        },
        native_profile(b.kind, profile@) is Some ==> match binary {
            Some(x) if !views(configured@).contains(x@) => r is Err && match r->Err_0 {
                BackendError::UnknownBinary(n) => n@ == x@,
                _ => false,
            },
            _ => r is Ok && ({
                let bins = match binary {
                    Some(x) => seq![x@],
                    None => views(configured@),
                };
                let p = native_profile(b.kind, profile@).unwrap();
                &&& r->Ok_0@.len() == bins.len() + 1
                &&& r->Ok_0@[0].step == Step::Clean
                &&& views(r->Ok_0@[0].argv@) == clean_argv(*b, profile@, p)
                &&& forall|i: int|
                    0 <= i < bins.len() ==> (#[trigger] r->Ok_0@[i + 1]).step == Step::Build && views(
                        r->Ok_0@[i + 1].argv@,
                    ) == build_argv(*b, profile@, p, bins[i])
            }),
        },
{
    let p = match translate_profile(b.kind, profile) {
        Ok(p) => p,
        Err(e) => return Err(e),
    };
    let bins = match select_binaries(configured, binary) {
        Ok(bins) => bins,
        Err(e) => return Err(e),
    };
    let mut out: Vec<Invocation> = Vec::new();
    out.push(Invocation { step: Step::Clean, argv: clean_command(b, profile, &p) });
    build_steps(b, profile, &p, &bins, &mut out);
    proof {
        assert forall|i: int| 0 <= i < bins@.len() implies (#[trigger] out@[i + 1]).step
            == Step::Build && views(out@[i + 1].argv@) == build_argv(
            *b,
            profile@,
            p@,
            views(bins@)[i],
        ) by {
            assert(out@[1 + i] == out@[i + 1]);
            assert(bins@[i]@ == views(bins@)[i]);
        }
    }
    Ok(out)
}

/// The step of `clean`.
pub fn plan_clean(b: &BuildBackend, profile: &String) -> (r: Result<Vec<Invocation>, BackendError>)
    ensures
        match native_profile(b.kind, profile@) {
            None => r is Err && match r->Err_0 {
                BackendError::UnsupportedProfile(q) => q@ == profile@,
                _ => false,
            },
            Some(p) => r is Ok && r->Ok_0@.len() == 1 && r->Ok_0@[0].step == Step::Clean && views(
                r->Ok_0@[0].argv@,
            ) == clean_argv(*b, profile@, p),
        },
{
    let p = match translate_profile(b.kind, profile) {
        Ok(p) => p,
        Err(e) => return Err(e),
    };
    Ok(vec![Invocation { step: Step::Clean, argv: clean_command(b, profile, &p) }])
}

/// The steps of `run`: one per selected binary, each with `args`.
pub fn plan_run(
    b: &BuildBackend,
    profile: &String,
    binary: &Option<String>,
    configured: &Vec<String>,
    args: &Vec<String>,
) -> (r: Result<Vec<Invocation>, BackendError>)
    ensures
        native_profile(b.kind, profile@) is None ==> r is Err && match r->Err_0 {
            BackendError::UnsupportedProfile(p) => p@ == profile@,
            _ => false,
        },
        native_profile(b.kind, profile@) is Some ==> match binary {
            Some(x) if !views(configured@).contains(x@) => r is Err && match r->Err_0 {
                BackendError::UnknownBinary(n) => n@ == x@,
                _ => false,
            },
            _ => r is Ok && ({
                let bins = match binary {
                    Some(x) => seq![x@],
                    None => views(configured@),
                };
                &&& r->Ok_0@.len() == bins.len()
                &&& forall|i: int|
                    0 <= i < bins.len() ==> (#[trigger] r->Ok_0@[i]).step == Step::Run && views(
                        r->Ok_0@[i].argv@,
                    ) == run_argv(
                        *b,
                        profile@,
                        native_profile(b.kind, profile@).unwrap(),
                        bins[i],
                        views(args@),
                    )
            }),
        },
{
    let p = match translate_profile(b.kind, profile) {
        Ok(p) => p,
        Err(e) => return Err(e),
    };
    let bins = match select_binaries(configured, binary) {
        Ok(bins) => bins,
        Err(e) => return Err(e),
    };
    let mut out: Vec<Invocation> = Vec::new();
    let mut i: usize = 0;
    while i < bins.len()
        invariant
            i <= bins@.len(),
            out@.len() == i,
            forall|j: int|
                0 <= j < i ==> (#[trigger] out@[j]).step == Step::Run && views(out@[j].argv@)
                    == run_argv(*b, profile@, p@, bins@[j]@, views(args@)),
        decreases bins@.len() - i,
    {
        out.push(Invocation { step: Step::Run, argv: run_command(b, profile, &p, &bins[i], args) });
        i = i + 1;
    }
    proof {
        assert forall|j: int| 0 <= j < bins@.len() implies bins@[j]@ == views(bins@)[j] by {}
    }
    Ok(out)
}

/// What to do next while carrying out a list of steps.
#[derive(Debug, PartialEq, Eq)]
pub enum Action {
    /// Start the step at this index.
    Start(usize),
    /// Stop, with the command's outcome.
    Finish(Result<(), BackendError>),
}

/// The next action after `done` steps of `plan`, the last of which exited
/// with `last_exit`: a nonzero code ends the command with that step's
/// failure, and no later step starts.
pub open spec fn next_action(plan: Seq<Step>, done: usize, last_exit: Option<i32>) -> Action {
    match last_exit {
        Some(code) if code != 0 && done > 0 => Action::Finish(
            Err(BackendError::Failed { step: plan[done - 1], code }),
        ),
        _ => if done >= plan.len() {
            Action::Finish(Ok(()))
        } else {
            Action::Start(done)
        },
    }
}

/// Decides what follows once `done` steps of `plan` have run, the last
/// exiting with `last_exit` (`None` before the first step).
pub fn next_step(plan: &Vec<Invocation>, done: usize, last_exit: Option<i32>) -> (r: Action)
    requires
        done <= plan@.len(),
    ensures
        r == next_action(steps(plan@), done, last_exit),
{
    match last_exit {
        Some(code) if code != 0 && done > 0 => {
            return Action::Finish(Err(BackendError::Failed { step: plan[done - 1].step, code }));
        },
        _ => {},
    }
    if done >= plan.len() {
        Action::Finish(Ok(()))
    } else {
        Action::Start(done)
    }
}

/// A rebuild whose clean step fails never starts a build step: the command
/// ends with the clean step's failure and its exit code.
pub proof fn lemma_failed_clean_stops_rebuild(plan: Seq<Step>, code: i32)
    requires
        plan.len() > 0,
        plan[0] == Step::Clean,
        code != 0,
    ensures
        next_action(plan, 1, Some(code)) == Action::Finish(
            Err(BackendError::Failed { step: Step::Clean, code }),
        ),
{
}

/// The outcome of a step from its tool's exit code: zero is success, any
/// other code is that step's failure.
pub fn exit_outcome(step: Step, code: i32) -> (r: Result<(), BackendError>)
    ensures
        code == 0 ==> r is Ok,
        code != 0 ==> r == Err::<(), BackendError>(BackendError::Failed { step, code }),
{
    if code == 0 {
        Ok(())
    } else {
        Err(BackendError::Failed { step, code })
    }
}

} // verus!
