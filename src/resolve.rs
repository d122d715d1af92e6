//! Settling which workspace, project and profile a command applies to,
//! from explicit options and the current directory.

use vstd::prelude::*;
use crate::commands::ResolutionError;
use crate::tree::{effective_value, opt_str, Tree, TreeModel};

verus! {

/// The options that select a command's scope; each may be left out.
#[derive(Clone, Debug, Default, PartialEq, Eq)]
pub struct ScopeOptions {
    /// The workspace directory.
    pub workspace: Option<String>,
    /// The project's name.
    pub project: Option<String>,
    /// The profile's name.
    pub profile: Option<String>,
}

/// `path` is `dir` or lies below it. Paths are absolute and written with
/// `/`; only the root ends in one.
pub open spec fn within(dir: Seq<char>, path: Seq<char>) -> bool {
    path == dir || (dir.len() > 0 && path.len() > dir.len() && path.take(dir.len() as int) == dir
        && (dir.last() == '/' || path[dir.len() as int] == '/'))
}

/// The directory `name` directly below `dir`; `name` alone where `dir` is
/// empty.
pub open spec fn join(dir: Seq<char>, name: Seq<char>) -> Seq<char> {
    if dir.len() == 0 {
        name
    } else if dir.last() == '/' {
        dir + name
    } else {
        dir + seq!['/'] + name
    }
}

/// The deepest of `markers` that holds `cwd`: the first workspace marker
/// met when walking up from `cwd`.
pub open spec fn deepest(cwd: Seq<char>, markers: Seq<Seq<char>>) -> Option<Seq<char>>
    decreases markers.len(),
{
    if markers.len() == 0 {
        None
    } else {
        let rest = deepest(cwd, markers.drop_last());
        let d = markers.last();
        if within(d, cwd) && (rest is None || rest.unwrap().len() < d.len()) {
            Some(d)
        } else {
            rest
        }
    }
}

/// The workspace a command applies to: the one given, else the deepest
/// workspace marker above `cwd`.
pub open spec fn locate_workspace(
    explicit: Option<Seq<char>>,
    cwd: Seq<char>,
    markers: Seq<Seq<char>>,
) -> Option<Seq<char>> {
    match explicit {
        Some(w) => Some(w),
        None => deepest(cwd, markers),
    }
}

/// `n` is a project whose directory holds `cwd`.
pub open spec fn holds_cwd(ws: Seq<char>, cwd: Seq<char>, projects: Set<Seq<char>>, n: Seq<char>) -> bool {
    projects.contains(n) && within(join(ws, n), cwd)
}

/// The project whose directory holds `cwd`, where exactly one does.
pub open spec fn inferred_project(ws: Seq<char>, cwd: Seq<char>, projects: Set<Seq<char>>) -> Option<
    Seq<char>,
> {
    if exists|n: Seq<char>|
        holds_cwd(ws, cwd, projects, n) && forall|m: Seq<char>|
            holds_cwd(ws, cwd, projects, m) ==> m == n {
        Some(
            choose|n: Seq<char>|
                holds_cwd(ws, cwd, projects, n) && forall|m: Seq<char>|
                    holds_cwd(ws, cwd, projects, m) ==> m == n,
        )
    } else {
        None
    }
}

/// The scope settled within a workspace, abstractly.
pub enum ScopeChoice {
    /// The whole workspace.
    Workspace,
    Project(Seq<char>),
    /// The project that was named does not exist.
    Missing(Seq<char>),
}

/// The project a command applies to within workspace `ws`: the one named,
/// which must exist; else, where no workspace was named, the one whose
/// directory holds `cwd`; else the whole workspace.
pub open spec fn choose_scope(
    explicit_workspace: bool,
    explicit_project: Option<Seq<char>>,
    ws: Seq<char>,
    cwd: Seq<char>,
    projects: Set<Seq<char>>,
) -> ScopeChoice {
    match explicit_project {
        Some(p) => if projects.contains(p) {
            ScopeChoice::Project(p)
        } else {
            ScopeChoice::Missing(p)
        },
        None => if explicit_workspace {
            ScopeChoice::Workspace
        } else {
            match inferred_project(ws, cwd, projects) {
                Some(n) => ScopeChoice::Project(n),
                None => ScopeChoice::Workspace,
            }
        },
    }
}

/// A workspace that is named is taken as it is, and the project then comes
/// from the options alone: the current directory plays no part, whatever it
/// is.
pub proof fn lemma_explicit_workspace_wins(
    w: Seq<char>,
    project: Option<Seq<char>>,
    cwd1: Seq<char>,
    cwd2: Seq<char>,
    markers: Seq<Seq<char>>,
    projects: Set<Seq<char>>,
)
    ensures
        locate_workspace(Some(w), cwd1, markers) == Some(w),
        locate_workspace(Some(w), cwd1, markers) == locate_workspace(Some(w), cwd2, markers),
        choose_scope(true, project, w, cwd1, projects) == choose_scope(true, project, w, cwd2, projects),
{
}

pub(crate) fn has_prefix(s: &String, prefix: &String) -> (r: bool)
    ensures
        r == (prefix@.len() <= s@.len() && s@.take(prefix@.len() as int) == prefix@),
{
    let n = prefix.as_str().unicode_len();
    let m = s.as_str().unicode_len();
    if n > m {
        return false;
    }
    let mut i: usize = 0;
    while i < n
        invariant
            n == prefix@.len(),
            m == s@.len(),
            n <= m,
            i <= n,
            forall|j: int| 0 <= j < i ==> s@[j] == prefix@[j],
        decreases n - i,
    {
        if s.as_str().get_char(i) != prefix.as_str().get_char(i) {
            assert(s@.take(n as int)[i as int] != prefix@[i as int]);
            return false;
        }
        i = i + 1;
    }
    assert(s@.take(n as int) =~= prefix@);
    true
}

/// Whether `path` is `dir` or lies below it.
pub fn is_within(dir: &String, path: &String) -> (r: bool)
    ensures
        r == within(dir@, path@),
{
    if *path == *dir {
        return true;
    }
    let n = dir.as_str().unicode_len();
    let m = path.as_str().unicode_len();
    if n == 0 || m <= n || !has_prefix(path, dir) {
        return false;
    }
    dir.as_str().get_char(n - 1) == '/' || path.as_str().get_char(n) == '/'
}

/// The directory `name` directly below `dir`.
pub fn join_path(dir: &String, name: &String) -> (r: String)
    ensures
        r@ == join(dir@, name@),
{
    let n = dir.as_str().unicode_len();
    if n == 0 {
        name.clone()
    } else if dir.as_str().get_char(n - 1) == '/' {
        dir.clone().concat(name.as_str())
    } else {
        let with_slash = dir.clone().concat("/");
        proof { reveal_strlit("/"); }
        with_slash.concat(name.as_str())
    }
}

pub open spec fn views(v: Seq<String>) -> Seq<Seq<char>> {
    v.map_values(|s: String| s@)
}

/// The workspace a command applies to. `markers` are the directories above
/// `cwd`, `cwd` included, that hold a workspace marker.
pub fn find_workspace(explicit: &Option<String>, cwd: &String, markers: &Vec<String>) -> (r: Result<
    String,
    ResolutionError,
>)
    ensures
        match locate_workspace(opt_str(*explicit), cwd@, views(markers@)) {
            Some(w) => r is Ok && r->Ok_0@ == w,
            None => r == Err::<String, ResolutionError>(ResolutionError::NoWorkspaceFound),
        },
{
    if let Some(w) = explicit {
        return Ok(w.clone());
    }
    let mut best: Option<usize> = None;
    let mut i: usize = 0;
    while i < markers.len()
        invariant
            i <= markers@.len(),
            match best {
                Some(b) => b < i && deepest(cwd@, views(markers@.take(i as int))) == Some(
                    markers@[b as int]@,
                ),
                None => deepest(cwd@, views(markers@.take(i as int))) is None,
            },
        decreases markers@.len() - i,
    {
        assert(views(markers@.take(i + 1)).drop_last() =~= views(markers@.take(i as int)));
        if is_within(&markers[i], cwd) {
            let deeper = match best {
                None => true,
                Some(b) => markers[b].as_str().unicode_len() < markers[i].as_str().unicode_len(),
            };
            if deeper {
                best = Some(i);
            }
        }
        i = i + 1;
    }
    assert(markers@.take(markers@.len() as int) =~= markers@);
    match best {
        Some(b) => Ok(markers[b].clone()),
        None => Err(ResolutionError::NoWorkspaceFound),
    }
}

/// The project a command applies to within workspace `workspace`
/// (`None`: the whole workspace), from the options and `cwd`.
pub fn resolve_scope(opts: &ScopeOptions, workspace: &String, cwd: &String, tree: &Tree) -> (r: Result<
    Option<String>,
    ResolutionError,
>)
    ensures
        match choose_scope(
            opts.workspace is Some,
            opt_str(opts.project),
            workspace@,
            cwd@,
            tree@.projects.dom(),
        ) {
            ScopeChoice::Workspace => r == Ok::<Option<String>, ResolutionError>(None),
            ScopeChoice::Project(n) => r is Ok && opt_str(r->Ok_0) == Some(n),
            ScopeChoice::Missing(n) => r is Err && match r->Err_0 {
                ResolutionError::ProjectNotFound(m) => m@ == n,
                _ => false,
            },
        },
{
    if let Some(p) = &opts.project {
        if tree.has_project(p) {
            return Ok(Some(p.clone()));
        } else {
            return Err(ResolutionError::ProjectNotFound(p.clone()));
        }
    }
    if opts.workspace.is_some() {
        return Ok(None);
    }
    let names = tree.project_names();
    let ghost projects = tree@.projects.dom();
    let mut found: Option<usize> = None;
    let mut count: usize = 0;
    let mut i: usize = 0;
    while i < names.len()
        invariant
            i <= names@.len(),
            names@.len() == tree@.projects.dom().len(),
            projects == tree@.projects.dom(),
            forall|k: Seq<char>|
                projects.contains(k) <==> exists|j: int| 0 <= j < names@.len() && #[trigger] names@[j]@ == k,
            count <= i,
            count == 0 <==> found is None,
            count == 0 ==> forall|j: int|
                0 <= j < i ==> !within(join(workspace@, #[trigger] names@[j]@), cwd@),
            count == 1 ==> found is Some && found->Some_0 < i && within(
                join(workspace@, names@[found->Some_0 as int]@),
                cwd@,
            ) && forall|j: int|
                0 <= j < i && within(join(workspace@, #[trigger] names@[j]@), cwd@) ==> j
                    == found->Some_0,
            count >= 2 ==> found is Some && found->Some_0 < i && exists|j: int|
                0 <= j < i && j != found->Some_0 && within(
                    join(workspace@, #[trigger] names@[j]@),
                    cwd@,
                ) && within(join(workspace@, names@[found->Some_0 as int]@), cwd@),
        decreases names@.len() - i,
    {
        let dir = join_path(workspace, &names[i]);
        if is_within(&dir, cwd) {
            if count == 0 {
                found = Some(i);
            }
            if count < 2 {
                count = count + 1;
            }
        }
        i = i + 1;
    }
    proof { lemma_project_names_distinct(tree@, names@); }
    if count == 1 {
        let f = found.unwrap();
        proof {
            let n = names@[f as int]@;
            assert(holds_cwd(workspace@, cwd@, projects, n));
            assert forall|m: Seq<char>| holds_cwd(workspace@, cwd@, projects, m) implies m == n by {
                let j = choose|j: int| 0 <= j < names@.len() && #[trigger] names@[j]@ == m;
            }
        }
        Ok(Some(names[f].clone()))
    } else {
        proof {
            if count == 0 {
                assert forall|n: Seq<char>| !holds_cwd(workspace@, cwd@, projects, n) by {
                    if projects.contains(n) {
                        let j = choose|j: int| 0 <= j < names@.len() && #[trigger] names@[j]@ == n;
                    }
                }
            } else {
                let f = found->Some_0 as int;
                let j = choose|j: int|
                    0 <= j < i && j != f && within(join(workspace@, #[trigger] names@[j]@), cwd@)
                        && within(join(workspace@, names@[f]@), cwd@);
                assert(names@[j]@ != names@[f]@);
                assert forall|n: Seq<char>|
                    holds_cwd(workspace@, cwd@, projects, n) implies !(forall|m: Seq<char>|
                    holds_cwd(workspace@, cwd@, projects, m) ==> m == n) by {
                    assert(holds_cwd(workspace@, cwd@, projects, names@[j]@));
                    assert(holds_cwd(workspace@, cwd@, projects, names@[f]@));
                }
            }
        }
        Ok(None)
    }
}

/// The names that `project_names` lists are distinct.
proof fn lemma_project_names_distinct(t: TreeModel, names: Seq<String>)
    requires
        names.len() == t.projects.dom().len(),
        forall|k: Seq<char>|
            t.projects.contains_key(k) <==> exists|j: int| 0 <= j < names.len() && #[trigger] names[j]@ == k,
    ensures
        forall|a: int, b: int|
            0 <= a < names.len() && 0 <= b < names.len() && a != b ==> names[a]@ != names[b]@,
{
    let vs = views(names);
    assert forall|k: Seq<char>| t.projects.dom().contains(k) <==> vs.to_set().contains(k) by {
        if t.projects.contains_key(k) {
            let j = choose|j: int| 0 <= j < names.len() && #[trigger] names[j]@ == k;
            assert(vs[j] == k);
        }
        if vs.to_set().contains(k) {
            let j = choose|j: int| 0 <= j < vs.len() && vs[j] == k;
            assert(names[j]@ == k);
        }
    }
    assert(t.projects.dom() =~= vs.to_set());
    vs.lemma_no_dup_set_cardinality();
    assert forall|a: int, b: int|
        0 <= a < names.len() && 0 <= b < names.len() && a != b implies names[a]@ != names[b]@ by {
        assert(vs[a] != vs[b]);
    }
}

/// The profile key looked up when no profile is named.
pub const DEFAULT_PROFILE_KEY: &'static str = "profile.default";

/// The profile used when none is named or configured.
pub const FALLBACK_PROFILE: &'static str = "debug";

/// The profile a command uses: the one named, else the scope's configured
/// default (a project's own before the workspace's), else `debug`.
pub fn effective_profile(explicit: &Option<String>, tree: &Tree, project: &Option<String>) -> (r: String)
    ensures
        match explicit {
            Some(p) => r@ == p@,
            None => match effective_value(tree@, opt_str(*project), DEFAULT_PROFILE_KEY@) {
                Some(v) => r@ == v,
                None => r@ == FALLBACK_PROFILE@,
            },
        },
{
    match explicit {
        Some(p) => p.clone(),
        None => {
            let key = String::from_str(DEFAULT_PROFILE_KEY);
            match tree.effective_value(project, &key) {
                Some(v) => v,
                None => String::from_str(FALLBACK_PROFILE),
            }
        },
    }
}

/// The single project that a command needing one applies to: the scope's
/// project, else the workspace's only project; several projects make the
/// scope ambiguous.
pub fn require_single_project(scope: &Option<String>, tree: &Tree) -> (r: Result<String, ResolutionError>)
    ensures
        match scope {
            Some(p) => r is Ok && r->Ok_0@ == p@,
            None => if tree@.projects.dom().len() == 1 {
                r is Ok && tree@.projects.dom() == set![r->Ok_0@]
            } else if tree@.projects.dom().len() == 0 {
                r == Err::<String, ResolutionError>(ResolutionError::NoProject)
            } else {
                r == Err::<String, ResolutionError>(ResolutionError::AmbiguousScope)
            },
        },
{
    match scope {
        Some(p) => Ok(p.clone()),
        None => {
            let names = tree.project_names();
            if names.len() == 1 {
                let n = names[0].clone();
                proof {
                    assert(tree@.projects.dom() =~= set![n@]) by {
                        assert(tree@.projects.contains_key(n@));
                    }
                }
                Ok(n)
            } else if names.len() == 0 {
                Err(ResolutionError::NoProject)
            } else {
                Err(ResolutionError::AmbiguousScope)
            }
        },
    }
}

} // verus!
