//! The structural state of one workspace: whether it is initialized, its
//! configuration, and its projects with theirs. Every mutation is a
//! `Change` that sets one slot of this state, so that its inverse is the
//! same slot set back to what it held.

use vstd::prelude::*;
use crate::table::{Duplicate, Table};

verus! {

/// A scope's configuration: dotted key to scalar value.
pub type ConfigMap = Map<Seq<char>, Seq<char>>;

/// The abstract state of a workspace.
pub struct TreeModel {
    /// The workspace's own configuration; `None` while not initialized.
    pub workspace: Option<ConfigMap>,
    /// Each project's name with its configuration.
    pub projects: Map<Seq<char>, ConfigMap>,
}

/// What a change sets, abstractly.
pub enum ChangeModel {
    Workspace(Option<ConfigMap>, Map<Seq<char>, ConfigMap>),
    Project(Seq<char>, Option<ConfigMap>),
    Entry(Option<Seq<char>>, Seq<char>, Option<Seq<char>>),
}

/// One slot of the workspace state set to a value.
pub enum Change {
    /// The whole workspace: its marker and configuration, present
    /// (initialized) or not, and its projects with theirs.
    Workspace(Option<Table<String>>, Table<Table<String>>),
    /// A project directory with its configuration, or its absence.
    Project(String, Option<Table<String>>),
    /// A configuration key of the workspace (`None`) or of a project, set or
    /// unset.
    Entry(Option<String>, String, Option<String>),
}

pub open spec fn opt_str(o: Option<String>) -> Option<Seq<char>> {
    match o {
        Some(s) => Some(s@),
        None => None,
    }
}

pub open spec fn opt_table(o: Option<Table<String>>) -> Option<ConfigMap> {
    match o {
        Some(t) => Some(t@),
        None => None,
    }
}

impl View for Change {
    type V = ChangeModel;

    open spec fn view(&self) -> ChangeModel {
        match self {
            Change::Workspace(t, ps) => ChangeModel::Workspace(opt_table(*t), ps@),
            Change::Project(n, t) => ChangeModel::Project(n@, opt_table(*t)),
            Change::Entry(p, k, v) => ChangeModel::Entry(opt_str(*p), k@, opt_str(*v)),
        }
    }
}

/// `m` with `k` set to `v`, or removed where `v` is `None`.
pub open spec fn set_key(m: ConfigMap, k: Seq<char>, v: Option<Seq<char>>) -> ConfigMap {
    match v {
        Some(x) => m.insert(k, x),
        None => m.remove(k),
    }
}

/// The value that `k` has in one scope's own configuration.
pub open spec fn own_value(t: TreeModel, project: Option<Seq<char>>, k: Seq<char>) -> Option<
    Seq<char>,
> {
    match project {
        None => match t.workspace {
            Some(m) if m.contains_key(k) => Some(m[k]),
            _ => None,
        },
        Some(p) => if t.projects.contains_key(p) && t.projects[p].contains_key(k) {
            Some(t.projects[p][k])
        } else {
            None
        },
    }
}

/// One scope's own configuration; empty where the scope does not exist.
pub open spec fn own_config(t: TreeModel, project: Option<Seq<char>>) -> ConfigMap {
    match project {
        None => match t.workspace {
            Some(m) => m,
            None => Map::empty(),
        },
        Some(p) => if t.projects.contains_key(p) {
            t.projects[p]
        } else {
            Map::empty()
        },
    }
}

/// The value that `k` has for a scope: a project's own value first, then the
/// workspace's.
pub open spec fn effective_value(t: TreeModel, project: Option<Seq<char>>, k: Seq<char>) -> Option<
    Seq<char>,
> {
    match project {
        Some(p) if own_value(t, Some(p), k) is Some => own_value(t, Some(p), k),
        _ => own_value(t, None, k),
    }
}

/// The state after a change. A key set in a scope that does not exist
/// changes nothing.
pub open spec fn apply_change(t: TreeModel, c: ChangeModel) -> TreeModel {
    match c {
        ChangeModel::Workspace(w, ps) => TreeModel { workspace: w, projects: ps },
        ChangeModel::Project(n, Some(m)) => TreeModel { projects: t.projects.insert(n, m), ..t },
        ChangeModel::Project(n, None) => TreeModel { projects: t.projects.remove(n), ..t },
        ChangeModel::Entry(None, k, v) => match t.workspace {
            Some(m) => TreeModel { workspace: Some(set_key(m, k, v)), ..t },
            None => t,
        },
        ChangeModel::Entry(Some(p), k, v) => if t.projects.contains_key(p) {
            TreeModel { projects: t.projects.insert(p, set_key(t.projects[p], k, v)), ..t }
        } else {
            t
        },
    }
}

/// The change that sets the same slot back to what it holds in `t`.
pub open spec fn inverse_of(t: TreeModel, c: ChangeModel) -> ChangeModel {
    match c {
        ChangeModel::Workspace(_, _) => ChangeModel::Workspace(t.workspace, t.projects),
        ChangeModel::Project(n, _) => ChangeModel::Project(
            n,
            if t.projects.contains_key(n) {
                Some(t.projects[n])
            } else {
                None
            },
        ),
        ChangeModel::Entry(p, k, _) => ChangeModel::Entry(p, k, own_value(t, p, k)),
    }
}

/// Applying a change and then its inverse, taken before the change, gives
/// back the state exactly.
pub proof fn lemma_inverse_restores(t: TreeModel, c: ChangeModel)
    ensures
        apply_change(apply_change(t, c), inverse_of(t, c)) == t,
{
    let t1 = apply_change(t, c);
    let t2 = apply_change(t1, inverse_of(t, c));
    match c {
        ChangeModel::Workspace(_, _) => {},
        ChangeModel::Project(n, _) => {
            assert(t2.projects =~= t.projects);
        },
        ChangeModel::Entry(None, k, v) => {
            if let Some(m) = t.workspace {
                assert(t2.workspace.unwrap() =~= m);
            }
        },
        ChangeModel::Entry(Some(p), k, v) => {
            if t.projects.contains_key(p) {
                assert(t2.projects[p] =~= t.projects[p]);
                assert(t2.projects =~= t.projects);
            }
        },
    }
}

impl Duplicate for Change {
    fn duplicate(&self) -> (r: Change)
        ensures
            r@ == self@,
    {
        match self {
            Change::Workspace(t, ps) => Change::Workspace(duplicate_table(t), ps.duplicate()),
            Change::Project(n, t) => Change::Project(n.clone(), duplicate_table(t)),
            Change::Entry(p, k, v) => Change::Entry(p.clone(), k.clone(), v.clone()),
        }
    }
}

fn duplicate_table(t: &Option<Table<String>>) -> (r: Option<Table<String>>)
    ensures
        opt_table(r) == opt_table(*t),
{
    match t {
        Some(t) => Some(t.duplicate()),
        None => None,
    }
}

/// The state of a workspace, as tables.
pub struct Tree {
    workspace: Option<Table<String>>,
    projects: Table<Table<String>>,
}

impl View for Tree {
    type V = TreeModel;

    closed spec fn view(&self) -> TreeModel {
        TreeModel { workspace: opt_table(self.workspace), projects: self.projects@ }
    }
}

impl Tree {
    /// A directory that is not a workspace yet.
    pub fn new() -> (r: Tree)
        ensures
            r@.workspace is None,
            r@.projects == Map::<Seq<char>, ConfigMap>::empty(),
    {
        Tree { workspace: None, projects: Table::new() }
    }

    pub fn is_initialized(&self) -> (r: bool)
        ensures
            r == self@.workspace is Some,
    {
        self.workspace.is_some()
    }

    pub fn has_project(&self, name: &String) -> (r: bool)
        ensures
            r == self@.projects.contains_key(name@),
    {
        self.projects.contains(name)
    }

    pub fn project_count(&self) -> (r: usize)
        ensures
            r == self@.projects.dom().len(),
    {
        self.projects.len()
    }

    /// The names of the projects, in the order they were created.
    pub fn project_names(&self) -> (r: Vec<String>)
        ensures
            r@.len() == self@.projects.dom().len(),
            forall|k: Seq<char>|
                self@.projects.contains_key(k) <==> exists|i: int|
                    0 <= i < r@.len() && #[trigger] r@[i]@ == k,
    {
        self.projects.keys()
    }

    /// The keys of one scope's own configuration.
    pub fn own_keys(&self, project: &Option<String>) -> (r: Vec<String>)
        ensures
            forall|k: Seq<char>|
                own_config(self@, opt_str(*project)).contains_key(k) <==> exists|i: int|
                    0 <= i < r@.len() && #[trigger] r@[i]@ == k,
    {
        let table = match project {
            None => match &self.workspace {
                Some(t) => t,
                None => return Vec::new(),
            },
            Some(p) => match self.projects.get(p) {
                Some(t) => t,
                None => return Vec::new(),
            },
        };
        table.keys()
    }

    /// The value of `key` in one scope's own configuration.
    pub fn own_value(&self, project: &Option<String>, key: &String) -> (r: Option<String>)
        ensures
            opt_str(r) == own_value(self@, opt_str(*project), key@),
    {
        let table = match project {
            None => match &self.workspace {
                Some(t) => t,
                None => return None,
            },
            Some(p) => match self.projects.get(p) {
                Some(t) => t,
                None => return None,
            },
        };
        match table.get(key) {
            Some(v) => Some(v.clone()),
            None => None,
        }
    }

    /// The value of `key` for a scope, a project's own value before the
    /// workspace's.
    pub fn effective_value(&self, project: &Option<String>, key: &String) -> (r: Option<String>)
        ensures
            opt_str(r) == effective_value(self@, opt_str(*project), key@),
    {
        if project.is_some() {
            let own = self.own_value(project, key);
            if own.is_some() {
                return own;
            }
        }
        self.own_value(&None, key)
    }

    /// The change that would undo `c` if `c` were applied now.
    pub fn inverse_of(&self, c: &Change) -> (r: Change)
        ensures
            r@ == inverse_of(self@, c@),
    {
        match c {
            Change::Workspace(_, _) => Change::Workspace(
                duplicate_table(&self.workspace),
                self.projects.duplicate(),
            ),
            Change::Project(n, _) => {
                let t = match self.projects.get(n) {
                    Some(t) => Some(t.duplicate()),
                    None => None,
                };
                Change::Project(n.clone(), t)
            },
            Change::Entry(p, k, _) => Change::Entry(p.clone(), k.clone(), self.own_value(p, k)),
        }
    }

    pub fn apply(&mut self, c: &Change)
        ensures
            final(self)@ == apply_change(old(self)@, c@),
    {
        match c {
            Change::Workspace(t, ps) => {
                self.workspace = duplicate_table(t);
                self.projects = ps.duplicate();
            },
            Change::Project(n, Some(t)) => {
                self.projects.insert(n.clone(), t.duplicate());
            },
            Change::Project(n, None) => {
                self.projects.remove(n);
            },
            Change::Entry(None, k, v) => {
                if let Some(mut t) = self.workspace.take() {
                    set_in(&mut t, k, v);
                    self.workspace = Some(t);
                }
            },
            Change::Entry(Some(p), k, v) => {
                if let Some(mut t) = self.projects.remove(p) {
                    set_in(&mut t, k, v);
                    self.projects.insert(p.clone(), t);
                    assert(self@.projects =~= old(self)@.projects.insert(
                        p@,
                        set_key(old(self)@.projects[p@], k@, opt_str(*v)),
                    ));
                } else {
                    assert(self@.projects =~= old(self)@.projects);
                }
            },
        }
    }
}

fn set_in(t: &mut Table<String>, k: &String, v: &Option<String>)
    ensures
        final(t)@ == set_key(old(t)@, k@, opt_str(*v)),
{
    match v {
        Some(x) => t.insert(k.clone(), x.clone()),
        None => {
            t.remove(k);
        },
    }
}

} // verus!
