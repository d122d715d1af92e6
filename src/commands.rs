//! The mutating commands: each checks the scope it needs, makes one change
//! to the workspace state and logs it.

use vstd::prelude::*;
use crate::oplog::{perform, LogError, OpKind, Session, SessionModel};
use crate::table::Table;
use crate::tree::{opt_str, Change, ChangeModel, ConfigMap};

verus! {

/// Why the scope of a command could not be settled.
#[derive(Clone, Debug, PartialEq, Eq)]
pub enum ResolutionError {
    /// No workspace marker was found and none was given.
    NoWorkspaceFound,
    /// The named project does not exist in the workspace.
    ProjectNotFound(String),
    /// The command needs a single project and the workspace holds several.
    AmbiguousScope,
    /// The command needs a single project and the workspace holds none.
    NoProject,
}

/// Why a mutating command did nothing.
#[derive(Clone, Debug, PartialEq, Eq)]
pub enum CommandError {
    Resolution(ResolutionError),
    /// `init` or `create` on a target that is not empty: the workspace
    /// (`None`) or the named project.
    TargetNotEmpty(Option<String>),
    /// A build holds the workspace's output, so nothing is removed.
    TargetBusy,
    Log(LogError),
}

/// What is missing of a scope that a command names.
pub enum ScopeFault {
    NoWorkspace,
    NoProject,
}

/// What a command on the workspace (`None`) or a project meets, if that
/// scope does not exist.
pub open spec fn scope_fault(m: SessionModel, project: Option<Seq<char>>) -> Option<ScopeFault> {
    if m.tree.workspace is None {
        Some(ScopeFault::NoWorkspace)
    } else {
        match project {
            Some(p) if !m.tree.projects.contains_key(p) => Some(ScopeFault::NoProject),
            _ => None,
        }
    }
}

/// `e` is the error that reports fault `f` on the scope `project`.
pub open spec fn reports(e: ResolutionError, f: ScopeFault, project: Option<Seq<char>>) -> bool {
    match (f, e) {
        (ScopeFault::NoWorkspace, ResolutionError::NoWorkspaceFound) => true,
        (ScopeFault::NoProject, ResolutionError::ProjectNotFound(n)) => project == Some(n@),
        _ => false,
    }
}

pub open spec fn empty_config() -> Option<ConfigMap> {
    Some(Map::empty())
}

pub open spec fn no_projects() -> Map<Seq<char>, ConfigMap> {
    Map::empty()
}

fn new_config() -> (r: Option<Table<String>>)
    ensures
        crate::tree::opt_table(r) == empty_config(),
{
    Some(Table::new())
}

fn check_scope(s: &Session, project: &Option<String>) -> (r: Result<(), ResolutionError>)
    ensures
        match r {
            Ok(()) => scope_fault(s@, opt_str(*project)) is None,
            Err(e) => scope_fault(s@, opt_str(*project)) is Some && reports(
                e,
                scope_fault(s@, opt_str(*project)).unwrap(),
                opt_str(*project),
            ),
        },
{
    if !s.tree().is_initialized() {
        return Err(ResolutionError::NoWorkspaceFound);
    }
    match project {
        Some(p) => if s.tree().has_project(p) {
            Ok(())
        } else {
            Err(ResolutionError::ProjectNotFound(p.clone()))
        },
        None => Ok(()),
    }
}

impl Session {
    /// Makes the directory a workspace. The directory must be empty.
    pub fn init(&mut self, dir_is_empty: bool, timestamp: u64) -> (r: Result<(), CommandError>)
        requires
            old(self)@.wf(),
        ensures
            final(self)@.wf(),
            r is Ok <==> dir_is_empty && old(self)@.tree.workspace is None,
            r is Ok ==> final(self)@ == perform(
                old(self)@,
                OpKind::Init,
                ChangeModel::Workspace(empty_config(), no_projects()),
            ),
            r is Err ==> final(self)@ == old(self)@ && r == Err::<(), CommandError>(
                CommandError::TargetNotEmpty(None),
            ),
    {
        if !dir_is_empty || self.tree().is_initialized() {
            return Err(CommandError::TargetNotEmpty(None));
        }
        self.record(OpKind::Init, None, Change::Workspace(new_config(), Table::new()), timestamp);
        Ok(())
    }

    /// Creates project `name` in the workspace. Its directory must be empty.
    pub fn create_project(&mut self, name: String, dir_is_empty: bool, timestamp: u64) -> (r: Result<
        (),
        CommandError,
    >)
        requires
            old(self)@.wf(),
        ensures
            final(self)@.wf(),
            old(self)@.tree.workspace is None ==> r == Err::<(), CommandError>(
                CommandError::Resolution(ResolutionError::NoWorkspaceFound),
            ),
            old(self)@.tree.workspace is Some && (!dir_is_empty
                || old(self)@.tree.projects.contains_key(name@)) ==> r == Err::<(), CommandError>(
                CommandError::TargetNotEmpty(Some(name)),
            ),
            r is Ok <==> old(self)@.tree.workspace is Some && dir_is_empty
                && !old(self)@.tree.projects.contains_key(name@),
            r is Ok ==> final(self)@ == perform(
                old(self)@,
                OpKind::Create,
                ChangeModel::Project(name@, empty_config()),
            ),
            r is Err ==> final(self)@ == old(self)@,
    {
        if !self.tree().is_initialized() {
            return Err(CommandError::Resolution(ResolutionError::NoWorkspaceFound));
        }
        if !dir_is_empty || self.tree().has_project(&name) {
            return Err(CommandError::TargetNotEmpty(Some(name)));
        }
        let scope = Some(name.clone());
        self.record(OpKind::Create, scope, Change::Project(name, new_config()), timestamp);
        Ok(())
    }

    /// Removes project `name` with its configuration, unless a build holds
    /// the workspace's output.
    pub fn remove_project(&mut self, name: String, build_in_flight: bool, timestamp: u64) -> (r:
        Result<(), CommandError>)
        requires
            old(self)@.wf(),
        ensures
            final(self)@.wf(),
            match scope_fault(old(self)@, Some(name@)) {
                Some(f) => final(self)@ == old(self)@ && match r {
                    Err(CommandError::Resolution(e)) => reports(e, f, Some(name@)),
                    _ => false,
                },
                None => if build_in_flight {
                    r == Err::<(), CommandError>(CommandError::TargetBusy) && final(self)@
                        == old(self)@
                } else {
                    r is Ok && final(self)@ == perform(
                        old(self)@,
                        OpKind::Remove,
                        ChangeModel::Project(name@, None),
                    )
                },
            },
    {
        let scope = Some(name);
        match check_scope(self, &scope) {
            Err(e) => Err(CommandError::Resolution(e)),
            Ok(()) => {
                if build_in_flight {
                    return Err(CommandError::TargetBusy);
                }
                let name = scope.clone().unwrap();
                self.record(OpKind::Remove, scope, Change::Project(name, None), timestamp);
                Ok(())
            },
        }
    }

    /// Removes the workspace: its marker and configuration, and its projects
    /// with theirs, unless a build holds its output. Undoing it brings all of
    /// them back.
    pub fn remove_workspace(&mut self, build_in_flight: bool, timestamp: u64) -> (r: Result<
        (),
        CommandError,
    >)
        requires
            old(self)@.wf(),
        ensures
            final(self)@.wf(),
            old(self)@.tree.workspace is None ==> r == Err::<(), CommandError>(
                CommandError::Resolution(ResolutionError::NoWorkspaceFound),
            ),
            old(self)@.tree.workspace is Some && build_in_flight ==> r == Err::<(), CommandError>(
                CommandError::TargetBusy,
            ),
            r is Ok <==> old(self)@.tree.workspace is Some && !build_in_flight,
            r is Ok ==> final(self)@ == perform(
                old(self)@,
                OpKind::Remove,
                ChangeModel::Workspace(None, no_projects()),
            ),
            r is Err ==> final(self)@ == old(self)@,
    {
        if !self.tree().is_initialized() {
            return Err(CommandError::Resolution(ResolutionError::NoWorkspaceFound));
        }
        if build_in_flight {
            return Err(CommandError::TargetBusy);
        }
        self.record(OpKind::Remove, None, Change::Workspace(None, Table::new()), timestamp);
        Ok(())
    }

    /// Sets `key` to `value` in the workspace's configuration (`None`) or in
    /// a project's.
    pub fn set_value(
        &mut self,
        project: Option<String>,
        key: String,
        value: String,
        timestamp: u64,
    ) -> (r: Result<(), CommandError>)
        requires
            old(self)@.wf(),
        ensures
            final(self)@.wf(),
            match scope_fault(old(self)@, opt_str(project)) {
                Some(f) => final(self)@ == old(self)@ && match r {
                    Err(CommandError::Resolution(e)) => reports(e, f, opt_str(project)),
                    _ => false,
                },
                None => r is Ok && final(self)@ == perform(
                    old(self)@,
                    OpKind::SetValue,
                    ChangeModel::Entry(opt_str(project), key@, Some(value@)),
                ),
            },
    {
        match check_scope(self, &project) {
            Err(e) => Err(CommandError::Resolution(e)),
            Ok(()) => {
                let change = Change::Entry(project.clone(), key, Some(value));
                self.record(OpKind::SetValue, project, change, timestamp);
                Ok(())
            },
        }
    }

    /// Removes `key` from the workspace's configuration (`None`) or from a
    /// project's. A key that is not set is logged all the same; undoing it
    /// changes nothing.
    pub fn unset_value(&mut self, project: Option<String>, key: String, timestamp: u64) -> (r: Result<
        (),
        CommandError,
    >)
        requires
            old(self)@.wf(),
        ensures
            final(self)@.wf(),
            match scope_fault(old(self)@, opt_str(project)) {
                Some(f) => final(self)@ == old(self)@ && match r {
                    Err(CommandError::Resolution(e)) => reports(e, f, opt_str(project)),
                    _ => false,
                },
                None => r is Ok && final(self)@ == perform(
                    old(self)@,
                    OpKind::UnsetValue,
                    ChangeModel::Entry(opt_str(project), key@, None),
                ),
            },
    {
        match check_scope(self, &project) {
            Err(e) => Err(CommandError::Resolution(e)),
            Ok(()) => {
                let change = Change::Entry(project.clone(), key, None);
                self.record(OpKind::UnsetValue, project, change, timestamp);
                Ok(())
            },
        }
    }
}

/// How a scope is named in messages: `workspace '<name>'` or
/// `project '<name>'`.
pub open spec fn label(workspace: Seq<char>, project: Option<Seq<char>>) -> Seq<char> {
    match project {
        None => "workspace '"@ + workspace + "'"@,
        Some(p) => "project '"@ + p + "'"@,
    }
}

/// The word for a kind of operation.
pub open spec fn kind_word(kind: OpKind) -> Seq<char> {
    match kind {
        OpKind::Init => "init"@,
        OpKind::Create => "create"@,
        OpKind::Remove => "remove"@,
        OpKind::SetValue => "set"@,
        OpKind::UnsetValue => "unset"@,
    }
}

/// The past participle that a confirmation uses for a kind of operation.
pub open spec fn kind_done(kind: OpKind) -> Seq<char> {
    match kind {
        OpKind::Init => "initialized"@,
        OpKind::Create => "created"@,
        OpKind::Remove => "removed"@,
        OpKind::SetValue => "set"@,
        OpKind::UnsetValue => "unset"@,
    }
}

pub fn scope_label(workspace: &String, project: &Option<String>) -> (r: String)
    ensures
        r@ == label(workspace@, opt_str(*project)),
{
    match project {
        None => String::from_str("workspace '").concat(workspace.as_str()).concat("'"),
        Some(p) => String::from_str("project '").concat(p.as_str()).concat("'"),
    }
}

fn kind_word_of(kind: OpKind) -> (r: &'static str)
    ensures
        r@ == kind_word(kind),
{
    match kind {
        OpKind::Init => "init",
        OpKind::Create => "create",
        OpKind::Remove => "remove",
        OpKind::SetValue => "set",
        OpKind::UnsetValue => "unset",
    }
}

fn kind_done_of(kind: OpKind) -> (r: &'static str)
    ensures
        r@ == kind_done(kind),
{
    match kind {
        OpKind::Init => "initialized",
        OpKind::Create => "created",
        OpKind::Remove => "removed",
        OpKind::SetValue => "set",
        OpKind::UnsetValue => "unset",
    }
}

/// The confirmation of a structural command on a scope:
/// `<label> was <done> successfully.`
pub fn confirmation(kind: OpKind, workspace: &String, project: &Option<String>) -> (r: String)
    ensures
        r@ == label(workspace@, opt_str(*project)) + " was "@ + kind_done(kind) + " successfully."@,
{
    scope_label(workspace, project).concat(" was ").concat(kind_done_of(kind)).concat(" successfully.")
}

/// The confirmation of `set`: `the <label> <key> was set to "<value>".`
pub fn set_confirmation(workspace: &String, project: &Option<String>, key: &String, value: &String) -> (r:
    String)
    ensures
        r@ == "the "@ + label(workspace@, opt_str(*project)) + " "@ + key@ + " was set to \""@
            + value@ + "\"."@,
{
    String::from_str("the ").concat(scope_label(workspace, project).as_str()).concat(" ").concat(
        key.as_str(),
    ).concat(" was set to \"").concat(value.as_str()).concat("\".")
}

/// The confirmation of `unset`: `the <label> <key> was unset.`
pub fn unset_confirmation(workspace: &String, project: &Option<String>, key: &String) -> (r: String)
    ensures
        r@ == "the "@ + label(workspace@, opt_str(*project)) + " "@ + key@ + " was unset."@,
{
    String::from_str("the ").concat(scope_label(workspace, project).as_str()).concat(" ").concat(
        key.as_str(),
    ).concat(" was unset.")
}

/// What `undo` and `redo` report: `the last operation is '<kind>'`.
pub fn history_report(kind: OpKind) -> (r: String)
    ensures
        r@ == "the last operation is '"@ + kind_word(kind) + "'"@,
{
    String::from_str("the last operation is '").concat(kind_word_of(kind)).concat("'")
}

} // verus!
