//! The operation log: every structural change to a workspace, in order,
//! with a cursor between the applied entries and those undone but kept for
//! redo. Each entry holds both the change and its inverse, so replay never
//! has to work an inverse out after the fact.

use vstd::prelude::*;
use crate::table::Duplicate;
use crate::tree::{
    apply_change, inverse_of, lemma_inverse_restores, Change, ChangeModel, Tree, TreeModel,
};

verus! {

/// The kind of a structural operation.
#[derive(Clone, Copy, Debug, PartialEq, Eq, Structural)]
pub enum OpKind {
    Init,
    Create,
    Remove,
    SetValue,
    UnsetValue,
}

/// Why an undo or a redo did nothing, or a stored log could not be used.
#[derive(Clone, Copy, Debug, PartialEq, Eq, Structural)]
pub enum LogError {
    NoOperationToUndo,
    NoOperationToRedo,
    /// A stored log whose cursor lies past its last entry.
    Corrupted,
}

/// A log entry, abstractly.
pub struct EntryModel {
    pub kind: OpKind,
    pub forward: ChangeModel,
    pub inverse: ChangeModel,
}

/// A workspace's state with its log and cursor, abstractly.
pub struct SessionModel {
    pub tree: TreeModel,
    pub log: Seq<EntryModel>,
    pub cursor: nat,
}

/// One mutating operation as handed to the log.
pub struct Mutation {
    pub kind: OpKind,
    pub change: ChangeModel,
}

impl SessionModel {
    pub open spec fn wf(self) -> bool {
        self.cursor <= self.log.len()
    }
}

/// The entry that logs `c` made in state `before`.
pub open spec fn logged(kind: OpKind, c: ChangeModel, before: TreeModel) -> EntryModel {
    EntryModel { kind, forward: c, inverse: inverse_of(before, c) }
}

/// The session after `c` is applied and logged: the entries past the
/// cursor are dropped, and the new entry goes at the cursor.
pub open spec fn perform(m: SessionModel, kind: OpKind, c: ChangeModel) -> SessionModel {
    SessionModel {
        tree: apply_change(m.tree, c),
        log: m.log.take(m.cursor as int).push(logged(kind, c, m.tree)),
        cursor: m.cursor + 1,
    }
}

/// The session after an undo; unchanged where nothing is applied.
pub open spec fn undo(m: SessionModel) -> SessionModel {
    if m.cursor == 0 || m.cursor > m.log.len() {
        m
    } else {
        SessionModel {
            tree: apply_change(m.tree, m.log[m.cursor - 1].inverse),
            cursor: (m.cursor - 1) as nat,
            ..m
        }
    }
}

/// The session after a redo; unchanged where nothing is undone.
pub open spec fn redo(m: SessionModel) -> SessionModel {
    if m.cursor >= m.log.len() {
        m
    } else {
        SessionModel { tree: apply_change(m.tree, m.log[m.cursor as int].forward), cursor: m.cursor + 1, ..m }
    }
}

/// What an undo reports: the kind of the operation undone.
pub open spec fn undo_outcome(m: SessionModel) -> Result<OpKind, LogError> {
    if m.cursor == 0 || m.cursor > m.log.len() {
        Err(LogError::NoOperationToUndo)
    } else {
        Ok(m.log[m.cursor - 1].kind)
    }
}

/// What a redo reports: the kind of the operation redone.
pub open spec fn redo_outcome(m: SessionModel) -> Result<OpKind, LogError> {
    if m.cursor >= m.log.len() {
        Err(LogError::NoOperationToRedo)
    } else {
        Ok(m.log[m.cursor as int].kind)
    }
}

/// The session after each of `ms` in turn.
pub open spec fn perform_all(m: SessionModel, ms: Seq<Mutation>) -> SessionModel
    decreases ms.len(),
{
    if ms.len() == 0 {
        m
    } else {
        perform(perform_all(m, ms.drop_last()), ms.last().kind, ms.last().change)
    }
}

pub open spec fn undo_n(m: SessionModel, n: nat) -> SessionModel
    decreases n,
{
    if n == 0 {
        m
    } else {
        undo(undo_n(m, (n - 1) as nat))
    }
}

pub open spec fn redo_n(m: SessionModel, n: nat) -> SessionModel
    decreases n,
{
    if n == 0 {
        m
    } else {
        redo(redo_n(m, (n - 1) as nat))
    }
}

/// The state after the first `j` of `ms`.
pub open spec fn state_after(m: SessionModel, ms: Seq<Mutation>, j: int) -> TreeModel {
    perform_all(m, ms.take(j)).tree
}

proof fn lemma_perform_all_step(m: SessionModel, ms: Seq<Mutation>, j: int)
    requires
        0 <= j < ms.len(),
    ensures
        perform_all(m, ms.take(j + 1)) == perform(
            perform_all(m, ms.take(j)),
            ms[j].kind,
            ms[j].change,
        ),
{
    assert(ms.take(j + 1).drop_last() =~= ms.take(j));
}

/// The shape of the log after a run of operations: the cursor moved by
/// one for each, nothing lies past it, and the entries from the starting
/// cursor on are the operations, each with the inverse taken in the state
/// it was applied to.
proof fn lemma_perform_all_shape(m: SessionModel, ms: Seq<Mutation>)
    requires
        m.wf(),
    ensures
        perform_all(m, ms).cursor == m.cursor + ms.len(),
        perform_all(m, ms).wf(),
        ms.len() > 0 ==> perform_all(m, ms).log.len() == perform_all(m, ms).cursor,
        forall|j: int|
            0 <= j < ms.len() ==> #[trigger] perform_all(m, ms).log[m.cursor + j] == logged(ms[j].kind, ms[j].change, state_after(m, ms, j)),
    decreases ms.len(),
{
    if ms.len() > 0 {
        let ms0 = ms.drop_last();
        let n = ms.len() - 1;
        lemma_perform_all_shape(m, ms0);
        let p = perform_all(m, ms0);
        let q = perform_all(m, ms);
        assert(ms.take(n) =~= ms0);
        assert forall|j: int| 0 <= j < ms.len() implies #[trigger] q.log[m.cursor + j]
            == logged(ms[j].kind, ms[j].change, state_after(m, ms, j)) by {
            if j < n {
                assert(ms0.take(j) =~= ms.take(j));
                assert(ms0[j] == ms[j]);
                assert(q.log[m.cursor + j] == p.log[m.cursor + j]);
            }
        }
    }
}

/// The session after `k` undos that follow a run of operations: the state
/// after all but the last `k` of them, the log untouched.
proof fn lemma_undo_after_run(m: SessionModel, ms: Seq<Mutation>, k: nat)
    requires
        m.wf(),
        k <= ms.len(),
    ensures
        undo_n(perform_all(m, ms), k) == (SessionModel {
            tree: state_after(m, ms, ms.len() - k),
            log: perform_all(m, ms).log,
            cursor: (m.cursor + ms.len() - k) as nat,
        }),
    decreases k,
{
    lemma_perform_all_shape(m, ms);
    let big = perform_all(m, ms);
    if k == 0 {
        assert(ms.take(ms.len() as int) =~= ms);
    } else {
        lemma_undo_after_run(m, ms, (k - 1) as nat);
        let j = ms.len() - k;
        lemma_perform_all_step(m, ms, j);
        let before = state_after(m, ms, j);
        assert(big.log[m.cursor + j] == logged(ms[j].kind, ms[j].change, before));
        lemma_inverse_restores(before, ms[j].change);
    }
}

/// The session after `i` redos that follow `k` undos of a run of
/// operations: `i` of them are applied again.
proof fn lemma_redo_after_undo(m: SessionModel, ms: Seq<Mutation>, k: nat, i: nat)
    requires
        m.wf(),
        i <= k <= ms.len(),
    ensures
        redo_n(undo_n(perform_all(m, ms), k), i) == (SessionModel {
            tree: state_after(m, ms, ms.len() - k + i),
            log: perform_all(m, ms).log,
            cursor: (m.cursor + ms.len() - k + i) as nat,
        }),
    decreases i,
{
    lemma_perform_all_shape(m, ms);
    lemma_undo_after_run(m, ms, k);
    if i > 0 {
        lemma_redo_after_undo(m, ms, k, (i - 1) as nat);
        let j = ms.len() - k + i - 1;
        lemma_perform_all_step(m, ms, j);
        assert(perform_all(m, ms).log[m.cursor + j].forward == ms[j].change);
    }
}

/// Undoing every one of a run of operations gives back the workspace state
/// from before the first of them.
pub proof fn lemma_undo_all_restores(m: SessionModel, ms: Seq<Mutation>)
    requires
        m.wf(),
    ensures
        undo_n(perform_all(m, ms), ms.len()).tree == m.tree,
{
    lemma_undo_after_run(m, ms, ms.len());
    assert(ms.take(0) =~= Seq::<Mutation>::empty());
}

/// After a run of operations, `k` undos give the state after all but the
/// last `k` of them, and `k` redos after that give back the session
/// exactly: undo and redo are inverse to each other.
pub proof fn lemma_undo_redo_inverse(m: SessionModel, ms: Seq<Mutation>, k: nat)
    requires
        m.wf(),
        k <= ms.len(),
    ensures
        undo_n(perform_all(m, ms), k).tree == state_after(m, ms, ms.len() - k),
        redo_n(undo_n(perform_all(m, ms), k), k) == perform_all(m, ms),
{
    lemma_undo_after_run(m, ms, k);
    lemma_redo_after_undo(m, ms, k, k);
    lemma_perform_all_shape(m, ms);
    assert(ms.take(ms.len() as int) =~= ms);
    if ms.len() == 0 {
        assert(perform_all(m, ms) == m);
    }
}

proof fn lemma_undo_n_wf(m: SessionModel, k: nat)
    requires
        m.wf(),
    ensures
        undo_n(m, k).wf(),
        undo_n(m, k).log == m.log,
    decreases k,
{
    if k > 0 {
        lemma_undo_n_wf(m, (k - 1) as nat);
    }
}

/// An operation performed after any number of undos drops what was kept
/// for redo: a redo then reports that there is nothing to redo, and changes
/// nothing, so the same holds of every later redo.
pub proof fn lemma_perform_discards_redo(m: SessionModel, k: nat, mu: Mutation)
    requires
        m.wf(),
    ensures
        redo_outcome(perform(undo_n(m, k), mu.kind, mu.change)) == Err::<OpKind, LogError>(
            LogError::NoOperationToRedo,
        ),
        redo(perform(undo_n(m, k), mu.kind, mu.change)) == perform(undo_n(m, k), mu.kind, mu.change),
{
    lemma_undo_n_wf(m, k);
}

/// A workspace that is not initialized, with an empty log.
pub open spec fn empty_session() -> SessionModel {
    SessionModel {
        tree: TreeModel { workspace: None, projects: Map::empty() },
        log: Seq::empty(),
        cursor: 0,
    }
}

/// A log entry as it is stored: what was done, without its inverse, which
/// the state it was applied to determines.
pub struct Record {
    pub kind: OpKind,
    pub scope: Option<String>,
    pub change: Change,
    pub timestamp: u64,
}

pub open spec fn mutations(rs: Seq<Record>) -> Seq<Mutation> {
    rs.map_values(|r: Record| Mutation { kind: r.kind, change: r.change@ })
}

/// What a log holds to replay: each entry's kind and change.
pub open spec fn logged_mutations(log: Seq<EntryModel>) -> Seq<Mutation> {
    log.map_values(|e: EntryModel| Mutation { kind: e.kind, change: e.forward })
}

/// A session that began in a directory that was not a workspace yet comes
/// back exactly from its log alone: replaying the entries' changes and
/// undoing those past the cursor gives the same state, log and cursor.
pub proof fn lemma_replay_restores(ms: Seq<Mutation>, k: nat)
    requires
        k <= ms.len(),
    ensures
        ({
            let m = undo_n(perform_all(empty_session(), ms), k);
            undo_n(
                perform_all(empty_session(), logged_mutations(m.log)),
                (m.log.len() - m.cursor) as nat,
            ) == m
        }),
{
    let e = empty_session();
    lemma_undo_after_run(e, ms, k);
    lemma_perform_all_shape(e, ms);
    let big = perform_all(e, ms);
    assert(logged_mutations(big.log) =~= ms) by {
        if ms.len() == 0 {
            assert(big == e);
        } else {
            assert forall|j: int| 0 <= j < ms.len() implies #[trigger] logged_mutations(big.log)[j]
                == ms[j] by {
                assert(big.log[e.cursor + j] == logged(ms[j].kind, ms[j].change, state_after(e, ms, j)));
            }
        }
    }
    if ms.len() == 0 {
        assert(big == e);
    }
}

/// A log entry.
pub struct Operation {
    /// The entry's position in the log, counted from one.
    pub sequence_id: u64,
    /// When the operation was made, as the caller counts time.
    pub timestamp: u64,
    pub kind: OpKind,
    /// The project the operation applies to, or `None` for the workspace.
    pub scope: Option<String>,
    pub forward: Change,
    pub inverse: Change,
}

impl View for Operation {
    type V = EntryModel;

    open spec fn view(&self) -> EntryModel {
        EntryModel { kind: self.kind, forward: self.forward@, inverse: self.inverse@ }
    }
}

/// What an undo or a redo applied: the operation's kind and the change made
/// to the workspace state.
pub struct Applied {
    pub kind: OpKind,
    pub change: Change,
}

/// A workspace's state together with its operation log.
pub struct Session {
    tree: Tree,
    log: Vec<Operation>,
    cursor: usize,
}

impl View for Session {
    type V = SessionModel;

    closed spec fn view(&self) -> SessionModel {
        SessionModel {
            tree: self.tree@,
            log: self.log@.map_values(|o: Operation| o@),
            cursor: self.cursor as nat,
        }
    }
}

impl Session {
    /// A directory that is not a workspace yet, with an empty log.
    pub fn new() -> (r: Session)
        ensures
            r@.tree.workspace is None,
            r@.tree.projects == Map::<Seq<char>, crate::tree::ConfigMap>::empty(),
            r@.log.len() == 0,
            r@.cursor == 0,
            r@.wf(),
    {
        Session { tree: Tree::new(), log: Vec::new(), cursor: 0 }
    }

    pub fn tree(&self) -> (r: &Tree)
        ensures
            r@ == self@.tree,
    {
        &self.tree
    }

    pub fn cursor(&self) -> (r: usize)
        ensures
            r == self@.cursor,
    {
        self.cursor
    }

    pub fn log_len(&self) -> (r: usize)
        ensures
            r == self@.log.len(),
    {
        self.log.len()
    }

    /// The entries of the log, applied and undone.
    pub fn entries(&self) -> (r: &Vec<Operation>)
        ensures
            r@.map_values(|o: Operation| o@) == self@.log,
    {
        &self.log
    }

    /// Applies `change` and logs it with its inverse, dropping the entries
    /// kept for redo.
    pub fn record(
        &mut self,
        kind: OpKind,
        scope: Option<String>,
        change: Change,
        timestamp: u64,
    )
        requires
            old(self)@.wf(),
        ensures
            final(self)@ == perform(old(self)@, kind, change@),
            final(self)@.wf(),
    {
        let inverse = self.tree.inverse_of(&change);
        self.tree.apply(&change);
        let ghost old_log = self.log@;
        self.log.truncate(self.cursor);
        let id = if self.cursor < u64::MAX as usize { self.cursor as u64 + 1 } else { u64::MAX };
        self.log.push(
            Operation { sequence_id: id, timestamp, kind, scope, forward: change, inverse },
        );
        self.cursor = self.log.len();
        assert(self.log@.map_values(|o: Operation| o@) =~= old_log.map_values(
            |o: Operation| o@,
        ).take(old(self)@.cursor as int).push(
            logged(kind, change@, old(self)@.tree),
        ));
    }

    /// The session that a stored log stands for: every entry applied in
    /// turn to a directory that is not a workspace yet, then those past the
    /// cursor undone.
    pub fn replay(records: Vec<Record>, cursor: usize) -> (r: Result<Session, LogError>)
        ensures
            cursor <= records@.len() ==> r is Ok && r->Ok_0@ == undo_n(
                perform_all(empty_session(), mutations(records@)),
                (records@.len() - cursor) as nat,
            ) && r->Ok_0@.wf(),
            cursor > records@.len() ==> r is Err && r->Err_0 == LogError::Corrupted,
    {
        if cursor > records.len() {
            return Err(LogError::Corrupted);
        }
        let ghost ms = mutations(records@);
        let n = records.len();
        let mut session = Session::new();
        assert(session@ == empty_session()) by {
            assert(session@.tree.projects =~= empty_session().tree.projects);
            assert(session@.log =~= empty_session().log);
        }
        assert(ms.take(0) =~= Seq::<Mutation>::empty());
        let mut i: usize = 0;
        while i < n
            invariant
                n == records@.len(),
                ms == mutations(records@),
                i <= n,
                session@ == perform_all(empty_session(), ms.take(i as int)),
                session@.wf(),
            decreases n - i,
        {
            let rec = &records[i];
            proof { lemma_perform_all_step(empty_session(), ms, i as int); }
            session.record(rec.kind, rec.scope.clone(), rec.change.duplicate(), rec.timestamp);
            i = i + 1;
        }
        assert(ms.take(n as int) =~= ms);
        let undos = n - cursor;
        let mut k: usize = 0;
        while k < undos
            invariant
                k <= undos,
                session@ == undo_n(perform_all(empty_session(), ms), k as nat),
                session@.wf(),
            decreases undos - k,
        {
            let _ = session.undo();
            k = k + 1;
        }
        Ok(session)
    }

    /// Undoes the last applied operation, or reports that there is none.
    pub fn undo(&mut self) -> (r: Result<Applied, LogError>)
        requires
            old(self)@.wf(),
        ensures
            final(self)@ == undo(old(self)@),
            final(self)@.wf(),
            match r {
                Ok(a) => undo_outcome(old(self)@) == Ok::<OpKind, LogError>(a.kind) && a.change@
                    == old(self)@.log[old(self)@.cursor - 1].inverse,
                Err(e) => undo_outcome(old(self)@) == Err::<OpKind, LogError>(e),
            },
    {
        if self.cursor == 0 {
            return Err(LogError::NoOperationToUndo);
        }
        let i = self.cursor - 1;
        let change = self.log[i].inverse.duplicate();
        self.tree.apply(&change);
        self.cursor = i;
        Ok(Applied { kind: self.log[i].kind, change })
    }

    /// Redoes the first undone operation, or reports that there is none.
    pub fn redo(&mut self) -> (r: Result<Applied, LogError>)
        requires
            old(self)@.wf(),
        ensures
            final(self)@ == redo(old(self)@),
            final(self)@.wf(),
            match r {
                Ok(a) => redo_outcome(old(self)@) == Ok::<OpKind, LogError>(a.kind) && a.change@
                    == old(self)@.log[old(self)@.cursor as int].forward,
                Err(e) => redo_outcome(old(self)@) == Err::<OpKind, LogError>(e),
            },
    {
        if self.cursor >= self.log.len() {
            return Err(LogError::NoOperationToRedo);
        }
        let i = self.cursor;
        let change = self.log[i].forward.duplicate();
        self.tree.apply(&change);
        self.cursor = i + 1;
        Ok(Applied { kind: self.log[i].kind, change })
    }
}

} // verus!
