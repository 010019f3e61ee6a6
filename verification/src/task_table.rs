//! The task owner's table: for each download the one task installed for
//! it, with the start gates that task releases when it starts, the
//! projection cells it owns or supersedes, and the result cells of terminal
//! projections. The runtime spawns, aborts and wakes tasks as the table's
//! operations say.

use crate::keyed::{
    find_key, insert_key, keyed_map, keys_unique, remove_key, Keyed,
};
use crate::service::TaskStartState;
use crate::strings::clone_string;
use crate::task_lifecycle::{
    cancel_choice, cancel_decision, projection_choice, projection_decision, projection_settlement,
    projection_starts_failed, completed_with, rescue_action, rescue_choice, settled_with, settlement_of, CancelDecision,
    ProjectionCellState, ProjectionDecision, ProjectionOutcome, ProjectionSettlement, RescueAction,
    TaskEntrySnapshot, TaskRole,
};
use vstd::prelude::*;

verus! {

/// One installed task as the owner holds it.
pub struct OwnedTask {
    pub role: TaskRole,
    pub generation: u64,
    /// The task and its nested work have finished.
    pub finished: bool,
    /// A relocation's completion signal has not fired yet.
    pub relocation_pending: bool,
    pub start_state: TaskStartState,
    /// The generations whose start gates the task releases when it
    /// starts: those its replaced predecessors still held, then its own.
    pub starts: Vec<u64>,
    /// The task's own projection cell.
    pub projection: Option<usize>,
    /// The projection cell of a replaced task, reported superseded when
    /// the task starts.
    pub superseded_projection: Option<usize>,
    /// The generation of a replaced task that is aborted when the task
    /// starts.
    pub abort_on_start: Option<u64>,
}

pub struct OwnedTaskView {
    pub role: TaskRole,
    pub generation: u64,
    pub finished: bool,
    pub relocation_pending: bool,
    pub start_state: TaskStartState,
    pub starts: Seq<u64>,
    pub projection: Option<usize>,
    pub superseded_projection: Option<usize>,
    pub abort_on_start: Option<u64>,
}

impl View for OwnedTask {
    type V = OwnedTaskView;

    open spec fn view(&self) -> OwnedTaskView {
        OwnedTaskView {
            role: self.role,
            generation: self.generation,
            finished: self.finished,
            relocation_pending: self.relocation_pending,
            start_state: self.start_state,
            starts: self.starts@,
            projection: self.projection,
            superseded_projection: self.superseded_projection,
            abort_on_start: self.abort_on_start,
        }
    }
}

pub open spec fn snapshot_of(e: OwnedTaskView) -> TaskEntrySnapshot {
    TaskEntrySnapshot {
        role: e.role,
        generation: e.generation,
        finished: e.finished,
        relocation_pending: e.relocation_pending,
        start_state: e.start_state,
    }
}

/// The tasks of all downloads and the projection result cells.
pub struct TaskTable {
    entries: Vec<Keyed<OwnedTask>>,
    cells: Vec<ProjectionCellState>,
    inherited: Vec<Option<usize>>,
    next_generation: u64,
}

pub struct TaskTableView {
    pub entries: Map<Seq<char>, OwnedTaskView>,
    pub cells: Seq<ProjectionCellState>,
    /// For each cell, the cell of a superseded projection it inherited.
    pub inherited: Seq<Option<usize>>,
    pub next_generation: u64,
}

impl View for TaskTable {
    type V = TaskTableView;

    closed spec fn view(&self) -> TaskTableView {
        TaskTableView {
            entries: keyed_map(self.entries@),
            cells: self.cells@,
            inherited: self.inherited@,
            next_generation: self.next_generation,
        }
    }
}

pub open spec fn cell_in(c: Option<usize>, n: nat) -> bool {
    c matches Some(k) ==> k < n
}

/// Every entry has an older generation than the next one, names cells the
/// table holds, and owns a cell exactly when it is a terminal projection.
pub open spec fn table_wf(v: TaskTableView) -> bool {
    &&& v.inherited.len() == v.cells.len()
    &&& forall|k: Seq<char>| #[trigger]
        v.entries.dom().contains(k) ==> {
            let e = v.entries[k];
            &&& e.generation < v.next_generation
            &&& cell_in(e.projection, v.cells.len())
            &&& cell_in(e.superseded_projection, v.cells.len())
            &&& (e.role == TaskRole::TerminalProjection <==> e.projection is Some)
        }
}

pub open spec fn current_of(v: TaskTableView, id: Seq<char>) -> Option<TaskEntrySnapshot> {
    if v.entries.dom().contains(id) {
        Some(snapshot_of(v.entries[id]))
    } else {
        None
    }
}

/// A newly installed task: gated, holding its own start gate.
pub open spec fn installed_entry(g: u64, role: TaskRole, projection: Option<usize>) -> OwnedTaskView {
    OwnedTaskView {
        role,
        generation: g,
        finished: false,
        relocation_pending: false,
        start_state: TaskStartState::Gated,
        starts: seq![g],
        projection,
        superseded_projection: None,
        abort_on_start: None,
    }
}

/// The cancel finalizer that replaces `current`: it takes over the start
/// gates the replaced task still held, supersedes its projection (or the
/// one it superseded), and aborts it on start unless it is a relocation.
pub open spec fn finalizer_after(current: Option<OwnedTaskView>, g: u64) -> OwnedTaskView {
    OwnedTaskView {
        role: TaskRole::CancelFinalizer,
        generation: g,
        finished: false,
        relocation_pending: false,
        start_state: TaskStartState::Gated,
        starts: match current {
            Some(e) => e.starts,
            None => Seq::empty(),
        }.push(g),
        projection: None,
        superseded_projection: match current {
            Some(e) => if e.projection is Some {
                e.projection
            } else {
                e.superseded_projection
            },
            None => None,
        },
        abort_on_start: match current {
            Some(e) => if e.role != TaskRole::RelocationTransition {
                Some(e.generation)
            } else {
                None
            },
            None => None,
        },
    }
}

/// The terminal projection that replaces a finished task: it owns the new
/// cell, and holds two start gates of its own generation, one for the
/// observer of the replaced task and one for the projection.
pub open spec fn projection_entry(g: u64, cell: usize) -> OwnedTaskView {
    OwnedTaskView {
        role: TaskRole::TerminalProjection,
        generation: g,
        finished: false,
        relocation_pending: false,
        start_state: TaskStartState::Gated,
        starts: seq![g, g],
        projection: Some(cell),
        superseded_projection: None,
        abort_on_start: None,
    }
}

/// The new projection cell: failed when the request says so or the
/// superseded cell it inherits failed.
pub open spec fn projection_cell(v: TaskTableView, inherited: Option<usize>, inherit_failure: bool) -> ProjectionCellState {
    ProjectionCellState {
        predecessor_ready: false,
        predecessor: None,
        outcome: ProjectionOutcome::Pending,
        settled: false,
        failed: inherit_failure || (inherited matches Some(k) && v.cells[k as int].failed),
        failure_projected: false,
    }
}

/// What starting a task releases.
pub struct StartEffects {
    /// Start gates to open.
    pub starts: Vec<u64>,
    /// A replaced task to abort.
    pub abort: Option<u64>,
    /// A superseded projection cell, now reported `Superseded`.
    pub superseded: Option<usize>,
}

/// The table once the download's task started: it runs, its start gates
/// and abort are handed out, and its superseded cell reports `Superseded`.
pub open spec fn started_table(v: TaskTableView, id: Seq<char>) -> TaskTableView {
    let e = v.entries[id];
    TaskTableView {
        entries: v.entries.insert(
            id,
            OwnedTaskView { start_state: TaskStartState::Running, starts: Seq::empty(), abort_on_start: None, ..e },
        ),
        cells: match e.superseded_projection {
            Some(k) => v.cells.update(k as int, settled_with(v.cells[k as int], ProjectionOutcome::Superseded)),
            None => v.cells,
        },
        ..v
    }
}

/// What a cancellation did.
pub enum CancelTransition {
    /// A relocation is in progress: wait for it.
    Relocating,
    /// A cancel finalizer is already running.
    AlreadyRunning,
    /// The unstarted cancel finalizer of this generation.
    Existing { generation: u64 },
    /// A new cancel finalizer of this generation observes the replaced task.
    Started { generation: u64, predecessor: Option<u64> },
}

/// What a request for the terminal projection did.
pub enum ProjectionTransition {
    NotReady,
    Existing { generation: u64, cell: usize },
    Started { generation: u64, cell: usize, predecessor: u64 },
}

impl TaskTable {
    pub closed spec fn wf(&self) -> bool {
        &&& keys_unique(self.entries@)
        &&& table_wf(self@)
    }

    /// A table with no task.
    pub fn new() -> (t: Self)
        ensures
            t.wf(),
            t@.entries == Map::<Seq<char>, OwnedTaskView>::empty(),
            t@.cells == Seq::<ProjectionCellState>::empty(),
            t@.next_generation == 0,
    {
        let t = TaskTable { entries: Vec::new(), cells: Vec::new(), inherited: Vec::new(), next_generation: 0 };
        assert(t@.entries =~= Map::<Seq<char>, OwnedTaskView>::empty());
        t
    }

    /// What the owner knows of the download's task.
    pub fn snapshot(&self, id: &String) -> (r: Option<TaskEntrySnapshot>)
        requires
            self.wf(),
        ensures
            r == current_of(self@, id@),
    {
        match find_key(&self.entries, id) {
            Some(i) => {
                let e = &self.entries[i].value;
                Some(
                    TaskEntrySnapshot {
                        role: e.role,
                        generation: e.generation,
                        finished: e.finished,
                        relocation_pending: e.relocation_pending,
                        start_state: e.start_state,
                    },
                )
            },
            None => None,
        }
    }

    /// Carry a finished projection's report into its cell.
    pub fn complete_projection(&mut self, cell: usize, outcome: ProjectionOutcome)
        requires
            old(self).wf(),
            cell < old(self)@.cells.len(),
        ensures
            final(self).wf(),
            final(self)@ == (TaskTableView {
                cells: old(self)@.cells.update(cell as int, completed_with(old(self)@.cells[cell as int], outcome)),
                ..old(self)@
            }),
    {
        let mut c = self.cells[cell];
        c.complete(outcome);
        self.cells.set(cell, c);
        assert(self@.entries == old(self)@.entries);
    }

    /// A projection result cell.
    pub fn cell(&self, cell: usize) -> (r: ProjectionCellState)
        requires
            cell < self@.cells.len(),
        ensures
            r == self@.cells[cell as int],
    {
        self.cells[cell]
    }
}

/// A cell with nothing reported yet.
pub open spec fn fresh_cell(predecessor_ready: bool) -> ProjectionCellState {
    ProjectionCellState {
        predecessor_ready,
        predecessor: None,
        outcome: ProjectionOutcome::Pending,
        settled: false,
        failed: false,
        failure_projected: false,
    }
}

pub open spec fn entry_fits(e: OwnedTaskView, next_generation: u64, cells: nat) -> bool {
    &&& e.generation < next_generation
    &&& cell_in(e.projection, cells)
    &&& cell_in(e.superseded_projection, cells)
    &&& (e.role == TaskRole::TerminalProjection <==> e.projection is Some)
}

proof fn lemma_wf_insert(v: TaskTableView, w: TaskTableView, id: Seq<char>, e: OwnedTaskView)
    requires
        table_wf(v),
        w.entries == v.entries.insert(id, e),
        w.next_generation >= v.next_generation,
        w.cells.len() >= v.cells.len(),
        w.inherited.len() == w.cells.len(),
        entry_fits(e, w.next_generation, w.cells.len()),
    ensures
        table_wf(w),
{
    assert forall|k: Seq<char>| #[trigger] w.entries.dom().contains(k) implies entry_fits(
        w.entries[k],
        w.next_generation,
        w.cells.len(),
    ) by {
        if k != id {
            assert(v.entries.dom().contains(k));
            assert(entry_fits(v.entries[k], v.next_generation, v.cells.len()));
        }
    }
}

proof fn lemma_wf_remove(v: TaskTableView, w: TaskTableView, id: Seq<char>)
    requires
        table_wf(v),
        w.entries == v.entries.remove(id),
        w.next_generation == v.next_generation,
        w.cells.len() == v.cells.len(),
        w.inherited.len() == w.cells.len(),
    ensures
        table_wf(w),
{
    assert forall|k: Seq<char>| #[trigger] w.entries.dom().contains(k) implies entry_fits(
        w.entries[k],
        w.next_generation,
        w.cells.len(),
    ) by {
        assert(v.entries.dom().contains(k));
        assert(entry_fits(v.entries[k], v.next_generation, v.cells.len()));
    }
}

proof fn lemma_entry_fits(v: TaskTableView, id: Seq<char>)
    requires
        table_wf(v),
        v.entries.dom().contains(id),
    ensures
        entry_fits(v.entries[id], v.next_generation, v.cells.len()),
{
}

impl TaskTable {
    /// Install a gated task for a download that has none; a terminal
    /// projection gets a new result cell whose predecessor is ready.
    /// `None` when the download already has a task.
    pub fn install(&mut self, id: String, role: TaskRole) -> (r: Option<u64>)
        requires
            old(self).wf(),
            old(self)@.next_generation < u64::MAX,
        ensures
            final(self).wf(),
            old(self)@.entries.dom().contains(id@) ==> r is None && final(self)@ == old(self)@,
            !old(self)@.entries.dom().contains(id@) ==> {
                let v = old(self)@;
                let g = v.next_generation;
                let owns_cell = role == TaskRole::TerminalProjection;
                let projection = if owns_cell {
                    Some(v.cells.len() as usize)
                } else {
                    None
                };
                &&& r == Some(g)
                &&& final(self)@.entries == v.entries.insert(id@, installed_entry(g, role, projection))
                &&& final(self)@.next_generation == g + 1
                &&& final(self)@.cells == if owns_cell {
                    v.cells.push(fresh_cell(true))
                } else {
                    v.cells
                }
                &&& final(self)@.inherited == if owns_cell {
                    v.inherited.push(None)
                } else {
                    v.inherited
                }
            },
    {
        if find_key(&self.entries, &id).is_some() {
            return None;
        }
        let ghost v = self@;
        let g = self.next_generation;
        let projection = if role == TaskRole::TerminalProjection {
            let c = self.cells.len();
            self.cells.push(ProjectionCellState::new(true));
            self.inherited.push(None);
            Some(c)
        } else {
            None
        };
        let mut starts: Vec<u64> = Vec::new();
        starts.push(g);
        assert(starts@ =~= seq![g]);
        let ghost e = installed_entry(g, role, projection);
        insert_key(
            &mut self.entries,
            id,
            OwnedTask {
                role,
                generation: g,
                finished: false,
                relocation_pending: false,
                start_state: TaskStartState::Gated,
                starts,
                projection,
                superseded_projection: None,
                abort_on_start: None,
            },
        );
        self.next_generation = g + 1;
        proof {
            lemma_wf_insert(v, self@, id@, e);
        }
        Some(g)
    }

    /// Record that the task of this generation and its nested work
    /// finished; false when another generation holds the download.
    pub fn mark_finished(&mut self, id: &String, generation: u64) -> (r: bool)
        requires
            old(self).wf(),
        ensures
            final(self).wf(),
            r == (old(self)@.entries.dom().contains(id@) && old(self)@.entries[id@].generation == generation),
            r ==> final(self)@ == (TaskTableView {
                entries: old(self)@.entries.insert(id@, OwnedTaskView { finished: true, ..old(self)@.entries[id@] }),
                ..old(self)@
            }),
            !r ==> final(self)@ == old(self)@,
    {
        let ghost v = self@;
        match find_key(&self.entries, id) {
            None => false,
            Some(i) => {
                if self.entries[i].value.generation != generation {
                    return false;
                }
                let mut e = remove_key(&mut self.entries, id).unwrap();
                e.finished = true;
                insert_key(&mut self.entries, clone_string(id), e);
                proof {
                    assert(v.entries.remove(id@).insert(id@, e@) =~= v.entries.insert(id@, e@));
                    lemma_entry_fits(v, id@);
                    lemma_wf_insert(v, self@, id@, e@);
                }
                true
            },
        }
    }

    /// Dropping an unstarted install token abandons its task; a task that
    /// already runs stays running.
    pub fn abandon(&mut self, id: &String, generation: u64) -> (r: bool)
        requires
            old(self).wf(),
        ensures
            final(self).wf(),
            r == (old(self)@.entries.dom().contains(id@) && old(self)@.entries[id@].generation == generation
                && old(self)@.entries[id@].start_state == TaskStartState::Gated),
            r ==> final(self)@ == (TaskTableView {
                entries: old(self)@.entries.insert(
                    id@,
                    OwnedTaskView { start_state: TaskStartState::Abandoned, ..old(self)@.entries[id@] },
                ),
                ..old(self)@
            }),
            !r ==> final(self)@ == old(self)@,
    {
        let ghost v = self@;
        match find_key(&self.entries, id) {
            None => false,
            Some(i) => {
                if self.entries[i].value.generation != generation || self.entries[i].value.start_state
                    != TaskStartState::Gated {
                    return false;
                }
                let mut e = remove_key(&mut self.entries, id).unwrap();
                e.start_state = TaskStartState::Abandoned;
                insert_key(&mut self.entries, clone_string(id), e);
                proof {
                    assert(v.entries.remove(id@).insert(id@, e@) =~= v.entries.insert(id@, e@));
                    lemma_entry_fits(v, id@);
                    lemma_wf_insert(v, self@, id@, e@);
                }
                true
            },
        }
    }

    /// Start the download's task of this generation: it runs, its start
    /// gates and the task it aborts are handed out, and the projection it
    /// supersedes reports `Superseded`. `None` when another generation (or
    /// nothing) holds the download.
    pub fn start(&mut self, id: &String, generation: u64) -> (r: Option<StartEffects>)
        requires
            old(self).wf(),
        ensures
            final(self).wf(),
            match r {
                Some(fx) => {
                    let e = old(self)@.entries[id@];
                    &&& old(self)@.entries.dom().contains(id@) && e.generation == generation
                    &&& final(self)@ == started_table(old(self)@, id@)
                    &&& fx.starts@ == e.starts && fx.abort == e.abort_on_start && fx.superseded
                        == e.superseded_projection
                },
                None => !(old(self)@.entries.dom().contains(id@) && old(self)@.entries[id@].generation == generation)
                    && final(self)@ == old(self)@,
            },
    {
        let ghost v = self@;
        let i = match find_key(&self.entries, id) {
            Some(i) => i,
            None => return None,
        };
        if self.entries[i].value.generation != generation {
            return None;
        }
        proof {
            lemma_entry_fits(v, id@);
        }
        let e = remove_key(&mut self.entries, id).unwrap();
        let superseded = e.superseded_projection;
        match superseded {
            Some(k) => {
                let mut c = self.cells[k];
                let _ = c.settle(ProjectionOutcome::Superseded);
                self.cells.set(k, c);
            },
            None => {},
        }
        let abort = e.abort_on_start;
        let running = OwnedTask {
            role: e.role,
            generation: e.generation,
            finished: e.finished,
            relocation_pending: e.relocation_pending,
            start_state: TaskStartState::Running,
            starts: Vec::new(),
            projection: e.projection,
            superseded_projection: superseded,
            abort_on_start: None,
        };
        let ghost rv = running@;
        insert_key(&mut self.entries, clone_string(id), running);
        proof {
            assert(v.entries.remove(id@).insert(id@, rv) =~= v.entries.insert(id@, rv));
            assert(rv == OwnedTaskView {
                start_state: TaskStartState::Running,
                starts: Seq::empty(),
                abort_on_start: None,
                ..v.entries[id@]
            });
            lemma_wf_insert(v, self@, id@, rv);
        }
        Some(StartEffects { starts: e.starts, abort, superseded })
    }
}

impl TaskTable {
    /// Cancel the download's task: wait for a relocation in progress, keep
    /// an unfinished cancel finalizer, or replace whatever holds the
    /// download with a new gated cancel finalizer that observes it.
    pub fn begin_cancel(&mut self, id: &String) -> (r: CancelTransition)
        requires
            old(self).wf(),
            old(self)@.next_generation < u64::MAX,
        ensures
            final(self).wf(),
            ({
                let v = old(self)@;
                let prev = if v.entries.dom().contains(id@) {
                    Some(v.entries[id@])
                } else {
                    None
                };
                match cancel_choice(current_of(v, id@)) {
                    CancelDecision::Relocating => r is Relocating && final(self)@ == v,
                    CancelDecision::AlreadyRunning => r is AlreadyRunning && final(self)@ == v,
                    CancelDecision::Existing => r == CancelTransition::Existing { generation: v.entries[id@].generation }
                        && final(self)@ == v,
                    CancelDecision::Replace { .. } => {
                        let g = v.next_generation;
                        &&& r == CancelTransition::Started {
                            generation: g,
                            predecessor: match prev {
                                Some(e) => Some(e.generation),
                                None => None,
                            },
                        }
                        &&& final(self)@ == TaskTableView {
                            entries: v.entries.insert(id@, finalizer_after(prev, g)),
                            next_generation: (g + 1) as u64,
                            ..v
                        }
                    },
                }
            }),
    {
        let ghost v = self@;
        let current = self.snapshot(id);
        match cancel_decision(&current) {
            CancelDecision::Relocating => return CancelTransition::Relocating,
            CancelDecision::AlreadyRunning => return CancelTransition::AlreadyRunning,
            CancelDecision::Existing => {
                let generation = current.unwrap().generation;
                return CancelTransition::Existing { generation };
            },
            CancelDecision::Replace { .. } => {},
        }
        let g = self.next_generation;
        let prev = remove_key(&mut self.entries, id);
        let ghost pv = if v.entries.dom().contains(id@) {
            Some(v.entries[id@])
        } else {
            None
        };
        proof {
            if v.entries.dom().contains(id@) {
                lemma_entry_fits(v, id@);
            }
        }
        let (starts, superseded, abort, predecessor) = match prev {
            Some(e) => {
                let superseded = if e.projection.is_some() {
                    e.projection
                } else {
                    e.superseded_projection
                };
                let abort = if e.role != TaskRole::RelocationTransition {
                    Some(e.generation)
                } else {
                    None
                };
                (e.starts, superseded, abort, Some(e.generation))
            },
            None => (Vec::new(), None, None, None),
        };
        let mut starts = starts;
        starts.push(g);
        let finalizer = OwnedTask {
            role: TaskRole::CancelFinalizer,
            generation: g,
            finished: false,
            relocation_pending: false,
            start_state: TaskStartState::Gated,
            starts,
            projection: None,
            superseded_projection: superseded,
            abort_on_start: abort,
        };
        let ghost fv = finalizer@;
        assert(fv == finalizer_after(pv, g));
        insert_key(&mut self.entries, clone_string(id), finalizer);
        self.next_generation = g + 1;
        proof {
            assert(v.entries.remove(id@).insert(id@, fv) =~= v.entries.insert(id@, fv));
            lemma_wf_insert(v, self@, id@, fv);
        }
        CancelTransition::Started { generation: g, predecessor }
    }

    /// Request the terminal projection of the download's finished task: a
    /// projection already installed is handed back; otherwise a gated
    /// projection with a new cell replaces the finished task and inherits
    /// the cell it superseded.
    pub fn begin_finished_projection(&mut self, id: &String, inherit_failure: bool) -> (r: ProjectionTransition)
        requires
            old(self).wf(),
            old(self)@.next_generation < u64::MAX,
        ensures
            final(self).wf(),
            ({
                let v = old(self)@;
                match projection_choice(current_of(v, id@)) {
                    ProjectionDecision::NotReady => r is NotReady && final(self)@ == v,
                    ProjectionDecision::Existing => r == ProjectionTransition::Existing {
                        generation: v.entries[id@].generation,
                        cell: v.entries[id@].projection->0,
                    } && final(self)@ == v,
                    ProjectionDecision::Replace => {
                        let g = v.next_generation;
                        let c = v.cells.len() as usize;
                        let inherited = v.entries[id@].superseded_projection;
                        &&& r == ProjectionTransition::Started {
                            generation: g,
                            cell: c,
                            predecessor: v.entries[id@].generation,
                        }
                        &&& final(self)@ == TaskTableView {
                            entries: v.entries.insert(id@, projection_entry(g, c)),
                            cells: v.cells.push(projection_cell(v, inherited, inherit_failure)),
                            inherited: v.inherited.push(inherited),
                            next_generation: (g + 1) as u64,
                        }
                    },
                }
            }),
    {
        let ghost v = self@;
        let current = self.snapshot(id);
        match projection_decision(&current) {
            ProjectionDecision::NotReady => return ProjectionTransition::NotReady,
            ProjectionDecision::Existing => {
                let i = find_key(&self.entries, id).unwrap();
                proof {
                    lemma_entry_fits(v, id@);
                }
                let generation = self.entries[i].value.generation;
                let cell = self.entries[i].value.projection.unwrap();
                return ProjectionTransition::Existing { generation, cell };
            },
            ProjectionDecision::Replace => {},
        }
        proof {
            lemma_entry_fits(v, id@);
        }
        let g = self.next_generation;
        let prev = remove_key(&mut self.entries, id).unwrap();
        let inherited = prev.superseded_projection;
        let inherited_failed = match inherited {
            Some(k) => Some(self.cells[k].failed),
            None => None,
        };
        let failed = projection_starts_failed(inherited_failed, inherit_failure);
        let c = self.cells.len();
        let cell = ProjectionCellState {
            predecessor_ready: false,
            predecessor: None,
            outcome: ProjectionOutcome::Pending,
            settled: false,
            failed,
            failure_projected: false,
        };
        assert(cell == projection_cell(v, inherited, inherit_failure));
        self.cells.push(cell);
        self.inherited.push(inherited);
        let mut starts: Vec<u64> = Vec::new();
        starts.push(g);
        starts.push(g);
        assert(starts@ =~= seq![g, g]);
        let projection = OwnedTask {
            role: TaskRole::TerminalProjection,
            generation: g,
            finished: false,
            relocation_pending: false,
            start_state: TaskStartState::Gated,
            starts,
            projection: Some(c),
            superseded_projection: None,
            abort_on_start: None,
        };
        let ghost pv = projection@;
        insert_key(&mut self.entries, clone_string(id), projection);
        self.next_generation = g + 1;
        proof {
            assert(v.entries.remove(id@).insert(id@, pv) =~= v.entries.insert(id@, pv));
            lemma_wf_insert(v, self@, id@, pv);
        }
        ProjectionTransition::Started { generation: g, cell: c, predecessor: prev.generation }
    }

    /// Settle a projection ticket: only the current projection generation
    /// with a finished task and a cell that is ready settles; it then marks
    /// its cell settled and leaves the table.
    pub fn settle_projection(&mut self, id: &String, ticket_generation: u64, cell: usize) -> (s: ProjectionSettlement)
        requires
            old(self).wf(),
            cell < old(self)@.cells.len(),
        ensures
            final(self).wf(),
            s == settlement_of(current_of(old(self)@, id@), ticket_generation, old(self)@.cells[cell as int]),
            s == ProjectionSettlement::Settled ==> final(self)@ == (TaskTableView {
                entries: old(self)@.entries.remove(id@),
                cells: old(self)@.cells.update(
                    cell as int,
                    ProjectionCellState { settled: true, ..old(self)@.cells[cell as int] },
                ),
                ..old(self)@
            }),
            s != ProjectionSettlement::Settled ==> final(self)@ == old(self)@,
    {
        let ghost v = self@;
        let current = self.snapshot(id);
        let c = self.cells[cell];
        let s = projection_settlement(&current, ticket_generation, &c);
        if s == ProjectionSettlement::Settled {
            let mut settled = c;
            settled.mark_settled();
            self.cells.set(cell, settled);
            let _ = remove_key(&mut self.entries, id);
            proof {
                lemma_wf_remove(v, self@, id@);
            }
        }
        s
    }
}

/// Replacing a task by a cancel finalizer loses no start gate and no
/// projection: the finalizer releases, when it starts, every gate the
/// replaced task still held and then its own, and it supersedes the
/// replaced task's projection, or the one that task itself superseded.
pub proof fn law_cancel_replacement_carries_gates_and_projection(v: TaskTableView, id: Seq<char>, g: u64)
    requires
        table_wf(v),
        v.entries.dom().contains(id),
        cancel_choice(current_of(v, id)) is Replace,
    ensures
        ({
            let e = v.entries[id];
            let f = finalizer_after(Some(e), g);
            &&& f.starts.len() == e.starts.len() + 1
            &&& f.starts.take(e.starts.len() as int) == e.starts
            &&& f.starts.last() == g
            &&& f.superseded_projection == if e.projection is Some {
                e.projection
            } else {
                e.superseded_projection
            }
            &&& (e.role != TaskRole::RelocationTransition <==> f.abort_on_start == Some(e.generation))
        }),
{
    let e = v.entries[id];
    let f = finalizer_after(Some(e), g);
    assert(f.starts.take(e.starts.len() as int) =~= e.starts);
}

/// Starting a task that superseded a projection settles that projection:
/// its cell reports `Superseded` unless it had reported an outcome already,
/// its failure is kept, and the task then holds no start gate.
pub proof fn law_start_settles_superseded_projection(v: TaskTableView, id: Seq<char>, k: usize)
    requires
        table_wf(v),
        v.entries.dom().contains(id),
        v.entries[id].superseded_projection == Some(k),
    ensures
        started_table(v, id).cells[k as int].outcome != ProjectionOutcome::Pending,
        v.cells[k as int].outcome == ProjectionOutcome::Pending ==> started_table(v, id).cells[k as int].outcome
            == ProjectionOutcome::Superseded,
        started_table(v, id).cells[k as int].failed == v.cells[k as int].failed,
        started_table(v, id).entries[id].starts.len() == 0,
        started_table(v, id).entries[id].start_state == TaskStartState::Running,
{
    assert(entry_fits(v.entries[id], v.next_generation, v.cells.len()));
}

/// A terminal projection that replaces a finished task inherits the
/// projection that task superseded: the new cell starts failed exactly when
/// the request asks for it or the inherited cell failed.
pub proof fn law_projection_inherits_superseded_failure(
    v: TaskTableView,
    id: Seq<char>,
    inherit_failure: bool,
)
    requires
        table_wf(v),
        v.entries.dom().contains(id),
        projection_choice(current_of(v, id)) == ProjectionDecision::Replace,
    ensures
        ({
            let inherited = v.entries[id].superseded_projection;
            let c = projection_cell(v, inherited, inherit_failure);
            &&& c.outcome == ProjectionOutcome::Pending
            &&& c.failed == (inherit_failure || (inherited matches Some(k) && v.cells[k as int].failed))
            &&& !c.settled
        }),
{
}

/// An abandoned task after a rescue: a projection or a finalizer runs,
/// since it holds the custody its predecessors need.
pub open spec fn rescued_entry(e: OwnedTaskView) -> OwnedTaskView {
    if rescue_choice(e.role, e.start_state) == RescueAction::Start {
        OwnedTaskView { start_state: TaskStartState::Running, starts: Seq::empty(), abort_on_start: None, ..e }
    } else {
        e
    }
}

/// The tasks a rescue keeps: all but abandoned ones that are neither a
/// projection nor a finalizer.
pub open spec fn rescued_entries(m: Map<Seq<char>, OwnedTaskView>) -> Map<Seq<char>, OwnedTaskView> {
    Map::new(
        |k: Seq<char>| m.dom().contains(k) && rescue_choice(m[k].role, m[k].start_state) != RescueAction::Abort,
        |k: Seq<char>| rescued_entry(m[k]),
    )
}

/// Some task a rescue starts supersedes the cell.
pub open spec fn superseded_by_rescue(m: Map<Seq<char>, OwnedTaskView>, j: int) -> bool {
    exists|k: Seq<char>|
        #![trigger m[k]]
        m.dom().contains(k) && rescue_choice(m[k].role, m[k].start_state) == RescueAction::Start
            && m[k].superseded_projection == Some(j as usize)
}

pub open spec fn rescued_cells(m: Map<Seq<char>, OwnedTaskView>, cells: Seq<ProjectionCellState>) -> Seq<
    ProjectionCellState,
> {
    Seq::new(
        cells.len(),
        |j: int|
            if superseded_by_rescue(m, j) {
                settled_with(cells[j], ProjectionOutcome::Superseded)
            } else {
                cells[j]
            },
    )
}

/// What a rescue did with one abandoned task.
pub enum RescueEffect {
    Started { id: String, effects: StartEffects },
    Aborted { id: String, generation: u64 },
}

pub open spec fn effect_id(x: RescueEffect) -> Seq<char> {
    match x {
        RescueEffect::Started { id, .. } => id@,
        RescueEffect::Aborted { id, .. } => id@,
    }
}

/// The effect reported for an abandoned task.
pub open spec fn effect_matches(x: RescueEffect, e: OwnedTaskView) -> bool {
    match x {
        RescueEffect::Started { effects, .. } => rescue_choice(e.role, e.start_state) == RescueAction::Start
            && effects.starts@ == e.starts && effects.abort == e.abort_on_start && effects.superseded
            == e.superseded_projection,
        RescueEffect::Aborted { generation, .. } => rescue_choice(e.role, e.start_state) == RescueAction::Abort
            && generation == e.generation,
    }
}

/// Some entry from position `from` on is started by a rescue and
/// supersedes cell `c`.
pub open spec fn superseded_in(all: Seq<Keyed<OwnedTask>>, from: int, c: int) -> bool {
    exists|j: int|
        #![trigger all[j]]
        from <= j < all.len() && rescue_choice(all[j].value.role, all[j].value.start_state) == RescueAction::Start
            && all[j].value.superseded_projection == Some(c as usize)
}

proof fn lemma_superseded_in_step(all: Seq<Keyed<OwnedTask>>, n: int, c: int)
    requires
        0 <= n < all.len(),
    ensures
        superseded_in(all, n, c) == (superseded_in(all, n + 1, c) || (rescue_choice(
            all[n].value.role,
            all[n].value.start_state,
        ) == RescueAction::Start && all[n].value.superseded_projection == Some(c as usize))),
{
    if superseded_in(all, n, c) {
        let j = choose|j: int|
            #![trigger all[j]]
            n <= j < all.len() && rescue_choice(all[j].value.role, all[j].value.start_state) == RescueAction::Start
                && all[j].value.superseded_projection == Some(c as usize);
        if j > n {
            assert(superseded_in(all, n + 1, c));
        }
    }
    if superseded_in(all, n + 1, c) {
        let j = choose|j: int|
            #![trigger all[j]]
            n + 1 <= j < all.len() && rescue_choice(all[j].value.role, all[j].value.start_state)
                == RescueAction::Start && all[j].value.superseded_projection == Some(c as usize);
        assert(superseded_in(all, n, c));
    }
    if rescue_choice(all[n].value.role, all[n].value.start_state) == RescueAction::Start
        && all[n].value.superseded_projection == Some(c as usize) {
        assert(superseded_in(all, n, c));
    }
}

/// The cells after one task was rescued.
pub open spec fn cells_after(cells: Seq<ProjectionCellState>, e: OwnedTaskView) -> Seq<ProjectionCellState> {
    if rescue_choice(e.role, e.start_state) == RescueAction::Start && e.superseded_projection is Some {
        let k = e.superseded_projection->0 as int;
        cells.update(k, settled_with(cells[k], ProjectionOutcome::Superseded))
    } else {
        cells
    }
}

proof fn lemma_settle_superseded_twice(c: ProjectionCellState)
    ensures
        settled_with(settled_with(c, ProjectionOutcome::Superseded), ProjectionOutcome::Superseded) == settled_with(
            c,
            ProjectionOutcome::Superseded,
        ),
{
}

impl TaskTable {
    /// Rescue abandoned tasks: start abandoned projections and finalizers,
    /// which report their superseded projections `Superseded`, and remove
    /// every other abandoned task so that it is aborted without claiming
    /// that it ran. Each abandoned task gets one effect.
    pub fn rescue_abandoned(&mut self) -> (r: Vec<RescueEffect>)
        requires
            old(self).wf(),
        ensures
            final(self).wf(),
            final(self)@.entries == rescued_entries(old(self)@.entries),
            final(self)@.cells == rescued_cells(old(self)@.entries, old(self)@.cells),
            final(self)@.inherited == old(self)@.inherited,
            final(self)@.next_generation == old(self)@.next_generation,
            forall|i: int|
                0 <= i < r@.len() ==> old(self)@.entries.dom().contains(effect_id(#[trigger] r@[i])) && effect_matches(
                    r@[i],
                    old(self)@.entries[effect_id(r@[i])],
                ),
            forall|k: Seq<char>|
                #![trigger old(self)@.entries[k]]
                old(self)@.entries.dom().contains(k) && rescue_choice(
                    old(self)@.entries[k].role,
                    old(self)@.entries[k].start_state,
                ) != RescueAction::Keep ==> exists|i: int| 0 <= i < r@.len() && effect_id(#[trigger] r@[i]) == k,
    {
        let ghost v = self@;
        let mut pending: Vec<Keyed<OwnedTask>> = Vec::new();
        std::mem::swap(&mut pending, &mut self.entries);
        let ghost all = pending@;
        let ghost m = keyed_map(all);
        let mut kept: Vec<Keyed<OwnedTask>> = Vec::new();
        let mut effects: Vec<RescueEffect> = Vec::new();
        assert(keyed_map(kept@) =~= Map::<Seq<char>, OwnedTaskView>::empty());
        assert(all.take(all.len() as int) =~= all);
        while pending.len() > 0
            invariant
                keys_unique(all),
                m == keyed_map(all),
                v.entries == m,
                table_wf(v),
                pending@.len() <= all.len(),
                pending@ == all.take(pending@.len() as int),
                keys_unique(kept@),
                self.cells@.len() == v.cells.len(),
                self.inherited@ == v.inherited,
                self.next_generation == v.next_generation,
                forall|k: Seq<char>|
                    #![trigger keyed_map(kept@).dom().contains(k)]
                    keyed_map(kept@).dom().contains(k) <==> (exists|j: int|
                        #![trigger all[j]]
                        pending@.len() <= j < all.len() && all[j].key@ == k && rescue_choice(
                            all[j].value.role,
                            all[j].value.start_state,
                        ) != RescueAction::Abort),
                forall|j: int|
                    #![trigger all[j]]
                    pending@.len() <= j < all.len() && rescue_choice(all[j].value.role, all[j].value.start_state)
                        != RescueAction::Abort ==> keyed_map(kept@)[all[j].key@] == rescued_entry(all[j].value@),
                forall|c: int|
                    0 <= c < v.cells.len() ==> #[trigger] self.cells@[c] == if superseded_in(
                        all,
                        pending@.len() as int,
                        c,
                    ) {
                        settled_with(v.cells[c], ProjectionOutcome::Superseded)
                    } else {
                        v.cells[c]
                    },
                forall|i: int|
                    0 <= i < effects@.len() ==> exists|j: int|
                        #![trigger all[j]]
                        pending@.len() <= j < all.len() && all[j].key@ == effect_id(#[trigger] effects@[i])
                            && effect_matches(effects@[i], all[j].value@),
                forall|j: int|
                    #![trigger all[j]]
                    pending@.len() <= j < all.len() && rescue_choice(all[j].value.role, all[j].value.start_state)
                        != RescueAction::Keep ==> exists|i: int|
                        0 <= i < effects@.len() && effect_id(#[trigger] effects@[i]) == all[j].key@,
            decreases pending.len(),
        {
            let ghost n = pending@.len() - 1;
            let ghost e0 = effects@;
            let ghost c0 = self.cells@;
            assert(pending@[n] == all[n]);
            let item = pending.pop().unwrap();
            assert(item == all[n]);
            assert(pending@ =~= all.take(n));
            let Keyed { key, value } = item;
            proof {
                crate::keyed::lemma_keyed_map_at(all, n);
                assert(entry_fits(m[key@], v.next_generation, v.cells.len()));
                assert forall|j: int| n < j < all.len() implies #[trigger] all[j].key@ != key@ by {
                    assert(all[j].key@ != all[n].key@);
                }
            }
            match rescue_action(value.role, value.start_state) {
                RescueAction::Keep => {
                    assert(cells_after(c0, all[n].value@) == self.cells@);
                    insert_key(&mut kept, key, value);
                },
                RescueAction::Start => {
                    let superseded = value.superseded_projection;
                    match superseded {
                        Some(k) => {
                            let mut c = self.cells[k];
                            let _ = c.settle(ProjectionOutcome::Superseded);
                            proof {
                                lemma_settle_superseded_twice(v.cells[k as int]);
                            }
                            self.cells.set(k, c);
                            assert(self.cells@ == c0.update(k as int, settled_with(c0[k as int], ProjectionOutcome::Superseded)));
                            assert(cells_after(c0, all[n].value@) == self.cells@);
                        },
                        None => {
                            assert(cells_after(c0, all[n].value@) == self.cells@);
                        },
                    }
                    let running = OwnedTask {
                        role: value.role,
                        generation: value.generation,
                        finished: value.finished,
                        relocation_pending: value.relocation_pending,
                        start_state: TaskStartState::Running,
                        starts: Vec::new(),
                        projection: value.projection,
                        superseded_projection: superseded,
                        abort_on_start: None,
                    };
                    let fx = StartEffects { starts: value.starts, abort: value.abort_on_start, superseded };
                    let id = clone_string(&key);
                    insert_key(&mut kept, key, running);
                    effects.push(RescueEffect::Started { id, effects: fx });
                },
                RescueAction::Abort => {
                    assert(cells_after(c0, all[n].value@) == self.cells@);
                    effects.push(RescueEffect::Aborted { id: key, generation: value.generation });
                },
            }
            proof {
                assert(cells_after(c0, all[n].value@) == self.cells@);
                assert forall|c: int| 0 <= c < v.cells.len() implies #[trigger] self.cells@[c] == if superseded_in(
                    all,
                    n,
                    c,
                ) {
                    settled_with(v.cells[c], ProjectionOutcome::Superseded)
                } else {
                    v.cells[c]
                } by {
                    lemma_superseded_in_step(all, n, c);
                    lemma_settle_superseded_twice(v.cells[c]);
                    assert(c0[c] == if superseded_in(all, n + 1, c) {
                        settled_with(v.cells[c], ProjectionOutcome::Superseded)
                    } else {
                        v.cells[c]
                    });
                    assert(self.cells.len() == self.cells@.len());
                    assert((c as usize) as int == c);
                    if rescue_choice(all[n].value.role, all[n].value.start_state) == RescueAction::Start
                        && all[n].value.superseded_projection == Some(c as usize) {
                        assert(self.cells@[c] == settled_with(c0[c], ProjectionOutcome::Superseded));
                    } else {
                        assert(self.cells@[c] == c0[c]);
                    }
                }
                assert forall|j: int|
                    #![trigger all[j]]
                    n <= j < all.len() && rescue_choice(all[j].value.role, all[j].value.start_state)
                        != RescueAction::Keep implies exists|i: int|
                    0 <= i < effects@.len() && effect_id(#[trigger] effects@[i]) == all[j].key@ by {
                    if j == n {
                        assert(effect_id(effects@[e0.len() as int]) == all[j].key@);
                    } else {
                        let i = choose|i: int| 0 <= i < e0.len() && effect_id(#[trigger] e0[i]) == all[j].key@;
                        assert(effects@[i] == e0[i]);
                    }
                }
            }
        }
        proof {
            assert(pending@.len() == 0);
            assert forall|k: Seq<char>| #[trigger] keyed_map(kept@).dom().contains(k) == rescued_entries(m).dom().contains(k) by {
                if rescued_entries(m).dom().contains(k) {
                    crate::keyed::lemma_keyed_map_key(all, k);
                }
            }
            assert forall|k: Seq<char>| #[trigger] rescued_entries(m).dom().contains(k) implies keyed_map(kept@)[k]
                == rescued_entries(m)[k] by {
                crate::keyed::lemma_keyed_map_key(all, k);
            }
            assert(keyed_map(kept@) =~= rescued_entries(m));
            assert forall|c: int| 0 <= c < v.cells.len() implies superseded_in(all, 0, c) == superseded_by_rescue(m, c)
            by {
                if superseded_in(all, 0, c) {
                    let j = choose|j: int|
                        #![trigger all[j]]
                        0 <= j < all.len() && rescue_choice(all[j].value.role, all[j].value.start_state)
                            == RescueAction::Start && all[j].value.superseded_projection == Some(c as usize);
                    crate::keyed::lemma_keyed_map_at(all, j);
                    assert(m[all[j].key@] == all[j].value@);
                }
                if superseded_by_rescue(m, c) {
                    let k = choose|k: Seq<char>|
                        #![trigger m[k]]
                        m.dom().contains(k) && rescue_choice(m[k].role, m[k].start_state) == RescueAction::Start
                            && m[k].superseded_projection == Some(c as usize);
                    crate::keyed::lemma_keyed_map_key(all, k);
                    let i = crate::keyed::index_of_key(all, k);
                    assert(all[i].value@ == m[k]);
                }
            }
            assert(self.cells@ =~= rescued_cells(m, v.cells));
            assert forall|k: Seq<char>|
                #![trigger m[k]]
                m.dom().contains(k) && rescue_choice(m[k].role, m[k].start_state) != RescueAction::Keep implies exists|i: int|
                0 <= i < effects@.len() && effect_id(#[trigger] effects@[i]) == k by {
                crate::keyed::lemma_keyed_map_key(all, k);
                let i = crate::keyed::index_of_key(all, k);
                assert(all[i].value@ == m[k]);
            }
            assert forall|i: int| 0 <= i < effects@.len() implies m.dom().contains(effect_id(#[trigger] effects@[i]))
                && effect_matches(effects@[i], m[effect_id(effects@[i])]) by {
                let j = choose|j: int|
                    #![trigger all[j]]
                    0 <= j < all.len() && all[j].key@ == effect_id(effects@[i]) && effect_matches(
                        effects@[i],
                        all[j].value@,
                    );
                crate::keyed::lemma_keyed_map_at(all, j);
            }
        }
        self.entries = kept;
        proof {
            assert(self@.entries == rescued_entries(v.entries));
            assert forall|k: Seq<char>| #[trigger] self@.entries.dom().contains(k) implies entry_fits(
                self@.entries[k],
                self@.next_generation,
                self@.cells.len(),
            ) by {
                assert(entry_fits(v.entries[k], v.next_generation, v.cells.len()));
            }
        }
        effects
    }
}

} // verus!
