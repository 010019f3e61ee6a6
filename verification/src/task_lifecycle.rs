//! The decisions of the download task owner: what a cancellation, a
//! terminal projection or a rescue does with the task a download already
//! has, and the state of a projection's result cell. Spawning, aborting and
//! waking tasks is left to the runtime that carries these decisions out.

use crate::service::TaskStartState;
use vstd::prelude::*;

verus! {

/// What an installed task is for.
#[derive(Clone, Copy, Debug, PartialEq, Eq, Structural)]
pub enum TaskRole {
    AdmissionTransition,
    RecoveryTransition,
    RelocationTransition,
    Worker,
    CancelFinalizer,
    TerminalProjection,
}

/// How a task ended.
#[derive(Clone, Copy, Debug, PartialEq, Eq, Structural)]
pub enum TaskTerminal {
    Completed,
    Cancelled,
    Panicked,
}

/// The result a terminal projection reports.
#[derive(Clone, Copy, Debug, PartialEq, Eq, Structural)]
pub enum ProjectionOutcome {
    Pending,
    Committed,
    RolledBack,
    Failed,
    Panicked,
    Superseded,
}

/// What was observed of a finished predecessor task; `generation`
/// identifies the task generation.
#[derive(Clone, Copy, Debug, PartialEq, Eq, Structural)]
pub struct TaskObservation {
    pub generation: u64,
    pub role: TaskRole,
    pub terminal: TaskTerminal,
    pub nested_failures: usize,
    pub outer_finished_before_replacement: bool,
}

impl TaskObservation {
    /// Whether the observed task failed: it panicked, or some of its nested
    /// work failed.
    pub fn failed(&self) -> (r: bool)
        ensures
            r == (self.terminal == TaskTerminal::Panicked || self.nested_failures > 0),
    {
        self.terminal == TaskTerminal::Panicked || self.nested_failures > 0
    }
}

/// The result cell of a terminal projection.
#[derive(Clone, Copy, Debug, PartialEq, Eq, Structural)]
pub struct ProjectionCellState {
    pub predecessor_ready: bool,
    pub predecessor: Option<TaskObservation>,
    pub outcome: ProjectionOutcome,
    pub settled: bool,
    pub failed: bool,
    pub failure_projected: bool,
}

pub open spec fn is_failure(o: ProjectionOutcome) -> bool {
    o == ProjectionOutcome::Failed || o == ProjectionOutcome::Panicked
}

/// The cell after an outcome is reported: the first reported outcome
/// stays; a failed or panicked report marks the cell failed either way.
pub open spec fn settled_with(c: ProjectionCellState, o: ProjectionOutcome) -> ProjectionCellState {
    ProjectionCellState {
        outcome: if c.outcome == ProjectionOutcome::Pending {
            o
        } else {
            c.outcome
        },
        failed: c.failed || is_failure(o),
        ..c
    }
}

/// The cell once the projection finished: a `Failed` report marks the cell
/// failed, a failed cell whose projection committed or failed has projected
/// its failure, and the outcome is reported.
pub open spec fn completed_with(c: ProjectionCellState, o: ProjectionOutcome) -> ProjectionCellState {
    let c1 = if o == ProjectionOutcome::Failed {
        ProjectionCellState { failed: true, ..c }
    } else {
        c
    };
    let c2 = if c1.failed && (o == ProjectionOutcome::Committed || o == ProjectionOutcome::Failed) {
        ProjectionCellState { failure_projected: true, ..c1 }
    } else {
        c1
    };
    settled_with(c2, o)
}

/// The cell once the projection panicked: it is failed, its failure is
/// projected when the fallback projection reported `Failed`, and the
/// outcome is `Panicked`.
pub open spec fn panicked_with(c: ProjectionCellState, fallback_failed: bool) -> ProjectionCellState {
    completed_with(
        ProjectionCellState { failed: true, failure_projected: c.failure_projected || fallback_failed, ..c },
        ProjectionOutcome::Panicked,
    )
}

pub open spec fn ready_to_settle(c: ProjectionCellState) -> bool {
    c.outcome != ProjectionOutcome::Pending && (!c.failed || c.failure_projected)
}

pub open spec fn unprojected_failure(c: ProjectionCellState) -> bool {
    c.outcome != ProjectionOutcome::Pending && c.failed && !c.failure_projected
}

impl ProjectionCellState {
    /// A cell with nothing reported yet.
    pub fn new(predecessor_ready: bool) -> (c: Self)
        ensures
            c == (ProjectionCellState {
                predecessor_ready,
                predecessor: None,
                outcome: ProjectionOutcome::Pending,
                settled: false,
                failed: false,
                failure_projected: false,
            }),
    {
        ProjectionCellState {
            predecessor_ready,
            predecessor: None,
            outcome: ProjectionOutcome::Pending,
            settled: false,
            failed: false,
            failure_projected: false,
        }
    }

    /// Record what was observed of the predecessor.
    pub fn record_predecessor(&mut self, observation: TaskObservation)
        ensures
            *final(self) == (ProjectionCellState { predecessor: Some(observation), predecessor_ready: true, ..*old(self) }),
    {
        self.predecessor = Some(observation);
        self.predecessor_ready = true;
    }

    /// The predecessor observation once it is ready (`Some`), else `None`.
    pub fn predecessor_if_ready(&self) -> (r: Option<Option<TaskObservation>>)
        ensures
            r == (if self.predecessor_ready {
                Some(self.predecessor)
            } else {
                None
            }),
    {
        if self.predecessor_ready {
            Some(self.predecessor)
        } else {
            None
        }
    }

    /// Report an outcome; true when it became the cell's outcome (waiters
    /// are then to be woken).
    pub fn settle(&mut self, outcome: ProjectionOutcome) -> (changed: bool)
        ensures
            changed == (old(self).outcome == ProjectionOutcome::Pending),
            *final(self) == settled_with(*old(self), outcome),
    {
        let failure = matches!(outcome, ProjectionOutcome::Failed | ProjectionOutcome::Panicked);
        if failure {
            self.failed = true;
        }
        if self.outcome != ProjectionOutcome::Pending {
            return false;
        }
        self.outcome = outcome;
        true
    }

    pub fn mark_settled(&mut self)
        ensures
            *final(self) == (ProjectionCellState { settled: true, ..*old(self) }),
    {
        self.settled = true;
    }

    pub fn mark_failed(&mut self)
        ensures
            *final(self) == (ProjectionCellState { failed: true, ..*old(self) }),
    {
        self.failed = true;
    }

    /// Record that the failure was projected; the runtime does the same for
    /// every inherited cell and marks those settled.
    pub fn acknowledge_failure_projection(&mut self)
        ensures
            *final(self) == (ProjectionCellState { failure_projected: true, ..*old(self) }),
    {
        self.failure_projected = true;
    }

    /// Carry a finished projection's report into the cell.
    pub fn complete(&mut self, outcome: ProjectionOutcome)
        ensures
            *final(self) == completed_with(*old(self), outcome),
    {
        if outcome == ProjectionOutcome::Failed {
            self.mark_failed();
        }
        if self.failed && (outcome == ProjectionOutcome::Committed || outcome == ProjectionOutcome::Failed) {
            self.acknowledge_failure_projection();
        }
        let _ = self.settle(outcome);
    }

    /// Carry a panicked projection into the cell; `fallback_failed` says the
    /// fallback projection reported `Failed`.
    pub fn complete_after_panic(&mut self, fallback_failed: bool)
        ensures
            *final(self) == panicked_with(*old(self), fallback_failed),
    {
        self.mark_failed();
        if fallback_failed {
            self.acknowledge_failure_projection();
        }
        self.complete(ProjectionOutcome::Panicked);
    }

    pub fn is_ready_to_settle(&self) -> (r: bool)
        ensures
            r == ready_to_settle(*self),
    {
        self.outcome != ProjectionOutcome::Pending && (!self.failed || self.failure_projected)
    }

    pub fn has_unprojected_failure(&self) -> (r: bool)
        ensures
            r == unprojected_failure(*self),
    {
        self.outcome != ProjectionOutcome::Pending && self.failed && !self.failure_projected
    }
}

/// What the owner knows of a download's installed task.
#[derive(Clone, Copy, Debug, PartialEq, Eq, Structural)]
pub struct TaskEntrySnapshot {
    pub role: TaskRole,
    pub generation: u64,
    /// The task and all its nested tasks have finished.
    pub finished: bool,
    /// A relocation's completion signal has not fired yet.
    pub relocation_pending: bool,
    pub start_state: TaskStartState,
}

/// What a cancellation does with the download's current task.
#[derive(Clone, Copy, Debug, PartialEq, Eq, Structural)]
pub enum CancelDecision {
    /// A relocation is in progress: wait for it.
    Relocating,
    /// A cancel finalizer is already running.
    AlreadyRunning,
    /// Hand back the unstarted cancel finalizer.
    Existing,
    /// Install a new cancel finalizer that observes the predecessor; the
    /// predecessor is aborted when it starts unless it is a relocation.
    Replace { abort_predecessor: bool },
}

pub open spec fn cancel_choice(current: Option<TaskEntrySnapshot>) -> CancelDecision {
    match current {
        None => CancelDecision::Replace { abort_predecessor: false },
        Some(e) => if e.role == TaskRole::RelocationTransition && e.relocation_pending {
            CancelDecision::Relocating
        } else if e.role == TaskRole::CancelFinalizer && !e.finished {
            if e.start_state == TaskStartState::Running {
                CancelDecision::AlreadyRunning
            } else {
                CancelDecision::Existing
            }
        } else {
            CancelDecision::Replace { abort_predecessor: e.role != TaskRole::RelocationTransition }
        },
    }
}

pub fn cancel_decision(current: &Option<TaskEntrySnapshot>) -> (d: CancelDecision)
    ensures
        d == cancel_choice(*current),
{
    match current {
        None => CancelDecision::Replace { abort_predecessor: false },
        Some(e) => {
            if e.role == TaskRole::RelocationTransition && e.relocation_pending {
                CancelDecision::Relocating
            } else if e.role == TaskRole::CancelFinalizer && !e.finished {
                if e.start_state == TaskStartState::Running {
                    CancelDecision::AlreadyRunning
                } else {
                    CancelDecision::Existing
                }
            } else {
                CancelDecision::Replace { abort_predecessor: e.role != TaskRole::RelocationTransition }
            }
        },
    }
}

/// What a request for the terminal projection does.
#[derive(Clone, Copy, Debug, PartialEq, Eq, Structural)]
pub enum ProjectionDecision {
    /// No task, or the task has not finished.
    NotReady,
    /// The projection is already installed.
    Existing,
    /// Install the projection after the finished task.
    Replace,
}

pub open spec fn projection_choice(current: Option<TaskEntrySnapshot>) -> ProjectionDecision {
    match current {
        None => ProjectionDecision::NotReady,
        Some(e) => if e.role == TaskRole::TerminalProjection {
            ProjectionDecision::Existing
        } else if !e.finished {
            ProjectionDecision::NotReady
        } else {
            ProjectionDecision::Replace
        },
    }
}

pub fn projection_decision(current: &Option<TaskEntrySnapshot>) -> (d: ProjectionDecision)
    ensures
        d == projection_choice(*current),
{
    match current {
        None => ProjectionDecision::NotReady,
        Some(e) => {
            if e.role == TaskRole::TerminalProjection {
                ProjectionDecision::Existing
            } else if !e.finished {
                ProjectionDecision::NotReady
            } else {
                ProjectionDecision::Replace
            }
        },
    }
}

/// Whether a new projection starts failed: when the request says so or the
/// inherited cell failed.
pub fn projection_starts_failed(inherited_failed: Option<bool>, inherit_failure: bool) -> (r: bool)
    ensures
        r == (inherit_failure || inherited_failed == Some(true)),
{
    inherit_failure || match inherited_failed {
        Some(f) => f,
        None => false,
    }
}

/// What a rescue does with one task.
#[derive(Clone, Copy, Debug, PartialEq, Eq, Structural)]
pub enum RescueAction {
    /// The task was not abandoned.
    Keep,
    /// Start it: it holds the custody its predecessors need.
    Start,
    /// Abort and remove it without claiming that it ran.
    Abort,
}

pub open spec fn rescue_choice(role: TaskRole, state: TaskStartState) -> RescueAction {
    if state != TaskStartState::Abandoned {
        RescueAction::Keep
    } else if role == TaskRole::TerminalProjection || role == TaskRole::CancelFinalizer {
        RescueAction::Start
    } else {
        RescueAction::Abort
    }
}

pub fn rescue_action(role: TaskRole, state: TaskStartState) -> (a: RescueAction)
    ensures
        a == rescue_choice(role, state),
{
    if state != TaskStartState::Abandoned {
        RescueAction::Keep
    } else if role == TaskRole::TerminalProjection || role == TaskRole::CancelFinalizer {
        RescueAction::Start
    } else {
        RescueAction::Abort
    }
}

/// How settling a projection ticket ended.
#[derive(Clone, Copy, Debug, PartialEq, Eq, Structural)]
pub enum ProjectionSettlement {
    Pending,
    FailureUnprojected,
    /// Settled now: mark the cell settled and remove the task.
    Settled,
    AlreadySettled,
    StaleGeneration,
    Missing,
}

pub open spec fn settlement_of(
    current: Option<TaskEntrySnapshot>,
    ticket_generation: u64,
    cell: ProjectionCellState,
) -> ProjectionSettlement {
    match current {
        None => if cell.settled {
            ProjectionSettlement::AlreadySettled
        } else {
            ProjectionSettlement::Missing
        },
        Some(e) => if e.role != TaskRole::TerminalProjection || e.generation != ticket_generation {
            ProjectionSettlement::StaleGeneration
        } else if unprojected_failure(cell) {
            ProjectionSettlement::FailureUnprojected
        } else if !ready_to_settle(cell) || !e.finished {
            ProjectionSettlement::Pending
        } else {
            ProjectionSettlement::Settled
        },
    }
}

pub fn projection_settlement(
    current: &Option<TaskEntrySnapshot>,
    ticket_generation: u64,
    cell: &ProjectionCellState,
) -> (s: ProjectionSettlement)
    ensures
        s == settlement_of(*current, ticket_generation, *cell),
{
    match current {
        None => if cell.settled {
            ProjectionSettlement::AlreadySettled
        } else {
            ProjectionSettlement::Missing
        },
        Some(e) => {
            if e.role != TaskRole::TerminalProjection || e.generation != ticket_generation {
                ProjectionSettlement::StaleGeneration
            } else if cell.has_unprojected_failure() {
                ProjectionSettlement::FailureUnprojected
            } else if !cell.is_ready_to_settle() || !e.finished {
                ProjectionSettlement::Pending
            } else {
                ProjectionSettlement::Settled
            }
        },
    }
}

/// The first reported outcome of a projection stays its outcome, and a
/// failure, once recorded, is never cleared by later reports.
pub proof fn law_first_projection_outcome_stays(c: ProjectionCellState, first: ProjectionOutcome, later: ProjectionOutcome)
    requires
        first != ProjectionOutcome::Pending,
    ensures
        settled_with(settled_with(c, first), later).outcome == settled_with(c, first).outcome,
        c.outcome == ProjectionOutcome::Pending ==> settled_with(c, first).outcome == first,
        c.failed ==> settled_with(c, later).failed && completed_with(c, later).failed,
{
}

/// A failed projection cell can settle only after its failure was
/// projected: a committed or failed projection projects it, and a projection
/// that rolled back leaves it unprojected.
pub proof fn law_failure_must_be_projected_before_settlement(c: ProjectionCellState)
    requires
        c.failed,
        !c.failure_projected,
        c.outcome == ProjectionOutcome::Pending,
    ensures
        ready_to_settle(completed_with(c, ProjectionOutcome::Committed)),
        ready_to_settle(completed_with(c, ProjectionOutcome::Failed)),
        unprojected_failure(completed_with(c, ProjectionOutcome::RolledBack)),
        !ready_to_settle(completed_with(c, ProjectionOutcome::RolledBack)),
        ready_to_settle(panicked_with(c, true)) && !ready_to_settle(panicked_with(c, false)),
{
}

/// A download keeps one cancel finalizer: while its finalizer has not
/// finished, a repeated cancellation hands back that finalizer (or finds it
/// running) and never installs another.
pub proof fn law_repeated_cancel_keeps_one_finalizer(e: TaskEntrySnapshot)
    requires
        e.role == TaskRole::CancelFinalizer,
        !e.finished,
    ensures
        cancel_choice(Some(e)) == CancelDecision::Existing || cancel_choice(Some(e)) == CancelDecision::AlreadyRunning,
        e.start_state == TaskStartState::Running <==> cancel_choice(Some(e)) == CancelDecision::AlreadyRunning,
{
}

/// A ticket of an older generation settles nothing: whatever now holds the
/// download, settling a stale ticket neither settles nor removes it.
pub proof fn law_stale_ticket_settles_nothing(e: TaskEntrySnapshot, ticket_generation: u64, cell: ProjectionCellState)
    requires
        e.generation != ticket_generation,
    ensures
        settlement_of(Some(e), ticket_generation, cell) == ProjectionSettlement::StaleGeneration,
{
}

} // verus!
