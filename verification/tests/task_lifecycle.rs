use pumas_core::service::TaskStartState;
use pumas_core::task_lifecycle::{
    cancel_decision, projection_decision, projection_settlement, projection_starts_failed, rescue_action,
    CancelDecision, ProjectionCellState, ProjectionDecision, ProjectionOutcome, ProjectionSettlement,
    RescueAction, TaskEntrySnapshot, TaskObservation, TaskRole, TaskTerminal,
};

fn entry(role: TaskRole, finished: bool, start_state: TaskStartState) -> Option<TaskEntrySnapshot> {
    Some(TaskEntrySnapshot { role, generation: 7, finished, relocation_pending: false, start_state })
}

#[test]
fn cancellation_waits_for_relocation_and_reuses_unstarted_finalizers() {
    let mut relocating = entry(TaskRole::RelocationTransition, false, TaskStartState::Running).unwrap();
    relocating.relocation_pending = true;
    assert_eq!(cancel_decision(&Some(relocating)), CancelDecision::Relocating);
    relocating.relocation_pending = false;
    assert_eq!(cancel_decision(&Some(relocating)), CancelDecision::Replace { abort_predecessor: false });
    assert_eq!(
        cancel_decision(&entry(TaskRole::CancelFinalizer, false, TaskStartState::Running)),
        CancelDecision::AlreadyRunning
    );
    assert_eq!(
        cancel_decision(&entry(TaskRole::CancelFinalizer, false, TaskStartState::Gated)),
        CancelDecision::Existing
    );
    assert_eq!(
        cancel_decision(&entry(TaskRole::CancelFinalizer, true, TaskStartState::Running)),
        CancelDecision::Replace { abort_predecessor: true }
    );
    assert_eq!(
        cancel_decision(&entry(TaskRole::Worker, false, TaskStartState::Running)),
        CancelDecision::Replace { abort_predecessor: true }
    );
    assert_eq!(cancel_decision(&None), CancelDecision::Replace { abort_predecessor: false });
}

#[test]
fn terminal_projection_follows_only_a_finished_task() {
    assert_eq!(projection_decision(&None), ProjectionDecision::NotReady);
    assert_eq!(
        projection_decision(&entry(TaskRole::Worker, false, TaskStartState::Running)),
        ProjectionDecision::NotReady
    );
    assert_eq!(
        projection_decision(&entry(TaskRole::Worker, true, TaskStartState::Running)),
        ProjectionDecision::Replace
    );
    assert_eq!(
        projection_decision(&entry(TaskRole::TerminalProjection, false, TaskStartState::Gated)),
        ProjectionDecision::Existing
    );
    assert!(projection_starts_failed(Some(true), false));
    assert!(projection_starts_failed(None, true));
    assert!(!projection_starts_failed(Some(false), false));
}

#[test]
fn abandoned_projectors_and_finalizers_start_and_workers_abort() {
    assert_eq!(rescue_action(TaskRole::TerminalProjection, TaskStartState::Abandoned), RescueAction::Start);
    assert_eq!(rescue_action(TaskRole::CancelFinalizer, TaskStartState::Abandoned), RescueAction::Start);
    assert_eq!(rescue_action(TaskRole::Worker, TaskStartState::Abandoned), RescueAction::Abort);
    assert_eq!(rescue_action(TaskRole::Worker, TaskStartState::Gated), RescueAction::Keep);
}

#[test]
fn projection_settlement_distinguishes_duplicate_stale_and_missing() {
    let mut cell = ProjectionCellState::new(false);
    let projection = entry(TaskRole::TerminalProjection, true, TaskStartState::Running);
    assert_eq!(projection_settlement(&projection, 7, &cell), ProjectionSettlement::Pending);
    assert!(cell.settle(ProjectionOutcome::Committed));
    assert_eq!(projection_settlement(&projection, 8, &cell), ProjectionSettlement::StaleGeneration);
    assert_eq!(
        projection_settlement(&entry(TaskRole::Worker, true, TaskStartState::Running), 7, &cell),
        ProjectionSettlement::StaleGeneration
    );
    assert_eq!(projection_settlement(&projection, 7, &cell), ProjectionSettlement::Settled);
    assert_eq!(projection_settlement(&None, 7, &cell), ProjectionSettlement::Missing);
    cell.mark_settled();
    assert_eq!(projection_settlement(&None, 7, &cell), ProjectionSettlement::AlreadySettled);
    let unfinished = entry(TaskRole::TerminalProjection, false, TaskStartState::Running);
    assert_eq!(projection_settlement(&unfinished, 7, &cell), ProjectionSettlement::Pending);
}

#[test]
fn failed_projection_must_project_its_failure() {
    let mut cell = ProjectionCellState::new(true);
    cell.mark_failed();
    cell.complete(ProjectionOutcome::RolledBack);
    assert!(cell.has_unprojected_failure());
    assert!(!cell.is_ready_to_settle());
    let projection = entry(TaskRole::TerminalProjection, true, TaskStartState::Running);
    assert_eq!(projection_settlement(&projection, 7, &cell), ProjectionSettlement::FailureUnprojected);

    let mut committed = ProjectionCellState::new(true);
    committed.mark_failed();
    committed.complete(ProjectionOutcome::Committed);
    assert!(committed.is_ready_to_settle());
    assert_eq!(committed.outcome, ProjectionOutcome::Committed);

    let mut panicked = ProjectionCellState::new(true);
    panicked.complete_after_panic(false);
    assert_eq!(panicked.outcome, ProjectionOutcome::Panicked);
    assert!(panicked.has_unprojected_failure());
    let mut fallback = ProjectionCellState::new(true);
    fallback.complete_after_panic(true);
    assert!(fallback.is_ready_to_settle());
}

#[test]
fn first_outcome_stays_and_failure_sticks() {
    let mut cell = ProjectionCellState::new(false);
    assert!(cell.settle(ProjectionOutcome::Superseded));
    assert!(!cell.settle(ProjectionOutcome::Failed));
    assert_eq!(cell.outcome, ProjectionOutcome::Superseded);
    assert!(cell.failed);
    assert_eq!(cell.predecessor_if_ready(), None);
    let observation = TaskObservation {
        generation: 3,
        role: TaskRole::Worker,
        terminal: TaskTerminal::Completed,
        nested_failures: 0,
        outer_finished_before_replacement: true,
    };
    cell.record_predecessor(observation);
    assert_eq!(cell.predecessor_if_ready(), Some(Some(observation)));
}

#[test]
fn an_observation_fails_on_panic_or_nested_failure() {
    let ok = TaskObservation {
        generation: 1,
        role: TaskRole::Worker,
        terminal: TaskTerminal::Completed,
        nested_failures: 0,
        outer_finished_before_replacement: false,
    };
    assert!(!ok.failed());
    assert!(TaskObservation { nested_failures: 2, ..ok }.failed());
    assert!(TaskObservation { terminal: TaskTerminal::Panicked, ..ok }.failed());
    assert!(!TaskObservation { terminal: TaskTerminal::Cancelled, ..ok }.failed());
}
