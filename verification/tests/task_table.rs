//! The task owner's table: replacement, start gates, projections and rescue.

use pumas_core::service::TaskStartState;
use pumas_core::task_lifecycle::{ProjectionOutcome, ProjectionSettlement, TaskRole};
use pumas_core::task_table::{CancelTransition, ProjectionTransition, RescueEffect, TaskTable};

fn id(s: &str) -> String {
    s.to_string()
}

fn started(t: CancelTransition) -> (u64, Option<u64>) {
    match t {
        CancelTransition::Started { generation, predecessor } => (generation, predecessor),
        _ => panic!("expected a new cancel finalizer"),
    }
}

#[test]
fn table_refuses_a_second_install_for_one_download() {
    let mut t = TaskTable::new();
    assert_eq!(t.install(id("a"), TaskRole::Worker), Some(0));
    assert_eq!(t.install(id("a"), TaskRole::Worker), None);
    let s = t.snapshot(&id("a")).unwrap();
    assert_eq!(s.generation, 0);
    assert_eq!(s.role, TaskRole::Worker);
    assert_eq!(s.start_state, TaskStartState::Gated);
    assert!(t.snapshot(&id("b")).is_none());
}

#[test]
fn table_cancel_replacement_carries_gates_and_aborts_the_worker() {
    let mut t = TaskTable::new();
    let worker = t.install(id("a"), TaskRole::Worker).unwrap();
    let (finalizer, predecessor) = started(t.begin_cancel(&id("a")));
    assert_eq!(finalizer, 1);
    assert_eq!(predecessor, Some(worker));
    assert!(matches!(t.begin_cancel(&id("a")), CancelTransition::Existing { generation } if generation == finalizer));
    assert!(t.start(&id("a"), worker).is_none());
    let fx = t.start(&id("a"), finalizer).unwrap();
    assert_eq!(fx.starts, vec![worker, finalizer]);
    assert_eq!(fx.abort, Some(worker));
    assert_eq!(fx.superseded, None);
    assert!(matches!(t.begin_cancel(&id("a")), CancelTransition::AlreadyRunning));
    assert!(t.mark_finished(&id("a"), finalizer));
    let (next, previous) = started(t.begin_cancel(&id("a")));
    assert_eq!(previous, Some(finalizer));
    let fx = t.start(&id("a"), next).unwrap();
    assert_eq!(fx.starts, vec![next]);
}

#[test]
fn table_relocation_is_not_aborted_by_its_finalizer() {
    let mut t = TaskTable::new();
    let relocation = t.install(id("r"), TaskRole::RelocationTransition).unwrap();
    let (finalizer, predecessor) = started(t.begin_cancel(&id("r")));
    assert_eq!(predecessor, Some(relocation));
    let fx = t.start(&id("r"), finalizer).unwrap();
    assert_eq!(fx.abort, None);
    assert_eq!(fx.starts, vec![relocation, finalizer]);
}

#[test]
fn table_starting_a_finalizer_settles_the_superseded_projection() {
    let mut t = TaskTable::new();
    let worker = t.install(id("a"), TaskRole::Worker).unwrap();
    assert!(matches!(t.begin_finished_projection(&id("a"), false), ProjectionTransition::NotReady));
    assert!(t.mark_finished(&id("a"), worker));
    let (projection, cell) = match t.begin_finished_projection(&id("a"), false) {
        ProjectionTransition::Started { generation, cell, predecessor } => {
            assert_eq!(predecessor, worker);
            (generation, cell)
        }
        _ => panic!("expected a new projection"),
    };
    assert_eq!(t.cell(cell).outcome, ProjectionOutcome::Pending);
    assert!(!t.cell(cell).failed);
    assert!(matches!(
        t.begin_finished_projection(&id("a"), false),
        ProjectionTransition::Existing { generation, cell: c } if generation == projection && c == cell
    ));
    let (finalizer, _) = started(t.begin_cancel(&id("a")));
    let fx = t.start(&id("a"), finalizer).unwrap();
    assert_eq!(fx.superseded, Some(cell));
    assert_eq!(fx.starts, vec![projection, projection, finalizer]);
    assert_eq!(fx.abort, Some(projection));
    assert_eq!(t.cell(cell).outcome, ProjectionOutcome::Superseded);
    assert_eq!(t.settle_projection(&id("a"), projection, cell), ProjectionSettlement::StaleGeneration);
}

#[test]
fn table_projection_inherits_a_failed_superseded_cell() {
    let mut t = TaskTable::new();
    let worker = t.install(id("a"), TaskRole::Worker).unwrap();
    t.mark_finished(&id("a"), worker);
    let (first, cell) = match t.begin_finished_projection(&id("a"), true) {
        ProjectionTransition::Started { generation, cell, .. } => (generation, cell),
        _ => panic!("expected a new projection"),
    };
    assert!(t.cell(cell).failed);
    let (finalizer, _) = started(t.begin_cancel(&id("a")));
    assert!(first < finalizer);
    assert!(t.mark_finished(&id("a"), finalizer));
    let inherited = match t.begin_finished_projection(&id("a"), false) {
        ProjectionTransition::Started { cell, .. } => cell,
        _ => panic!("expected a new projection"),
    };
    assert_ne!(inherited, cell);
    assert!(t.cell(inherited).failed);
}

#[test]
fn table_projection_settles_once_finished_and_reported() {
    let mut t = TaskTable::new();
    let worker = t.install(id("a"), TaskRole::Worker).unwrap();
    t.mark_finished(&id("a"), worker);
    let (projection, cell) = match t.begin_finished_projection(&id("a"), false) {
        ProjectionTransition::Started { generation, cell, .. } => (generation, cell),
        _ => panic!("expected a new projection"),
    };
    let fx = t.start(&id("a"), projection).unwrap();
    assert_eq!(fx.starts, vec![projection, projection]);
    assert_eq!(t.settle_projection(&id("a"), projection, cell), ProjectionSettlement::Pending);
    t.complete_projection(cell, ProjectionOutcome::Committed);
    assert_eq!(t.settle_projection(&id("a"), projection, cell), ProjectionSettlement::Pending);
    assert!(t.mark_finished(&id("a"), projection));
    assert_eq!(t.settle_projection(&id("a"), projection, cell), ProjectionSettlement::Settled);
    assert!(t.snapshot(&id("a")).is_none());
    assert!(t.cell(cell).settled);
    assert_eq!(t.settle_projection(&id("a"), projection, cell), ProjectionSettlement::AlreadySettled);
}

#[test]
fn table_rolled_back_failed_projection_is_not_settled() {
    let mut t = TaskTable::new();
    let worker = t.install(id("a"), TaskRole::Worker).unwrap();
    t.mark_finished(&id("a"), worker);
    let (projection, cell) = match t.begin_finished_projection(&id("a"), true) {
        ProjectionTransition::Started { generation, cell, .. } => (generation, cell),
        _ => panic!("expected a new projection"),
    };
    t.start(&id("a"), projection).unwrap();
    t.complete_projection(cell, ProjectionOutcome::RolledBack);
    t.mark_finished(&id("a"), projection);
    assert_eq!(t.settle_projection(&id("a"), projection, cell), ProjectionSettlement::FailureUnprojected);
    assert!(t.snapshot(&id("a")).is_some());
}

#[test]
fn table_rescue_starts_custody_holders_and_aborts_workers() {
    let mut t = TaskTable::new();
    let worker = t.install(id("w"), TaskRole::Worker).unwrap();
    let (finalizer, _) = started(t.begin_cancel(&id("f")));
    let running = t.install(id("r"), TaskRole::Worker).unwrap();
    t.start(&id("r"), running).unwrap();
    assert!(t.abandon(&id("w"), worker));
    assert!(t.abandon(&id("f"), finalizer));
    assert!(!t.abandon(&id("r"), running));
    let effects = t.rescue_abandoned();
    assert_eq!(effects.len(), 2);
    let mut started_ids = Vec::new();
    let mut aborted = Vec::new();
    for effect in &effects {
        match effect {
            RescueEffect::Started { id, effects } => {
                assert_eq!(effects.starts, vec![finalizer]);
                started_ids.push(id.clone());
            }
            RescueEffect::Aborted { id, generation } => {
                assert_eq!(*generation, worker);
                aborted.push(id.clone());
            }
        }
    }
    assert_eq!(started_ids, vec![id("f")]);
    assert_eq!(aborted, vec![id("w")]);
    assert!(t.snapshot(&id("w")).is_none());
    assert_eq!(t.snapshot(&id("f")).unwrap().start_state, TaskStartState::Running);
    assert_eq!(t.snapshot(&id("r")).unwrap().start_state, TaskStartState::Running);
    assert!(t.rescue_abandoned().is_empty());
}
