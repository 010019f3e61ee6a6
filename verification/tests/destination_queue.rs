use pumas_core::destination_queue::{DestinationDomain, DestinationExecutionOwner, Turn};
use pumas_core::recovery_ticket::{DestinationIdentity, FilesystemIdentity};

fn dest(relative: &str) -> DestinationIdentity {
    DestinationIdentity { root: FilesystemIdentity { volume: 7, file: 11 }, relative: relative.to_string() }
}

const AMBIENT: DestinationDomain = DestinationDomain::Ambient;
const RECOVERY: DestinationDomain = DestinationDomain::Recovery;

#[test]
fn destination_reservations_follow_admission_order() {
    let mut owner = DestinationExecutionOwner::new();
    let d = dest("llm/a");
    assert!(owner.reserve(&d, "first".into(), AMBIENT, 1));
    assert!(owner.reserve(&d, "second".into(), RECOVERY, 2));
    assert_eq!(owner.turn(&d, "second", RECOVERY, 2), Turn::Wait);
    assert_eq!(owner.turn(&d, "first", AMBIENT, 1), Turn::Ready);
    assert_eq!(owner.turn(&d, "first", AMBIENT, 9), Turn::Lost);
    assert_eq!(owner.turn(&d, "first", RECOVERY, 1), Turn::Lost);
    assert_eq!(owner.turn(&dest("llm/b"), "first", AMBIENT, 1), Turn::Lost);
    let release = owner.release(&d, "first", AMBIENT, 1).unwrap();
    assert_eq!(release.wake.as_deref(), Some("second"));
    assert_eq!(owner.turn(&d, "second", RECOVERY, 2), Turn::Ready);
    assert_eq!(owner.claim_count(&d), 1);
    assert!(owner.release(&d, "first", AMBIENT, 1).is_none());
}

#[test]
fn repeated_reservation_transfers_the_position_to_the_successor_generation() {
    let mut owner = DestinationExecutionOwner::new();
    let d = dest("llm/a");
    assert!(owner.reserve(&d, "first".into(), AMBIENT, 1));
    assert!(owner.reserve(&d, "second".into(), AMBIENT, 2));
    assert!(owner.reserve(&d, "second".into(), AMBIENT, 3));
    assert!(!owner.contains(&d, "second", AMBIENT, 2));
    assert!(owner.contains(&d, "second", AMBIENT, 3));
    assert!(!owner.reserve(&d, "second".into(), RECOVERY, 4));
    assert_eq!(owner.claim_count(&d), 2);
    let release = owner.release(&d, "second", AMBIENT, 3).unwrap();
    assert!(release.wake.is_none());
}

#[test]
fn released_destination_claim_cannot_be_resurrected() {
    let mut owner = DestinationExecutionOwner::new();
    let d = dest("llm/a");
    assert!(owner.reserve(&d, "x".into(), AMBIENT, 1));
    assert!(owner.release(&d, "x", AMBIENT, 1).is_some());
    assert!(!owner.reserve(&d, "x".into(), AMBIENT, 2));
    assert!(!owner.reserve_dormant(&d, "x".into(), AMBIENT));
    assert!(owner.reserve(&d, "x".into(), RECOVERY, 2));
    assert_eq!(owner.claim_count(&d), 1);
}

#[test]
fn dormant_claim_blocks_then_promotes_in_place() {
    let mut owner = DestinationExecutionOwner::new();
    let d = dest("llm/a");
    assert!(owner.reserve_dormant(&d, "dormant".into(), AMBIENT));
    assert!(owner.reserve(&d, "live".into(), AMBIENT, 5));
    assert_eq!(owner.turn(&d, "dormant", AMBIENT, 1), Turn::Lost);
    assert_eq!(owner.turn(&d, "live", AMBIENT, 5), Turn::Wait);
    assert!(owner.reserve_dormant(&d, "dormant".into(), AMBIENT));
    assert!(!owner.reserve_dormant(&d, "dormant".into(), RECOVERY));
    assert!(!owner.promote_domain(&d, "dormant", RECOVERY, AMBIENT, 6));
    assert!(owner.promote_domain(&d, "dormant", AMBIENT, RECOVERY, 6));
    assert_eq!(owner.turn(&d, "dormant", RECOVERY, 6), Turn::Ready);
    assert!(!owner.promote_domain(&d, "missing", AMBIENT, RECOVERY, 6));
}

#[test]
fn relocation_holds_both_names() {
    let mut owner = DestinationExecutionOwner::new();
    let source = dest("llm/old");
    let target = dest("llm/new");
    assert!(!owner.reserve_relocation(&source, &source, "m".into(), 1));
    assert!(owner.reserve_relocation(&source, &target, "m".into(), 1));
    assert_eq!(owner.turn(&source, "m", AMBIENT, 1), Turn::Ready);
    assert_eq!(owner.turn(&target, "m", AMBIENT, 1), Turn::Ready);
    assert!(!owner.reserve_relocation(&dest("llm/other"), &target, "n".into(), 2));
    let mut blocked = DestinationExecutionOwner::new();
    assert!(blocked.reserve(&source, "foreign".into(), AMBIENT, 3));
    assert!(!blocked.reserve_relocation(&source, &target, "m".into(), 4));
    assert_eq!(blocked.claim_count(&target), 0);
    let mut recovered = DestinationExecutionOwner::new();
    assert!(recovered.reserve(&target, "m".into(), AMBIENT, 1));
    assert!(recovered.release(&target, "m", AMBIENT, 1).is_some());
    assert!(recovered.reserve_relocation(&source, &target, "m".into(), 2));
    assert!(recovered.contains(&target, "m", AMBIENT, 2));
}

#[test]
fn released_destination_claim_cannot_be_resurrected_from_stale_inventory() {
    let mut owner = DestinationExecutionOwner::new();
    let path = dest("model");
    let first = 1;
    let second = 2;
    assert!(owner.reserve(&path, "first".into(), AMBIENT, first));
    assert!(owner.release(&path, "first", AMBIENT, first).is_some());
    assert!(!owner.reserve_dormant(&path, "first".into(), AMBIENT));
    assert!(!owner.reserve(&path, "first".into(), AMBIENT, second));
    assert_eq!(owner.claim_count(&path), 0);
}

#[test]
fn destination_domain_changes_only_through_explicit_promotion() {
    let mut owner = DestinationExecutionOwner::new();
    let path = dest("model");
    let transition = 5;
    assert!(owner.reserve_dormant(&path, "download".to_string(), AMBIENT));
    assert!(!owner.reserve(&path, "download".to_string(), RECOVERY, transition));
    assert!(owner.reserve(&path, "download".to_string(), AMBIENT, transition));
    assert!(owner.promote_domain(&path, "download", AMBIENT, RECOVERY, transition));
    assert!(owner.contains(&path, "download", RECOVERY, transition));
}
