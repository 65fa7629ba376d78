use sprite_anim::gate::{combine_statuses, AssetLoadGate, LoadPhase, LoadStatus};

#[test]
fn empty_batch_is_ready() {
    assert_eq!(combine_statuses(&vec![]), LoadPhase::Ready);
}

#[test]
fn all_loaded_is_ready() {
    let s = vec![LoadStatus::Loaded, LoadStatus::Loaded];
    assert_eq!(combine_statuses(&s), LoadPhase::Ready);
}

#[test]
fn one_pending_is_loading() {
    let s = vec![LoadStatus::Loaded, LoadStatus::Loading, LoadStatus::Loaded];
    assert_eq!(combine_statuses(&s), LoadPhase::Loading);
}

#[test]
fn one_failure_fails_regardless_of_others() {
    let s = vec![LoadStatus::Loading, LoadStatus::Failed, LoadStatus::Loaded];
    assert_eq!(combine_statuses(&s), LoadPhase::Failed);
    let s = vec![LoadStatus::Loaded, LoadStatus::Loaded, LoadStatus::Failed];
    assert_eq!(combine_statuses(&s), LoadPhase::Failed);
}

#[test]
fn gate_becomes_ready_once() {
    let mut g = AssetLoadGate::new(vec![10, 11]);
    assert_eq!(g.phase(), LoadPhase::Loading);
    assert_eq!(g.poll(&vec![LoadStatus::Loaded, LoadStatus::Loading]), LoadPhase::Loading);
    assert!(!g.is_ready());
    assert_eq!(g.poll(&vec![LoadStatus::Loaded, LoadStatus::Loaded]), LoadPhase::Ready);
    assert!(g.is_ready());
    assert_eq!(g.poll(&vec![LoadStatus::Failed, LoadStatus::Loading]), LoadPhase::Ready);
    assert_eq!(g.handles, vec![10, 11]);
}

#[test]
fn gate_failure_is_final() {
    let mut g = AssetLoadGate::new(vec![1, 2]);
    assert_eq!(g.poll(&vec![LoadStatus::Failed, LoadStatus::Loaded]), LoadPhase::Failed);
    assert_eq!(g.poll(&vec![LoadStatus::Loaded, LoadStatus::Loaded]), LoadPhase::Failed);
    assert!(!g.is_ready());
}
