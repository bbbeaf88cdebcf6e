use diem_core::reconfiguration::{
    check_epoch, EpochMismatch, ReconfigurationAction, ReconfigurationParams,
    ReconfigurationStep, MAGIC_DIEM_VERSION,
};
use diem_core::trusted_peers::PeerId;

fn experiment(count: u64) -> diem_core::reconfiguration::Reconfiguration {
    ReconfigurationParams { count, emit_txn: false }.build(PeerId(7), "val-1".to_string())
}

fn step(action: Option<ReconfigurationAction>, expected_epoch: u64) -> ReconfigurationStep {
    ReconfigurationStep { action, expected_epoch }
}

#[test]
fn test_plan_for_five_epochs() {
    assert_eq!(
        experiment(5).plan(),
        vec![
            step(None, 1),
            step(Some(ReconfigurationAction::RemoveValidator), 2),
            step(Some(ReconfigurationAction::AddValidator), 3),
            step(Some(ReconfigurationAction::EnableTwoChain), 4),
            step(Some(ReconfigurationAction::EnableThreeChain), 5),
            step(Some(ReconfigurationAction::UpdateDiemVersion(MAGIC_DIEM_VERSION)), 6),
        ]
    );
}

#[test]
fn test_plan_walks_epochs_in_turn() {
    for count in 2..40u64 {
        let plan = experiment(count).plan();
        assert_eq!(plan.len() as u64, count + 1);
        for (k, s) in plan.iter().enumerate() {
            assert_eq!(s.expected_epoch, k as u64 + 1);
        }
    }
    // the default experiment: 101 epochs, ending with the version bump
    let plan = experiment(101).plan();
    assert_eq!(plan.len(), 102);
    assert_eq!(
        plan[101],
        step(Some(ReconfigurationAction::UpdateDiemVersion(42)), 102)
    );
}

#[test]
fn test_plan_for_few_epochs() {
    let plan = experiment(0).plan();
    assert_eq!(plan.len(), 3);
    let plan = experiment(1).plan();
    assert_eq!(plan.len(), 4);
    assert_eq!(plan[3].expected_epoch, 2);
}

#[test]
fn test_experiment_settings() {
    let e = experiment(101);
    assert_eq!(e.deadline_secs(), 2020);
    assert_eq!(e.affected_validators(), vec!["val-1".to_string()]);
    assert_eq!(e.description(), "Reconfiguration: total epoch: 101");
    let names = vec!["val-0".to_string(), "val-1".to_string(), "val-2".to_string()];
    assert_eq!(e.emitting_validators(&names), vec![0, 2]);
}

#[test]
fn test_check_epoch() {
    assert_eq!(check_epoch(3, 3), Ok(()));
    let err = check_epoch(3, 4).unwrap_err();
    assert_eq!(err, EpochMismatch { expected: 3, actual: 4 });
    assert_eq!(err.message(), "Expect epoch 3, actual 4");
}
