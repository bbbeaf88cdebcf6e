//! The reconfiguration experiment of the cluster test: which validator it
//! disturbs, which reconfigurations it submits in which order, and which epoch
//! each of them must lead to.  Submitting and waiting is the caller's work.

use crate::text::push_decimal;
use crate::trusted_peers::PeerId;
use vstd::prelude::*;

verus! {

/// The Diem version that the experiment bumps to when the epoch count is odd.
pub const MAGIC_DIEM_VERSION: u64 = 42;

/// The parameters of the experiment.
#[derive(Clone, Copy, Debug, PartialEq, Eq)]
pub struct ReconfigurationParams {
    /// The number of epochs to trigger (101 by default).
    pub count: u64,
    /// Whether to emit peer-to-peer transfers meanwhile.
    pub emit_txn: bool,
}

/// The experiment, set up against one validator.
#[derive(Clone, Debug, PartialEq, Eq)]
pub struct Reconfiguration {
    affected_peer_id: PeerId,
    affected_pod_name: String,
    count: u64,
    emit_txn: bool,
}

/// The experiment as values.
pub struct ReconfigurationView {
    pub affected_peer_id: PeerId,
    pub affected_pod_name: Seq<char>,
    pub count: u64,
    pub emit_txn: bool,
}

impl View for Reconfiguration {
    type V = ReconfigurationView;

    closed spec fn view(&self) -> ReconfigurationView {
        ReconfigurationView {
            affected_peer_id: self.affected_peer_id,
            affected_pod_name: self.affected_pod_name@,
            count: self.count,
            emit_txn: self.emit_txn,
        }
    }
}

impl ReconfigurationParams {
    /// The experiment against the validator `affected_peer_id`, whose pod is named
    /// `affected_pod_name`.
    pub fn build(self, affected_peer_id: PeerId, affected_pod_name: String) -> (res: Reconfiguration)
        ensures
            res@ == (ReconfigurationView {
                affected_peer_id,
                affected_pod_name: affected_pod_name@,
                count: self.count,
                emit_txn: self.emit_txn,
            }),
    {
        Reconfiguration { affected_peer_id, affected_pod_name, count: self.count, emit_txn: self.emit_txn }
    }
}

/// A reconfiguration that the experiment submits.
#[derive(Clone, Copy, Debug, PartialEq, Eq)]
pub enum ReconfigurationAction {
    /// Remove the affected validator.
    RemoveValidator,
    /// Add the affected validator back.
    AddValidator,
    /// Switch consensus to two-chain.
    EnableTwoChain,
    /// Switch consensus back to three-chain.
    EnableThreeChain,
    /// Bump the Diem version to the given value.
    UpdateDiemVersion(u64),
}

/// One step of the experiment: submit the action, if any, then wait for the
/// given epoch to be committed.
#[derive(Clone, Copy, Debug, PartialEq, Eq)]
pub struct ReconfigurationStep {
    pub action: Option<ReconfigurationAction>,
    pub expected_epoch: u64,
}

/// The number of two-chain / three-chain round trips for `count` epochs.
pub open spec fn round_trips(count: u64) -> int {
    if count / 2 >= 1 { count / 2 - 1 } else { 0 }
}

/// The number of steps for `count` epochs: the first check, the removal and the
/// addition, the round trips, and the version bump when `count` is odd.
pub open spec fn plan_len(count: u64) -> int {
    3 + 2 * round_trips(count) + (count % 2) as int
}

/// Step `k` of the experiment for `count` epochs.
pub open spec fn plan_step(count: u64, k: int) -> (Option<ReconfigurationAction>, int) {
    if k == 0 {
        (None, 1)
    } else if k == 1 {
        (Some(ReconfigurationAction::RemoveValidator), 2)
    } else if k == 2 {
        (Some(ReconfigurationAction::AddValidator), 3)
    } else if k < 3 + 2 * round_trips(count) {
        let i = (k - 3) / 2 + 1;
        if (k - 3) % 2 == 0 {
            (Some(ReconfigurationAction::EnableTwoChain), (i + 1) * 2)
        } else {
            (Some(ReconfigurationAction::EnableThreeChain), (i + 1) * 2 + 1)
        }
    } else {
        (Some(ReconfigurationAction::UpdateDiemVersion(MAGIC_DIEM_VERSION as u64)), count + 1)
    }
}

/// Whether `plan` is the experiment's plan for `count` epochs.
pub open spec fn is_plan(count: u64, plan: Seq<ReconfigurationStep>) -> bool {
    &&& plan.len() == plan_len(count)
    &&& forall|k: int|
        0 <= k < plan.len() ==> ((#[trigger] plan[k]).action, plan[k].expected_epoch as int)
            == plan_step(count, k)
}

impl Reconfiguration {
    /// The steps of the experiment, in order.
    pub fn plan(&self) -> (res: Vec<ReconfigurationStep>)
        requires
            self@.count < u64::MAX,
        ensures
            is_plan(self@.count, res@),
    {
        let count = self.count;
        let mut plan: Vec<ReconfigurationStep> = Vec::new();
        plan.push(ReconfigurationStep { action: None, expected_epoch: 1 });
        plan.push(
            ReconfigurationStep {
                action: Some(ReconfigurationAction::RemoveValidator),
                expected_epoch: 2,
            },
        );
        plan.push(
            ReconfigurationStep {
                action: Some(ReconfigurationAction::AddValidator),
                expected_epoch: 3,
            },
        );
        let half = count / 2;
        let mut i: u64 = 1;
        while i < half
            invariant
                count == self@.count,
                count < u64::MAX,
                half == count / 2,
                1 <= i,
                i == 1 || i <= half,
                plan@.len() == 3 + 2 * (i - 1),
                forall|k: int|
                    0 <= k < plan@.len() ==> ((#[trigger] plan@[k]).action, plan@[k].expected_epoch as int)
                        == plan_step(count, k),
            decreases half - i,
        {
            plan.push(
                ReconfigurationStep {
                    action: Some(ReconfigurationAction::EnableTwoChain),
                    expected_epoch: (i + 1) * 2,
                },
            );
            plan.push(
                ReconfigurationStep {
                    action: Some(ReconfigurationAction::EnableThreeChain),
                    expected_epoch: (i + 1) * 2 + 1,
                },
            );
            i = i + 1;
        }
        assert(plan@.len() == 3 + 2 * round_trips(count));
        if count % 2 == 1 {
            plan.push(
                ReconfigurationStep {
                    action: Some(ReconfigurationAction::UpdateDiemVersion(MAGIC_DIEM_VERSION)),
                    expected_epoch: count + 1,
                },
            );
        }
        plan
    }

    /// How long the experiment may take: twenty seconds per epoch.
    pub fn deadline_secs(&self) -> (res: u64)
        requires
            self@.count * 20 <= u64::MAX,
        ensures
            res == self@.count * 20,
    {
        self.count * 20
    }

    /// The validators that the experiment disturbs: the affected pod alone.
    pub fn affected_validators(&self) -> (res: Vec<String>)
        ensures
            res@.len() == 1,
            res@[0]@ == self@.affected_pod_name,
    {
        let mut nodes = Vec::new();
        nodes.push(self.affected_pod_name.clone());
        nodes
    }

    /// The positions, in order, of the validators that emit transactions: all but
    /// the affected pod.
    pub fn emitting_validators(&self, peer_names: &Vec<String>) -> (res: Vec<usize>)
        ensures
            forall|k: int| 0 <= k < res@.len() ==> #[trigger] res@[k] < peer_names@.len(),
            forall|a: int, b: int| 0 <= a < b < res@.len() ==> #[trigger] res@[a] < #[trigger] res@[b],
            forall|j: int|
                0 <= j < peer_names@.len() ==> (res@.contains(j as usize) <==> (#[trigger] peer_names@[j])@
                    != self@.affected_pod_name),
    {
        let mut chosen: Vec<usize> = Vec::new();
        let mut j: usize = 0;
        while j < peer_names.len()
            invariant
                j <= peer_names@.len(),
                forall|k: int| 0 <= k < chosen@.len() ==> #[trigger] chosen@[k] < j,
                forall|a: int, b: int| 0 <= a < b < chosen@.len() ==> #[trigger] chosen@[a] < #[trigger] chosen@[b],
                forall|q: int|
                    0 <= q < j ==> (chosen@.contains(q as usize) <==> (#[trigger] peer_names@[q])@
                        != self@.affected_pod_name),
            decreases peer_names@.len() - j,
        {
            let ghost before = chosen@;
            if !(peer_names[j] == self.affected_pod_name) {
                chosen.push(j);
                proof {
                    assert forall|q: int| 0 <= q < j + 1 implies (chosen@.contains(q as usize) <==> (
                    #[trigger] peer_names@[q])@ != self@.affected_pod_name) by {
                        if q < j {
                            if chosen@.contains(q as usize) {
                                let k = choose|k: int| 0 <= k < chosen@.len() && chosen@[k] == q as usize;
                                assert(k < before.len());
                                assert(before[k] == chosen@[k]);
                            }
                            if before.contains(q as usize) {
                                let k = choose|k: int| 0 <= k < before.len() && before[k] == q as usize;
                                assert(chosen@[k] == before[k]);
                            }
                        } else {
                            assert(chosen@[before.len() as int] == j);
                        }
                    }
                }
            } else {
                proof {
                    assert forall|q: int| 0 <= q < j + 1 implies (chosen@.contains(q as usize) <==> (
                    #[trigger] peer_names@[q])@ != self@.affected_pod_name) by {
                        if q == j && chosen@.contains(q as usize) {
                            let k = choose|k: int| 0 <= k < chosen@.len() && chosen@[k] == q as usize;
                        }
                    }
                }
            }
            j = j + 1;
        }
        chosen
    }

    /// The report line of the experiment.
    pub fn description(&self) -> (res: String)
        ensures
            res@ == "Reconfiguration: total epoch: "@ + crate::text::decimal(self@.count as nat),
    {
        let mut text = String::from_str("Reconfiguration: total epoch: ");
        push_decimal(&mut text, self.count);
        text
    }
}

/// The epoch that a step expected differs from the one committed.
#[derive(Clone, Copy, Debug, PartialEq, Eq)]
pub struct EpochMismatch {
    pub expected: u64,
    pub actual: u64,
}

impl EpochMismatch {
    /// The text shown for the mismatch.
    pub fn message(&self) -> (res: String)
        ensures
            res@ == "Expect epoch "@ + crate::text::decimal(self.expected as nat) + ", actual "@
                + crate::text::decimal(self.actual as nat),
    {
        let mut text = String::from_str("Expect epoch ");
        push_decimal(&mut text, self.expected);
        text.append(", actual ");
        push_decimal(&mut text, self.actual);
        text
    }
}

/// Checks that the committed epoch is the expected one.
pub fn check_epoch(expected: u64, actual: u64) -> (res: Result<(), EpochMismatch>)
    ensures
        expected == actual ==> res is Ok,
        expected != actual ==> res == Err::<(), EpochMismatch>(EpochMismatch { expected, actual }),
{
    if expected == actual {
        Ok(())
    } else {
        Err(EpochMismatch { expected, actual })
    }
}

/// For two epochs or more, the experiment expects every epoch from 1 to
/// `count + 1` in turn, each once: the step at position `k` expects epoch `k + 1`.
/// (With one epoch the version bump would expect epoch 2 after epoch 3.)
pub proof fn law_plan_walks_epochs_in_turn(count: u64, plan: Seq<ReconfigurationStep>)
    requires
        count >= 2,
        is_plan(count, plan),
    ensures
        plan.len() == count + 1,
        forall|k: int| 0 <= k < plan.len() ==> #[trigger] plan[k].expected_epoch == k + 1,
{
    assert forall|k: int| 0 <= k < plan.len() implies #[trigger] plan[k].expected_epoch == k + 1 by {
        assert((plan[k].action, plan[k].expected_epoch as int) == plan_step(count, k));
    }
}

/// What the experiment submits, in order: first nothing, waiting for epoch 1;
/// then the removal of the affected validator and its return; then, for every
/// round trip after the first epochs, a switch to two-chain followed by a switch
/// back to three-chain, so that each round trip ends on three-chain; and, for
/// an odd count, the version bump last.  Every step waits for the epoch after
/// its position.
pub proof fn law_plan_submits_round_trips(count: u64, plan: Seq<ReconfigurationStep>)
    requires
        is_plan(count, plan),
    ensures
        plan.len() == (if count >= 2 { count + 1 } else { 3 + count % 2 }),
        plan[0].action is None && plan[0].expected_epoch == 1,
        plan[1].action == Some(ReconfigurationAction::RemoveValidator) && plan[1].expected_epoch == 2,
        plan[2].action == Some(ReconfigurationAction::AddValidator) && plan[2].expected_epoch == 3,
        forall|k: int|
            3 <= k < 3 + 2 * (count / 2 - 1) ==> {
                &&& (#[trigger] plan[k]).action == (if (k - 3) % 2 == 0 {
                    Some(ReconfigurationAction::EnableTwoChain)
                } else {
                    Some(ReconfigurationAction::EnableThreeChain)
                })
                &&& plan[k].expected_epoch == k + 1
            },
        count >= 4 && count % 2 == 0 ==> plan[plan.len() - 1].action == Some(
            ReconfigurationAction::EnableThreeChain,
        ),
        count % 2 == 1 ==> plan[plan.len() - 1].action == Some(
            ReconfigurationAction::UpdateDiemVersion(MAGIC_DIEM_VERSION),
        ) && plan[plan.len() - 1].expected_epoch == count + 1,
{
    assert((plan[0].action, plan[0].expected_epoch as int) == plan_step(count, 0));
    assert((plan[1].action, plan[1].expected_epoch as int) == plan_step(count, 1));
    assert((plan[2].action, plan[2].expected_epoch as int) == plan_step(count, 2));
    assert forall|k: int| 3 <= k < 3 + 2 * (count / 2 - 1) implies {
        &&& (#[trigger] plan[k]).action == (if (k - 3) % 2 == 0 {
            Some(ReconfigurationAction::EnableTwoChain)
        } else {
            Some(ReconfigurationAction::EnableThreeChain)
        })
        &&& plan[k].expected_epoch == k + 1
    } by {
        assert((plan[k].action, plan[k].expected_epoch as int) == plan_step(count, k));
        assert(((k - 3) / 2 + 1 + 1) * 2 == k + 1 || (k - 3) % 2 == 1);
        assert(((k - 3) / 2 + 1 + 1) * 2 + 1 == k + 1 || (k - 3) % 2 == 0);
    }
    let last = plan.len() - 1;
    assert((plan[last].action, plan[last].expected_epoch as int) == plan_step(count, last));
}

} // verus!
