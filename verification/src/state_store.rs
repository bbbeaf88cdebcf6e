//! The ledger counters that a batch of state tree updates bumps.

use vstd::prelude::*;

verus! {

/// What a retired record of the state tree was.
#[derive(Clone, Copy, Debug, PartialEq, Eq, Structural)]
pub enum RetiredRecordType {
    Node,
    Blob,
}

/// How much each state counter grows.
#[derive(Clone, Copy, Debug, PartialEq, Eq)]
pub struct StateCounterBumps {
    pub state_nodes_created: u64,
    pub state_blobs_created: u64,
    pub state_nodes_retired: u64,
    pub state_blobs_retired: u64,
}

/// The number of records of the given type.
pub open spec fn retired_count(records: Seq<RetiredRecordType>, t: RetiredRecordType) -> nat {
    records.filter(|r: RetiredRecordType| r == t).len()
}

/// The counter bumps of writing `node_count` new nodes and `blob_count` new
/// blobs, and of retiring `retired`: one per created node or blob, and one per
/// retired record of its type.
pub fn state_counter_bumps(node_count: u64, blob_count: u64, retired: &Vec<RetiredRecordType>) -> (res:
    StateCounterBumps)
    ensures
        res == (StateCounterBumps {
            state_nodes_created: node_count,
            state_blobs_created: blob_count,
            state_nodes_retired: retired_count(retired@, RetiredRecordType::Node) as u64,
            state_blobs_retired: retired_count(retired@, RetiredRecordType::Blob) as u64,
        }),
        retired_count(retired@, RetiredRecordType::Node) + retired_count(
            retired@,
            RetiredRecordType::Blob,
        ) == retired@.len(),
{
    let mut nodes: u64 = 0;
    let mut blobs: u64 = 0;
    let mut i: usize = 0;
    while i < retired.len()
        invariant
            i <= retired@.len(),
            nodes == retired_count(retired@.subrange(0, i as int), RetiredRecordType::Node),
            blobs == retired_count(retired@.subrange(0, i as int), RetiredRecordType::Blob),
            nodes + blobs == i,
        decreases retired@.len() - i,
    {
        let ghost prefix = retired@.subrange(0, i as int);
        let ghost next = retired@.subrange(0, i + 1);
        proof {
            assert(next.drop_last() =~= prefix);
            assert(next.last() == retired@[i as int]);
            reveal_with_fuel(Seq::filter, 1);
        }
        match retired[i] {
            RetiredRecordType::Node => {
                nodes = nodes + 1;
            },
            RetiredRecordType::Blob => {
                blobs = blobs + 1;
            },
        }
        i = i + 1;
    }
    assert(retired@.subrange(0, retired@.len() as int) =~= retired@);
    StateCounterBumps {
        state_nodes_created: node_count,
        state_blobs_created: blob_count,
        state_nodes_retired: nodes,
        state_blobs_retired: blobs,
    }
}

} // verus!
