//! The layout of a local swarm's configuration on disk: one numbered directory
//! per node holding its `node.yaml`, and the faucet's `mint.key` beside them.

use crate::paths::{joined_path, path_join};
use crate::text::{decimal, to_decimal_string};
use vstd::prelude::*;

verus! {

/// Where the files of a swarm of nodes go.
pub struct SwarmLayout {
    /// The data directory of each node, in order.
    pub node_dirs: Vec<String>,
    /// The configuration file of each node, in order.
    pub config_files: Vec<String>,
    /// The faucet's key file.
    pub faucet_key_path: String,
}

/// The directory of node `index` under `output_dir`.
pub open spec fn node_dir(output_dir: Seq<char>, index: nat) -> Seq<char> {
    joined_path(output_dir, decimal(index))
}

/// Whether `layout` places `n` nodes under `output_dir`: node `i` in the
/// directory named `i`, its configuration in `node.yaml` there, and the faucet key
/// in `mint.key`.
pub open spec fn is_swarm_layout(layout: SwarmLayout, output_dir: Seq<char>, n: nat) -> bool {
    &&& layout.node_dirs@.len() == n
    &&& layout.config_files@.len() == n
    &&& forall|i: int| 0 <= i < n ==> (#[trigger] layout.node_dirs@[i])@ == node_dir(output_dir, i as nat)
    &&& forall|i: int|
        0 <= i < n ==> (#[trigger] layout.config_files@[i])@ == joined_path(
            node_dir(output_dir, i as nat),
            "node.yaml"@,
        )
    &&& layout.faucet_key_path@ == joined_path(output_dir, "mint.key"@)
}

/// The layout of `node_count` nodes under `output_dir`.
pub fn swarm_layout(output_dir: &str, node_count: usize) -> (res: SwarmLayout)
    ensures
        is_swarm_layout(res, output_dir@, node_count as nat),
{
    let mut node_dirs: Vec<String> = Vec::new();
    let mut config_files: Vec<String> = Vec::new();
    let mut index: usize = 0;
    while index < node_count
        invariant
            index <= node_count,
            node_dirs@.len() == index,
            config_files@.len() == index,
            forall|i: int| 0 <= i < index ==> (#[trigger] node_dirs@[i])@ == node_dir(output_dir@, i as nat),
            forall|i: int|
                0 <= i < index ==> (#[trigger] config_files@[i])@ == joined_path(
                    node_dir(output_dir@, i as nat),
                    "node.yaml"@,
                ),
        decreases node_count - index,
    {
        let name = to_decimal_string(index as u64);
        let dir = path_join(output_dir, name.as_str());
        let file = path_join(dir.as_str(), "node.yaml");
        node_dirs.push(dir);
        config_files.push(file);
        index = index + 1;
    }
    SwarmLayout { node_dirs, config_files, faucet_key_path: path_join(output_dir, "mint.key") }
}

/// The configuration of a swarm: its nodes' configuration files, the faucet's key
/// file and the swarm's waypoint.
pub struct SwarmConfig<W> {
    pub config_files: Vec<String>,
    pub faucet_key_path: String,
    pub waypoint: W,
}

impl<W> SwarmConfig<W> {
    /// The swarm configuration once the files of `layout` are written; the
    /// waypoint is that of the first node.
    pub fn from_layout(layout: SwarmLayout, waypoint: W) -> (res: Self)
        ensures
            res.config_files == layout.config_files,
            res.faucet_key_path == layout.faucet_key_path,
            res.waypoint == waypoint,
    {
        SwarmConfig { config_files: layout.config_files, faucet_key_path: layout.faucet_key_path, waypoint }
    }
}

} // verus!
