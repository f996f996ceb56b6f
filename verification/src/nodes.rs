//! Node records: the machines the orchestrator schedules onto.

use vstd::prelude::*;

use std::collections::HashMap;

verus! {

/// A node's lifecycle status, by its wire name.
#[derive(Debug, Clone, Copy, PartialEq, Eq)]
pub enum NodeStatus {
    Initializing,  // "initializing"
    Ready,  // "ready"
    Down,  // "down"
}

/// Whether a node accepts new placements, by its wire name.
#[derive(Debug, Clone, Copy, PartialEq, Eq)]
pub enum NodeScheduling {
    Eligible,  // "eligible"
    Ineligible,  // "ineligible"
}

/// What purging a node kicked off.
#[derive(Debug, Clone)]
pub struct NodePurgeResponse {
    pub eval_ids: Vec<String>,
    pub eval_create_index: u64,
    pub node_modify_index: u64,
}

/// A host volume a node offers.
#[derive(Debug, Clone)]
pub struct HostVolumeInfo {
    pub path: String,
    pub read_only: bool,
}

/// Processor capacity of a node.
#[derive(Debug, Clone)]
pub struct NodeCpuResources {
    pub cpu_shares: u64,
}

/// Memory capacity of a node.
#[derive(Debug, Clone)]
pub struct NodeMemoryResources {
    pub memory_mb: u64,
}

/// Disk capacity of a node.
#[derive(Debug, Clone)]
pub struct NodeDiskResources {
    pub disk_mb: u64,
}

/// What a node withholds from the scheduler.
#[derive(Debug, Clone)]
pub struct NodeReservedResources {
    pub cpu: NodeReservedCpuResources,
    pub memory: NodeReservedMemoryResources,
    pub disk: NodeReservedDiskResources,
    pub networks: NodeReservedNetworkResources,
}

/// Processor share a node withholds.
#[derive(Debug, Clone)]
pub struct NodeReservedCpuResources {
    pub cpu_shares: u64,
}

/// Memory a node withholds.
#[derive(Debug, Clone)]
pub struct NodeReservedMemoryResources {
    pub memory_mb: u64,
}

/// Disk a node withholds.
#[derive(Debug, Clone)]
pub struct NodeReservedDiskResources {
    pub disk_mb: u64,
}

/// Host ports a node withholds.
#[derive(Debug, Clone)]
pub struct NodeReservedNetworkResources {
    pub reserved_host_ports: String,
}

/// Where a storage-interface volume may be reached from.
#[derive(Debug, Clone)]
pub struct CSITopology {
    pub segments: HashMap<String, String>,
}

/// A node's view of one storage-interface plugin.
#[derive(Debug, Clone)]
pub struct CSINodeInfo {
    pub id: String,
    pub max_volumes: i64,
    pub accessible_topology: Option<CSITopology>,
    pub required_node_stage_volume: bool,
}

/// What a storage-interface controller supports.
#[derive(Debug, Clone)]
pub struct CSIControllerInfo {
    pub supports_read_only_attach: bool,
    pub supports_attach_detach: bool,
    pub supports_list_volumes: bool,
    pub supports_list_volumes_attached_nodes: bool,
}

/// Which part of a node reported an event.
#[derive(Debug, Clone, Copy, PartialEq, Eq)]
pub enum NodeEventSubsystem {
    Drain,
    Driver,
    Heartbeat,
    Cluster,
}

/// A host's memory, in bytes.
#[derive(Debug, Clone)]
pub struct HostMemoryStats {
    pub total: u64,
    pub available: u64,
    pub used: u64,
    pub free: u64,
}

} // verus!
