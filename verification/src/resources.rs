//! Resource requests and device descriptions.

use vstd::prelude::*;

use crate::constraint::Constraint;
use crate::tasks::Affinity;

verus! {

/// One network port, reserved or dynamically assigned.
#[derive(Debug, Clone, Default)]
pub struct Port {
    pub label: Option<String>,
    pub value: Option<i64>,
    pub to: Option<i64>,
    pub host_network: Option<String>,
}

/// Name resolution settings handed to a task's network.
#[derive(Debug, Clone, Default)]
pub struct DNSConfig {
    pub servers: Vec<String>,
    pub searches: Vec<String>,
    pub options: Vec<String>,
}

/// A device a task asks for, with the constraints on choosing one.
#[derive(Debug, Clone)]
pub struct RequestedDevice {
    pub name: String,
    pub count: Option<u64>,
    pub constraints: Vec<Constraint>,
    pub affinities: Vec<Affinity>,
}

/// One instance of a device on a node.
#[derive(Debug, Clone)]
pub struct NodeDevice {
    pub id: String,
    pub healthy: bool,
    pub health_description: String,
    pub locality: Option<NodeDeviceLocality>,
}

/// Where on the node's buses a device sits.
#[derive(Debug, Clone)]
pub struct NodeDeviceLocality {
    pub pci_bus_id: String,
}

} // verus!
