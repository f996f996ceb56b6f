//! Allocation records: how the scheduler placed work onto nodes.

use vstd::prelude::*;

use std::collections::HashMap;

verus! {

/// Scheduler metrics for one allocation attempt.
#[derive(Debug, Clone, Default)]
pub struct AllocationMetric {
    pub nodes_evaluated: i64,
    pub nodes_filtered: i64,
    pub nodes_available: HashMap<String, i64>,
    pub class_filtered: HashMap<String, i64>,
    pub constraint_filtered: HashMap<String, i64>,
    pub nodes_exhausted: i64,
    pub class_exhausted: HashMap<String, i64>,
    pub dimension_exhausted: HashMap<String, i64>,
    pub quota_exhausted: Vec<String>,
}

/// Processor share granted to one task.
#[derive(Debug, Clone)]
pub struct AllocatedCpuResources {
    pub cpu_shares: i64,
}

/// Memory granted to one task.
#[derive(Debug, Clone)]
pub struct AllocatedMemoryResources {
    pub memory_mb: i64,
}

/// The reschedule attempts an allocation has been through.
#[derive(Debug, Clone)]
pub struct RescheduleTracker {
    pub events: Vec<RescheduleEvent>,
}

/// One reschedule attempt: when, and from where.
#[derive(Debug, Clone)]
pub struct RescheduleEvent {
    pub reschedule_time: i64,
    pub prev_alloc_id: String,
    pub prev_node_id: String,
}

/// What the scheduler wants to happen to an allocation next.
#[derive(Debug, Clone, Default)]
pub struct DesiredTransition {
    pub migrate: Option<bool>,
    pub reschedule: Option<bool>,
}

} // verus!
