//! Job records: what a submitted workload asks for, and the summaries the
//! list endpoints return for it.

use vstd::prelude::*;

use std::collections::HashMap;
use std::time::Duration;

verus! {

/// The scheduler class a job runs under, by its wire name.
#[derive(Debug, Clone, Copy, PartialEq, Eq)]
pub enum JobType {
    Service,  // "service"
    Batch,  // "batch"
    System,  // "system"
}

impl Default for JobType {
    /// A job is a long-running service unless it says otherwise.
    fn default() -> (r: JobType)
        ensures
            r == JobType::Service,
    {
        JobType::Service
    }
}

/// How a multi-region job rolls out across regions.
#[derive(Debug, Clone, Default)]
pub struct MultiregionStrategy {
    pub max_parallel: Option<i64>,
    pub on_failure: Option<String>,
}

/// One region of a multi-region job.
#[derive(Debug, Clone, Default)]
pub struct MultiregionRegion {
    pub name: String,
    pub count: Option<i64>,
    pub datacenters: Vec<String>,
    pub meta: HashMap<String, String>,
}

/// The regions of a multi-region job and the strategy over them.
#[derive(Debug, Clone, Default)]
pub struct Multiregion {
    pub strategy: Vec<MultiregionStrategy>,
    pub regions: Vec<MultiregionRegion>,
}

/// When a periodic job launches.
#[derive(Debug, Clone, Default)]
pub struct PeriodicConfig {
    pub enabled: Option<bool>,
    pub spec: Option<String>,
    pub spec_type: Option<String>,
    pub prohibit_overlap: Option<bool>,
    pub time_zone: Option<String>,
}

/// How updates to a running job roll out.
#[derive(Debug, Clone, Default)]
pub struct UpdateStrategy {
    pub stagger: Option<Duration>,
    pub max_parallel: Option<i64>,
    pub health_check: Option<String>,
    pub min_healthy_time: Option<Duration>,
    pub healthy_deadline: Option<Duration>,
    pub progress_deadline: Option<Duration>,
    pub canary: Option<i64>,
    pub auto_revert: Option<bool>,
    pub auto_promote: Option<bool>,
}

/// What a parameterized job expects when dispatched.
#[derive(Debug, Clone, Default)]
pub struct ParameterizedJobConfig {
    pub payload: Option<String>,
    pub meta_required: Vec<String>,
    pub meta_optional: Vec<String>,
}

/// The state of a job's allocations, summarized.
#[derive(Debug, Clone, Default)]
pub struct JobSummary {
    pub job_id: String,
    pub namespace: String,
    pub summary: HashMap<String, TaskGroupSummary>,
    pub children: Option<JobChildrenSummary>,
    pub create_index: u64,
    pub modify_index: u64,
}

/// The status of a job's children jobs.
#[derive(Debug, Clone, Default)]
pub struct JobChildrenSummary {
    pub pending: i64,
    pub running: i64,
    pub dead: i64,
}

/// The state of all allocations of one task group.
#[derive(Debug, Clone, Default)]
pub struct TaskGroupSummary {
    pub queued: i64,
    pub complete: i64,
    pub failed: i64,
    pub running: i64,
    pub starting: i64,
    pub lost: i64,
}

/// The subset of a job that list operations return.
#[derive(Debug, Clone)]
pub struct JobListStub {
    pub id: String,
    pub parent_id: String,
    pub name: String,
    pub namespace: Option<String>,
    pub datacenters: Vec<String>,
    pub job_type: JobType,
    pub priority: i64,
    pub periodic: bool,
    pub parameterized_job: bool,
    pub stop: bool,
    pub status: String,
    pub status_description: String,
    pub job_summary: Option<JobSummary>,
    pub create_index: u64,
    pub modify_index: u64,
    pub job_modify_index: u64,
    pub submit_time: i64,
}

} // verus!
