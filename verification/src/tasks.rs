//! Task records: what one unit of work runs with, and the policies around
//! restarting, rescheduling and spreading it.

use vstd::prelude::*;

use crate::csi::CSIMountOptions;
use std::collections::HashMap;
use std::time::Duration;

verus! {

/// A soft placement preference, weighted.
#[derive(Debug, Clone, Default)]
pub struct Affinity {
    pub l_target: Option<String>,
    pub r_target: Option<String>,
    pub operand: Option<String>,
    pub weight: Option<i8>,
}

/// When and how often failed tasks restart in place.
#[derive(Debug, Clone, Default)]
pub struct RestartPolicy {
    pub interval: Option<Duration>,
    pub attempts: Option<i64>,
    pub delay: Option<Duration>,
    pub mode: Option<String>,
}

/// A volume a task group asks for.
#[derive(Debug, Clone, Default)]
pub struct VolumeRequest {
    pub name: String,
    pub volume_type: Option<String>,
    pub source: Option<String>,
    pub read_only: Option<bool>,
    pub mount_options: Vec<CSIMountOptions>,
    pub extra_key_hcl: Vec<String>,
}

/// One event in a task's lifecycle, as the client reported it.
#[derive(Debug, Clone, Default)]
pub struct TaskEvent {
    pub event_type: String,
    pub time: i64,
    pub display_message: String,
    pub details: HashMap<String, String>,
    pub message: String,
}

/// Where a dispatched payload is written for the task.
#[derive(Debug, Clone, Default)]
pub struct DispatchPayloadConfig {
    pub file: Option<String>,
}

/// When in the group's lifecycle a task runs.
#[derive(Debug, Clone, Default)]
pub struct TaskLifecycle {
    pub hook: Option<String>,
    pub sidecar: bool,
}

/// An artifact fetched before a task starts.
#[derive(Debug, Clone, Default)]
pub struct TaskArtifact {
    pub getter_source: Option<String>,
    pub getter_options: HashMap<String, String>,
    pub getter_headers: HashMap<String, String>,
    pub getter_mode: Option<String>,
    pub relative_dest: Option<String>,
}

/// One volume mounted into a task.
#[derive(Debug, Clone, Default)]
pub struct VolumeMount {
    pub volume: Option<String>,
    pub destination: Option<String>,
    pub read_only: bool,
    pub propagation_mode: Option<String>,
}

/// How allocations migrate off a draining node.
#[derive(Debug, Clone, Default)]
pub struct MigrateStrategy {
    pub max_parallel: Option<i64>,
    pub health_check: Option<String>,
    pub min_healthy_time: Option<Duration>,
    pub healthy_deadline: Option<Duration>,
}

/// When and how often failed allocations are placed elsewhere.
#[derive(Debug, Clone, Default)]
pub struct ReschedulePolicy {
    pub attempts: Option<i64>,
    pub interval: Option<Duration>,
    pub delay: Option<Duration>,
    pub delay_function: Option<String>,
    pub max_delay: Option<Duration>,
    pub unlimited: Option<bool>,
}

/// A weighted spread of allocations over an attribute's values.
#[derive(Debug, Clone, Default)]
pub struct Spread {
    pub attribute: Option<String>,
    pub weight: Option<i8>,
    pub spread_target: Vec<SpreadTarget>,
}

/// One target value of a spread and its share.
#[derive(Debug, Clone, Default)]
pub struct SpreadTarget {
    pub value: String,
    pub percent: Option<u8>,
}

/// Scratch disk shared by a task group.
#[derive(Debug, Clone, Default)]
pub struct EphemeralDisk {
    pub sticky: Option<bool>,
    pub migrate: Option<bool>,
    pub size_mb: Option<i64>,
}

/// How much log output a task may keep.
#[derive(Debug, Clone)]
pub struct LogConfig {
    pub max_files: Option<i64>,
    pub max_file_size_mb: Option<i64>,
}

impl Default for LogConfig {
    /// Ten files of ten megabytes each, unless the task says otherwise.
    fn default() -> (r: LogConfig)
        ensures
            r.max_files == Some(10i64),
            r.max_file_size_mb == Some(10i64),
    {
        LogConfig { max_files: Some(10), max_file_size_mb: Some(10) }
    }
}

/// A template rendered for a task before it starts.
#[derive(Debug, Clone, Default)]
pub struct Template {
    pub source_path: Option<String>,
    pub dest_path: Option<String>,
    pub embedded_tmpl: Option<String>,
    pub change_mode: Option<String>,
    pub change_signal: Option<String>,
    pub splay: Option<Duration>,
    pub perms: Option<String>,
    pub left_delim: Option<String>,
    pub right_delim: Option<String>,
    pub envvars: bool,
    pub vault_grace: Option<Duration>,
}

/// A task's secret-store access.
#[derive(Debug, Clone, Default)]
pub struct Vault {
    pub policies: Vec<String>,
    pub namespace: Option<String>,
    pub env: bool,
    pub change_mode: Option<String>,
    pub change_signal: Option<String>,
}

/// The kind name of a storage-interface plugin.
pub type CSIPluginType = String;

/// How a task serves as a storage-interface plugin.
#[derive(Debug, Clone, Default)]
pub struct TaskCSIPluginConfig {
    pub id: Option<String>,
    pub plugin_type: Option<CSIPluginType>,
    pub mount_dir: Option<String>,
}

} // verus!
