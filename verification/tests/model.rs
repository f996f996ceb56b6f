use std::collections::HashMap;
use std::time::Duration;

use nomad_client::allocations::{AllocationMetric, DesiredTransition, RescheduleEvent, RescheduleTracker};
use nomad_client::constraint::{Constraint, Operand};
use nomad_client::csi::CSIMountOptions;
use nomad_client::jobs::{JobListStub, JobSummary, JobType, TaskGroupSummary, UpdateStrategy};
use nomad_client::nodes::{NodeReservedCpuResources, NodeReservedDiskResources, NodeReservedMemoryResources, NodeReservedNetworkResources, NodeReservedResources, NodeStatus};
use nomad_client::resources::{DNSConfig, Port, RequestedDevice};
use nomad_client::scaling::ScalingPolicy;
use nomad_client::services::{CheckRestart, ServiceCheck};
use nomad_client::tasks::{Affinity, LogConfig, RestartPolicy, Spread, SpreadTarget};

#[test]
fn job_type_defaults_to_service() {
    assert_eq!(JobType::default(), JobType::Service);
}

#[test]
fn log_config_defaults_to_ten_by_ten() {
    let config = LogConfig::default();
    assert_eq!(config.max_files, Some(10));
    assert_eq!(config.max_file_size_mb, Some(10));
}

#[test]
fn job_list_stub_holds_its_summary() {
    let mut summary: HashMap<String, TaskGroupSummary> = HashMap::new();
    summary.insert(
        "cache".to_string(),
        TaskGroupSummary { queued: 1, complete: 2, failed: 0, running: 3, starting: 0, lost: 0 },
    );
    let stub = JobListStub {
        id: "example".to_string(),
        parent_id: String::new(),
        name: "example".to_string(),
        namespace: Some("default".to_string()),
        datacenters: vec!["dc1".to_string()],
        job_type: JobType::default(),
        priority: 50,
        periodic: false,
        parameterized_job: false,
        stop: false,
        status: "running".to_string(),
        status_description: String::new(),
        job_summary: Some(JobSummary {
            job_id: "example".to_string(),
            namespace: "default".to_string(),
            summary,
            children: None,
            create_index: 7,
            modify_index: 9,
        }),
        create_index: 7,
        modify_index: 9,
        job_modify_index: 9,
        submit_time: 0,
    };
    assert_eq!(stub.job_type, JobType::Service);
    let job_summary = stub.job_summary.expect("summary was set");
    assert_eq!(job_summary.summary.get("cache").map(|s| s.running), Some(3));
}

#[test]
fn update_strategy_carries_durations() {
    let update = UpdateStrategy {
        stagger: Some(Duration::from_secs(30)),
        max_parallel: Some(1),
        health_check: Some("checks".to_string()),
        min_healthy_time: Some(Duration::from_secs(10)),
        healthy_deadline: Some(Duration::from_secs(180)),
        progress_deadline: Some(Duration::from_secs(600)),
        canary: Some(0),
        auto_revert: Some(false),
        auto_promote: None,
    };
    assert_eq!(update.min_healthy_time.map(|d| d.as_secs()), Some(10));
}

#[test]
fn reserved_resources_nest() {
    let reserved = NodeReservedResources {
        cpu: NodeReservedCpuResources { cpu_shares: 500 },
        memory: NodeReservedMemoryResources { memory_mb: 256 },
        disk: NodeReservedDiskResources { disk_mb: 1024 },
        networks: NodeReservedNetworkResources { reserved_host_ports: "22".to_string() },
    };
    assert_eq!(reserved.memory.memory_mb, 256);
    assert!(matches!(NodeStatus::Ready, NodeStatus::Ready));
}

#[test]
fn requested_device_lists_constraints() {
    let device = RequestedDevice {
        name: "nvidia/gpu".to_string(),
        count: Some(2),
        constraints: vec![Constraint {
            l_target: Some("${attr.cpu.arch}".to_string()),
            r_target: Some("amd64".to_string()),
            operand: Some("=".to_string()),
        }],
        affinities: vec![Affinity::default()],
    };
    assert_eq!(device.count, Some(2));
    assert_eq!(device.constraints.len(), 1);
    assert!(matches!(Operand::Regex, Operand::Regex));
}

#[test]
fn schema_defaults_are_empty() {
    assert!(AllocationMetric::default().nodes_available.is_empty());
    assert!(DesiredTransition::default().migrate.is_none());
    assert!(CSIMountOptions::default().mount_flags.is_empty());
    assert!(DNSConfig::default().servers.is_empty());
    assert!(ScalingPolicy::default().target.is_empty());
    assert!(ServiceCheck::default().args.is_empty());
    assert!(CheckRestart::default().grace.is_none());
    assert!(RestartPolicy::default().interval.is_none());
    assert!(Spread::default().spread_target.is_empty());
    assert!(SpreadTarget::default().percent.is_none());
    assert!(Port::default().label.is_none());
    let tracker = RescheduleTracker {
        events: vec![RescheduleEvent {
            reschedule_time: 1,
            prev_alloc_id: "a".to_string(),
            prev_node_id: "n".to_string(),
        }],
    };
    assert_eq!(tracker.events.len(), 1);
}
