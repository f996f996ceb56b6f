//! Service registrations and the service-mesh gateway settings around them.

use vstd::prelude::*;

use std::collections::HashMap;
use std::time::Duration;

verus! {

/// When failing checks restart a task.
#[derive(Debug, Clone, Default)]
pub struct CheckRestart {
    pub limit: Option<i64>,
    pub grace: Option<Duration>,
    pub ignore_warnings: bool,
}

/// One health check of a registered service.
#[derive(Debug, Clone, Default)]
pub struct ServiceCheck {
    pub id: Option<String>,
    pub name: Option<String>,
    pub check_type: Option<String>,
    pub command: Option<String>,
    pub args: Vec<String>,
    pub path: Option<String>,
    pub protocol: Option<String>,
    pub port_label: Option<String>,
    pub expose: bool,
    pub address_mode: Option<String>,
    pub interval: Option<Duration>,
    pub timeout: Option<Duration>,
    pub tls_skip_verify: bool,
    pub header: HashMap<String, String>,
    pub method: Option<String>,
    pub check_restart: Option<CheckRestart>,
    pub grpc_service: Option<String>,
    pub grpc_use_tls: bool,
    pub task_name: Option<String>,
    pub success_before_passing: Option<i64>,
    pub failures_before_critical: Option<i64>,
}

/// Transport security of a gateway.
#[derive(Debug, Clone, Default)]
pub struct ConsulGatewayTLSConfig {
    pub enabled: bool,
}

/// One upstream service a sidecar proxy connects to.
#[derive(Debug, Clone, Default)]
pub struct ConsulUpstream {
    pub destination_name: Option<String>,
    pub local_bind_port: Option<i64>,
    pub datacenter: Option<String>,
}

/// The paths a sidecar proxy exposes.
#[derive(Debug, Clone, Default)]
pub struct ConsulExposeConfig {
    pub path: Vec<ConsulExposePath>,
}

/// One exposed path of a sidecar proxy.
#[derive(Debug, Clone, Default)]
pub struct ConsulExposePath {
    pub path: Option<String>,
    pub protocol: Option<String>,
    pub local_path_port: Option<i64>,
    pub listener_port: Option<String>,
}

/// One service an ingress gateway publishes.
#[derive(Debug, Clone, Default)]
pub struct ConsulIngressService {
    pub name: Option<String>,
    pub hosts: Vec<String>,
}

/// One listener of an ingress gateway.
#[derive(Debug, Clone, Default)]
pub struct ConsulIngresListener {
    pub port: Option<i64>,
    pub protocol: Option<String>,
    pub services: Vec<ConsulIngressService>,
}

/// The configuration entry of an ingress gateway.
#[derive(Debug, Clone, Default)]
pub struct ConsulIngressConfigEntry {
    pub tls: Option<ConsulGatewayTLSConfig>,
    pub listeners: Vec<ConsulIngresListener>,
}

/// One service a terminating gateway links to.
#[derive(Debug, Clone, Default)]
pub struct ConsulLinkedService {
    pub name: Option<String>,
    pub ca_file: Option<String>,
    pub cert_file: Option<String>,
    pub key_file: Option<String>,
    pub sni: Option<String>,
}

/// The configuration entry of a terminating gateway.
#[derive(Debug, Clone, Default)]
pub struct ConsulTerminatingConfigEntry {
    pub services: Vec<ConsulLinkedService>,
}

} // verus!
