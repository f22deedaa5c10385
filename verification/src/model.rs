//! The parts of Kubernetes objects that the projections read, as plain
//! values. Timestamps are kept as their display text; label, annotation and
//! quantity maps as key/value pairs in ascending key order, each key once
//! (`keys::key_ordered`), as `keys::key_map` builds them.
use vstd::prelude::*;

verus! {

/// Standard object metadata.
#[derive(Debug, Clone)]
pub struct ObjectMeta {
    pub name: Option<String>,
    pub namespace: Option<String>,
    pub creation_timestamp: Option<String>,
    pub labels: Option<Vec<(String, String)>>,
    pub annotations: Option<Vec<(String, String)>>,
}

/// A port a container exposes.
#[derive(Debug, Clone)]
pub struct ContainerPort {
    pub container_port: i32,
    pub protocol: Option<String>,
}

/// Resource requests and limits of a container (quantity maps).
#[derive(Debug, Clone)]
pub struct ResourceRequirements {
    pub requests: Option<Vec<(String, String)>>,
    pub limits: Option<Vec<(String, String)>>,
}

/// A container of a pod spec.
#[derive(Debug, Clone)]
pub struct Container {
    pub name: String,
    pub image: Option<String>,
    pub ports: Option<Vec<ContainerPort>>,
    pub resources: Option<ResourceRequirements>,
}

/// The desired state of a pod.
#[derive(Debug, Clone)]
pub struct PodSpec {
    pub containers: Vec<Container>,
    pub node_name: Option<String>,
    pub priority_class_name: Option<String>,
    pub service_account_name: Option<String>,
}

/// A running container.
#[derive(Debug, Clone)]
pub struct ContainerStateRunning {
    pub started_at: Option<String>,
}

/// A waiting container.
#[derive(Debug, Clone)]
pub struct ContainerStateWaiting {
    pub reason: Option<String>,
    pub message: Option<String>,
}

/// A terminated container.
#[derive(Debug, Clone)]
pub struct ContainerStateTerminated {
    pub reason: Option<String>,
    pub exit_code: i32,
}

/// The state of a container (at most one part is set in practice).
#[derive(Debug, Clone)]
pub struct ContainerState {
    pub running: Option<ContainerStateRunning>,
    pub waiting: Option<ContainerStateWaiting>,
    pub terminated: Option<ContainerStateTerminated>,
}

/// The observed status of one container.
#[derive(Debug, Clone)]
pub struct ContainerStatus {
    pub name: String,
    pub ready: bool,
    pub restart_count: i32,
    pub state: Option<ContainerState>,
}

/// A condition of a pod or node.
#[derive(Debug, Clone)]
pub struct Condition {
    pub type_: String,
    pub status: String,
}

/// The observed state of a pod.
#[derive(Debug, Clone)]
pub struct PodStatus {
    pub phase: Option<String>,
    pub reason: Option<String>,
    pub pod_ip: Option<String>,
    pub qos_class: Option<String>,
    pub start_time: Option<String>,
    pub container_statuses: Option<Vec<ContainerStatus>>,
    pub conditions: Option<Vec<Condition>>,
}

/// A pod.
#[derive(Debug, Clone)]
pub struct Pod {
    pub metadata: ObjectMeta,
    pub spec: Option<PodSpec>,
    pub status: Option<PodStatus>,
}

/// Information a node reports about itself.
#[derive(Debug, Clone)]
pub struct NodeSystemInfo {
    pub kubelet_version: String,
}

/// The observed state of a node.
#[derive(Debug, Clone)]
pub struct NodeStatus {
    pub conditions: Option<Vec<Condition>>,
    pub node_info: Option<NodeSystemInfo>,
}

/// A node.
#[derive(Debug, Clone)]
pub struct Node {
    pub metadata: ObjectMeta,
    pub status: Option<NodeStatus>,
}

/// The source of an event.
#[derive(Debug, Clone)]
pub struct EventSource {
    pub component: Option<String>,
}

/// An event about an object.
#[derive(Debug, Clone)]
pub struct Event {
    pub type_: Option<String>,
    pub reason: Option<String>,
    pub message: Option<String>,
    pub first_timestamp: Option<String>,
    pub last_timestamp: Option<String>,
    pub count: Option<i32>,
    pub source: Option<EventSource>,
}

} // verus!
