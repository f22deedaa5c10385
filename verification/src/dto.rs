//! Plain data transfer objects that cross the IPC and HTTP boundaries.
use vstd::prelude::*;

use crate::text::owned;

verus! {

broadcast use vstd::string::group_string_axioms;

/// A table projection: column headers and one row of cells per object.
#[derive(Debug, Clone)]
pub struct TableData {
    pub headers: Vec<String>,
    pub rows: Vec<Vec<String>>,
}

/// One context of a loaded kubeconfig, as shown in the context switcher.
#[derive(Debug)]
pub struct ContextInfo {
    pub name: String,
    pub cluster: String,
    pub server: String,
    pub is_k3s: bool,
}

impl Clone for ContextInfo {
    fn clone(&self) -> (r: Self)
        ensures
            r == *self,
    {
        ContextInfo {
            name: self.name.clone(),
            cluster: self.cluster.clone(),
            server: self.server.clone(),
            is_k3s: self.is_k3s,
        }
    }
}

/// Handshake returned by a backend's `GET /status`.
#[derive(Debug, Clone)]
pub struct BackendStatus {
    pub connected: bool,
    pub cluster_version: String,
    pub namespace: Option<String>,
}

impl Default for BackendStatus {
    fn default() -> (r: Self)
        ensures
            !r.connected,
            r.cluster_version@.len() == 0,
            r.namespace is None,
    {
        BackendStatus { connected: false, cluster_version: String::new(), namespace: None }
    }
}

/// Snapshot of connection and kubeconfig state.
#[derive(Debug, Clone)]
pub struct KubeStatus {
    pub connected: bool,
    pub cluster_version: Option<String>,
    pub current_context: Option<String>,
    pub kubeconfig_path: Option<String>,
    pub context_count: usize,
    pub contexts: Vec<ContextInfo>,
    pub error: Option<String>,
}

impl Default for KubeStatus {
    fn default() -> (r: Self)
        ensures
            !r.connected,
            r.cluster_version is None,
            r.current_context is None,
            r.kubeconfig_path is None,
            r.context_count == 0,
            r.contexts@.len() == 0,
            r.error is None,
    {
        KubeStatus {
            connected: false,
            cluster_version: None,
            current_context: None,
            kubeconfig_path: None,
            context_count: 0,
            contexts: Vec::new(),
            error: None,
        }
    }
}

/// One row of the Pods table.
#[derive(Debug, Clone)]
pub struct PodRow {
    pub name: String,
    pub namespace: String,
    pub phase: String,
    pub ready: String,
    pub restarts: u32,
    pub age: String,
    pub node: String,
    pub containers: Vec<String>,
}

/// One row of the Nodes table.
#[derive(Debug, Clone)]
pub struct NodeRow {
    pub name: String,
    pub status: String,
    pub roles: String,
    pub version: String,
    pub age: String,
}

/// Full detail for one selected resource of any kind.
#[derive(Debug, Clone)]
pub struct ResourceDetail {
    pub kind: String,
    pub name: String,
    pub namespace: Option<String>,
    pub age: String,
    pub labels: Vec<(String, String)>,
    pub annotations: Vec<(String, String)>,
    /// The full object as pretty-printed JSON (managedFields stripped).
    pub manifest: String,
}

/// One streamed log event; `kind` is "header", "line", "error" or "ended".
#[derive(Debug, Clone)]
pub struct LogEvent {
    pub kind: String,
    pub line: String,
}

impl LogEvent {
    /// The banner that opens a log stream.
    pub fn header(line: &str) -> (r: Self)
        ensures
            r.kind@ == "header"@,
            r.line@ == line@,
    {
        LogEvent { kind: owned("header"), line: owned(line) }
    }

    /// One log line.
    pub fn line(line: &str) -> (r: Self)
        ensures
            r.kind@ == "line"@,
            r.line@ == line@,
    {
        LogEvent { kind: owned("line"), line: owned(line) }
    }

    /// A stream failure.
    pub fn error(line: &str) -> (r: Self)
        ensures
            r.kind@ == "error"@,
            r.line@ == line@,
    {
        LogEvent { kind: owned("error"), line: owned(line) }
    }

    /// The terminal event of every stream.
    pub fn ended() -> (r: Self)
        ensures
            r.kind@ == "ended"@,
            r.line@.len() == 0,
    {
        LogEvent { kind: owned("ended"), line: String::new() }
    }
}

/// Live health snapshot for one cluster card. Counts are `None` when the
/// corresponding list was not permitted.
#[derive(Debug, Clone)]
pub struct ClusterSummary {
    pub reachable: bool,
    pub version: Option<String>,
    pub nodes_total: Option<u32>,
    pub nodes_ready: Option<u32>,
    pub pods_total: Option<u32>,
    pub pods_running: Option<u32>,
    pub namespaces: Option<u32>,
    pub deployments: Option<u32>,
    pub error: Option<String>,
}

impl ClusterSummary {
    /// An "unreachable" summary carrying only an error message.
    pub fn unreachable(err: &str) -> (r: Self)
        ensures
            !r.reachable,
            r.version is None,
            r.nodes_total is None,
            r.nodes_ready is None,
            r.pods_total is None,
            r.pods_running is None,
            r.namespaces is None,
            r.deployments is None,
            r.error matches Some(e) && e@ == err@,
    {
        ClusterSummary {
            reachable: false,
            version: None,
            nodes_total: None,
            nodes_ready: None,
            pods_total: None,
            pods_running: None,
            namespaces: None,
            deployments: None,
            error: Some(owned(err)),
        }
    }
}

} // verus!
