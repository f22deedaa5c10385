use kubefront_core::describe::{container_state, describe_pod};
use kubefront_core::error::CoreError;
use kubefront_core::kinds::{
    normalize_scope, plan_configmap_update, plan_delete, plan_describe, plan_get, plan_list,
    plan_restart, ListTarget, ResourceKind, RestartAction,
};
use kubefront_core::model::{
    Condition, Container, ContainerPort, ContainerState, ContainerStateTerminated,
    ContainerStateWaiting, ContainerStatus, Event, EventSource, Node, NodeStatus, NodeSystemInfo,
    ObjectMeta, Pod, PodSpec, PodStatus, ResourceRequirements,
};
use kubefront_core::pods::{node_is_ready, node_roles, node_row, pod_row, summarize, version_label};
use kubefront_core::resources::to_detail;

fn meta(name: &str, ns: Option<&str>) -> ObjectMeta {
    ObjectMeta {
        name: Some(name.to_string()),
        namespace: ns.map(|s| s.to_string()),
        creation_timestamp: None,
        labels: None,
        annotations: None,
    }
}

fn status(ready: bool, restarts: i32, name: &str) -> ContainerStatus {
    ContainerStatus { name: name.to_string(), ready, restart_count: restarts, state: None }
}

fn pod(phase: Option<&str>) -> Pod {
    Pod {
        metadata: meta("web-1", Some("apps")),
        spec: Some(PodSpec {
            containers: vec![
                Container { name: "app".into(), image: Some("nginx".into()), ports: None, resources: None },
                Container { name: "sidecar".into(), image: None, ports: None, resources: None },
            ],
            node_name: Some("node-a".into()),
            priority_class_name: None,
            service_account_name: None,
        }),
        status: Some(PodStatus {
            phase: phase.map(|p| p.to_string()),
            reason: None,
            pod_ip: None,
            qos_class: None,
            start_time: None,
            container_statuses: Some(vec![status(true, 2, "app"), status(false, 3, "sidecar")]),
            conditions: None,
        }),
    }
}

fn node(ready: Option<&str>, labels: Option<Vec<(String, String)>>) -> Node {
    let mut m = meta("n1", None);
    m.labels = labels;
    Node {
        metadata: m,
        status: Some(NodeStatus {
            conditions: ready.map(|r| {
                vec![
                    Condition { type_: "MemoryPressure".into(), status: "False".into() },
                    Condition { type_: "Ready".into(), status: r.into() },
                ]
            }),
            node_info: Some(NodeSystemInfo { kubelet_version: "v1.30.1+k3s1".into() }),
        }),
    }
}

#[test]
fn scope_normalization() {
    assert_eq!(normalize_scope(None), None);
    assert_eq!(normalize_scope(Some("All".into())), None);
    assert_eq!(normalize_scope(Some("   ".into())), None);
    assert_eq!(normalize_scope(Some("".into())), None);
    assert_eq!(normalize_scope(Some("kube-system".into())), Some("kube-system".into()));
    let once = normalize_scope(Some("apps".into()));
    assert_eq!(normalize_scope(once.clone()), once);
}

#[test]
fn kinds_parse_by_url_spelling() {
    assert_eq!(ResourceKind::parse("pods"), Some(ResourceKind::Pods));
    assert_eq!(ResourceKind::parse("clusterrolebindings"), Some(ResourceKind::ClusterRoleBindings));
    assert_eq!(ResourceKind::parse("widgets"), None);
    assert!(ResourceKind::Pods.is_namespaced());
    assert!(!ResourceKind::Nodes.is_namespaced());
    assert_eq!(ResourceKind::Deployments.short_kind(), "Deployment");
}

#[test]
fn listing_unknown_kind_is_refused() {
    match plan_list("widgets", None) {
        Err(CoreError::Other(m)) => assert_eq!(m, "Unknown resource kind: widgets"),
        _ => panic!("expected a refusal"),
    }
}

#[test]
fn listing_targets_follow_scope() {
    match plan_list("deployments", Some("apps".into())) {
        Ok((ResourceKind::Deployments, ListTarget::Namespace(ns))) => assert_eq!(ns, "apps"),
        _ => panic!("expected a namespaced listing"),
    }
    assert!(matches!(
        plan_list("deployments", None),
        Ok((ResourceKind::Deployments, ListTarget::AllNamespaces))
    ));
    assert!(matches!(
        plan_list("storageclasses", Some("apps".into())),
        Ok((ResourceKind::StorageClasses, ListTarget::Cluster))
    ));
}

#[test]
fn namespaced_get_needs_a_namespace() {
    match plan_get("configmaps", None, "cm") {
        Err(CoreError::Other(m)) => assert_eq!(m, "A namespace is required for this resource"),
        _ => panic!("expected a refusal"),
    }
    let r = plan_get("configmaps", Some("apps"), "cm").unwrap();
    assert_eq!(r.kind, ResourceKind::ConfigMaps);
    assert_eq!(r.namespace, Some("apps".to_string()));
    assert_eq!(r.name, "cm");
    let n = plan_get("nodes", Some("apps"), "n1").unwrap();
    assert_eq!(n.namespace, None);
}

#[test]
fn nodes_are_never_deleted() {
    match plan_delete("nodes", None, "n1") {
        Err(CoreError::Other(m)) => assert_eq!(m, "Deleting 'nodes' is not supported"),
        _ => panic!("expected a refusal"),
    }
    assert!(plan_delete("pods", Some("apps"), "p").is_ok());
}

#[test]
fn restarting_a_pod_deletes_it() {
    match plan_restart("pods", Some("apps"), "p").unwrap() {
        RestartAction::Delete(o) => {
            assert_eq!(o.kind, ResourceKind::Pods);
            assert_eq!(o.name, "p");
        }
        _ => panic!("expected a delete"),
    }
    assert!(matches!(
        plan_restart("deployments", Some("apps"), "d").unwrap(),
        RestartAction::Rollout(_)
    ));
    match plan_restart("services", Some("apps"), "s") {
        Err(CoreError::Other(m)) => assert_eq!(m, "Restarting 'services' is not supported"),
        _ => panic!("expected a refusal"),
    }
}

#[test]
fn describe_and_configmap_edits_need_a_namespace() {
    match plan_describe("All", "p") {
        Err(CoreError::Other(m)) => assert_eq!(m, "A namespace is required to describe a pod"),
        _ => panic!("expected a refusal"),
    }
    let (ns, sel) = plan_describe("apps", "web-1").unwrap();
    assert_eq!(ns, "apps");
    assert_eq!(sel, "involvedObject.kind=Pod,involvedObject.name=web-1");
    match plan_configmap_update(" ", vec![]) {
        Err(CoreError::Other(m)) => assert_eq!(m, "A namespace is required to edit a configmap"),
        _ => panic!("expected a refusal"),
    }
    let (ns, data) = plan_configmap_update("apps", vec![]).unwrap();
    assert_eq!(ns, "apps");
    assert!(data.is_none());
    let (_, data) = plan_configmap_update("apps", vec![("k".into(), "v".into())]).unwrap();
    assert_eq!(data, Some(vec![("k".to_string(), "v".to_string())]));
}

#[test]
fn pod_rows_count_ready_and_restarts() {
    let row = pod_row(&pod(Some("Running")));
    assert_eq!(row.name, "web-1");
    assert_eq!(row.namespace, "apps");
    assert_eq!(row.phase, "Running");
    assert_eq!(row.ready, "1/2");
    assert_eq!(row.restarts, 5);
    assert_eq!(row.age, "-");
    assert_eq!(row.node, "node-a");
    assert_eq!(row.containers, vec!["app".to_string(), "sidecar".to_string()]);
}

#[test]
fn bare_pod_row_uses_defaults() {
    let p = Pod {
        metadata: ObjectMeta { name: None, namespace: None, creation_timestamp: None, labels: None, annotations: None },
        spec: None,
        status: None,
    };
    let row = pod_row(&p);
    assert_eq!(row.name, "unknown");
    assert_eq!(row.namespace, "default");
    assert_eq!(row.phase, "Unknown");
    assert_eq!(row.ready, "0/0");
    assert_eq!(row.restarts, 0);
    assert_eq!(row.node, "-");
    assert!(row.containers.is_empty());
}

#[test]
fn node_rows_read_ready_condition_and_roles() {
    let cp = Some(vec![("node-role.kubernetes.io/control-plane".to_string(), "".to_string())]);
    let n = node(Some("True"), cp);
    assert!(node_is_ready(&n));
    assert_eq!(node_roles(&n), "control-plane");
    let row = node_row(&n);
    assert_eq!(row.name, "n1");
    assert_eq!(row.status, "Ready");
    assert_eq!(row.roles, "control-plane");
    assert_eq!(row.version, "v1.30.1+k3s1");
    let w = node(Some("False"), None);
    assert!(!node_is_ready(&w));
    assert_eq!(node_row(&w).status, "NotReady");
    assert_eq!(node_row(&w).roles, "worker");
    assert_eq!(node_row(&node(None, None)).status, "Unknown");
}

#[test]
fn version_label_falls_back_to_major_minor() {
    assert_eq!(version_label("v1.29.4+k3s1", "1", "29"), "v1.29.4+k3s1");
    assert_eq!(version_label("", "1", "29"), "v1.29");
}

#[test]
fn summary_counts_ready_nodes_and_running_pods() {
    let nodes = vec![node(Some("True"), None), node(Some("False"), None), node(Some("True"), None)];
    let pods = vec![pod(Some("Running")), pod(Some("Pending")), pod(Some("Running"))];
    let s = summarize(Ok("v1.30.0".into()), Some(nodes), Some(pods), Some(4), None);
    assert!(s.reachable);
    assert_eq!(s.version, Some("v1.30.0".to_string()));
    assert_eq!(s.nodes_total, Some(3));
    assert_eq!(s.nodes_ready, Some(2));
    assert_eq!(s.pods_total, Some(3));
    assert_eq!(s.pods_running, Some(2));
    assert_eq!(s.namespaces, Some(4));
    assert_eq!(s.deployments, None);
    assert_eq!(s.error, None);
}

#[test]
fn unreachable_summary_carries_the_error() {
    let s = summarize(Err(CoreError::Upstream("connection refused".into())), None, None, None, None);
    assert!(!s.reachable);
    assert_eq!(s.error, Some("connection refused".to_string()));
    assert_eq!(s.nodes_total, None);
}

#[test]
fn container_states_name_their_detail() {
    let mut cs = status(false, 0, "app");
    assert_eq!(container_state(&cs), ("Unknown".to_string(), None));
    cs.state = Some(ContainerState {
        running: None,
        waiting: Some(ContainerStateWaiting { reason: Some("CrashLoopBackOff".into()), message: Some("back-off".into()) }),
        terminated: None,
    });
    assert_eq!(
        container_state(&cs),
        ("Waiting (CrashLoopBackOff)".to_string(), Some("Message: back-off".to_string()))
    );
    cs.state = Some(ContainerState {
        running: None,
        waiting: None,
        terminated: Some(ContainerStateTerminated { reason: None, exit_code: 137 }),
    });
    assert_eq!(
        container_state(&cs),
        ("Terminated ()".to_string(), Some("Exit Code: 137".to_string()))
    );
}

#[test]
fn describe_renders_kubectl_style_report() {
    let mut p = pod(Some("Running"));
    p.metadata.labels = Some(vec![("app".into(), "web".into()), ("tier".into(), "front".into())]);
    if let Some(spec) = p.spec.as_mut() {
        spec.containers[0].ports = Some(vec![
            ContainerPort { container_port: 80, protocol: None },
            ContainerPort { container_port: 53, protocol: Some("UDP".into()) },
        ]);
        spec.containers[0].resources = Some(ResourceRequirements {
            requests: Some(vec![("cpu".into(), "100m".into())]),
            limits: None,
        });
    }
    if let Some(st) = p.status.as_mut() {
        st.conditions = Some(vec![Condition { type_: "Ready".into(), status: "True".into() }]);
    }
    let events = vec![Event {
        type_: Some("Warning".into()),
        reason: Some("BackOff".into()),
        message: Some("  restarting  ".into()),
        first_timestamp: None,
        last_timestamp: None,
        count: Some(3),
        source: Some(EventSource { component: Some("kubelet".into()) }),
    }];
    let text = describe_pod(&p, &events);
    let expected_lines = [
        "Name:             web-1\n",
        "Namespace:        apps\n",
        "Node:             node-a\n",
        "Labels:           app=web\n",
        "                  tier=front\n",
        "Annotations:      <none>\n",
        "Status:           Running\n",
        "Containers:\n",
        "  app:\n",
        "    Image:          nginx\n",
        "    Port(s):        80/TCP, 53/UDP\n",
        "    State:          Unknown\n",
        "    Ready:          true\n",
        "    Restart Count:  2\n",
        "    Requests:\n",
        "      cpu: 100m\n",
        "  sidecar:\n",
        "    Image:          -\n",
        "    State:          Unknown\n",
        "    Ready:          false\n",
        "    Restart Count:  3\n",
        "Conditions:\n",
        "  Type              Status\n",
        "  Ready             True\n",
        "Events:\n",
        "  Type    Reason                Age    From                    Message\n",
        "  Warning BackOff               - (x3) kubelet                 restarting\n",
    ];
    let expected = expected_lines.concat();
    assert_eq!(text, expected);
}

#[test]
fn describe_without_events_says_none() {
    let p = Pod { metadata: meta("p", None), spec: None, status: None };
    let text = describe_pod(&p, &vec![]);
    assert_eq!(
        text,
        "Name:             p\nNamespace:        -\nLabels:           <none>\nAnnotations:      <none>\nEvents:\n  <none>\n"
    );
}

#[test]
fn detail_keeps_metadata_and_manifest() {
    let mut m = meta("cm", Some("apps"));
    m.labels = Some(vec![("app".into(), "web".into())]);
    let d = to_detail(&m, "configmaps", Ok("{}".into())).unwrap();
    assert_eq!(d.kind, "configmaps");
    assert_eq!(d.name, "cm");
    assert_eq!(d.namespace, Some("apps".to_string()));
    assert_eq!(d.age, "-");
    assert_eq!(d.labels, vec![("app".to_string(), "web".to_string())]);
    assert!(d.annotations.is_empty());
    assert_eq!(d.manifest, "{}");
    match to_detail(&m, "configmaps", Err("bad".into())) {
        Err(CoreError::Other(e)) => assert_eq!(e, "bad"),
        _ => panic!("expected the serializer's error"),
    }
}

#[test]
fn events_are_listed_oldest_first() {
    let ev = |stamp: &str, reason: &str| Event {
        type_: Some("Normal".into()),
        reason: Some(reason.into()),
        message: Some("m".into()),
        first_timestamp: None,
        last_timestamp: Some(stamp.into()),
        count: None,
        source: None,
    };
    let p = Pod { metadata: meta("p", Some("ns")), spec: None, status: None };
    let text = describe_pod(&p, &vec![ev("t2", "Second"), ev("t1", "First"), ev("t2", "Third")]);
    let first = text.find("First").unwrap();
    let second = text.find("Second").unwrap();
    let third = text.find("Third").unwrap();
    assert!(first < second && second < third);
    assert!(text.contains("  Normal  First                 t1     -                       m\n"));
}
