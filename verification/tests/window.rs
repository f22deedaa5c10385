use kubefront_core::error::CoreError;
use kubefront_core::manager::{ClusterEntry, ContextBody, ContextEntry, KubeConfigManager, Kubeconfig};
use kubefront_core::session::finish_direct_connect;
use kubefront_core::settings::AppState;
use kubefront_core::backend::ClientSlot;
use kubefront_core::keys::{insert_key, key_map, str_lt};
use kubefront_core::model::{ObjectMeta, Pod};
use kubefront_core::terminal::Terminals;
use kubefront_core::viewer::pod_namespaces;
use kubefront_core::window::{
    after_kubeconfig_load, apply_connect_outcome, choose_container, deliver_log_error,
    deliver_log_line, pane_index, pick_context, refresh_due, ConnectOutcome, Connection, LoadSource,
    LogPane,
};

fn manager() -> KubeConfigManager {
    let mut m = KubeConfigManager::new();
    m.populate_from(
        Kubeconfig {
            current_context: Some("dev".into()),
            clusters: vec![ClusterEntry { name: "c".into(), server: Some("https://c:6443".into()) }],
            contexts: vec![ContextEntry {
                name: "dev".into(),
                context: Some(ContextBody { cluster: "c".into(), namespace: None }),
            }],
        },
        Some("/home/me/.kube/config".into()),
    );
    m
}

fn idle() -> Connection {
    Connection { connected: false, cluster_version: None, last_error: Some("old".into()) }
}

#[test]
fn connected_outcome_connects_and_remembers() {
    let m = manager();
    let mut conn = idle();
    let mut s = AppState::default();
    apply_connect_outcome(&mut conn, &mut s, &m, ConnectOutcome::Connected(Some("v1.30.2+k3s1".into())));
    assert!(conn.connected);
    assert_eq!(conn.cluster_version, Some("v1.30.2+k3s1".to_string()));
    assert_eq!(conn.last_error, None);
    assert_eq!(s.last_kubeconfig_path, Some("/home/me/.kube/config".to_string()));
    assert_eq!(s.last_context, Some("dev".to_string()));
}

#[test]
fn connected_without_a_version_says_connected() {
    let m = manager();
    let mut conn = idle();
    let mut s = AppState::default();
    apply_connect_outcome(&mut conn, &mut s, &m, ConnectOutcome::Connected(None));
    assert_eq!(conn.cluster_version, Some("connected".to_string()));
}

#[test]
fn failed_outcome_disconnects_and_shows_the_error() {
    let m = manager();
    let mut conn = Connection { connected: true, cluster_version: Some("v1".into()), last_error: None };
    let mut s = AppState::default();
    apply_connect_outcome(&mut conn, &mut s, &m, ConnectOutcome::Failed("refused".into()));
    assert!(!conn.connected);
    assert_eq!(conn.cluster_version, None);
    assert_eq!(conn.last_error, Some("refused".to_string()));
    assert_eq!(s.last_kubeconfig_path, None);
    assert_eq!(s.last_context, None);
}

#[test]
fn kubeconfig_load_outcomes() {
    let mut conn = Connection { connected: true, cluster_version: Some("v1".into()), last_error: Some("x".into()) };
    assert!(after_kubeconfig_load(&mut conn, LoadSource::Default, Ok(())));
    assert!(!conn.connected);
    assert_eq!(conn.last_error, None);

    let mut conn = idle();
    assert!(!after_kubeconfig_load(&mut conn, LoadSource::Picked("/tmp/kc.yaml".into()), Err("bad yaml".into())));
    assert_eq!(conn.last_error, Some("Failed to load /tmp/kc.yaml: bad yaml".to_string()));
    assert!(!after_kubeconfig_load(&mut conn, LoadSource::Default, Err("no file".into())));
    assert_eq!(conn.last_error, Some("Default load failed: no file".to_string()));
    assert!(!after_kubeconfig_load(&mut conn, LoadSource::K3s, Err("permission denied".into())));
    assert_eq!(
        conn.last_error,
        Some(
            "K3S path (/etc/rancher/k3s/k3s.yaml) load failed: permission denied — copy to ~/.kube/config or fix perms"
                .to_string()
        )
    );
}

#[test]
fn auto_refresh_after_five_seconds() {
    assert!(!refresh_due(true, true, 5, 0));
    assert!(refresh_due(true, true, 5, 1));
    assert!(refresh_due(true, true, 6, 0));
    assert!(!refresh_due(true, true, 4, 999_999_999));
    assert!(!refresh_due(false, true, 60, 0));
    assert!(!refresh_due(true, false, 60, 0));
}

#[test]
fn finishing_a_direct_connection() {
    let m = manager();
    let mut s = AppState::default();
    s.register_kubeconfig("/home/me/.kube/config".into());
    assert_eq!(finish_direct_connect(&mut s, &m, "https://c:6443", Ok(())), None);
    assert_eq!(s.last_context, Some("dev".to_string()));
    assert_eq!(s.kubeconfigs[0].last_context, Some("dev".to_string()));

    let mut fresh = AppState::default();
    assert_eq!(
        finish_direct_connect(&mut fresh, &m, "https://c:6443", Err(CoreError::Upstream("refused".into()))),
        Some("Failed to connect to https://c:6443: refused".to_string())
    );
    assert_eq!(fresh.last_context, None);
}

#[test]
fn picking_a_context_disconnects() {
    let mut m = manager();
    let mut conn = Connection { connected: true, cluster_version: Some("v1".into()), last_error: Some("e".into()) };
    pick_context(&mut m, &mut conn, "other".into());
    assert_eq!(m.current_context, Some("other".to_string()));
    assert_eq!(m.path, Some("/home/me/.kube/config".to_string()));
    assert!(!conn.connected);
    assert_eq!(conn.cluster_version, None);
    assert_eq!(conn.last_error, Some("e".to_string()));
}

fn pane(id: usize, lines: &[&str]) -> LogPane {
    LogPane {
        id,
        lines: lines.iter().map(|l| l.to_string()).collect(),
        selected_container: None,
        pending_reconnect: false,
    }
}

#[test]
fn log_lines_reach_their_window() {
    let mut panes = vec![pane(1, &["a"]), pane(2, &[]), pane(2, &["x"])];
    assert_eq!(pane_index(&panes, 2), Some(1));
    assert_eq!(pane_index(&panes, 9), None);
    deliver_log_line(&mut panes, 2, "hello".into());
    assert_eq!(panes[1].lines, vec!["hello".to_string()]);
    assert_eq!(panes[0].lines, vec!["a".to_string()]);
    assert_eq!(panes[2].lines, vec!["x".to_string()]);
    deliver_log_error(&mut panes, 1, "stream closed");
    assert_eq!(panes[0].lines, vec!["a".to_string(), "[ERROR] stream closed".to_string()]);
    deliver_log_line(&mut panes, 9, "lost".into());
    assert_eq!(panes.len(), 3);
    assert_eq!(panes[1].lines.len(), 1);
}

#[test]
fn a_full_log_window_is_cut_back() {
    let lines: Vec<String> = (0..5000).map(|i| i.to_string()).collect();
    let mut panes = vec![LogPane { id: 7, lines, selected_container: None, pending_reconnect: false }];
    deliver_log_line(&mut panes, 7, "new".into());
    assert_eq!(panes[0].lines.len(), 4000);
    assert_eq!(panes[0].lines[0], "1001");
    assert_eq!(panes[0].lines[3999], "new");
}

#[test]
fn choosing_a_container_reopens_the_stream() {
    let mut p = pane(1, &["a"]);
    choose_container(&mut p, "sidecar");
    assert_eq!(p.selected_container, Some("sidecar".to_string()));
    assert!(p.pending_reconnect);
    p.pending_reconnect = false;
    choose_container(&mut p, "sidecar");
    assert!(!p.pending_reconnect);
    choose_container(&mut p, "app");
    assert_eq!(p.selected_container, Some("app".to_string()));
    assert!(p.pending_reconnect);
    assert_eq!(p.lines, vec!["a".to_string()]);
}

fn pod_in(ns: Option<&str>) -> Pod {
    Pod {
        metadata: ObjectMeta {
            name: Some("p".into()),
            namespace: ns.map(|n| n.to_string()),
            creation_timestamp: None,
            labels: None,
            annotations: None,
        },
        spec: None,
        status: None,
    }
}

#[test]
fn pod_namespace_choices_are_sorted_and_unique() {
    let pods = vec![pod_in(Some("kube-system")), pod_in(None), pod_in(Some("apps")), pod_in(Some("kube-system")), pod_in(Some("Zeta"))];
    assert_eq!(
        pod_namespaces(&pods),
        vec!["Zeta".to_string(), "apps".to_string(), "default".to_string(), "kube-system".to_string()]
    );
    assert!(pod_namespaces(&vec![]).is_empty());
}

#[test]
fn text_order_is_string_order() {
    assert!(str_lt("a", "b"));
    assert!(str_lt("ab", "abc"));
    assert!(!str_lt("abc", "ab"));
    assert!(!str_lt("same", "same"));
    assert!(str_lt("Z", "a"));
    assert!(str_lt("é", "ê"));
    assert!(str_lt("z", "é"));
    for (a, b) in [("kube", "kube-system"), ("b", "a"), ("ñ", "n"), ("", "")] {
        assert_eq!(str_lt(a, b), a < b);
    }
}

#[test]
fn key_map_sorts_and_keeps_the_last_value() {
    let m = key_map(vec![
        ("tier".to_string(), "web".to_string()),
        ("app".to_string(), "shop".to_string()),
        ("tier".to_string(), "api".to_string()),
    ]);
    assert_eq!(
        m,
        vec![("app".to_string(), "shop".to_string()), ("tier".to_string(), "api".to_string())]
    );
    let mut sorted = vec![("b".to_string(), "1".to_string())];
    insert_key(&mut sorted, "a".into(), "2".into());
    insert_key(&mut sorted, "b".into(), "3".into());
    assert_eq!(sorted, vec![("a".to_string(), "2".to_string()), ("b".to_string(), "3".to_string())]);
}

#[test]
fn client_slot_keeps_the_first_client() {
    let mut slot: ClientSlot<u32> = ClientSlot::new();
    assert_eq!(slot.get(), None);
    assert_eq!(slot.fill(Err::<u32, String>("refused".into())), Some("refused".to_string()));
    assert_eq!(slot.get(), None);
    assert_eq!(slot.fill(Ok::<u32, String>(7)), None);
    assert_eq!(slot.get(), Some(&7));
}

#[test]
fn terminal_ids_count_up_and_close() {
    let mut t = Terminals::new();
    let a = t.reserve_id();
    let b = t.reserve_id();
    assert_eq!((a, b), (0, 1));
    assert!(!t.is_open(a));
    t.register(a);
    t.register(b);
    assert!(t.is_open(a) && t.is_open(b));
    t.close(a);
    assert!(!t.is_open(a));
    assert!(t.is_open(b));
    t.close(a);
    assert!(t.is_open(b));
    assert_eq!(t.reserve_id(), 2);
}
