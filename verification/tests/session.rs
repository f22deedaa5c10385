use kubefront_core::dto::BackendStatus;
use kubefront_core::error::CoreError;
use kubefront_core::manager::{
    detect_k3s, ClusterEntry, ContextBody, ContextEntry, KubeConfigManager, Kubeconfig,
};
use kubefront_core::session::{
    adopt_loaded_kubeconfig, ca_file_to_read, connect_failure_message, last_context_of,
    load_failure_message, log_file_path, log_filter, open_context, plan_direct_connect,
    preferred_kubeconfig_path, probe_status, record_direct_connection, register_effective,
    select_context, status_report, Active,
};
use kubefront_core::settings::AppState;

fn kubeconfig() -> Kubeconfig {
    Kubeconfig {
        current_context: Some("prod".into()),
        clusters: vec![
            ClusterEntry { name: "edge".into(), server: Some("https://10.0.0.5:6443".into()) },
            ClusterEntry { name: "big".into(), server: Some("https://api.example.com".into()) },
        ],
        contexts: vec![
            ContextEntry {
                name: "prod".into(),
                context: Some(ContextBody { cluster: "big".into(), namespace: Some("shop".into()) }),
            },
            ContextEntry {
                name: "edge".into(),
                context: Some(ContextBody { cluster: "edge".into(), namespace: None }),
            },
            ContextEntry { name: "broken".into(), context: None },
        ],
    }
}

fn loaded() -> KubeConfigManager {
    let mut m = KubeConfigManager::new();
    m.populate_from(kubeconfig(), Some("/k/config".into()));
    m
}

#[test]
fn k3s_heuristic() {
    assert!(detect_k3s("edge", "edge", "https://10.0.0.5:6443"));
    assert!(detect_k3s("my-k3s", "c", "https://x"));
    assert!(detect_k3s("K3D-dev", "c", "https://x"));
    assert!(detect_k3s("a", "b", "https://LOCALHOST:8443"));
    assert!(!detect_k3s("prod", "big", "https://api.example.com"));
}

#[test]
fn loading_lists_contexts_with_servers() {
    let m = loaded();
    assert_eq!(m.contexts.len(), 3);
    assert_eq!(m.contexts[0].name, "prod");
    assert_eq!(m.contexts[0].cluster, "big");
    assert_eq!(m.contexts[0].server, "https://api.example.com");
    assert!(!m.contexts[0].is_k3s);
    assert!(m.contexts[1].is_k3s);
    assert_eq!(m.contexts[2].cluster, "unknown");
    assert_eq!(m.contexts[2].server, "");
    assert_eq!(m.current_context, Some("prod".to_string()));
    assert_eq!(m.effective_context(), Some("prod"));
    assert_eq!(m.current_context_namespace(), Some("shop".to_string()));
    assert_eq!(m.current_info().map(|i| i.server.clone()), Some("https://api.example.com".to_string()));
}

#[test]
fn first_context_is_used_without_a_current_one() {
    let mut kc = kubeconfig();
    kc.current_context = None;
    let mut m = KubeConfigManager::new();
    m.populate_from(kc, None);
    assert_eq!(m.current_context, Some("prod".to_string()));
    let opts = m.current_kubeconfig_options().unwrap();
    assert_eq!(opts.context, Some("prod".to_string()));
    assert!(opts.cluster.is_none() && opts.user.is_none());
    assert!(KubeConfigManager::new().current_kubeconfig_options().is_none());
}

#[test]
fn selecting_contexts() {
    let mut m = loaded();
    assert!(!select_context(&mut m, "nope"));
    assert_eq!(m.current_context, Some("prod".to_string()));
    assert!(select_context(&mut m, "edge"));
    assert_eq!(m.current_context, Some("edge".to_string()));
    assert_eq!(
        open_context(&mut m, "gone").unwrap_err(),
        "Context 'gone' not found in the kubeconfig"
    );
    assert!(open_context(&mut m, "prod").is_ok());
}

#[test]
fn local_status_reports_the_kubeconfig() {
    let m = loaded();
    let s = AppState::default();
    let st = status_report(&None, &m, &s, Some("boom".into()));
    assert!(!st.connected);
    assert_eq!(st.cluster_version, None);
    assert_eq!(st.current_context, Some("prod".to_string()));
    assert_eq!(st.kubeconfig_path, Some("/k/config".to_string()));
    assert_eq!(st.context_count, 3);
    assert_eq!(st.contexts.len(), 3);
    assert_eq!(st.error, Some("boom".to_string()));
    let active = Some(Active::Local { cluster_version: "v1.30.0".into() });
    let st = status_report(&active, &m, &s, None);
    assert!(st.connected);
    assert_eq!(st.cluster_version, Some("v1.30.0".to_string()));
}

#[test]
fn remote_status_reports_the_endpoint() {
    let m = loaded();
    let mut s = AppState::default();
    let id = s.register_kubeconfig("/k/edge.yaml".into());
    s.set_active_kubeconfig(&id);
    let active = Some(Active::Remote {
        cluster_version: "v1.29.4+k3s1".into(),
        endpoint: "https://host/k3s/c1".into(),
    });
    let st = status_report(&active, &m, &s, None);
    assert!(st.connected);
    assert_eq!(st.current_context, Some("edge.yaml".to_string()));
    assert_eq!(st.kubeconfig_path, Some("https://host/k3s/c1".to_string()));
    assert_eq!(st.context_count, 0);
    assert!(st.contexts.is_empty());
    assert_eq!(active.as_ref().unwrap().endpoint(), Some("https://host/k3s/c1"));
}

#[test]
fn direct_connection_plan() {
    let m = loaded();
    let plan = plan_direct_connect(&m).unwrap();
    assert_eq!(plan.context, "prod");
    assert_eq!(plan.server, "https://api.example.com");
    assert_eq!(plan.options.context, Some("prod".to_string()));
    assert_eq!(
        plan_direct_connect(&KubeConfigManager::new()).unwrap_err(),
        "No context selected in kubeconfig"
    );
    let mut no_file = KubeConfigManager::new();
    no_file.current_context = Some("x".into());
    assert_eq!(plan_direct_connect(&no_file).unwrap_err(), "No kubeconfig loaded");
}

#[test]
fn connection_failures_explain_themselves() {
    assert_eq!(
        connect_failure_message("https://a:6443", &CoreError::Upstream("refused".into())),
        "Failed to connect to https://a:6443: refused"
    );
    assert!(connect_failure_message("https://a", &CoreError::Timeout("t".into()))
        .starts_with("Connection to https://a timed out after 15s. Common causes:"));
    assert_eq!(load_failure_message(Some("/k"), "bad"), "Failed to load kubeconfig /k: bad");
    assert_eq!(load_failure_message(None, "bad"), "Failed to load default kubeconfig: bad");
}

#[test]
fn successful_connection_is_recorded() {
    let m = loaded();
    let mut s = AppState::default();
    s.register_kubeconfig("/other".into());
    s.register_kubeconfig("/k/config".into());
    record_direct_connection(&mut s, &m);
    assert_eq!(s.last_kubeconfig_path, Some("/k/config".to_string()));
    assert_eq!(s.last_context, Some("prod".to_string()));
    assert_eq!(s.kubeconfigs[1].last_context, Some("prod".to_string()));
    assert_eq!(s.kubeconfigs[0].last_context, None);
    assert_eq!(last_context_of(&s, "/k/config"), Some("prod".to_string()));
    assert_eq!(last_context_of(&s, "/nope"), None);
}

#[test]
fn startup_preferences() {
    let mut s = AppState::default();
    assert_eq!(preferred_kubeconfig_path(&s), None);
    s.last_kubeconfig_path = Some("/last".into());
    assert_eq!(preferred_kubeconfig_path(&s), Some("/last"));
    s.active_kubeconfig_path = Some("/active".into());
    assert_eq!(preferred_kubeconfig_path(&s), Some("/active"));
    register_effective(&mut s);
    assert_eq!(s.kubeconfigs.len(), 1);
    assert_eq!(s.kubeconfigs[0].path, "/last");
    let mut empty = AppState::default();
    register_effective(&mut empty);
    assert!(empty.kubeconfigs.is_empty());
}

#[test]
fn switching_restores_the_last_context() {
    let mut m = loaded();
    let mut s = AppState::default();
    let id = s.register_kubeconfig("/k/config".into());
    adopt_loaded_kubeconfig(&mut s, &mut m, &id, "/k/config", Some("edge".into()));
    assert_eq!(s.active_kubeconfig_id, Some(id.clone()));
    assert_eq!(s.last_kubeconfig_path, Some("/k/config".to_string()));
    assert_eq!(m.current_context, Some("edge".to_string()));
    adopt_loaded_kubeconfig(&mut s, &mut m, &id, "/k/config", Some("vanished".into()));
    assert_eq!(m.current_context, Some("edge".to_string()));
}

#[test]
fn probing_a_backend() {
    let ok = probe_status(
        "https://b".into(),
        Ok(BackendStatus { connected: true, cluster_version: "v1".into(), namespace: None }),
    );
    assert!(ok.connected);
    assert_eq!(ok.cluster_version, Some("v1".to_string()));
    assert_eq!(ok.kubeconfig_path, Some("https://b".to_string()));
    let bad = probe_status("https://b".into(), Err("refused".into()));
    assert!(!bad.connected);
    assert_eq!(bad.error, Some("refused".to_string()));
}

#[test]
fn blank_ca_path_is_not_read() {
    assert_eq!(ca_file_to_read(&None), None);
    assert_eq!(ca_file_to_read(&Some("  ".into())), None);
    assert_eq!(ca_file_to_read(&Some("/ca.pem".into())), Some("/ca.pem"));
}

#[test]
fn log_filter_levels() {
    assert_eq!(log_filter("debug"), "kube_front=debug,kube=warn");
    assert_eq!(log_filter("loud"), "kube_front=info,kube=warn");
}

#[test]
fn log_file_lives_in_the_log_dir() {
    assert_eq!(log_file_path(None), None);
    let p = log_file_path(Some("/var/log/kf")).unwrap();
    assert!(p.starts_with("/var/log/kf"));
    assert!(p.ends_with("kubefront.log"));
}
