use kubefront_core::backend::{guard_writable, host_of, is_loopback_name, log_tail, resolve_ns, ApiError};
use kubefront_core::config::{
    default_base_path, default_listen, default_tail, default_timeout, is_valid_id, BackendConfig,
    ConnectionConfig,
};

fn conn(id: &str) -> ConnectionConfig {
    ConnectionConfig {
        id: id.to_string(),
        name: String::new(),
        kubeconfig: "/k".to_string(),
        context: "d".to_string(),
        namespace: None,
        read_only: false,
    }
}

fn config(ids: &[&str]) -> BackendConfig {
    BackendConfig {
        listen: default_listen(),
        base_path: default_base_path(),
        request_timeout_secs: default_timeout(),
        log_request_tail: default_tail(),
        connections: ids.iter().map(|i| conn(i)).collect(),
    }
}

#[test]
fn valid_ids() {
    assert!(is_valid_id("connection1"));
    assert!(is_valid_id("k3s-server-1"));
    assert!(is_valid_id("a"));
}

#[test]
fn invalid_ids() {
    assert!(!is_valid_id(""));
    assert!(!is_valid_id("-leading"));
    assert!(!is_valid_id("Upper"));
    assert!(!is_valid_id("has space"));
    assert!(!is_valid_id("under_score"));
    assert!(!is_valid_id(&"x".repeat(64)));
}

#[test]
fn longest_valid_id_has_63_characters() {
    assert!(is_valid_id(&"x".repeat(63)));
    assert!(is_valid_id("0abc"));
}

#[test]
fn parses_example_shape() {
    let mut cfg = config(&["c1"]);
    cfg.listen = "127.0.0.1:9000".to_string();
    cfg.connections[0].kubeconfig = "/tmp/kc.yaml".to_string();
    cfg.connections[0].context = "default".to_string();
    assert_eq!(cfg.listen, "127.0.0.1:9000");
    assert_eq!(cfg.base_path, "/");
    assert_eq!(cfg.connections.len(), 1);
    assert_eq!(cfg.connections[0].id, "c1");
    assert!(!cfg.connections[0].read_only);
    cfg.validate().unwrap();
}

#[test]
fn rejects_reserved_and_dup_ids() {
    let api = config(&["api"]);
    assert!(api.validate().is_err());
    let dup = config(&["c", "c"]);
    assert!(dup.validate().is_err());
}

#[test]
fn validation_messages_name_the_first_problem() {
    assert_eq!(
        config(&["ok", "api"]).validate().unwrap_err(),
        "connection id must not be 'api' (it would collide with the /<id>/api/ route)"
    );
    assert_eq!(
        config(&["Bad"]).validate().unwrap_err(),
        "invalid connection id 'Bad': must match ^[a-z0-9][a-z0-9-]{0,62}$"
    );
    assert_eq!(
        config(&["c", "d", "c", "Bad"]).validate().unwrap_err(),
        "duplicate connection id 'c'"
    );
    assert!(config(&[]).validate().is_ok());
}

#[test]
fn defaults_are_documented_values() {
    assert_eq!(default_listen(), "127.0.0.1:8080");
    assert_eq!(default_base_path(), "/");
    assert_eq!(default_timeout(), 15);
    assert_eq!(default_tail(), 200);
}

#[test]
fn connection_lookup_by_id() {
    let cfg = config(&["a", "b"]);
    assert_eq!(cfg.connection_index("b"), Some(1));
    assert_eq!(cfg.connection_index("z"), None);
}

#[test]
fn request_namespace_resolution() {
    let mut c = conn("a");
    c.namespace = Some("apps".to_string());
    assert_eq!(resolve_ns(None, &c), Some("apps".to_string()));
    assert_eq!(resolve_ns(Some("All".to_string()), &c), None);
    assert_eq!(resolve_ns(Some("web".to_string()), &c), Some("web".to_string()));
    c.namespace = Some("  ".to_string());
    assert_eq!(resolve_ns(None, &c), None);
}

#[test]
fn read_only_connections_refuse_writes() {
    let mut c = conn("a");
    assert!(guard_writable(&c).is_ok());
    c.read_only = true;
    assert!(matches!(guard_writable(&c), Err(ApiError::ReadOnly)));
}

#[test]
fn requested_log_tail_wins() {
    assert_eq!(log_tail(Some(50), 200), 50);
    assert_eq!(log_tail(None, 200), 200);
}

#[test]
fn listen_host_and_loopback() {
    assert_eq!(host_of("127.0.0.1:8080"), "127.0.0.1");
    assert_eq!(host_of("[::1]:8080"), "[::1]");
    assert!(is_loopback_name("localhost:8080"));
    assert!(!is_loopback_name("0.0.0.0:8080"));
}

#[test]
fn read_only_refusal_is_forbidden() {
    let mut c = conn("a");
    c.read_only = true;
    match guard_writable(&c) {
        Err(e) => {
            let (code, body) = e.status_and_body();
            assert_eq!(code, 403);
            assert_eq!(body.error, "This connection is read-only");
        }
        Ok(()) => panic!("expected a refusal"),
    }
}
