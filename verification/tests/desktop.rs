use kubefront_core::azure::{
    aks_from, aks_kubeconfig_file_name, aks_list_args, exit_failure, first_meaningful_line,
    get_credentials_args, kubelogin_args, looks_missing, sanitize, spawn_failure, status_from,
    subscription_from, AccountProbe, AzError, RawAks, RawSubscription,
};
use kubefront_core::backend::ApiError;
use kubefront_core::dto::{ClusterSummary, LogEvent};
use kubefront_core::error::CoreError;
use kubefront_core::model::{ObjectMeta, Pod, PodStatus};
use kubefront_core::remote::{backend_error_text, endpoint_base, ns_param, sse_payload, take_line, url};
use kubefront_core::terminal::{banner, kubectl_source, pty_dims, scoped_kubeconfig_name, TerminalEvent};
use kubefront_core::viewer::{
    line_visible, log_error_line, log_stream_header, phase_color, pod_status, pod_visible,
    push_log_line, since_label, visible_text,
};

#[test]
fn log_events_carry_their_kind() {
    let h = LogEvent::header("--- start ---");
    assert_eq!((h.kind.as_str(), h.line.as_str()), ("header", "--- start ---"));
    let l = LogEvent::line("hello");
    assert_eq!((l.kind.as_str(), l.line.as_str()), ("line", "hello"));
    let e = LogEvent::error("boom");
    assert_eq!(e.kind, "error");
    let end = LogEvent::ended();
    assert_eq!(end.kind, "ended");
    assert_eq!(end.line, "");
}

#[test]
fn unreachable_summary_has_only_the_error() {
    let s = ClusterSummary::unreachable("Timed out after 10s");
    assert!(!s.reachable);
    assert_eq!(s.error, Some("Timed out after 10s".to_string()));
    assert!(s.version.is_none() && s.pods_total.is_none() && s.deployments.is_none());
}

#[test]
fn missing_cli_detection() {
    assert!(looks_missing("'az' is not recognized as an internal or external command"));
    assert!(looks_missing("bash: kubelogin: command NOT FOUND"));
    assert!(looks_missing("No such file or directory"));
    assert!(!looks_missing("ERROR: Please run 'az login'"));
}

#[test]
fn first_meaningful_stderr_line() {
    assert_eq!(first_meaningful_line("\n   \n  ERROR: bad  \nmore"), Some("ERROR: bad".to_string()));
    assert_eq!(first_meaningful_line(" \n\t\n"), None);
    assert_eq!(first_meaningful_line(""), None);
    assert_eq!(first_meaningful_line("last"), Some("last".to_string()));
}

#[test]
fn cli_failures() {
    let e = spawn_failure("az", "No such file or directory (os error 2)", true);
    assert!(e.missing);
    assert_eq!(e.message, "failed to run az: No such file or directory (os error 2)");
    let e = exit_failure("az", "\nERROR: AADSTS50076\n", Some(1));
    assert!(!e.missing);
    assert_eq!(e.message, "ERROR: AADSTS50076");
    assert_eq!(exit_failure("az", "", Some(2)).message, "az exited with status Some(2)");
    assert_eq!(exit_failure("az", "", None).message, "az exited with status None");
    assert_eq!(exit_failure("az", "", Some(-1)).message, "az exited with status Some(-1)");
}

#[test]
fn cli_error_messages() {
    let missing = AzError { message: "x".into(), missing: true };
    assert!(missing.az_message().starts_with("Azure CLI (`az`) was not found on PATH."));
    assert!(missing.kubelogin_message().starts_with("`kubelogin` was not found on PATH."));
    let failed = AzError { message: "exit 1".into(), missing: false };
    assert_eq!(failed.az_message(), "exit 1");
    assert_eq!(failed.kubelogin_message(), "kubelogin failed: exit 1");
}

#[test]
fn azure_status_classification() {
    let s = status_from(AccountProbe::Account { user: Some("me@x".into()), tenant_id: Some("t".into()) });
    assert!(s.installed && s.logged_in);
    assert_eq!(s.user, Some("me@x".to_string()));
    let s = status_from(AccountProbe::Unparseable("eof".into()));
    assert!(s.installed && !s.logged_in);
    assert_eq!(s.error, Some("Could not parse `az account show` output: eof".to_string()));
    let s = status_from(AccountProbe::Failed(AzError { message: "no".into(), missing: true }));
    assert!(!s.installed);
    let s = status_from(AccountProbe::Failed(AzError { message: "expired".into(), missing: false }));
    assert!(s.installed && !s.logged_in);
    assert_eq!(
        s.error,
        Some("Not logged in to Azure. Run `az login`, then retry. (expired)".to_string())
    );
}

#[test]
fn azure_listing_conversions() {
    let s = subscription_from(RawSubscription { id: "1".into(), name: "dev".into(), tenant_id: None, is_default: None });
    assert!(!s.is_default);
    let c = aks_from(RawAks {
        name: "aks1".into(),
        resource_group: "rg".into(),
        location: Some("westeurope".into()),
        kubernetes_version: Some("1.29".into()),
        current_kubernetes_version: Some("1.29.4".into()),
        power_state: Some(Some("Running".into())),
        aad_profile: true,
    });
    assert_eq!(c.kubernetes_version, Some("1.29.4".to_string()));
    assert_eq!(c.power_state, Some("Running".to_string()));
    assert!(c.aad_enabled);
}

#[test]
fn kubeconfig_file_names_are_sanitized() {
    assert_eq!(sanitize("my rg/ü"), "my_rg__");
    assert_eq!(sanitize(&sanitize("a.b c")), sanitize("a.b c"));
    assert_eq!(aks_kubeconfig_file_name("rg-1", "prod.aks"), "rg-1_prod_aks.kubeconfig");
}

#[test]
fn azure_cli_arguments() {
    assert_eq!(aks_list_args("s1"), vec!["aks", "list", "--subscription", "s1", "-o", "json"]);
    assert_eq!(
        get_credentials_args("s1", "rg", "c", "/p"),
        vec!["aks", "get-credentials", "--subscription", "s1", "-g", "rg", "-n", "c", "--file", "/p", "--overwrite-existing"]
    );
    assert_eq!(kubelogin_args("/p"), vec!["convert-kubeconfig", "-l", "azurecli", "--kubeconfig", "/p"]);
}

#[test]
fn remote_urls_and_queries() {
    assert_eq!(endpoint_base("https://host/k3s/c1///"), "https://host/k3s/c1");
    assert_eq!(endpoint_base("https://host"), "https://host");
    assert_eq!(url("https://host", "/api/pods"), "https://host/api/pods");
    assert_eq!(ns_param(None), "All");
    assert_eq!(ns_param(Some("apps")), "apps");
    assert_eq!(backend_error_text(Some("pods is forbidden".into()), 403), "pods is forbidden");
    assert_eq!(backend_error_text(None, 502), "backend returned HTTP 502");
}

#[test]
fn sse_lines_carry_json_payloads() {
    assert_eq!(sse_payload("data: {\"kind\":\"line\"}\r\n"), Some("{\"kind\":\"line\"}".to_string()));
    assert_eq!(sse_payload("data:x"), Some("x".to_string()));
    assert_eq!(sse_payload("data:   \n"), None);
    assert_eq!(sse_payload(": keep-alive\n"), None);
    assert_eq!(sse_payload("event: x\n"), None);
}

#[test]
fn sse_buffer_yields_complete_lines() {
    let mut buf = b"data: a\ndata: b".to_vec();
    assert_eq!(take_line(&mut buf), Some(b"data: a\n".to_vec()));
    assert_eq!(buf, b"data: b".to_vec());
    assert_eq!(take_line(&mut buf), None);
    assert_eq!(buf, b"data: b".to_vec());
}

#[test]
fn terminal_banner_and_sizes() {
    assert_eq!(
        banner(false, Some("prod")),
        "\x1b[2;36mKubeFront terminal — kubectl scoped to context \"prod\".\x1b[0m\r\n".as_bytes().to_vec()
    );
    assert_eq!(
        banner(true, Some("prod")),
        "\x1b[2;36mKubeFront terminal — remote connection: kubectl is not preconfigured here.\x1b[0m\r\n".as_bytes().to_vec()
    );
    assert_eq!(
        banner(false, None),
        "\x1b[2;36mKubeFront terminal — no active cluster; kubectl uses your default kubeconfig.\x1b[0m\r\n".as_bytes().to_vec()
    );
    assert_eq!(pty_dims(0, 0), (1, 1));
    assert_eq!(pty_dims(120, 40), (120, 40));
    assert_eq!(scoped_kubeconfig_name(7), "kubefront-term-7.yaml");
    assert_eq!(kubectl_source(true, Some("/k")), None);
    assert_eq!(kubectl_source(false, Some("/k")), Some("/k"));
    assert!(matches!(TerminalEvent::Exit(Some(0)), TerminalEvent::Exit(Some(0))));
}

#[test]
fn log_viewer_keeps_a_bounded_buffer() {
    let mut lines: Vec<String> = (0..5000).map(|i| i.to_string()).collect();
    push_log_line(&mut lines, "5000".into());
    assert_eq!(lines.len(), 4000);
    assert_eq!(lines[0], "1001");
    assert_eq!(lines[3999], "5000");
    let mut few = vec!["a".to_string()];
    push_log_line(&mut few, "b".into());
    assert_eq!(few, vec!["a".to_string(), "b".to_string()]);
}

#[test]
fn log_viewer_filters_case_blind() {
    assert!(line_visible("", "anything"));
    assert!(line_visible("ERR", "an error occurred"));
    assert!(!line_visible("warn", "an error occurred"));
    let lines = vec!["Error one".to_string(), "ok".to_string(), "error two".to_string()];
    assert_eq!(visible_text(&lines, "error"), "Error one\nerror two");
    assert_eq!(visible_text(&lines, ""), "Error one\nok\nerror two");
    assert_eq!(visible_text(&lines, "zzz"), "");
    assert_eq!(log_error_line("gone"), "[ERROR] gone");
    assert_eq!(log_stream_header("apps", "web"), "--- Streaming logs for apps/web ---");
}

#[test]
fn pod_view_filters() {
    assert!(pod_visible("", "All", "web-1", "apps"));
    assert!(pod_visible("WEB", "All", "web-1", "apps"));
    assert!(pod_visible("app", "apps", "web-1", "apps"));
    assert!(!pod_visible("db", "All", "web-1", "apps"));
    assert!(!pod_visible("", "kube-system", "web-1", "apps"));
}

#[test]
fn pod_phase_and_color() {
    let p = Pod {
        metadata: ObjectMeta { name: None, namespace: None, creation_timestamp: None, labels: None, annotations: None },
        spec: None,
        status: Some(PodStatus {
            phase: Some("Pending".into()),
            reason: None,
            pod_ip: None,
            qos_class: None,
            start_time: None,
            container_statuses: None,
            conditions: None,
        }),
    };
    assert_eq!(pod_status(&p), "Pending");
    assert_eq!(phase_color("Running"), [34, 197, 94]);
    assert_eq!(phase_color("ContainerCreating"), [234, 179, 8]);
    assert_eq!(phase_color("Succeeded"), [100, 149, 237]);
    assert_eq!(phase_color("Failed"), [239, 68, 68]);
}

#[test]
fn endpoint_base_is_idempotent() {
    let once = endpoint_base("https://h/c//");
    assert_eq!(endpoint_base(&once), once);
}

#[test]
fn remote_refusal_reads_like_local_refusal() {
    let e = CoreError::NotFound("pods \"x\" not found".into());
    let local = e.to_string();
    let (status, body) = ApiError::Core(e).status_and_body();
    assert_eq!(backend_error_text(Some(body.error), status), local);
}

#[test]
fn sse_frames_round_trip() {
    let json = "{\"kind\":\"line\",\"line\":\"a: b\"}";
    assert_eq!(sse_payload(&format!("data: {json}\n")), Some(json.to_string()));
    assert_eq!(sse_payload(&format!("data:{json}\n")), Some(json.to_string()));
}

#[test]
fn viewer_age_cells_show_the_date() {
    assert_eq!(since_label(None), "-");
    assert_eq!(since_label(Some("2024-05-01T10:00:00Z")), "recent (since 2024-05-01)");
    assert_eq!(since_label(Some("no-date")), "recent (since no-date)");
}
