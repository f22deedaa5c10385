use kubefront_core::age::{age_label, human_age};
use kubefront_core::describe::write_map_block;
use kubefront_core::model::ObjectMeta;
use kubefront_core::resources::{
    cluster_role_bindings_table, cluster_roles_table, configmaps_table, crds_table,
    cronjobs_table, daemonsets_table, deployments_table, ingress_classes_table, ingresses_table,
    jobs_table, namespaces_table, network_policies_table, pvcs_table, pvs_table,
    role_bindings_table, roles_table, secrets_table, service_accounts_table, services_table,
    statefulsets_table, storage_classes_table, BindingObj, ConfigMapObj, CountedObj, CrdObj,
    CrdVersion, CronJobObj, DaemonSetObj, DaemonSetStatus, DeploymentObj, IngressClassObj,
    IngressObj, JobObj, NamespaceObj, NetworkPolicyObj, PvObj, PvcObj, SecretObj, ServiceObj,
    ServicePort, ServiceSpec, StatefulSetObj, StorageClassObj,
};

fn meta(name: &str, ns: Option<&str>) -> ObjectMeta {
    ObjectMeta {
        name: Some(name.to_string()),
        namespace: ns.map(|s| s.to_string()),
        creation_timestamp: None,
        labels: None,
        annotations: None,
    }
}

#[test]
fn age_labels_use_the_largest_unit() {
    assert_eq!(age_label(0), "<1s");
    assert_eq!(age_label(-5), "<1s");
    assert_eq!(age_label(59), "59s");
    assert_eq!(age_label(60), "1m");
    assert_eq!(age_label(7200), "2h");
    assert_eq!(age_label(86400 * 3 + 5), "3d");
    assert_eq!(human_age(None), "-");
    assert_eq!(human_age(Some("not a time")), "not a time");
    let a = human_age(Some("2000-01-01T00:00:00Z"));
    assert!(a.ends_with('d'));
}

#[test]
fn namespaces_table_rows() {
    let t = namespaces_table(&vec![
        NamespaceObj { metadata: meta("default", None), phase: None },
        NamespaceObj { metadata: meta("old", None), phase: Some("Terminating".into()) },
    ]);
    assert_eq!(t.headers, vec!["Name", "Status", "Age"]);
    assert_eq!(t.rows[0], vec!["default", "Active", "-"]);
    assert_eq!(t.rows[1], vec!["old", "Terminating", "-"]);
}

#[test]
fn services_table_rows() {
    let t = services_table(&vec![
        ServiceObj {
            metadata: meta("web", Some("apps")),
            spec: Some(ServiceSpec {
                type_: None,
                cluster_ip: Some("10.43.0.10".into()),
                ports: Some(vec![
                    ServicePort { port: 80, protocol: None },
                    ServicePort { port: 53, protocol: Some("UDP".into()) },
                ]),
            }),
        },
        ServiceObj { metadata: meta("bare", None), spec: None },
    ]);
    assert_eq!(t.headers, vec!["Name", "Namespace", "Type", "Cluster IP", "Ports", "Age"]);
    assert_eq!(t.rows[0], vec!["web", "apps", "ClusterIP", "10.43.0.10", "80/TCP, 53/UDP", "-"]);
    assert_eq!(t.rows[1], vec!["bare", "-", "ClusterIP", "-", "-", "-"]);
}

#[test]
fn deployments_table_rows() {
    let t = deployments_table(&vec![DeploymentObj {
        metadata: meta("api", Some("apps")),
        replicas: Some(3),
        ready_replicas: Some(2),
        updated_replicas: None,
        available_replicas: Some(2),
    }]);
    assert_eq!(t.rows[0], vec!["api", "apps", "2/3", "0", "2", "-"]);
}

#[test]
fn secrets_table_rows() {
    let t = secrets_table(&vec![SecretObj {
        metadata: meta("tls", Some("apps")),
        type_: Some("kubernetes.io/tls".into()),
        data: Some(2),
        string_data: None,
    }]);
    assert_eq!(t.headers, vec!["Name", "Namespace", "Type", "Data", "Age"]);
    assert_eq!(t.rows[0][2], "kubernetes.io/tls");
    assert_eq!(t.rows[0][3], "2");
}

#[test]
fn map_blocks_align_under_the_header() {
    let mut s = String::from("Labels:     ");
    write_map_block(&mut s, &Some(vec![("a".into(), "1".into()), ("b".into(), "2".into())]), 4);
    assert_eq!(s, "Labels:     a=1\n    b=2\n");
    let mut e = String::new();
    write_map_block(&mut e, &Some(vec![]), 4);
    assert_eq!(e, "<none>\n");
}

#[test]
fn workload_tables() {
    let t = statefulsets_table(&vec![StatefulSetObj { metadata: meta("db", Some("apps")), replicas: Some(3), ready_replicas: None }]);
    assert_eq!(t.headers, vec!["Name", "Namespace", "Ready", "Age"]);
    assert_eq!(t.rows[0], vec!["db", "apps", "0/3", "-"]);
    let t = daemonsets_table(&vec![
        DaemonSetObj {
            metadata: meta("agent", Some("kube-system")),
            status: Some(DaemonSetStatus {
                desired_number_scheduled: 3,
                current_number_scheduled: 3,
                number_ready: 2,
                updated_number_scheduled: None,
                number_available: Some(2),
            }),
        },
        DaemonSetObj { metadata: meta("idle", None), status: None },
    ]);
    assert_eq!(t.rows[0][2..7].to_vec(), vec!["3", "3", "2", "0", "2"]);
    assert_eq!(t.rows[1][2..7].to_vec(), vec!["0", "0", "0", "0", "0"]);
    let t = jobs_table(&vec![JobObj { metadata: meta("once", Some("apps")), succeeded: None, completions: None }]);
    assert_eq!(t.headers, vec!["Name", "Namespace", "Completions", "Age"]);
    assert_eq!(t.rows[0], vec!["once", "apps", "0/1", "-"]);
    let t = cronjobs_table(&vec![CronJobObj {
        metadata: meta("nightly", Some("apps")),
        schedule: Some("0 3 * * *".into()),
        suspend: Some(true),
        active: Some(2),
        last_schedule_time: None,
    }]);
    assert_eq!(t.rows[0], vec!["nightly", "apps", "0 3 * * *", "true", "2", "-", "-"]);
}

#[test]
fn config_and_storage_tables() {
    let t = configmaps_table(&vec![ConfigMapObj { metadata: meta("cfg", Some("apps")), data: Some(2), binary_data: Some(1) }]);
    assert_eq!(t.rows[0], vec!["cfg", "apps", "3", "-"]);
    let t = pvcs_table(&vec![PvcObj {
        metadata: meta("data", Some("apps")),
        phase: Some("Bound".into()),
        volume_name: Some("pv-1".into()),
        capacity: Some(vec![("storage".into(), "10Gi".into())]),
        storage_class_name: None,
    }]);
    assert_eq!(t.headers, vec!["Name", "Namespace", "Status", "Volume", "Capacity", "Storage Class", "Age"]);
    assert_eq!(t.rows[0], vec!["data", "apps", "Bound", "pv-1", "10Gi", "-", "-"]);
    let t = pvs_table(&vec![PvObj {
        metadata: meta("pv-1", None),
        capacity: None,
        access_modes: Some(vec!["ReadWriteOnce".into(), "ReadOnlyMany".into()]),
        reclaim_policy: Some("Delete".into()),
        phase: None,
        storage_class_name: Some("local-path".into()),
    }]);
    assert_eq!(t.rows[0], vec!["pv-1", "-", "ReadWriteOnce,ReadOnlyMany", "Delete", "-", "local-path", "-"]);
    let t = storage_classes_table(&vec![StorageClassObj {
        metadata: meta("local-path", None),
        provisioner: "rancher.io/local-path".into(),
        reclaim_policy: None,
        volume_binding_mode: Some("WaitForFirstConsumer".into()),
    }]);
    assert_eq!(t.rows[0], vec!["local-path", "rancher.io/local-path", "-", "WaitForFirstConsumer", "-"]);
}

#[test]
fn network_tables() {
    let t = ingresses_table(&vec![
        IngressObj {
            metadata: meta("web", Some("apps")),
            ingress_class_name: Some("traefik".into()),
            rules: Some(vec![Some("a.example.com".into()), None, Some("b.example.com".into())]),
        },
        IngressObj { metadata: meta("any", Some("apps")), ingress_class_name: None, rules: Some(vec![None]) },
    ]);
    assert_eq!(t.rows[0], vec!["web", "apps", "traefik", "a.example.com, b.example.com", "-"]);
    assert_eq!(t.rows[1], vec!["any", "apps", "-", "*", "-"]);
    let t = ingress_classes_table(&vec![IngressClassObj { metadata: meta("traefik", None), controller: Some("traefik.io/ingress-controller".into()) }]);
    assert_eq!(t.rows[0], vec!["traefik", "traefik.io/ingress-controller", "-"]);
    let t = network_policies_table(&vec![
        NetworkPolicyObj {
            metadata: meta("deny", Some("apps")),
            match_labels: Some(vec![("app".into(), "web".into()), ("tier".into(), "fe".into())]),
        },
        NetworkPolicyObj { metadata: meta("all", Some("apps")), match_labels: Some(vec![]) },
    ]);
    assert_eq!(t.rows[0][2], "app=web,tier=fe");
    assert_eq!(t.rows[1][2], "<all pods>");
}

#[test]
fn rbac_and_crd_tables() {
    let t = service_accounts_table(&vec![CountedObj { metadata: meta("default", Some("apps")), count: Some(1) }]);
    assert_eq!(t.headers, vec!["Name", "Namespace", "Secrets", "Age"]);
    assert_eq!(t.rows[0], vec!["default", "apps", "1", "-"]);
    let t = roles_table(&vec![CountedObj { metadata: meta("reader", Some("apps")), count: None }]);
    assert_eq!(t.rows[0], vec!["reader", "apps", "0", "-"]);
    let t = cluster_roles_table(&vec![CountedObj { metadata: meta("admin", None), count: Some(12) }]);
    assert_eq!(t.rows[0], vec!["admin", "12", "-"]);
    let b = BindingObj {
        metadata: meta("read", Some("apps")),
        role_kind: "Role".into(),
        role_name: "reader".into(),
        subjects: Some(vec!["alice".into(), "bob".into()]),
    };
    let t = role_bindings_table(&vec![b.clone()]);
    assert_eq!(t.rows[0], vec!["read", "apps", "Role/reader", "alice, bob", "-"]);
    let t = cluster_role_bindings_table(&vec![BindingObj { subjects: None, ..b }]);
    assert_eq!(t.rows[0], vec!["read", "Role/reader", "-", "-"]);
    let t = crds_table(&vec![CrdObj {
        metadata: meta("widgets.example.com", None),
        group: "example.com".into(),
        kind: "Widget".into(),
        scope: "Namespaced".into(),
        versions: vec![
            CrdVersion { name: "v1alpha1".into(), storage: false },
            CrdVersion { name: "v1".into(), storage: true },
        ],
    }]);
    assert_eq!(t.headers, vec!["Name", "Group", "Kind", "Scope", "Version", "Age"]);
    assert_eq!(t.rows[0], vec!["widgets.example.com", "example.com", "Widget", "Namespaced", "v1", "-"]);
}
