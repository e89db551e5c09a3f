use sentinella_agent::config::Config;
use sentinella_agent::model::{
    AppMetricsInventory, ContainerInfo, DependencyEdge, DependencyEndpoint, DependencyInventory, EventInfo,
    InvolvedObjectInfo, NetworkInventory, PersistentVolumeClaimInfo, PodInfo, PostgresqlDiagnosticSpec, ResourceSpec,
    ServiceInfo, ServicePortInfo, StorageInventory, Technology, WorkloadMonitoringContainerLogs,
    WorkloadMonitoringLogs, WorkloadMonitoringPodLogs, WorkloadRef, Workloads, KV,
};
use sentinella_agent::plugins::{
    build_postgresql_monitoring_with_probe, build_workload_monitoring, classify_postgresql_probe_error,
    contains_token, diagnose_scope, diagnosis_without_inventory, is_clear_postgresql_service, no_usable_port,
    postgresql_service_host, resolve_postgresql_probe_settings, scope_postgresql_diagnostic, select_postgresql_port,
    select_probe_target, PostgresqlProbeResult,
};

fn kv(key: &str, value: &str) -> KV {
    KV { key: key.to_string(), value: value.to_string() }
}

fn base_config(enabled: bool, namespaces: Vec<String>) -> Config {
    let env = vec![
        kv("HUB_URL", "https://api.hub.sentinel.la"),
        kv("CLUSTER_ID", "cluster-dev"),
        kv("TETRAGON_GRPC_ADDRESS", "tetragon:54321"),
        kv("POD_NAME", "pod-1"),
        kv("POD_NAMESPACE", "sentinella"),
        kv("NODE_NAME", "node-1"),
        kv("LEASE_NAME", "lease"),
        kv("WORKLOAD_MONITORING_TARGETS", "angular,spring_boot"),
    ];
    let mut cfg = Config::from_env(&env).expect("settings");
    cfg.workload_monitoring_enabled = enabled;
    cfg.workload_monitoring_namespaces = namespaces;
    cfg
}

/// What a probe that always succeeds finds, where there is a target to probe.
fn probe_of(cfg: &Config, network: &NetworkInventory, host: &str, latency_ms: u128) -> Option<PostgresqlProbeResult> {
    select_probe_target(cfg, network).map(|_| PostgresqlProbeResult::Connected {
        host: host.into(),
        port: 5432,
        latency_ms,
    })
}

fn workload(ns: &str, name: &str) -> WorkloadRef {
    WorkloadRef {
        namespace: ns.into(),
        name: name.into(),
        replicas_desired: Some(1),
        replicas_ready: Some(1),
    }
}

fn pod(ns: &str, name: &str) -> PodInfo {
    PodInfo {
        namespace: ns.into(),
        name: name.into(),
        age_seconds: Some(60),
        node: Some("node-1".into()),
        phase: Some("Running".into()),
        usage_cpu: None,
        usage_memory: None,
        owner_kind: Some("Deployment".into()),
        owner_name: Some(name.into()),
        containers: vec![],
    }
}

fn postgres_pod(ns: &str, name: &str, phase: &str) -> PodInfo {
    PodInfo {
        namespace: ns.into(),
        name: name.into(),
        age_seconds: Some(60),
        node: Some("node-1".into()),
        phase: Some(phase.into()),
        usage_cpu: None,
        usage_memory: None,
        owner_kind: Some("StatefulSet".into()),
        owner_name: Some(name.into()),
        containers: vec![ContainerInfo {
            name: "postgres".into(),
            image: "postgres:16".into(),
            image_pull_policy: None,
            technology: Technology::default(),
            resources: ResourceSpec::default(),
        }],
    }
}

fn postgres_service(ns: &str, name: &str) -> ServiceInfo {
    ServiceInfo {
        namespace: ns.into(),
        name: name.into(),
        type_: "ClusterIP".into(),
        cluster_ip: Some("10.0.0.2".into()),
        external_ips: vec![],
        selector: vec![KV {
            key: "app".into(),
            value: "postgresql".into(),
        }],
        ports: vec![ServicePortInfo {
            name: Some("postgresql".into()),
            protocol: Some("TCP".into()),
            port: 5432,
            target_port: Some("5432".into()),
            node_port: None,
        }],
        load_balancer_ingress: vec![],
    }
}

fn postgres_pvc(ns: &str, name: &str) -> PersistentVolumeClaimInfo {
    PersistentVolumeClaimInfo {
        namespace: ns.into(),
        name: name.into(),
        storage_class: Some("standard".into()),
        volume_name: Some(format!("pv-{}", name)),
    }
}

fn postgres_event(ns: &str, name: &str) -> EventInfo {
    EventInfo {
        namespace: ns.into(),
        name: name.into(),
        type_: Some("Warning".into()),
        reason: Some("FailedMount".into()),
        message: Some("postgresql pvc mount delayed".into()),
        count: Some(1),
        first_timestamp: None,
        last_timestamp: None,
        reporting_controller: None,
        reporting_instance: None,
        involved_object: InvolvedObjectInfo {
            kind: Some("Pod".into()),
            name: Some(name.into()),
            namespace: Some(ns.into()),
            uid: None,
        },
    }
}

#[test]
fn build_returns_none_when_disabled() {
    let cfg = base_config(false, vec!["customer-app".into()]);
    let result = build_workload_monitoring(
        &cfg,
        &Workloads::default(),
        &vec![],
        &NetworkInventory::default(),
        &vec![],
        &DependencyInventory::default(),
        AppMetricsInventory::default(),
        WorkloadMonitoringLogs::default(),
    );
    assert!(result.is_none());
}

#[test]
fn build_returns_none_when_namespace_allowlist_empty() {
    let cfg = base_config(true, vec![]);
    let result = build_workload_monitoring(
        &cfg,
        &Workloads::default(),
        &vec![],
        &NetworkInventory::default(),
        &vec![],
        &DependencyInventory::default(),
        AppMetricsInventory::default(),
        WorkloadMonitoringLogs::default(),
    );
    assert!(result.is_none());
}

#[test]
fn build_filters_workloads_pods_events_by_namespace() {
    let cfg = base_config(true, vec!["customer-app".into()]);
    let workloads = Workloads {
        deployments: vec![workload("customer-app", "api"), workload("default", "kube")],
        statefulsets: vec![workload("customer-app", "db")],
        daemonsets: vec![],
    };
    let pods = vec![pod("customer-app", "api-1"), pod("kube-system", "coredns")];
    let events = vec![];
    let result = build_workload_monitoring(
        &cfg,
        &workloads,
        &pods,
        &NetworkInventory::default(),
        &events,
        &DependencyInventory::default(),
        AppMetricsInventory::default(),
        WorkloadMonitoringLogs::default(),
    )
    .unwrap();
    assert_eq!(result.namespaces, vec!["customer-app"]);
    assert_eq!(result.signals.workloads.len(), 2);
    assert_eq!(result.signals.pods.len(), 1);
    assert_eq!(result.signals.pods[0].name, "api-1");
}

#[test]
fn build_preserves_workload_monitoring_logs() {
    let cfg = base_config(true, vec!["customer-app".into()]);
    let logs = WorkloadMonitoringLogs {
        pods: vec![WorkloadMonitoringPodLogs {
            namespace: "customer-app".into(),
            name: "api-1".into(),
            containers: vec![WorkloadMonitoringContainerLogs {
                name: "api".into(),
                truncated: false,
                lines: vec!["ready".into()],
            }],
        }],
    };

    let result = build_workload_monitoring(
        &cfg,
        &Workloads::default(),
        &vec![],
        &NetworkInventory::default(),
        &vec![],
        &DependencyInventory::default(),
        AppMetricsInventory::default(),
        logs,
    )
    .unwrap();

    assert_eq!(result.logs.pods.len(), 1);
    assert_eq!(result.logs.pods[0].containers[0].lines, vec!["ready"]);
}

#[test]
fn build_omits_dependencies_when_tetragon_disabled() {
    let cfg = base_config(true, vec!["customer-app".into()]);
    let result = build_workload_monitoring(
        &cfg,
        &Workloads::default(),
        &vec![],
        &NetworkInventory::default(),
        &vec![],
        &DependencyInventory::default(),
        AppMetricsInventory::default(),
        WorkloadMonitoringLogs::default(),
    )
    .unwrap();
    assert!(result.signals.dependencies.is_none());
}

#[test]
fn build_includes_dependencies_when_tetragon_enabled() {
    let mut cfg = base_config(true, vec!["customer-app".into()]);
    cfg.collect_dependencies_tetragon = true;
    let deps = DependencyInventory {
        edges: vec![DependencyEdge {
            from: DependencyEndpoint {
                kind: "pod".into(),
                namespace: Some("customer-app".into()),
                name: Some("api".into()),
                workload_kind: Some("Deployment".into()),
                workload_name: Some("api".into()),
                ip: Some("10.0.0.1".into()),
            },
            to: DependencyEndpoint {
                kind: "service".into(),
                namespace: Some("customer-app".into()),
                name: Some("db".into()),
                workload_kind: None,
                workload_name: None,
                ip: Some("10.0.0.2".into()),
            },
            protocol: "TCP".into(),
            destination_port: 5432,
            direction: "egress".into(),
            bytes: 1024,
            packets: 8,
            connections: 1,
            first_seen_unix_ms: 0,
            last_seen_unix_ms: 0,
        }],
        source: "tetragon_grpc",
        window_seconds: 60,
        truncated: false,
        dropped_edges: 0,
        observed_endpoints: 3,
        connected_endpoints: 2,
        unavailable_endpoints: 1,
    };
    let result = build_workload_monitoring(
        &cfg,
        &Workloads::default(),
        &vec![],
        &NetworkInventory::default(),
        &vec![],
        &deps,
        AppMetricsInventory::default(),
        WorkloadMonitoringLogs::default(),
    )
    .unwrap();
    let signals_deps = result.signals.dependencies.unwrap();
    assert_eq!(signals_deps.edges.len(), 1);
}

#[test]
fn clear_postgresql_service_requires_name_and_port() {
    let name_only = ServiceInfo {
        namespace: "customer-db".into(),
        name: "db-service".into(),
        type_: "ClusterIP".into(),
        cluster_ip: Some("10.0.0.2".into()),
        external_ips: vec![],
        selector: vec![],
        ports: vec![ServicePortInfo {
            name: Some("postgresql".into()),
            protocol: Some("TCP".into()),
            port: 5432,
            target_port: Some("5432".into()),
            node_port: None,
        }],
        load_balancer_ingress: vec![],
    };
    assert!(!is_clear_postgresql_service(&name_only));

    let portless = ServiceInfo {
        namespace: "customer-db".into(),
        name: "postgresql".into(),
        type_: "ClusterIP".into(),
        cluster_ip: Some("10.0.0.2".into()),
        external_ips: vec![],
        selector: vec![KV {
            key: "app".into(),
            value: "postgresql".into(),
        }],
        ports: vec![ServicePortInfo {
            name: Some("http".into()),
            protocol: Some("TCP".into()),
            port: 8080,
            target_port: Some("8080".into()),
            node_port: None,
        }],
        load_balancer_ingress: vec![],
    };
    assert!(!is_clear_postgresql_service(&portless));

    let clear = postgres_service("customer-db", "postgresql");
    assert!(is_clear_postgresql_service(&clear));
}

#[test]
fn build_postgresql_returns_none_when_disabled() {
    let cfg = base_config(false, vec!["customer-app".into()]);
    let result = build_postgresql_monitoring_with_probe(
        &cfg,
        &Workloads::default(),
        &vec![],
        &NetworkInventory::default(),
        &StorageInventory::default(),
        &vec![],
        None,
        1000,
    );
    assert!(result.is_none());
}

#[test]
fn build_postgresql_is_healthy_with_complete_evidence() {
    let mut cfg = base_config(false, vec![]);
    cfg.postgresql_monitoring_enabled = true;
    cfg.postgresql_monitoring_namespaces = vec!["customer-db".into()];
    let workloads = Workloads {
        deployments: vec![],
        statefulsets: vec![WorkloadRef {
            namespace: "customer-db".into(),
            name: "postgresql".into(),
            replicas_desired: Some(1),
            replicas_ready: Some(1),
        }],
        daemonsets: vec![],
    };
    let pods = vec![postgres_pod("customer-db", "postgresql-0", "Running")];
    let network = NetworkInventory {
        services: vec![postgres_service("customer-db", "postgresql")],
        ingresses: vec![],
    };
    let storage = StorageInventory {
        storage_classes: vec![],
        persistent_volumes: vec![],
        persistent_volume_claims: vec![postgres_pvc("customer-db", "data-postgresql-0")],
        volume_snapshot_classes: vec![],
        volume_snapshots: vec![],
    };
    let events = vec![postgres_event("customer-db", "postgresql-0")];

    let result = build_postgresql_monitoring_with_probe(
        &cfg,
        &workloads,
        &pods,
        &network,
        &storage,
        &events,
        probe_of(&cfg, &network, "postgresql.customer-db.svc.cluster.local", 12),
        1000,
    )
    .expect("plugin should be present");

    assert_eq!(result.status, "healthy");
    assert_eq!(result.namespaces, vec!["customer-db"]);
    assert!(result.summary.contains("running pod"));
    assert!(
        result
            .evidence
            .iter()
            .any(|item| item.title == "service" && item.value.starts_with("clear "))
    );
    assert!(
        result
            .evidence
            .iter()
            .any(|item| item.title == "workload_owner")
    );
    assert!(
        result.missing_data.is_empty()
            || result
                .missing_data
                .iter()
                .all(|item| item.title != "service")
    );
}

#[test]
fn build_postgresql_reports_warning_when_signals_are_incomplete() {
    let mut cfg = base_config(false, vec![]);
    cfg.postgresql_monitoring_enabled = true;
    cfg.postgresql_monitoring_namespaces = vec!["customer-db".into()];
    let workloads = Workloads {
        deployments: vec![],
        statefulsets: vec![WorkloadRef {
            namespace: "customer-db".into(),
            name: "postgresql".into(),
            replicas_desired: Some(1),
            replicas_ready: Some(1),
        }],
        daemonsets: vec![],
    };
    let pods = vec![postgres_pod("customer-db", "postgresql-0", "Pending")];

    let result = build_postgresql_monitoring_with_probe(
        &cfg,
        &workloads,
        &pods,
        &NetworkInventory::default(),
        &StorageInventory::default(),
        &vec![],
        None,
        1000,
    )
    .expect("plugin should be present");

    assert_eq!(result.status, "warning");
    assert!(
        result
            .missing_data
            .iter()
            .any(|item| item.title == "service")
    );
    assert!(
        result
            .missing_data
            .iter()
            .any(|item| item.title == "persistent volume claims")
    );
}

#[test]
fn build_postgresql_skips_live_probe_when_service_is_not_clear() {
    let mut cfg = base_config(false, vec![]);
    cfg.postgresql_monitoring_enabled = true;
    cfg.postgresql_monitoring_namespaces = vec!["customer-db".into()];

    let services = NetworkInventory {
        services: vec![ServiceInfo {
            namespace: "customer-db".into(),
            name: "db-service".into(),
            type_: "ClusterIP".into(),
            cluster_ip: Some("10.0.0.2".into()),
            external_ips: vec![],
            selector: vec![],
            ports: vec![ServicePortInfo {
                name: Some("postgresql".into()),
                protocol: Some("TCP".into()),
                port: 5432,
                target_port: Some("5432".into()),
                node_port: None,
            }],
            load_balancer_ingress: vec![],
        }],
        ingresses: vec![],
    };

    let result = build_postgresql_monitoring_with_probe(
        &cfg,
        &Workloads::default(),
        &vec![],
        &services,
        &StorageInventory::default(),
        &vec![],
        None,
        1000,
    )
    .expect("plugin should be present");

    assert!(
        result
            .missing_data
            .iter()
            .any(|item| item.title == "live probe")
    );
    assert!(result.evidence.iter().all(|item| item.title != "probe"));
}

#[test]
fn build_postgresql_reports_unknown_when_multiple_clear_services_exist() {
    let mut cfg = base_config(false, vec![]);
    cfg.postgresql_monitoring_enabled = true;
    cfg.postgresql_monitoring_namespaces = vec!["customer-db".into()];

    let services = NetworkInventory {
        services: vec![
            postgres_service("customer-db", "postgresql-a"),
            postgres_service("customer-db", "postgresql-b"),
        ],
        ingresses: vec![],
    };

    let result = build_postgresql_monitoring_with_probe(
        &cfg,
        &Workloads::default(),
        &vec![],
        &services,
        &StorageInventory::default(),
        &vec![],
        probe_of(&cfg, &services, "should-not-run", 1),
        1000,
    )
    .expect("plugin should be present");

    assert_eq!(result.status, "unknown");
    assert!(
        result
            .missing_data
            .iter()
            .any(|item| item.title == "live probe")
    );
    assert!(result.evidence.iter().all(|item| item.title != "probe"));
    assert_eq!(
        result
            .detail
            .iter()
            .find(|item| item.title == "clear services")
            .map(|item| item.value.as_str()),
        Some("2")
    );
}

#[test]
fn build_postgresql_reports_critical_when_no_evidence_matches() {
    let mut cfg = base_config(false, vec![]);
    cfg.postgresql_monitoring_enabled = true;
    cfg.postgresql_monitoring_namespaces = vec!["customer-db".into()];

    let result = build_postgresql_monitoring_with_probe(
        &cfg,
        &Workloads::default(),
        &vec![],
        &NetworkInventory::default(),
        &StorageInventory::default(),
        &vec![],
        None,
        1000,
    )
    .expect("plugin should be present");

    assert_eq!(result.status, "critical");
    assert!(result.summary.contains("No PostgreSQL workload"));
    assert!(!result.detail.is_empty());
}

// ---- Probes and diagnoses ----

#[test]
fn tokens_stand_free() {
    assert!(contains_token("my-pg-db", "pg"));
    assert!(!contains_token("mypgdb", "pg"));
}

#[test]
fn probe_settings_of_the_agent_fill_the_gaps_of_the_secret() {
    let mut cfg = base_config(false, vec![]);
    cfg.postgresql_monitoring_user = Some("env-user".into());
    cfg.postgresql_monitoring_database = Some("env-db".into());
    let service = postgres_service("customer-db", "postgresql");
    let secret = Some(vec![kv("user", "secret-user"), kv("password", "p"), kv("sslmode", "require")]);
    let settings = resolve_postgresql_probe_settings(&cfg, &service, 5432, &secret);
    assert_eq!(settings.user, "secret-user");
    assert_eq!(settings.password.as_deref(), Some("p"));
    assert_eq!(settings.database, "env-db");
    assert_eq!(settings.host, "postgresql.customer-db.svc.cluster.local");
    assert!(settings.uses_tls());
    let plain = resolve_postgresql_probe_settings(&base_config(false, vec![]), &service, 5432, &None);
    assert_eq!(plain.user, "postgres");
    assert!(!plain.uses_tls());
    assert!(plain.connection_string().contains("postgres"));
}

#[test]
fn ports_and_hosts_are_those_of_the_service() {
    let service = postgres_service("customer-db", "postgresql");
    assert_eq!(select_postgresql_port(&service), Some(5432));
    assert_eq!(postgresql_service_host(&service), "postgresql.customer-db.svc.cluster.local");
    match no_usable_port(&service) {
        PostgresqlProbeResult::Failed { .. } => {}
        _ => panic!("there is nothing to connect to"),
    }
    assert_ne!(
        classify_postgresql_probe_error("Connection Refused"),
        classify_postgresql_probe_error("password authentication failed")
    );
}

#[test]
fn diagnosis_is_unknown_where_its_hints_are_not_found() {
    let cfg = base_config(false, vec![]);
    let spec = PostgresqlDiagnosticSpec {
        namespace: "customer-db".into(),
        service_name: Some("missing".into()),
        pod_selector: None,
        secret_name: None,
    };
    let scope = scope_postgresql_diagnostic(
        "customer-db",
        &spec,
        Workloads::default(),
        vec![postgres_pod("customer-db", "postgresql-0", "Running")],
        NetworkInventory { services: vec![postgres_service("customer-db", "postgresql")], ingresses: vec![] },
        StorageInventory::default(),
        vec![],
    );
    assert!(!scope.hint_missing_data.is_empty());
    let report = diagnose_scope(&cfg, &spec, scope, None, 5);
    assert_eq!(report.namespace, "customer-db");
    assert_eq!(report.status, "unknown");
    let failed = diagnosis_without_inventory(&spec, "boom");
    assert_ne!(failed.status, "healthy");
}
