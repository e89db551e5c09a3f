use sentinella_agent::cluster::{
    build_cluster_info, detect_platform, extract_openshift_version, find_openshift_version, map_namespace, map_node,
};
use sentinella_agent::collector::{
    collect, collect_workload_monitoring_logs, plan_log_reads, split_log_output, ClusterListing, ContainerLogRead,
    PodLogReads,
};
use sentinella_agent::config::Config;
use sentinella_agent::configuration::{
    collect_agent_configured_env, map_configmap, map_secret, sort_configmaps_for_snapshot,
};
use sentinella_agent::dependency::{
    collect_dependency_inventory, normalize_tetragon_ip, normalize_tetragon_protocol, parse_tetragon_record,
    resolve_endpoint, DependencyEndpointHint, PodIpInfo, ServiceIpInfo,
};
use sentinella_agent::events::{
    event_sort_ts_seconds, event_type_rank, map_event, map_events, sort_events_for_snapshot, truncate_chars,
};
use sentinella_agent::failure::{
    classify_metrics_error, classify_snapshot_api_error, classify_transient_error, is_not_found,
    settle_first_metrics_probe, settle_second_metrics_probe, settle_snapshot_classes_probe, settle_snapshots_probe,
    status_from, status_snapshot_from, KubeFailure, MetricsProbe, ProbeOutcome, SnapshotProbe,
};
use sentinella_agent::maturity::{build_vpa_info, detect_descheduler, map_scheduled_job, map_scheduled_jobs};
use sentinella_agent::model::{
    ContainerInfo, MetricsStatus, NamespaceInfo, PodInfo, ResourceSpec, SnapshotApiStatus, Technology, KV,
};
use sentinella_agent::network::{map_ingress, map_service, sort_services_for_snapshot};
use sentinella_agent::objects::{
    ClusterRoleBinding, ConfigMap, Container, CronJob, CronJobSpec, Deployment, DeploymentSpec, Event,
    HttpIngressPath, Ingress, IngressRule, IngressServiceBackend, IngressSpec, IngressTls, IntOrString, LabelSelector,
    LoadBalancerIngress, Namespace, NetworkPolicy, NetworkPolicySpec, Node, NodeCondition, NodeStatus, NodeSystemInfo,
    ObjectMeta, OwnerReference, Pod, PodSpec, PodStatus, PodTemplate, Secret, Service, ServiceBackendPort,
    ServicePort, ServiceSpec, StorageClass, Subject, Timestamp,
};
use sentinella_agent::pods::{build_pod_usage_index, map_pod, pod_age_seconds, PodUsage};
use sentinella_agent::quantity::{
    format_cpu_quantity, format_memory_quantity, parse_cpu_quantity, parse_memory_quantity,
};
use sentinella_agent::security::{
    build_pod_security_admission, map_cluster_role_binding, map_cluster_role_bindings, map_network_policy,
    network_policy_types, PSA_ENFORCE_LABEL, PSA_WARN_LABEL,
};
use sentinella_agent::storage::{map_storage_class, map_volume_snapshot, map_volume_snapshot_class};
use sentinella_agent::tetragon::CoverageSnapshot;
use serde_json::Value;

fn json(text: &str) -> Value {
    serde_json::from_str(text).expect("test document")
}

fn kv(key: &str, value: &str) -> KV {
    KV { key: key.to_string(), value: value.to_string() }
}

fn meta(namespace: &str, name: &str) -> ObjectMeta {
    ObjectMeta { namespace: Some(namespace.to_string()), name: Some(name.to_string()), ..ObjectMeta::default() }
}

fn deployment(namespace: &str, name: &str, label: (&str, &str)) -> Deployment {
    Deployment {
        metadata: meta(namespace, name),
        spec: Some(DeploymentSpec {
            replicas: None,
            selector: LabelSelector { match_labels: Some(vec![kv(label.0, label.1)]), match_expressions: None },
            template: PodTemplate::default(),
        }),
        status: None,
    }
}

fn container(name: &str, image: &str) -> Container {
    Container {
        name: name.to_string(),
        image: Some(image.to_string()),
        image_pull_policy: None,
        command: None,
        args: None,
        resources: None,
    }
}

fn listing() -> ClusterListing {
    ClusterListing {
        k8s_uid: None,
        version: None,
        nodes: None,
        namespaces: None,
        deployments: None,
        statefulsets: None,
        daemonsets: None,
        pods: None,
        services: None,
        ingresses: None,
        network_policies: None,
        cluster_role_bindings: None,
        configmaps: None,
        secrets: None,
        storage_classes: None,
        persistent_volumes: None,
        persistent_volume_claims: None,
        cronjobs: None,
        events: None,
        vpa: None,
        cluster_versions: None,
        pod_metrics: vec![],
        volume_snapshot_classes: vec![],
        volume_snapshots: vec![],
    }
}

fn no_coverage() -> CoverageSnapshot {
    CoverageSnapshot { observed_endpoints: 0, connected_endpoints: 0, unavailable_endpoints: 0 }
}

fn metrics_status() -> MetricsStatus {
    status_from("ok", "", "metrics.k8s.io/v1", 0, 0)
}

fn snapshot_status() -> SnapshotApiStatus {
    status_snapshot_from("ok", "", "snapshot.storage.k8s.io/v1", 0, 0, 0)
}

// ---- Platform ----

#[test]
fn extract_openshift_version_prefers_desired_version() {
    let value = json(
        r#"{
            "status": {
                "desired": { "version": "4.16.18" },
                "history": [{ "version": "4.16.17" }]
            }
        }"#,
    );

    assert_eq!(extract_openshift_version(&value).as_deref(), Some("4.16.18"));
}

#[test]
fn extract_openshift_version_falls_back_to_history() {
    let value = json(r#"{ "status": { "history": [{ "version": "4.16.17" }] } }"#);

    assert_eq!(extract_openshift_version(&value).as_deref(), Some("4.16.17"));
}

#[test]
fn openshift_version_is_that_of_the_first_object_with_one() {
    let objects = vec![json("{}"), json(r#"{"status": {"desired": {"version": "4.15.1"}}}"#)];
    assert_eq!(find_openshift_version(&objects).as_deref(), Some("4.15.1"));
    assert_eq!(find_openshift_version(&vec![]), None);
}

#[test]
fn platform_is_told_by_version_then_by_nodes() {
    let openshift = Node {
        metadata: ObjectMeta { labels: Some(vec![kv("node.openshift.io/os_id", "rhcos")]), ..ObjectMeta::default() },
        ..Node::default()
    };
    let nodes = vec![Node::default(), openshift];
    assert_eq!(detect_platform(Some("v1.30.1-EKS-abc"), &nodes).as_deref(), Some("eks"));
    assert_eq!(detect_platform(Some("v1.29.0-gke.1"), &vec![]).as_deref(), Some("gke"));
    assert_eq!(detect_platform(Some("v1.29.0-aks"), &vec![]).as_deref(), Some("aks"));
    assert_eq!(detect_platform(Some("v1.29.0"), &nodes).as_deref(), Some("openshift"));
    assert_eq!(detect_platform(None, &vec![]).as_deref(), Some("vanilla"));
}

#[test]
fn node_is_shown_with_roles_and_amounts() {
    let node = Node {
        metadata: ObjectMeta {
            name: Some("node-1".to_string()),
            labels: Some(vec![kv("a", "b"), kv("node-role.kubernetes.io/worker", "")]),
            ..ObjectMeta::default()
        },
        unschedulable: None,
        status: Some(NodeStatus {
            node_info: Some(NodeSystemInfo {
                kubelet_version: "v1.30.1".to_string(),
                os_image: "Linux".to_string(),
                container_runtime_version: "containerd://1.7".to_string(),
                architecture: "amd64".to_string(),
            }),
            capacity: Some(vec![kv("cpu", "4"), kv("memory", "8Gi")]),
            allocatable: Some(vec![kv("cpu", "3900m")]),
            conditions: Some(vec![NodeCondition { type_: "Ready".to_string(), status: "True".to_string() }]),
        }),
    };
    let info = map_node(&node);
    assert_eq!(info.roles, vec!["worker"]);
    assert!(info.ready);
    assert_eq!(info.capacity_memory.as_deref(), Some("8Gi"));
    assert_eq!(info.allocatable_cpu.as_deref(), Some("3900m"));
    assert_eq!(info.allocatable_memory, None);
    assert_eq!(info.architecture.as_deref(), Some("amd64"));
    let cluster = build_cluster_info(Some("v1.30.1"), &vec![node]);
    assert_eq!(cluster.node_count, 1);
    assert_eq!(cluster.openshift_version, None);
}

#[test]
fn namespace_is_shown_with_labels() {
    let namespace = Namespace {
        metadata: ObjectMeta {
            name: Some("prod".to_string()),
            labels: Some(vec![kv("team", "a")]),
            ..ObjectMeta::default()
        },
        phase: Some("Active".to_string()),
    };
    let info = map_namespace(&namespace);
    assert_eq!(info.name, "prod");
    assert_eq!(info.labels, vec![kv("team", "a")]);
}

// ---- Texts ----

#[test]
fn truncate_chars_respects_max_length() {
    let input = "a".repeat(1000);
    let out = truncate_chars(&input, 20);
    assert_eq!(out.chars().count(), 20);
    assert!(out.ends_with("..."));
}

#[test]
fn truncate_chars_leaves_short_texts_and_drops_where_dots_do_not_fit() {
    assert_eq!(truncate_chars("abc", 3), "abc");
    assert_eq!(truncate_chars("abcd", 3), "...");
    assert_eq!(truncate_chars("abcd", 2), "");
}

// ---- Dependencies ----

#[test]
fn parse_tetragon_record_extracts_common_fields() {
    let value = json(
        r#"{
            "src_ip": "10.42.1.10",
            "dst_ip": "10.43.2.20",
            "protocol": "tcp",
            "destination_port": 443,
            "bytes": 1200,
            "packets": 12,
            "connections": 2,
            "timestamp_unix_ms": 1746821760000
        }"#,
    );

    let parsed = parse_tetragon_record(&value, 5).expect("record should parse");
    assert_eq!(parsed.src_ip, "10.42.1.10");
    assert_eq!(parsed.dst_ip, "10.43.2.20");
    assert_eq!(parsed.protocol, "tcp");
    assert_eq!(parsed.destination_port, 443);
    assert_eq!(parsed.bytes, 1200);
    assert_eq!(parsed.packets, 12);
    assert_eq!(parsed.connections, 2);
    assert_eq!(parsed.timestamp_unix_ms, 1746821760000);
}

#[test]
fn parse_tetragon_record_extracts_tcp_connect_sock_args() {
    let value = json(
        r#"{
            "process_kprobe": {
                "function_name": "tcp_sendmsg",
                "args": [
                    {
                        "sock_arg": {
                            "family": "AF_INET6",
                            "type": "SOCK_STREAM",
                            "protocol": "IPPROTO_TCP",
                            "saddr": "::ffff:10.42.0.11",
                            "daddr": "::ffff:10.42.1.233",
                            "sport": 9234,
                            "dport": 57924,
                            "cookie": "18446619261531505280",
                            "state": "TCP_ESTABLISHED"
                        }
                    },
                    { "int_arg": 39 }
                ]
            }
        }"#,
    );

    let parsed = parse_tetragon_record(&value, 5).expect("record should parse");
    assert_eq!(parsed.src_ip, "10.42.0.11");
    assert_eq!(parsed.dst_ip, "10.42.1.233");
    assert_eq!(parsed.protocol, "tcp");
    assert_eq!(parsed.destination_port, 57924);
    assert_eq!(parsed.bytes, 39);
    assert_eq!(parsed.packets, 1);
    assert_eq!(parsed.connections, 0);
}

#[test]
fn parse_tetragon_record_counts_tcp_close_as_connection() {
    let value = json(
        r#"{
            "process_kprobe": {
                "function_name": "tcp_close",
                "args": [
                    {
                        "sock_arg": {
                            "family": "AF_INET6",
                            "type": "SOCK_STREAM",
                            "protocol": "IPPROTO_TCP",
                            "saddr": "::ffff:10.42.0.11",
                            "daddr": "::ffff:10.42.1.233",
                            "sport": 9234,
                            "dport": 57924,
                            "cookie": "18446619261531505280",
                            "state": "TCP_ESTABLISHED"
                        }
                    }
                ]
            }
        }"#,
    );

    let parsed = parse_tetragon_record(&value, 5).expect("record should parse");
    assert_eq!(parsed.bytes, 0);
    assert_eq!(parsed.packets, 0);
    assert_eq!(parsed.connections, 1);
}

#[test]
fn resolve_endpoint_prefers_pod_then_service_then_unknown() {
    let pods = vec![PodIpInfo {
        namespace: "prod".into(),
        pod_name: "api-1".into(),
        workload_kind: Some("Deployment".into()),
        workload_name: Some("api".into()),
        ip: "10.42.0.10".into(),
    }];
    let services =
        vec![ServiceIpInfo { namespace: "prod".into(), service_name: "db".into(), ip: "10.43.0.20".into() }];

    let pod_endpoint = resolve_endpoint("10.42.0.10", &None, &pods, &services);
    assert_eq!(pod_endpoint.kind, "pod");
    assert_eq!(pod_endpoint.name.as_deref(), Some("api-1"));

    let svc_endpoint = resolve_endpoint("10.43.0.20", &None, &pods, &services);
    assert_eq!(svc_endpoint.kind, "service");
    assert_eq!(svc_endpoint.name.as_deref(), Some("db"));

    let unknown = resolve_endpoint("10.99.0.1", &None, &pods, &services);
    assert_eq!(unknown.kind, "unknown");
    assert_eq!(unknown.ip.as_deref(), Some("10.99.0.1"));
}

#[test]
fn resolve_endpoint_uses_source_hint_before_unknown_fallback() {
    let endpoint = resolve_endpoint(
        "10.99.0.1",
        &Some(DependencyEndpointHint {
            namespace: Some("prod".into()),
            pod_name: Some("api-1".into()),
            workload_kind: Some("Deployment".into()),
            workload_name: Some("api".into()),
        }),
        &vec![],
        &vec![],
    );

    assert_eq!(endpoint.kind, "pod");
    assert_eq!(endpoint.namespace.as_deref(), Some("prod"));
    assert_eq!(endpoint.name.as_deref(), Some("api-1"));
    assert_eq!(endpoint.workload_kind.as_deref(), Some("Deployment"));
    assert_eq!(endpoint.workload_name.as_deref(), Some("api"));
    assert_eq!(endpoint.ip.as_deref(), Some("10.99.0.1"));
}

#[test]
fn normalize_tetragon_helpers_handle_ipv6_and_protocol_prefixes() {
    assert_eq!(normalize_tetragon_ip("::ffff:10.42.0.11"), "10.42.0.11");
    assert_eq!(normalize_tetragon_ip("2001:db8::1"), "2001:db8::1");
    assert_eq!(normalize_tetragon_protocol("IPPROTO_TCP"), "tcp");
    assert_eq!(normalize_tetragon_protocol("tcp"), "tcp");
}

#[test]
fn dependency_flows_of_one_edge_add_up() {
    let line = r#"{"src_ip": "10.0.0.1", "dst_ip": "10.0.0.2", "protocol": "TCP", "destination_port": 80, "bytes": 10, "packets": 1, "connections": 1, "timestamp_unix_ms": 100}"#;
    let later = line.replace("\"timestamp_unix_ms\": 100", "\"timestamp_unix_ms\": 90");
    let body = format!("{line}\n\nnot json\n{later}\n");
    let found = collect_dependency_inventory(true, &body, &vec![], &vec![], no_coverage(), 1000);
    assert_eq!(found.parse_failures, 1);
    assert_eq!(found.inventory.edges.len(), 1);
    let edge = &found.inventory.edges[0];
    assert_eq!(edge.bytes, 20);
    assert_eq!(edge.connections, 2);
    assert_eq!(edge.first_seen_unix_ms, 90);
    assert_eq!(edge.last_seen_unix_ms, 100);
    assert_eq!(found.inventory.source, "tetragon_grpc");
    let off = collect_dependency_inventory(false, &body, &vec![], &vec![], no_coverage(), 1000);
    assert!(off.inventory.edges.is_empty());
    assert_eq!(off.inventory.window_seconds, 60);
}

#[test]
fn dependency_edge_names_the_workload_behind_a_pod_address() {
    let pod = Pod {
        metadata: ObjectMeta {
            owner_references: Some(vec![OwnerReference {
                kind: "Deployment".to_string(),
                name: "api-server".to_string(),
            }]),
            ..meta("production", "api-server-6d4cf56db6-x7k2p")
        },
        status: Some(PodStatus { phase: Some("Running".to_string()), pod_ip: Some("10.244.1.15".to_string()) }),
        ..Pod::default()
    };
    let body = r#"{"src_ip": "10.244.1.15", "dst_ip": "10.0.0.2", "protocol": "TCP", "destination_port": 5432, "connections": 1}"#;
    let found = collect_dependency_inventory(true, body, &vec![pod], &vec![], no_coverage(), 1000);
    assert_eq!(found.inventory.edges.len(), 1);
    let from = &found.inventory.edges[0].from;
    assert_eq!(from.kind, "pod");
    assert_eq!(from.namespace.as_deref(), Some("production"));
    assert_eq!(from.name.as_deref(), Some("api-server-6d4cf56db6-x7k2p"));
    assert_eq!(from.workload_kind.as_deref(), Some("Deployment"));
    assert_eq!(from.workload_name.as_deref(), Some("api-server"));
    assert_eq!(from.ip.as_deref(), Some("10.244.1.15"));
}

#[test]
fn dependency_edges_are_told_apart_by_endpoints_protocol_and_port() {
    let first = r#"{"src_ip": "2001:DB8::1", "dst_ip": "10.0.0.2", "protocol": "TCP", "destination_port": 80, "connections": 1}"#;
    let same = first.replace("\"TCP\"", "\"IPPROTO_TCP\"");
    let other_port = first.replace("\"destination_port\": 80", "\"destination_port\": 81");
    let other_protocol = first.replace("\"TCP\"", "\"UDP\"");
    let other_source = first.replace("2001:DB8::1", "2001:DB8::2");
    let body = format!("{first}\n{same}\n{other_port}\n{other_protocol}\n{other_source}\n");
    let found = collect_dependency_inventory(true, &body, &vec![], &vec![], no_coverage(), 1000);
    let edges = &found.inventory.edges;
    assert_eq!(edges.len(), 4);
    assert_eq!(edges.iter().map(|edge| edge.connections).collect::<Vec<_>>(), vec![2, 1, 1, 1]);
    assert_eq!(edges[0].from.ip.as_deref(), Some("2001:DB8::1"));
    assert_eq!(edges[0].protocol, "TCP");
    assert_eq!(edges[0].destination_port, 80);
}

// ---- Configuration ----

#[test]
fn map_configmap_collects_keys_and_metadata_only() {
    let cm = ConfigMap {
        metadata: ObjectMeta {
            namespace: Some("prod".to_string()),
            name: Some("app-config".to_string()),
            labels: Some(vec![kv("app", "api")]),
            annotations: Some(vec![kv("checksum/config", "abc123")]),
            ..ObjectMeta::default()
        },
        immutable: Some(true),
        data: Some(vec![kv("A", "secret-ish"), kv("B", "value")]),
        binary_data_keys: Some(vec!["BIN".to_string()]),
    };

    let mapped = map_configmap(&cm);
    assert_eq!(mapped.namespace, "prod");
    assert_eq!(mapped.name, "app-config");
    assert_eq!(mapped.immutable, Some(true));
    assert_eq!(mapped.labels.len(), 1);
    assert_eq!(mapped.annotations.len(), 1);
    assert_eq!(mapped.data_keys, vec!["A", "B"]);
    assert_eq!(mapped.binary_data_keys, vec!["BIN"]);
}

#[test]
fn collect_agent_configured_env_filters_agent_configmap_values() {
    let configmaps = vec![
        ConfigMap {
            metadata: meta("sentinella", "sentinella-hub-k8s-agent-config"),
            data: Some(vec![
                kv("COLLECT_DEPENDENCIES_TETRAGON", "true"),
                kv("HUB_API_KEY", "secret"),
                kv("HUB_URL", "https://hub.example.com"),
                kv("POD_NAME", "pod-1"),
                kv("UNRELATED", "value"),
            ]),
            ..ConfigMap::default()
        },
        ConfigMap {
            metadata: meta("default", "other"),
            data: Some(vec![kv("HUB_URL", "https://ignore.example.com")]),
            ..ConfigMap::default()
        },
    ];

    let env = collect_agent_configured_env(&configmaps);
    assert_eq!(
        env,
        vec![
            KV { key: "COLLECT_DEPENDENCIES_TETRAGON".into(), value: "true".into() },
            KV { key: "HUB_URL".into(), value: "https://hub.example.com".into() },
        ]
    );
}

#[test]
fn collect_agent_configured_env_missing_configmap_is_empty() {
    let configmaps: Vec<ConfigMap> = Vec::new();
    assert!(collect_agent_configured_env(&configmaps).is_empty());
}

#[test]
fn map_secret_collects_key_names_without_values() {
    let secret = Secret {
        metadata: ObjectMeta {
            namespace: Some("prod".to_string()),
            name: Some("db-auth".to_string()),
            annotations: Some(vec![kv("owner", "platform")]),
            ..ObjectMeta::default()
        },
        type_: Some("Opaque".to_string()),
        immutable: None,
        data_keys: Some(vec!["password".to_string(), "username".to_string()]),
    };

    let mapped = map_secret(&secret);
    assert_eq!(mapped.namespace, "prod");
    assert_eq!(mapped.name, "db-auth");
    assert_eq!(mapped.type_.as_deref(), Some("Opaque"));
    assert_eq!(mapped.data_keys, vec!["password", "username"]);
    assert_eq!(mapped.annotations.len(), 1);
}

#[test]
fn configmaps_stand_by_namespace_and_name() {
    let mut configmaps: Vec<ConfigMap> = [("b", "x"), ("a", "z"), ("a", "y")]
        .iter()
        .map(|(ns, name)| ConfigMap { metadata: meta(ns, name), ..ConfigMap::default() })
        .collect();
    sort_configmaps_for_snapshot(&mut configmaps);
    let names: Vec<String> = configmaps.iter().map(|c| c.metadata.name.clone().unwrap()).collect();
    assert_eq!(names, vec!["y", "z", "x"]);
}

// ---- Pods ----

#[test]
fn build_pod_usage_index_sums_container_metrics() {
    let pod_metrics = vec![json(
        r#"{
            "apiVersion": "metrics.k8s.io/v1beta1",
            "kind": "PodMetrics",
            "metadata": {
                "namespace": "prod",
                "name": "api-1"
            },
            "containers": [
                {"name": "app", "usage": {"cpu": "100m", "memory": "200Mi"}},
                {"name": "proxy", "usage": {"cpu": "25m", "memory": "56Mi"}}
            ]
        }"#,
    )];

    let index = build_pod_usage_index(&pod_metrics);
    let usage = index.iter().find(|u| u.namespace == "prod" && u.name == "api-1").unwrap();
    assert_eq!(format_cpu_quantity(usage.cpu_nano).as_deref(), Some("125m"));
    assert_eq!(format_memory_quantity(usage.memory_bytes).as_deref(), Some("256Mi"));
}

#[test]
fn pod_usage_needs_every_amount() {
    let metric = json(
        r#"{"metadata": {"namespace": "a", "name": "b"}, "containers": [{"usage": {"cpu": "1"}}]}"#,
    );
    assert!(build_pod_usage_index(&vec![metric]).is_empty());
}

#[test]
fn quantity_helpers_parse_and_format_common_values() {
    assert_eq!(parse_cpu_quantity("125m"), Some(125_000_000));
    assert_eq!(parse_cpu_quantity("500u"), Some(500_000));
    assert_eq!(format_cpu_quantity(125_000_000).as_deref(), Some("125m"));

    assert_eq!(parse_memory_quantity("256Mi"), Some(268_435_456));
    assert_eq!(parse_memory_quantity("1Gi"), Some(1_073_741_824));
    assert_eq!(format_memory_quantity(268_435_456).as_deref(), Some("256Mi"));
}

#[test]
fn written_quantities_are_read_back() {
    for amount in [0i128, 1, 999, 1_000_000, 1_500_000_001] {
        let text = format_cpu_quantity(amount).unwrap();
        assert_eq!(parse_cpu_quantity(&text), Some(amount));
        let text = format_memory_quantity(amount).unwrap();
        assert_eq!(parse_memory_quantity(&text), Some(amount));
    }
    assert_eq!(format_cpu_quantity(-1), None);
    assert_eq!(format_memory_quantity(-1), None);
    assert_eq!(parse_cpu_quantity("much"), None);
}

#[test]
fn map_pod_includes_usage_when_present() {
    let pod = Pod {
        metadata: meta("prod", "api-1"),
        spec: Some(PodSpec {
            node_name: Some("node-1".to_string()),
            containers: vec![container("app", "nginx:1.25")],
        }),
        status: Some(PodStatus { phase: Some("Running".to_string()), ..PodStatus::default() }),
    };
    let usage = vec![PodUsage {
        namespace: "prod".to_string(),
        name: "api-1".to_string(),
        cpu_nano: 125_000_000,
        memory_bytes: 268_435_456,
    }];

    let mapped = map_pod(&pod, &usage, false, 0);
    assert_eq!(mapped.usage_cpu.as_deref(), Some("125m"));
    assert_eq!(mapped.usage_memory.as_deref(), Some("256Mi"));
}

#[test]
fn map_pod_uses_labels_for_technology_detection() {
    let pod = Pod {
        metadata: ObjectMeta {
            namespace: Some("prod".to_string()),
            name: Some("api-1".to_string()),
            labels: Some(vec![
                kv("app.kubernetes.io/component", "spring-boot"),
                kv("app.kubernetes.io/name", "causas-backend"),
            ]),
            annotations: Some(vec![kv("app.spring.io/version", "3.3.5")]),
            ..ObjectMeta::default()
        },
        spec: Some(PodSpec {
            node_name: Some("node-1".to_string()),
            containers: vec![container("app", "causas-backend:latest")],
        }),
        status: Some(PodStatus { phase: Some("Running".to_string()), ..PodStatus::default() }),
    };

    let mapped = map_pod(&pod, &vec![], false, 0);
    let technology = &mapped.containers[0].technology;

    assert_eq!(technology.source, "labels");
    assert_eq!(technology.product.as_deref(), Some("spring-boot"));
    assert_eq!(technology.subtype.as_deref(), Some("spring_boot"));
    assert_eq!(technology.language.as_deref(), Some("Java"));
    assert_eq!(technology.version.as_deref(), Some("3.3.5"));
}

#[test]
fn map_pod_shows_owner_age_and_process_technology() {
    let mut app = container("app", "internal/tool:1");
    app.command = Some(vec!["java".to_string()]);
    app.args = Some(vec!["-jar".to_string(), "spring-app.jar".to_string()]);
    let pod = Pod {
        metadata: ObjectMeta {
            owner_references: Some(vec![OwnerReference { kind: "ReplicaSet".to_string(), name: "api".to_string() }]),
            creation_timestamp: Some(100),
            ..meta("prod", "api-1")
        },
        spec: Some(PodSpec { node_name: None, containers: vec![app] }),
        status: None,
    };
    let mapped = map_pod(&pod, &vec![], true, 160);
    assert_eq!(mapped.age_seconds, Some(60));
    assert_eq!(mapped.owner_kind.as_deref(), Some("ReplicaSet"));
    assert_eq!(mapped.containers[0].technology.subtype.as_deref(), Some("spring_boot"));
    assert_eq!(mapped.containers[0].technology.source, "process");
    assert_eq!(pod_age_seconds(Some(100), 90), Some(0));
    assert_eq!(pod_age_seconds(None, 90), None);
    assert_eq!(pod_age_seconds(Some(i64::MIN), i64::MAX), Some(u64::MAX));
}

#[test]
fn image_stack_is_the_same_with_and_without_the_process() {
    let pod = Pod {
        metadata: meta("prod", "api-1"),
        spec: Some(PodSpec { node_name: None, containers: vec![container("app", "acme/postgres-ng-app:1.0")] }),
        status: None,
    };
    for by_process in [false, true] {
        let mapped = map_pod(&pod, &vec![], by_process, 0);
        let technology = &mapped.containers[0].technology;
        assert_eq!(technology.product.as_deref(), Some("postgres"));
        assert_eq!(technology.subtype.as_deref(), Some("angular"));
        assert_eq!(technology.source, "image");
    }
}

#[test]
fn image_stack_goes_before_the_command_line() {
    let mut app = container("app", "acme/portal-springboot:1.0");
    app.command = Some(vec!["sqlplus".to_string()]);
    let pod = Pod {
        metadata: meta("prod", "api-1"),
        spec: Some(PodSpec { node_name: None, containers: vec![app] }),
        status: None,
    };
    let technology = &map_pod(&pod, &vec![], true, 0).containers[0].technology;
    assert_eq!(technology.subtype.as_deref(), Some("spring_boot"));
    assert_eq!(technology.source, "image");
}

// ---- Security ----

#[test]
fn map_network_policy_captures_selector_types_and_counts() {
    let policy = NetworkPolicy {
        metadata: meta("prod", "default-deny"),
        spec: Some(NetworkPolicySpec {
            pod_selector: Some(LabelSelector { match_labels: Some(vec![kv("app", "api")]), match_expressions: None }),
            policy_types: Some(vec!["Ingress".to_string(), "Egress".to_string()]),
            ingress_rules: Some(1),
            egress_rules: Some(2),
        }),
    };

    let mapped = map_network_policy(&policy);
    assert_eq!(mapped.namespace, "prod");
    assert_eq!(mapped.name, "default-deny");
    assert_eq!(mapped.policy_types, vec!["Egress", "Ingress"]);
    assert_eq!(mapped.ingress_rules_count, 1);
    assert_eq!(mapped.egress_rules_count, 2);
    assert_eq!(mapped.pod_selector, vec![KV { key: "app".into(), value: "api".into() }]);
}

#[test]
fn network_policy_types_follow_the_rules_where_none_are_named() {
    let both = NetworkPolicySpec { ingress_rules: Some(1), egress_rules: Some(3), ..NetworkPolicySpec::default() };
    assert_eq!(network_policy_types(&both), vec!["Egress", "Ingress"]);
    let none = NetworkPolicySpec { ingress_rules: Some(0), ..NetworkPolicySpec::default() };
    assert!(network_policy_types(&none).is_empty());
}

fn binding(name: &str, role: &str, subjects: Vec<Subject>) -> ClusterRoleBinding {
    ClusterRoleBinding {
        metadata: ObjectMeta { name: Some(name.to_string()), ..ObjectMeta::default() },
        role_ref_kind: "ClusterRole".to_string(),
        role_ref_name: role.to_string(),
        subjects: Some(subjects),
    }
}

#[test]
fn map_cluster_role_binding_filters_and_flags_risk() {
    let high = binding(
        "admins",
        "cluster-admin",
        vec![
            Subject { kind: "User".to_string(), name: "alice".to_string(), namespace: None },
            Subject {
                kind: "ServiceAccount".to_string(),
                name: "bot".to_string(),
                namespace: Some("ops".to_string()),
            },
        ],
    );
    let review = binding("platform", "platform-admin", vec![]);

    let mapped_high = map_cluster_role_binding(&high).unwrap();
    assert_eq!(mapped_high.risk_level, "high");
    assert_eq!(mapped_high.role_ref_name, "cluster-admin");
    assert_eq!(mapped_high.subjects.len(), 2);

    let mapped_review = map_cluster_role_binding(&review).unwrap();
    assert_eq!(mapped_review.risk_level, "review");

    let ignored = binding("ignored", "system:discovery", vec![]);
    assert!(map_cluster_role_binding(&ignored).is_none());

    let all = map_cluster_role_bindings(&vec![review, ignored, high]);
    assert_eq!(all.len(), 2);
    assert_eq!(all[0].name, "admins");
    assert_eq!(all[0].subjects[0].kind, "ServiceAccount");
}

#[test]
fn build_pod_security_admission_includes_missing_labels() {
    let namespaces = vec![
        NamespaceInfo {
            name: "prod".into(),
            phase: Some("Active".into()),
            labels: vec![
                KV { key: PSA_ENFORCE_LABEL.into(), value: "restricted".into() },
                KV { key: PSA_WARN_LABEL.into(), value: "baseline".into() },
            ],
        },
        NamespaceInfo { name: "dev".into(), phase: Some("Active".into()), labels: vec![] },
    ];

    let psa = build_pod_security_admission(&namespaces);
    assert_eq!(psa.namespaces.len(), 2);
    assert_eq!(psa.namespaces[0].namespace, "dev");
    assert_eq!(psa.namespaces[0].enforce, None);
    assert_eq!(psa.namespaces[1].namespace, "prod");
    assert_eq!(psa.namespaces[1].enforce.as_deref(), Some("restricted"));
    assert_eq!(psa.namespaces[1].audit, None);
    assert_eq!(psa.namespaces[1].warn.as_deref(), Some("baseline"));
}

// ---- Operational maturity ----

#[test]
fn detect_descheduler_finds_deployment_by_name() {
    let deployments = vec![
        deployment("kube-system", "coredns", ("app", "coredns")),
        deployment("kube-system", "descheduler", ("descheduler", "true")),
    ];

    let info = detect_descheduler(&deployments);
    assert!(info.installed);
    assert_eq!(info.detected_by.as_deref(), Some("deployment"));
    assert_eq!(info.namespace.as_deref(), Some("kube-system"));
    assert_eq!(info.strategy.as_deref(), Some("true"));
}

#[test]
fn detect_descheduler_returns_default_when_not_found() {
    let deployments = vec![deployment("default", "nginx", ("app", "nginx"))];

    let info = detect_descheduler(&deployments);
    assert!(!info.installed);
}

#[test]
fn detect_descheduler_knows_its_operator_namespace() {
    let deployments = vec![deployment("openshift-kube-descheduler-operator", "operator", ("app", "x"))];
    let info = detect_descheduler(&deployments);
    assert!(info.installed);
    assert_eq!(info.detected_by.as_deref(), Some("namespace"));
    assert_eq!(info.strategy, None);
}

#[test]
fn build_vpa_info_counts_objects_and_modes() {
    let vpa_objects = vec![
        json(
            r#"{
                "apiVersion": "autoscaling.k8s.io/v1",
                "kind": "VerticalPodAutoscaler",
                "metadata": {"namespace": "prod", "name": "vpa-app"},
                "spec": {
                    "targetRef": {"kind": "Deployment", "name": "app"},
                    "updatePolicy": {"updateMode": "Auto"}
                }
            }"#,
        ),
        json(
            r#"{
                "apiVersion": "autoscaling.k8s.io/v1",
                "kind": "VerticalPodAutoscaler",
                "metadata": {"namespace": "prod", "name": "vpa-db"},
                "spec": {
                    "targetRef": {"kind": "Deployment", "name": "db"},
                    "updatePolicy": {"updateMode": "Off"}
                }
            }"#,
        ),
    ];

    let info = build_vpa_info(&vpa_objects);
    assert!(info.installed);
    assert_eq!(info.objects_count, 2);
    assert_eq!(info.update_modes.len(), 2);
}

#[test]
fn build_vpa_info_empty_when_no_vpa_objects() {
    let info = build_vpa_info(&vec![]);
    assert!(!info.installed);
    assert_eq!(info.objects_count, 0);
    assert!(info.update_modes.is_empty());
}

#[test]
fn build_vpa_info_lists_each_mode_once() {
    let info = build_vpa_info(&vec![json("{}"), json(r#"{"spec": {"updatePolicy": {"updateMode": "Auto"}}}"#)]);
    assert_eq!(info.update_modes, vec!["Auto"]);
}

fn cronjob(namespace: &str, name: &str) -> CronJob {
    CronJob {
        metadata: meta(namespace, name),
        spec: Some(CronJobSpec { schedule: "0 */6 * * *".to_string(), suspend: Some(false) }),
        last_schedule_time: Some("2026-06-11T20:00:00Z".to_string()),
        last_successful_time: Some("2026-06-11T20:00:05Z".to_string()),
    }
}

#[test]
fn map_scheduled_job_extracts_cronjob_fields() {
    let mapped = map_scheduled_job(&cronjob("kube-tools", "descheduler-cron"));
    assert_eq!(mapped.namespace, "kube-tools");
    assert_eq!(mapped.name, "descheduler-cron");
    assert_eq!(mapped.schedule, "0 */6 * * *");
    assert!(!mapped.suspend);
    assert_eq!(mapped.last_schedule_time.as_deref(), Some("2026-06-11T20:00:00Z"));
    assert_eq!(mapped.last_successful_time.as_deref(), Some("2026-06-11T20:00:05Z"));
}

#[test]
fn all_scheduled_jobs_are_shown_in_order() {
    let jobs: Vec<CronJob> = (0..600).rev().map(|i| cronjob("ns", &format!("job-{i:04}"))).collect();
    let infos = map_scheduled_jobs(jobs);
    assert_eq!(infos.len(), 600);
    assert_eq!(infos[0].name, "job-0000");
    assert_eq!(infos[599].name, "job-0599");
}

// ---- Network ----

#[test]
fn map_service_extracts_selector_ports_and_lb() {
    let service = Service {
        metadata: meta("prod", "api"),
        spec: Some(ServiceSpec {
            type_: Some("LoadBalancer".to_string()),
            cluster_ip: Some("10.0.0.10".to_string()),
            external_ips: Some(vec!["203.0.113.10".to_string()]),
            selector: Some(vec![kv("app", "api")]),
            ports: Some(vec![ServicePort {
                name: Some("http".to_string()),
                protocol: Some("TCP".to_string()),
                port: 80,
                target_port: Some(IntOrString::Int(8080)),
                node_port: Some(30080),
            }]),
        }),
        load_balancer: Some(vec![
            LoadBalancerIngress { hostname: Some("lb.example.com".to_string()), ..LoadBalancerIngress::default() },
            LoadBalancerIngress { ip: Some("34.12.10.9".to_string()), ..LoadBalancerIngress::default() },
        ]),
    };

    let mapped = map_service(&service);
    assert_eq!(mapped.namespace, "prod");
    assert_eq!(mapped.name, "api");
    assert_eq!(mapped.type_, "LoadBalancer");
    assert_eq!(mapped.cluster_ip.as_deref(), Some("10.0.0.10"));
    assert_eq!(mapped.external_ips, vec!["203.0.113.10"]);
    assert_eq!(mapped.selector.len(), 1);
    assert_eq!(mapped.selector[0].key, "app");
    assert_eq!(mapped.selector[0].value, "api");
    assert_eq!(mapped.ports.len(), 1);
    assert_eq!(mapped.ports[0].port, 80);
    assert_eq!(mapped.ports[0].target_port.as_deref(), Some("8080"));
    assert_eq!(mapped.load_balancer_ingress.len(), 2);
}

#[test]
fn map_ingress_extracts_rules_tls_and_lb() {
    let ingress = Ingress {
        metadata: meta("prod", "web"),
        spec: Some(IngressSpec {
            ingress_class_name: Some("nginx".to_string()),
            rules: Some(vec![IngressRule {
                host: Some("example.com".to_string()),
                paths: Some(vec![HttpIngressPath {
                    path: Some("/".to_string()),
                    path_type: "Prefix".to_string(),
                    service: Some(IngressServiceBackend {
                        name: "web-svc".to_string(),
                        port: Some(ServiceBackendPort { name: None, number: Some(80) }),
                    }),
                }]),
            }]),
            tls: Some(vec![IngressTls {
                hosts: Some(vec!["example.com".to_string()]),
                secret_name: Some("web-tls".to_string()),
            }]),
        }),
        load_balancer: Some(vec![LoadBalancerIngress {
            ip: Some("34.118.20.1".to_string()),
            ..LoadBalancerIngress::default()
        }]),
    };

    let mapped = map_ingress(&ingress);
    assert_eq!(mapped.namespace, "prod");
    assert_eq!(mapped.name, "web");
    assert_eq!(mapped.class_name.as_deref(), Some("nginx"));
    assert_eq!(mapped.hosts, vec!["example.com"]);
    assert_eq!(mapped.rules.len(), 1);
    assert_eq!(mapped.rules[0].backend_service.as_deref(), Some("web-svc"));
    assert_eq!(mapped.rules[0].backend_port.as_deref(), Some("80"));
    assert_eq!(mapped.tls.len(), 1);
    assert_eq!(mapped.tls[0].secret_name.as_deref(), Some("web-tls"));
    assert_eq!(mapped.load_balancer_ingress, vec!["34.118.20.1"]);
}

#[test]
fn map_service_handles_missing_spec() {
    let service = Service { metadata: meta("prod", "headless"), ..Service::default() };

    let mapped = map_service(&service);
    assert_eq!(mapped.type_, "ClusterIP");
    assert!(mapped.cluster_ip.is_none());
    assert!(mapped.external_ips.is_empty());
    assert!(mapped.selector.is_empty());
    assert!(mapped.ports.is_empty());
}

#[test]
fn map_ingress_handles_missing_rules_and_tls() {
    let ingress = Ingress {
        metadata: meta("prod", "web"),
        spec: Some(IngressSpec { ingress_class_name: Some("nginx".to_string()), ..IngressSpec::default() }),
        load_balancer: None,
    };

    let mapped = map_ingress(&ingress);
    assert_eq!(mapped.class_name.as_deref(), Some("nginx"));
    assert!(mapped.hosts.is_empty());
    assert!(mapped.rules.is_empty());
    assert!(mapped.tls.is_empty());
}

#[test]
fn service_ports_and_ways_in_stand_in_order() {
    let port = |port: i32, name: Option<&str>| ServicePort {
        name: name.map(|n| n.to_string()),
        protocol: None,
        port,
        target_port: Some(IntOrString::String("web".to_string())),
        node_port: None,
    };
    let service = Service {
        metadata: meta("prod", "api"),
        spec: Some(ServiceSpec {
            ports: Some(vec![port(443, Some("b")), port(80, None), port(443, None)]),
            ..ServiceSpec::default()
        }),
        load_balancer: Some(vec![
            LoadBalancerIngress { hostname: Some(String::new()), ip: Some("1.1.1.1".to_string()), ip_mode: None },
            LoadBalancerIngress { hostname: None, ip: None, ip_mode: Some("VIP".to_string()) },
            LoadBalancerIngress { hostname: Some("a.example".to_string()), ip: None, ip_mode: None },
        ]),
    };
    let mapped = map_service(&service);
    let ports: Vec<(i32, Option<&str>)> = mapped.ports.iter().map(|p| (p.port, p.name.as_deref())).collect();
    assert_eq!(ports, vec![(80, None), (443, None), (443, Some("b"))]);
    assert_eq!(mapped.ports[0].target_port.as_deref(), Some("web"));
    assert_eq!(mapped.load_balancer_ingress, vec!["VIP", "a.example"]);
}

#[test]
fn ingress_lines_and_hosts_stand_in_order() {
    let rule = |host: Option<&str>, paths: Option<Vec<HttpIngressPath>>| IngressRule {
        host: host.map(|h| h.to_string()),
        paths,
    };
    let path = |path: &str, port: ServiceBackendPort| HttpIngressPath {
        path: Some(path.to_string()),
        path_type: "Prefix".to_string(),
        service: Some(IngressServiceBackend { name: "s".to_string(), port: Some(port) }),
    };
    let named = ServiceBackendPort { name: Some("http".to_string()), number: Some(1) };
    let ingress = Ingress {
        metadata: meta("prod", "web"),
        spec: Some(IngressSpec {
            ingress_class_name: None,
            rules: Some(vec![
                rule(Some("b"), Some(vec![path("/z", named.clone()), path("/a", ServiceBackendPort::default())])),
                rule(Some("a"), None),
                rule(Some("b"), Some(vec![])),
            ]),
            tls: Some(vec![
                IngressTls { hosts: Some(vec!["y".to_string(), "x".to_string()]), secret_name: Some("t".to_string()) },
                IngressTls { hosts: None, secret_name: None },
            ]),
        }),
        load_balancer: None,
    };
    let mapped = map_ingress(&ingress);
    assert_eq!(mapped.hosts, vec!["a", "b"]);
    assert_eq!(mapped.rules.len(), 3);
    assert_eq!(mapped.rules[0].host.as_deref(), Some("a"));
    assert_eq!(mapped.rules[0].path_type, None);
    assert_eq!(mapped.rules[1].path.as_deref(), Some("/a"));
    assert_eq!(mapped.rules[1].backend_port, None);
    assert_eq!(mapped.rules[2].backend_port.as_deref(), Some("http"));
    assert_eq!(mapped.tls[0].secret_name, None);
    assert_eq!(mapped.tls[1].hosts, vec!["x", "y"]);
}

#[test]
fn services_stand_by_namespace_and_name() {
    let mut services: Vec<Service> = [("b", "a"), ("a", "b"), ("a", "a")]
        .iter()
        .map(|(ns, name)| Service { metadata: meta(ns, name), ..Service::default() })
        .collect();
    sort_services_for_snapshot(&mut services);
    let places: Vec<(String, String)> = services
        .iter()
        .map(|s| (s.metadata.namespace.clone().unwrap(), s.metadata.name.clone().unwrap()))
        .collect();
    assert_eq!(
        places,
        vec![
            ("a".to_string(), "a".to_string()),
            ("a".to_string(), "b".to_string()),
            ("b".to_string(), "a".to_string())
        ]
    );
}

// ---- Storage ----

#[test]
fn storage_class_shows_named_parameters_alone() {
    let class = StorageClass {
        metadata: ObjectMeta { name: Some("fast".to_string()), ..ObjectMeta::default() },
        provisioner: "ebs.csi.aws.com".to_string(),
        parameters: Some(vec![kv("adminSecret", "x"), kv("fsType", "ext4"), kv("type", "gp3")]),
    };
    let info = map_storage_class(&class);
    assert_eq!(info.parameters, vec![kv("type", "gp3"), kv("fsType", "ext4")]);
}

#[test]
fn volume_snapshots_are_read_from_their_documents() {
    let class = map_volume_snapshot_class(&json(r#"{"metadata": {"name": "c"}, "driver": "d"}"#));
    assert_eq!((class.name.as_str(), class.driver.as_str()), ("c", "d"));
    let snapshot = map_volume_snapshot(&json(
        r#"{"metadata": {"name": "s", "namespace": "n"}, "spec": {"volumeSnapshotClassName": "c"}}"#,
    ));
    assert_eq!(snapshot.namespace, "n");
    assert_eq!(snapshot.snapshot_class.as_deref(), Some("c"));
    assert_eq!(snapshot.bound_content_name, None);
}

// ---- Events ----

fn event(kind: &str, seconds: i64, name: &str) -> Event {
    Event {
        metadata: meta("prod", name),
        type_: Some(kind.to_string()),
        message: Some("m".repeat(600)),
        last_timestamp: Some(Timestamp { seconds, text: format!("t{seconds}") }),
        ..Event::default()
    }
}

#[test]
fn events_stand_by_rank_then_time_then_place() {
    let mut events = vec![event("Normal", 9, "a"), event("Warning", 1, "b"), event("Warning", 5, "d"), event("Warning", 5, "c")];
    sort_events_for_snapshot(&mut events);
    let names: Vec<String> = events.iter().map(|e| e.metadata.name.clone().unwrap()).collect();
    assert_eq!(names, vec!["c", "d", "b", "a"]);
    assert_eq!(event_type_rank(Some("Warning")), 1);
    assert_eq!(event_type_rank(Some("warning")), 0);
    assert_eq!(event_type_rank(None), 0);
    assert_eq!(event_sort_ts_seconds(&Event::default()), 0);
}

#[test]
fn events_and_their_messages_are_bounded() {
    let mut events: Vec<Event> = (0..520).map(|i| event("Normal", i, &format!("e{i}"))).collect();
    events.push(event("Warning", 0, "w"));
    let infos = map_events(events);
    assert_eq!(infos.len(), 500);
    assert_eq!(infos[0].name, "w");
    assert_eq!(infos[1].name, "e519");
    assert_eq!(infos[0].message.as_ref().unwrap().chars().count(), 500);
}

#[test]
fn event_time_goes_before_the_last_timestamp() {
    let mut e = event("Normal", 3, "a");
    assert_eq!(map_event(&e).last_timestamp.as_deref(), Some("t3"));
    e.event_time = Some(Timestamp { seconds: 7, text: "t7".to_string() });
    assert_eq!(map_event(&e).last_timestamp.as_deref(), Some("t7"));
    assert_eq!(event_sort_ts_seconds(&e), 7);
}

// ---- Pod-metrics classification ----

fn kube_api_error(code: u16) -> KubeFailure {
    KubeFailure::Api(code, String::new())
}

#[test]
fn classify_metrics_error_forbidden() {
    let err = kube_api_error(403);
    let (state, reason) = classify_metrics_error(&err);
    assert_eq!(state, "forbidden");
    assert_eq!(reason, "ServiceAccount missing metrics.k8s.io RBAC");
}

#[test]
fn classify_metrics_error_not_found() {
    let err = kube_api_error(404);
    let (state, reason) = classify_metrics_error(&err);
    assert_eq!(state, "missing");
    assert_eq!(reason, "metrics-server not installed");
}

#[test]
fn classify_metrics_error_unavailable_503() {
    let err = kube_api_error(503);
    let (state, reason) = classify_metrics_error(&err);
    assert_eq!(state, "unavailable");
    assert_eq!(reason, "metrics-server registered but not ready");
}

#[test]
fn classify_metrics_error_unavailable_504() {
    let err = kube_api_error(504);
    let (state, reason) = classify_metrics_error(&err);
    assert_eq!(state, "unavailable");
    assert_eq!(reason, "metrics-server timeout");
}

#[test]
fn classify_metrics_error_other_api_code() {
    let err = kube_api_error(500);
    let (state, reason) = classify_metrics_error(&err);
    assert_eq!(state, "error");
    assert_eq!(reason, "kube API error");
}

#[test]
fn classify_transient_error_timeout_keyword() {
    let err = kube_api_error(418);
    let (state, reason) = classify_metrics_error(&err);
    assert_eq!(state, "error");
    assert_eq!(reason, "kube API error");
}

#[test]
fn transient_errors_are_told_by_their_message() {
    assert_eq!(classify_transient_error("operation TIMED OUT").1, "transient: timeout");
    assert_ne!(classify_transient_error("nothing known").1, "transient: timeout");
}

#[test]
fn is_not_found_only_matches_404() {
    assert!(is_not_found(&kube_api_error(404)));
    assert!(!is_not_found(&kube_api_error(403)));
    assert!(!is_not_found(&kube_api_error(500)));
}

#[test]
fn status_from_omits_reason_when_empty() {
    let s = status_from("ok", "", "metrics.k8s.io/v1", 0, 0);
    assert_eq!(s.state, "ok");
    assert!(s.reason.is_none());
}

#[test]
fn status_from_keeps_reason_when_present() {
    let s = status_from("missing", "metrics-server not installed", "metrics.k8s.io/v1", 0, 0);
    assert_eq!(s.state, "missing");
    assert_eq!(s.reason.as_deref(), Some("metrics-server not installed"));
}

#[test]
fn metrics_are_asked_for_a_second_time_only_where_the_first_version_is_missing() {
    match settle_first_metrics_probe(&ProbeOutcome::Failed(kube_api_error(404)), 5) {
        MetricsProbe::TryOlder => {}
        MetricsProbe::Settled(_) => panic!("the older version is to be tried"),
    }
    match settle_first_metrics_probe(&ProbeOutcome::Found(3), 5) {
        MetricsProbe::Settled(status) => {
            assert_eq!(status.state, "ok");
            assert_eq!(status.pod_metrics_count, 3);
            assert_eq!(status.last_attempt_at_ms, 5);
        }
        MetricsProbe::TryOlder => panic!("the list is there"),
    }
    let missing = settle_second_metrics_probe(&ProbeOutcome::Failed(kube_api_error(404)), 5);
    assert_eq!(missing.state, "missing");
}

// ---- CSI snapshot API classification ----

#[test]
fn classify_snapshot_api_error_forbidden() {
    let err = kube_api_error(403);
    let (state, reason) = classify_snapshot_api_error(&err);
    assert_eq!(state, "forbidden");
    assert_eq!(reason, "ServiceAccount missing snapshot.storage.k8s.io RBAC");
}

#[test]
fn classify_snapshot_api_error_not_found() {
    let err = kube_api_error(404);
    let (state, reason) = classify_snapshot_api_error(&err);
    assert_eq!(state, "missing");
    assert_eq!(reason, "CSI snapshot CRDs not installed");
}

#[test]
fn classify_snapshot_api_error_unavailable_503() {
    let err = kube_api_error(503);
    let (state, reason) = classify_snapshot_api_error(&err);
    assert_eq!(state, "unavailable");
    assert_eq!(reason, "CSI snapshot API registered but not ready");
}

#[test]
fn classify_snapshot_api_error_unavailable_504() {
    let err = kube_api_error(504);
    let (state, reason) = classify_snapshot_api_error(&err);
    assert_eq!(state, "unavailable");
    assert_eq!(reason, "CSI snapshot API timeout");
}

#[test]
fn classify_snapshot_api_error_other_api_code() {
    let err = kube_api_error(500);
    let (state, reason) = classify_snapshot_api_error(&err);
    assert_eq!(state, "error");
    assert_eq!(reason, "kube API error");
}

#[test]
fn status_snapshot_from_omits_reason_when_empty() {
    let s = status_snapshot_from("ok", "", "snapshot.storage.k8s.io/v1", 0, 0, 0);
    assert_eq!(s.state, "ok");
    assert!(s.reason.is_none());
}

#[test]
fn status_snapshot_from_keeps_reason_when_present() {
    let s = status_snapshot_from("missing", "CSI snapshot CRDs not installed", "snapshot.storage.k8s.io/v1", 0, 0, 0);
    assert_eq!(s.state, "missing");
    assert_eq!(s.reason.as_deref(), Some("CSI snapshot CRDs not installed"));
    assert_eq!(s.volumesnapshotclasses_count, 0);
    assert_eq!(s.volumesnapshots_count, 0);
}

#[test]
fn status_snapshot_from_preserves_counts() {
    let s = status_snapshot_from("ok", "", "snapshot.storage.k8s.io/v1", 7, 12, 1748523600000);
    assert_eq!(s.volumesnapshotclasses_count, 7);
    assert_eq!(s.volumesnapshots_count, 12);
    assert_eq!(s.last_attempt_at_ms, 1748523600000);
}

// ---- Logs ----

#[test]
fn log_output_is_split_and_marked_where_it_may_be_cut() {
    let (lines, truncated) = split_log_output("one\r\ntwo\n");
    assert_eq!(lines, vec!["one", "two"]);
    assert!(!truncated);
    assert!(split_log_output(&"x\n".repeat(200)).1);
    assert!(split_log_output(&"é".repeat(32_768)).1);
}

fn pod_info(namespace: &str, name: &str, containers: usize) -> PodInfo {
    PodInfo {
        namespace: namespace.to_string(),
        name: name.to_string(),
        age_seconds: None,
        node: None,
        phase: None,
        usage_cpu: None,
        usage_memory: None,
        owner_kind: None,
        owner_name: None,
        containers: (0..containers)
            .map(|i| ContainerInfo {
                name: format!("c{i}"),
                image: String::new(),
                image_pull_policy: None,
                technology: Technology::default(),
                resources: ResourceSpec::default(),
            })
            .collect(),
    }
}

#[test]
fn logs_are_read_of_watched_namespaces_alone() {
    let env = vec![
        kv("HUB_URL", "https://hub"),
        kv("CLUSTER_ID", "c"),
        kv("WORKLOAD_MONITORING_ENABLED", "true"),
        kv("WORKLOAD_MONITORING_NAMESPACES", "prod"),
    ];
    let cfg = Config::from_env(&env).expect("settings");
    let pods = vec![pod_info("prod", "a", 2), pod_info("dev", "b", 1), pod_info("prod", "c", 0)];
    let plan = plan_log_reads(&cfg, &pods);
    assert_eq!(plan.len(), 1);
    assert_eq!(plan[0].name, "a");
    assert_eq!(plan[0].containers, vec!["c0", "c1"]);
}

#[test]
fn pods_without_a_log_are_left_out() {
    let read = |name: &str, output: Option<&str>| ContainerLogRead {
        name: name.to_string(),
        output: output.map(|o| o.to_string()),
    };
    let reads = vec![
        PodLogReads { namespace: "n".to_string(), name: "a".to_string(), containers: vec![read("x", None)] },
        PodLogReads {
            namespace: "n".to_string(),
            name: "b".to_string(),
            containers: vec![read("x", None), read("y", Some("hello"))],
        },
    ];
    let logs = collect_workload_monitoring_logs(&reads);
    assert_eq!(logs.pods.len(), 1);
    assert_eq!(logs.pods[0].name, "b");
    assert_eq!(logs.pods[0].containers[0].lines, vec!["hello"]);
}

// ---- The whole collection ----

#[test]
fn collection_survives_missing_lists() {
    let collection =
        collect(listing(), true, false, false, "", no_coverage(), metrics_status(), snapshot_status(), 1000);
    assert!(collection.inventory.pods.is_empty());
    assert_eq!(collection.inventory.cluster.platform.as_deref(), Some("vanilla"));
    assert_eq!(collection.inventory.dependencies.source, "tetragon_grpc");
}

#[test]
fn secrets_are_collected_only_where_that_is_switched_on() {
    let with_secret = || {
        let mut l = listing();
        l.secrets = Some(vec![Secret { metadata: meta("prod", "s"), ..Secret::default() }]);
        l
    };
    let off = collect(with_secret(), false, false, false, "", no_coverage(), metrics_status(), snapshot_status(), 0);
    assert!(off.inventory.configuration.secrets.is_empty());
    let on = collect(with_secret(), true, false, false, "", no_coverage(), metrics_status(), snapshot_status(), 0);
    assert_eq!(on.inventory.configuration.secrets.len(), 1);
}

#[test]
fn collection_joins_pods_with_their_usage_and_openshift_with_its_version() {
    let mut l = listing();
    l.pods = Some(vec![Pod {
        metadata: ObjectMeta { creation_timestamp: Some(40), ..meta("prod", "api-1") },
        ..Pod::default()
    }]);
    l.pod_metrics = vec![json(
        r#"{"metadata": {"namespace": "prod", "name": "api-1"}, "containers": [{"usage": {"cpu": "1", "memory": "1Ki"}}]}"#,
    )];
    l.nodes = Some(vec![Node {
        metadata: ObjectMeta { labels: Some(vec![kv("node.openshift.io/os_id", "rhcos")]), ..ObjectMeta::default() },
        ..Node::default()
    }]);
    l.cluster_versions = Some(vec![json(r#"{"status": {"desired": {"version": "4.16.1"}}}"#)]);
    let collection = collect(l, false, false, false, "", no_coverage(), metrics_status(), snapshot_status(), 100_500);
    let pod = &collection.inventory.pods[0];
    assert_eq!(pod.age_seconds, Some(60));
    assert_eq!(pod.usage_cpu.as_deref(), Some("1000m"));
    assert_eq!(pod.usage_memory.as_deref(), Some("1Ki"));
    assert_eq!(collection.inventory.cluster.openshift_version.as_deref(), Some("4.16.1"));
}

#[test]
fn snapshot_api_is_settled_by_the_first_list() {
    match settle_snapshot_classes_probe(&ProbeOutcome::Failed(kube_api_error(403)), 5) {
        SnapshotProbe::Settled(status) => assert_eq!(status.state, "forbidden"),
        SnapshotProbe::ListSnapshots => panic!("nothing more is to be listed"),
    }
    let status = settle_snapshots_probe(2, 3, 7);
    assert_eq!(status.volumesnapshotclasses_count, 2);
    assert_eq!(status.volumesnapshots_count, 3);
}
