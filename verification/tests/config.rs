use sentinella_agent::config::{
    agent_configured_env, agent_runtime_env, parse_csv_values, parse_non_empty_value, parse_secs, parse_u16_env,
    parse_yaml_list, trim_end_slashes, yaml_list_string, Config, ConfigError, AGENT_CONFIG_ENV_ALLOWLIST,
    DEFAULT_GRPC_ADDRESS,
};
use sentinella_agent::model::KV;

fn kv(key: &str, value: &str) -> KV {
    KV { key: key.to_string(), value: value.to_string() }
}

fn env_of(pairs: &[(&str, &str)]) -> Vec<KV> {
    pairs.iter().map(|(k, v)| kv(k, v)).collect()
}

/// The settings with the required variables and some more.
fn settings(pairs: &[(&str, &str)]) -> Config {
    let mut env = env_of(&[("HUB_URL", "https://hub.example.com"), ("CLUSTER_ID", "cluster-1")]);
    env.extend(env_of(pairs));
    Config::from_env(&env).expect("settings")
}

#[test]
fn from_env_ok() {
    let cfg = settings(&[]);
    assert_eq!(cfg.hub_url, "https://hub.example.com");
    assert_eq!(cfg.cluster_id, "cluster-1");
    assert!(!cfg.collect_dependencies_tetragon);
    assert!(cfg.tetragon_required_for_readiness);
    assert_eq!(cfg.tetragon_grpc_address, DEFAULT_GRPC_ADDRESS);
}

#[test]
fn from_env_missing_hub_url() {
    assert!(Config::from_env(&env_of(&[("CLUSTER_ID", "cluster-1")])).is_err());
}

#[test]
fn from_env_missing_cluster_id() {
    assert!(Config::from_env(&env_of(&[("HUB_URL", "https://hub.example.com")])).is_err());
}

#[test]
fn missing_settings_are_named() {
    match Config::from_env(&vec![]) {
        Err(error) => {
            assert_eq!(error, ConfigError::HubUrlNotSet);
            assert!(error.message().contains("HUB_URL"));
        }
        Ok(_) => panic!("nothing is set"),
    }
    match Config::from_env(&env_of(&[("HUB_URL", "https://hub.example.com")])) {
        Err(error) => assert!(error.message().contains("CLUSTER_ID")),
        Ok(_) => panic!("the cluster has no name"),
    }
}

#[test]
fn hub_url_trailing_slash_stripped() {
    let env = env_of(&[("HUB_URL", "https://hub.example.com///"), ("CLUSTER_ID", "cluster-1")]);
    let cfg = Config::from_env(&env).unwrap();
    assert_eq!(cfg.hub_url, "https://hub.example.com");
    assert_eq!(trim_end_slashes("a//"), "a");
}

#[test]
fn api_key_empty_string_becomes_none() {
    let cfg = settings(&[("HUB_API_KEY", "")]);
    assert!(cfg.api_key.is_none());
}

#[test]
fn api_key_set() {
    let cfg = settings(&[("HUB_API_KEY", "shub_test123")]);
    assert_eq!(cfg.api_key.as_deref(), Some("shub_test123"));
}

#[test]
fn agent_version_override_set() {
    let cfg = settings(&[("AGENT_VERSION_OVERRIDE", "dev")]);
    assert_eq!(cfg.agent_version_override.as_deref(), Some("dev"));
}

#[test]
fn agent_version_override_empty_becomes_none() {
    let cfg = settings(&[("AGENT_VERSION_OVERRIDE", "   ")]);
    assert!(cfg.agent_version_override.is_none());
}

#[test]
fn agent_version_override_too_long_becomes_none() {
    let long = "x".repeat(129);
    let cfg = settings(&[("AGENT_VERSION_OVERRIDE", &long)]);
    assert!(cfg.agent_version_override.is_none());
}

#[test]
fn actions_enabled_true_values() {
    for val in ["true", "1"] {
        let cfg = settings(&[("ACTIONS_ENABLED", val)]);
        assert!(cfg.actions_enabled, "expected true for ACTIONS_ENABLED={val}");
        assert!(!cfg.collect_secrets);
    }
}

#[test]
fn actions_enabled_defaults_false() {
    let cfg = settings(&[]);
    assert!(!cfg.actions_enabled);
    assert!(!cfg.collect_secrets);
}

#[test]
fn readonly_commands_enabled_true_values() {
    for val in ["true", "1"] {
        let cfg = settings(&[("READONLY_COMMANDS_ENABLED", val)]);
        assert!(cfg.readonly_commands_enabled, "expected true for READONLY_COMMANDS_ENABLED={val}");
    }
}

#[test]
fn readonly_commands_enabled_defaults_false() {
    let cfg = settings(&[]);
    assert!(!cfg.readonly_commands_enabled);
}

#[test]
fn collect_secrets_true_values() {
    for val in ["true", "1"] {
        let cfg = settings(&[("COLLECT_SECRETS", val)]);
        assert!(cfg.collect_secrets, "expected true for COLLECT_SECRETS={val}");
    }
}

#[test]
fn collect_dependencies_tetragon_and_path_values() {
    let cfg = settings(&[
        ("COLLECT_DEPENDENCIES_TETRAGON", "true"),
        ("TETRAGON_REQUIRED_FOR_READINESS", "false"),
        ("TETRAGON_GRPC_ADDRESS", "tetragon-grpc.tetragon.svc.cluster.local:54321"),
    ]);
    assert!(cfg.collect_dependencies_tetragon);
    assert!(cfg.tetragon_endpoint_discovery_enabled);
    assert!(!cfg.tetragon_required_for_readiness);
    assert_eq!(cfg.tetragon_grpc_address, "tetragon-grpc.tetragon.svc.cluster.local:54321");
    assert_eq!(cfg.tetragon_grpc_port, 54321);
    assert_eq!(cfg.tetragon_service_namespace, "tetragon");
    assert_eq!(cfg.tetragon_service_name, "tetragon-grpc");
}

#[test]
fn agent_runtime_env_filters_and_normalizes_values() {
    let cfg = settings(&[
        ("HUB_API_KEY", "shub_secret"),
        ("AGENT_VERSION_OVERRIDE", "dev"),
        ("COLLECT_INTERVAL_SECS", "60"),
        ("POLL_WAIT_SECS", "30"),
        ("ACTIONS_ENABLED", "true"),
        ("READONLY_COMMANDS_ENABLED", "true"),
        ("COLLECT_DEPENDENCIES_TETRAGON", "true"),
        ("TETRAGON_GRPC_ADDRESS", "tetragon:54321"),
        ("HTTP_TIMEOUT_SECS", "20"),
        ("AGENT_HTTP_DEBUG", "true"),
        ("AGENT_LOG", "debug"),
        ("POD_NAME", "pod-1"),
        ("POD_NAMESPACE", "sentinella"),
        ("NODE_NAME", "node-1"),
        ("LEASE_NAME", "lease"),
        ("LEASE_TTL_SECS", "30"),
        ("WORKLOAD_MONITORING_TARGETS", "angular,spring_boot"),
        ("POSTGRESQL_MONITORING_SECRET_NAME", "postgresql-monitoring"),
        ("POSTGRESQL_MONITORING_HOST", "postgresql.customer-db.svc.cluster.local"),
        ("POSTGRESQL_MONITORING_PORT", "5432"),
        ("POSTGRESQL_MONITORING_USER", "postgres"),
        ("POSTGRESQL_MONITORING_DATABASE", "postgres"),
        ("POSTGRESQL_MONITORING_SSLMODE", "require"),
    ]);

    let env = agent_runtime_env(&cfg);
    let keys = env.iter().map(|entry| entry.key.as_str()).collect::<Vec<_>>();
    assert_eq!(keys, AGENT_CONFIG_ENV_ALLOWLIST);
    assert!(!keys.contains(&"HUB_API_KEY"));
    assert!(!keys.contains(&"POD_NAME"));
    assert!(!keys.contains(&"POD_NAMESPACE"));
    assert!(!keys.contains(&"NODE_NAME"));
    assert_eq!(env.iter().find(|entry| entry.key == "ACTIONS_ENABLED").unwrap().value, "true");
    assert_eq!(env.iter().find(|entry| entry.key == "COLLECT_INTERVAL_SECS").unwrap().value, "60");
}

#[test]
fn settings_in_use_taken_as_configured_are_the_same() {
    let mut cfg = settings(&[
        ("HUB_URL", "https://hub.example.com//"),
        ("AGENT_VERSION_OVERRIDE", "  dev "),
        ("AGENT_LOG", "  "),
        ("COLLECT_INTERVAL_SECS", "4294967296"),
        ("FULL_DEBUG", "1"),
        ("POSTGRESQL_MONITORING_PORT", " 5432 "),
        ("WORKLOAD_MONITORING_TARGETS", " angular , spring_boot "),
    ]);
    cfg.workload_monitoring_namespaces = vec!["customer-app".into(), "- x".into()];
    let shown = agent_runtime_env(&cfg);
    assert_eq!(agent_configured_env(&shown), shown);
    assert_eq!(shown.iter().find(|entry| entry.key == "COLLECT_INTERVAL_SECS").unwrap().value, "4294967296");

    let spaced = Config { cluster_id: " c ".to_string(), ..settings(&[]) };
    let shown = agent_runtime_env(&spaced);
    let configured = agent_configured_env(&shown);
    assert_eq!(shown.iter().find(|entry| entry.key == "CLUSTER_ID").unwrap().value, " c ");
    assert_eq!(configured.iter().find(|entry| entry.key == "CLUSTER_ID").unwrap().value, "c");
}

#[test]
fn a_list_with_items_is_written_behind_hyphens() {
    for items in [vec![""], vec![" "], vec!["-"], vec!["a: b", "c"], vec!["\n"], vec!["#"], vec!["true", "0"]] {
        let items: Vec<String> = items.into_iter().map(|item| item.to_string()).collect();
        assert!(yaml_list_string(&items).starts_with('-'));
    }
    assert_eq!(yaml_list_string(&vec![]), "");
}

#[test]
fn agent_configured_env_filters_allowlisted_keys_only() {
    let values = env_of(&[
        ("AGENT_LOG", "info"),
        ("HUB_API_KEY", "shub_secret"),
        ("HUB_URL", "https://hub.example.com"),
        ("POD_NAME", "pod-1"),
        ("UNRELATED", "value"),
    ]);

    let env = agent_configured_env(&values);
    assert_eq!(
        env,
        vec![
            KV { key: "AGENT_LOG".into(), value: "info".into() },
            KV { key: "HUB_URL".into(), value: "https://hub.example.com".into() },
        ]
    );
}

#[test]
fn http_debug_flags_true_values() {
    for val in ["true", "1"] {
        let cfg = settings(&[("AGENT_HTTP_DEBUG", val), ("AGENT_HTTP_DEBUG_BODIES", val)]);
        assert!(cfg.http_debug, "expected true for AGENT_HTTP_DEBUG={val}");
        assert!(cfg.http_debug_bodies, "expected true for AGENT_HTTP_DEBUG_BODIES={val}");
    }
}

#[test]
fn full_debug_implies_http_debug_flags() {
    let cfg = settings(&[("FULL_DEBUG", "true")]);
    assert!(cfg.full_debug);
    assert!(cfg.http_debug);
    assert!(cfg.http_debug_bodies);
}

#[test]
fn http_debug_flags_default_false() {
    let cfg = settings(&[]);
    assert!(!cfg.http_debug);
    assert!(!cfg.http_debug_bodies);
}

#[test]
fn parse_secs_default_on_invalid() {
    let d = parse_secs(&env_of(&[("__TEST_SECS", "not_a_number")]), "__TEST_SECS", 42);
    assert_eq!(d, 42);
}

#[test]
fn parse_secs_reads_value() {
    let d = parse_secs(&env_of(&[("__TEST_SECS", "99")]), "__TEST_SECS", 42);
    assert_eq!(d, 99);
}

#[test]
fn pod_defaults() {
    let cfg = settings(&[]);
    assert_eq!(cfg.pod_name, "unknown");
    assert_eq!(cfg.pod_namespace, "default");
    assert_eq!(cfg.node_name, "unknown-node");
}

#[test]
fn workload_monitoring_defaults() {
    let cfg = settings(&[]);
    assert!(!cfg.workload_monitoring_enabled);
    assert!(cfg.workload_monitoring_namespaces.is_empty());
    assert_eq!(cfg.workload_monitoring_targets, vec!["angular", "spring_boot", "oracle_database"]);
}

#[test]
fn workload_monitoring_parses_yaml_list_values() {
    let cfg = settings(&[
        ("WORKLOAD_MONITORING_ENABLED", "true"),
        ("WORKLOAD_MONITORING_NAMESPACES", "- customer-app\n- customer-db\n"),
        ("WORKLOAD_MONITORING_TARGETS", "angular,spring_boot"),
    ]);
    assert!(cfg.workload_monitoring_enabled);
    assert_eq!(cfg.workload_monitoring_namespaces, vec!["customer-app", "customer-db"]);
    assert_eq!(cfg.workload_monitoring_targets, vec!["angular", "spring_boot"]);
}

#[test]
fn workload_monitoring_runtime_env_serializes_yaml_list() {
    let mut cfg = settings(&[
        ("HUB_API_KEY", "shub_secret"),
        ("WORKLOAD_MONITORING_ENABLED", "true"),
        ("WORKLOAD_MONITORING_TARGETS", "angular,spring_boot"),
    ]);
    cfg.workload_monitoring_namespaces = vec!["customer-app".into(), "customer-db".into()];

    let env = agent_runtime_env(&cfg);
    let namespaces = env.iter().find(|entry| entry.key == "WORKLOAD_MONITORING_NAMESPACES").unwrap();
    assert_eq!(namespaces.value, "- customer-app\n- customer-db");
}

#[test]
fn postgresql_monitoring_runtime_env_serializes_yaml_list() {
    let mut cfg = settings(&[("HUB_API_KEY", "shub_secret"), ("POSTGRESQL_MONITORING_ENABLED", "true")]);
    cfg.postgresql_monitoring_namespaces = vec!["customer-db".into(), "analytics".into()];

    let env = agent_runtime_env(&cfg);
    let namespaces = env.iter().find(|entry| entry.key == "POSTGRESQL_MONITORING_NAMESPACES").unwrap();
    assert_eq!(namespaces.value, "- customer-db\n- analytics");
}

#[test]
fn agent_configured_env_preserves_yaml_list_values() {
    let values = env_of(&[
        ("WORKLOAD_MONITORING_ENABLED", "true"),
        ("WORKLOAD_MONITORING_NAMESPACES", "- customer-app\n- customer-db\n"),
    ]);

    let env = agent_configured_env(&values);
    assert_eq!(
        env,
        vec![
            KV { key: "WORKLOAD_MONITORING_ENABLED".into(), value: "true".into() },
            KV { key: "WORKLOAD_MONITORING_NAMESPACES".into(), value: "- customer-app\n- customer-db".into() },
        ]
    );
}

#[test]
fn lists_are_read_as_yaml_or_else_by_commas() {
    assert_eq!(parse_yaml_list(Some("[a, b]")), vec!["a", "b"]);
    assert_eq!(parse_yaml_list(Some("a, b")), vec!["a", "b"]);
    assert!(parse_yaml_list(None).is_empty());
    assert_eq!(parse_csv_values(" a,, b "), vec!["a", "b"]);
    assert_eq!(yaml_list_string(&vec!["a".to_string()]), "- a");
}

#[test]
fn numbers_and_texts_are_bounded() {
    assert_eq!(parse_u16_env(&env_of(&[("P", "65536")]), "P"), None);
    assert_eq!(parse_u16_env(&env_of(&[("P", "443")]), "P"), Some(443));
    assert_eq!(parse_non_empty_value(&"é".repeat(64)), Some("é".repeat(64)));
    assert_eq!(parse_non_empty_value(&"é".repeat(65)), None);
}

#[test]
fn secrets_are_never_among_the_settings_that_are_shown() {
    let cfg = settings(&[("HUB_API_KEY", "shub_secret"), ("POSTGRESQL_MONITORING_PASSWORD", "hidden")]);
    for entry in agent_runtime_env(&cfg) {
        assert!(AGENT_CONFIG_ENV_ALLOWLIST.contains(&entry.key.as_str()));
        assert!(!entry.value.contains("hidden") && !entry.value.contains("shub_secret"));
    }
}
