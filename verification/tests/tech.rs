use sentinella_agent::tech::{
    detect, detect_application_stack_from_image, detect_from_labels, detect_from_process, extract_process_version,
    is_version_like, normalize_version, refine_spring_boot, split_tag, strip_registry,
};


#[test]
fn detects_nginx_alpine() {
    let t = detect("nginx:1.25-alpine");
    assert_eq!(t.product.as_deref(), Some("nginx"));
    assert_eq!(t.version.as_deref(), Some("1.25"));
    assert_eq!(t.language.as_deref(), Some("C"));
}

#[test]
fn detects_postgres_with_registry() {
    let t = detect("docker.io/library/postgres:15.4");
    assert_eq!(t.product.as_deref(), Some("postgres"));
    assert_eq!(t.version.as_deref(), Some("15.4"));
    assert_eq!(t.language.as_deref(), Some("C"));
    assert_eq!(t.subtype.as_deref(), Some("postgresql"));
}

#[test]
fn detects_kube_apiserver() {
    let t = detect("registry.k8s.io/kube-apiserver:v1.30.2");
    assert_eq!(t.vendor.as_deref(), Some("kubernetes"));
    assert_eq!(t.version.as_deref(), Some("1.30.2"));
    assert_eq!(t.language.as_deref(), Some("Go"));
}

#[test]
fn handles_digest_pinned() {
    let t = detect("nginx@sha256:abc123");
    assert_eq!(t.product.as_deref(), Some("nginx"));
    assert_eq!(t.version, None);
}

#[test]
fn unknown_falls_back_to_name() {
    let t = detect("mycompany/internal-tool:2.0");
    assert_eq!(t.vendor, None);
    assert_eq!(t.product.as_deref(), Some("internal-tool"));
    assert_eq!(t.version.as_deref(), Some("2.0"));
    assert_eq!(t.language, None);
}

#[test]
fn handles_registry_with_port() {
    let t = detect("registry.local:5000/team/redis:7.2");
    assert_eq!(t.product.as_deref(), Some("redis"));
    assert_eq!(t.version.as_deref(), Some("7.2"));
    assert_eq!(t.language.as_deref(), Some("C"));
}

#[test]
fn detects_language_java_runtime() {
    let t = detect("eclipse-temurin:21-jre");
    assert_eq!(t.language.as_deref(), Some("Java"));
}

#[test]
fn detects_language_erlang_rabbitmq() {
    let t = detect("rabbitmq:3.13-management");
    assert_eq!(t.language.as_deref(), Some("Erlang"));
}

#[test]
fn detects_language_go_traefik() {
    let t = detect("traefik:v3.0");
    assert_eq!(t.language.as_deref(), Some("Go"));
}

#[test]
fn detects_fluent_bit_vs_fluentd() {
    let fb = detect("fluent/fluent-bit:3.0");
    assert_eq!(fb.language.as_deref(), Some("C"));
    let fd = detect("fluent/fluentd:v1.16");
    assert_eq!(fd.language.as_deref(), Some("Ruby"));
}

#[test]
fn detects_busybox() {
    let t = detect("busybox:1.36");
    assert_eq!(t.product.as_deref(), Some("busybox"));
    assert_eq!(t.language.as_deref(), Some("C"));
}

#[test]
fn detects_hashicorp_vault_and_consul() {
    let vault = detect("hashicorp/vault:1.17.2");
    assert_eq!(vault.vendor.as_deref(), Some("hashicorp"));
    assert_eq!(vault.product.as_deref(), Some("vault"));
    assert_eq!(vault.language.as_deref(), Some("Go"));

    let consul = detect("hashicorp/consul:v1.20.1");
    assert_eq!(consul.vendor.as_deref(), Some("hashicorp"));
    assert_eq!(consul.product.as_deref(), Some("consul"));
    assert_eq!(consul.version.as_deref(), Some("1.20.1"));
}

#[test]
fn detects_keycloak_and_zookeeper() {
    let keycloak = detect("quay.io/keycloak/keycloak:24.0.1");
    assert_eq!(keycloak.product.as_deref(), Some("keycloak"));
    assert_eq!(keycloak.language.as_deref(), Some("Java"));

    let zk = detect("bitnami/zookeeper:3.9.3");
    assert_eq!(zk.vendor.as_deref(), Some("apache"));
    assert_eq!(zk.product.as_deref(), Some("zookeeper"));
}

#[test]
fn detects_observability_additions() {
    let loki = detect("grafana/loki:3.1.0");
    assert_eq!(loki.product.as_deref(), Some("loki"));
    assert_eq!(loki.language.as_deref(), Some("Go"));

    let promtail = detect("grafana/promtail:3.1.0");
    assert_eq!(promtail.product.as_deref(), Some("promtail"));

    let otel = detect("otel/opentelemetry-collector:0.104.0");
    assert_eq!(otel.vendor.as_deref(), Some("opentelemetry"));
    assert_eq!(otel.product.as_deref(), Some("otel-collector"));
}

#[test]
fn detects_jaeger_components() {
    let agent = detect("jaegertracing/jaeger-agent:1.57.0");
    assert_eq!(agent.product.as_deref(), Some("jaeger-agent"));
    let collector = detect("jaegertracing/jaeger-collector:1.57.0");
    assert_eq!(collector.product.as_deref(), Some("jaeger-collector"));
    let query = detect("jaegertracing/jaeger-query:1.57.0");
    assert_eq!(query.product.as_deref(), Some("jaeger-query"));
}

#[test]
fn detects_base_images() {
    let alpine = detect("alpine:3.20");
    assert_eq!(alpine.product.as_deref(), Some("alpine"));
    assert_eq!(alpine.language, None);

    let ubuntu = detect("ubuntu:24.04");
    assert_eq!(ubuntu.product.as_deref(), Some("ubuntu"));

    let distroless = detect("gcr.io/distroless/base:nonroot");
    assert_eq!(distroless.product.as_deref(), Some("distroless"));
}

#[test]
fn normalizes_ubi_and_distroless_suffixes() {
    let php_ubi = detect("php:8.3-ubi9");
    assert_eq!(php_ubi.version.as_deref(), Some("8.3"));

    let node_distroless = detect("node:v22.1-distroless");
    assert_eq!(node_distroless.version.as_deref(), Some("22.1"));
}

#[test]
fn detect_from_process_java() {
    let t = detect_from_process(
        &vec!["java".to_string()],
        &vec!["-jar".to_string(), "app.jar".to_string()],
    )
    .unwrap();
    assert_eq!(t.language.as_deref(), Some("Java"));
    assert_eq!(t.product.as_deref(), Some("java"));
    assert_eq!(t.source, "process");
}

#[test]
fn detect_from_process_python_via_command() {
    let t = detect_from_process(
        &vec!["/usr/bin/python3".to_string()],
        &vec!["-m".to_string(), "http.server".to_string()],
    )
    .unwrap();
    assert_eq!(t.language.as_deref(), Some("Python"));
    assert_eq!(t.product.as_deref(), Some("python"));
    assert_eq!(t.source, "process");
}

#[test]
fn detect_from_process_node() {
    let t = detect_from_process(&vec!["node".to_string()], &vec!["index.js".to_string()]).unwrap();
    assert_eq!(t.language.as_deref(), Some("JavaScript"));
    assert_eq!(t.product.as_deref(), Some("nodejs"));
}

#[test]
fn detect_from_process_postgres() {
    let t = detect_from_process(&vec!["postgres".to_string()], &vec![]).unwrap();
    assert_eq!(t.product.as_deref(), Some("postgres"));
    assert_eq!(t.subtype.as_deref(), Some("postgresql"));
    assert_eq!(t.source, "process");
}

#[test]
fn detect_from_process_nginx() {
    let t = detect_from_process(
        &vec!["nginx".to_string()],
        &vec!["-g".to_string(), "daemon off;".to_string()],
    )
    .unwrap();
    assert_eq!(t.product.as_deref(), Some("nginx"));
    assert_eq!(t.source, "process");
}

#[test]
fn detect_from_process_returns_none_when_command_empty() {
    let t = detect_from_process(&vec![], &vec![]);
    assert!(t.is_none());
}

#[test]
fn detect_from_process_returns_none_for_unknown_executable() {
    let t = detect_from_process(&vec!["/usr/local/bin/my-custom-app".to_string()], &vec![]);
    assert!(t.is_none());
}

// ---- Application-stack image detection ----

#[test]
fn detects_oracle_from_container_registry_path() {
    let t = detect_application_stack_from_image(
        "container-registry.oracle.com/database/enterprise:21.3.0.0",
    )
    .unwrap();
    assert_eq!(t.product.as_deref(), Some("oracle-database"));
    assert_eq!(t.subtype.as_deref(), Some("oracle_database"));
    assert_eq!(t.source, "image");
}

#[test]
fn detects_oracle_from_gvenzl_image() {
    let t = detect_application_stack_from_image("gvenzl/oracle-xe:21-slim").unwrap();
    assert_eq!(t.subtype.as_deref(), Some("oracle_database"));
}

#[test]
fn detects_spring_boot_image() {
    let t =
        detect_application_stack_from_image("myregistry/customer-springboot:1.0.0").unwrap();
    assert_eq!(t.subtype.as_deref(), Some("spring_boot"));
    assert_eq!(t.language.as_deref(), Some("Java"));
}

#[test]
fn detects_angular_image() {
    let t = detect_application_stack_from_image("myregistry/angular-dashboard:1.2.3").unwrap();
    assert_eq!(t.subtype.as_deref(), Some("angular"));
}

#[test]
fn detects_angular_via_dash_ng_marker() {
    let t = detect_application_stack_from_image("acme/portal-ng-prod:2.0").unwrap();
    assert_eq!(t.subtype.as_deref(), Some("angular"));
}

#[test]
fn application_stack_returns_none_for_unrelated_image() {
    let t = detect_application_stack_from_image("nginx:1.25");
    assert!(t.is_none());
}

// ---- Spring Boot process refinement ----

#[test]
fn refine_spring_boot_tags_subtype_on_spring_jar() {
    let base = detect_from_process(
        &vec!["java".to_string()],
        &vec![
            "-jar".to_string(),
            "customer-portal-spring-1.0.jar".to_string(),
        ],
    )
    .unwrap();
    let refined = refine_spring_boot(
        base.clone(),
        &vec!["java".to_string()],
        &vec![
            "-jar".to_string(),
            "customer-portal-spring-1.0.jar".to_string(),
        ],
    );
    assert_eq!(refined.subtype.as_deref(), Some("spring_boot"));
    assert_eq!(refined.product.as_deref(), base.product.as_deref());
}

#[test]
fn refine_spring_boot_tags_subtype_on_spring_profile_flag() {
    let base = detect_from_process(
        &vec!["java".to_string()],
        &vec!["-Dspring.profiles.active=prod".to_string()],
    )
    .unwrap();
    let refined = refine_spring_boot(
        base,
        &vec!["java".to_string()],
        &vec!["-Dspring.profiles.active=prod".to_string()],
    );
    assert_eq!(refined.subtype.as_deref(), Some("spring_boot"));
}

#[test]
fn refine_spring_boot_is_noop_for_non_java_process() {
    let base = detect_from_process(&vec!["node".to_string()], &vec!["server.js".to_string()]).unwrap();
    let refined = refine_spring_boot(
        base.clone(),
        &vec!["node".to_string()],
        &vec!["server.js".to_string()],
    );
    assert!(refined.subtype.is_none());
}

// ---- Labels-based detection ----

#[test]
fn detect_from_labels_angular_component() {
    let labels = vec![("app.kubernetes.io/component", "angular")];
    let t = detect_from_labels(&labels, &vec![]).unwrap();
    assert_eq!(t.subtype.as_deref(), Some("angular"));
    assert_eq!(t.source, "labels");
}

#[test]
fn detect_from_labels_spring_boot_component() {
    let labels = vec![("app.kubernetes.io/component", "spring-boot")];
    let t = detect_from_labels(&labels, &vec![]).unwrap();
    assert_eq!(t.subtype.as_deref(), Some("spring_boot"));
}

#[test]
fn detect_from_labels_oracle_component() {
    let labels = vec![("app.kubernetes.io/component", "oracle")];
    let t = detect_from_labels(&labels, &vec![]).unwrap();
    assert_eq!(t.subtype.as_deref(), Some("oracle_database"));
}

#[test]
fn detect_from_labels_postgres_component() {
    let labels = vec![("app.kubernetes.io/component", "postgres")];
    let t = detect_from_labels(&labels, &vec![]).unwrap();
    assert_eq!(t.product.as_deref(), Some("postgres"));
    assert_eq!(t.subtype.as_deref(), Some("postgresql"));
    assert_eq!(t.source, "labels");
}

#[test]
fn detect_from_labels_postgresql_component() {
    let labels = vec![("app.kubernetes.io/component", "postgresql")];
    let t = detect_from_labels(&labels, &vec![]).unwrap();
    assert_eq!(t.product.as_deref(), Some("postgres"));
    assert_eq!(t.subtype.as_deref(), Some("postgresql"));
}

#[test]
fn detect_from_labels_angular_via_annotation() {
    let annotations = vec![("angular.io/version", "17.0.0")];
    let t = detect_from_labels(&vec![], &annotations).unwrap();
    assert_eq!(t.subtype.as_deref(), Some("angular"));
    assert_eq!(t.version.as_deref(), Some("17.0.0"));
}

#[test]
fn detect_from_labels_spring_via_annotation() {
    let annotations = vec![("app.spring.io/version", "3.2.0")];
    let t = detect_from_labels(&vec![], &annotations).unwrap();
    assert_eq!(t.subtype.as_deref(), Some("spring_boot"));
    assert_eq!(t.version.as_deref(), Some("3.2.0"));
}

#[test]
fn detect_from_labels_returns_none_when_no_markers() {
    let labels = vec![("unrelated", "value")];
    let t = detect_from_labels(&labels, &vec![]);
    assert!(t.is_none());
}

// ---- Images alone ----


#[test]
fn tech_detects_nginx_alpine() {
    let t = detect("nginx:1.25-alpine");
    assert_eq!(t.product.as_deref(), Some("nginx"));
    assert_eq!(t.version.as_deref(), Some("1.25"));
}

#[test]
fn tech_detects_postgres_with_registry() {
    let t = detect("docker.io/library/postgres:15.4");
    assert_eq!(t.product.as_deref(), Some("postgres"));
    assert_eq!(t.version.as_deref(), Some("15.4"));
}

#[test]
fn tech_detects_kube_apiserver() {
    let t = detect("registry.k8s.io/kube-apiserver:v1.30.2");
    assert_eq!(t.vendor.as_deref(), Some("kubernetes"));
    assert_eq!(t.version.as_deref(), Some("1.30.2"));
}

#[test]
fn tech_handles_digest_pinned() {
    let t = detect("nginx@sha256:abc123");
    assert_eq!(t.product.as_deref(), Some("nginx"));
    assert_eq!(t.version, None);
}

#[test]
fn tech_unknown_falls_back_to_name() {
    let t = detect("mycompany/internal-tool:2.0");
    assert_eq!(t.vendor, None);
    assert_eq!(t.product.as_deref(), Some("internal-tool"));
    assert_eq!(t.version.as_deref(), Some("2.0"));
}

#[test]
fn tech_handles_registry_with_port() {
    let t = detect("registry.local:5000/team/redis:7.2");
    assert_eq!(t.product.as_deref(), Some("redis"));
    assert_eq!(t.version.as_deref(), Some("7.2"));
}

// ---- Names and versions ----

#[test]
fn version_suffixes_are_cut_in_turn() {
    assert_eq!(normalize_version("v1.30.2-alpine"), "1.30.2");
    assert_eq!(normalize_version("latest"), "latest");
}

#[test]
fn registry_and_tag_are_told_apart() {
    assert_eq!(strip_registry("localhost/app:1"), "app:1");
    assert_eq!(strip_registry("library/app:1"), "library/app:1");
    assert_eq!(split_tag("team/redis:7.2"), ("team/redis", Some("7.2")));
    assert_eq!(split_tag("host:5000/team/redis"), ("host:5000/team/redis", None));
}

#[test]
fn image_names_are_compared_in_lower_case() {
    let t = detect("library/NGINX:1.25");
    assert_eq!(t.product.as_deref(), Some("nginx"));
}

#[test]
fn process_versions_are_read_from_options() {
    assert_eq!(extract_process_version(&vec!["--version=1.2.3".to_string()]), Some("1.2.3"));
    assert_eq!(extract_process_version(&vec!["--verbose".to_string()]), None);
    assert!(is_version_like("17"));
    assert!(!is_version_like("latest"));
}

#[test]
fn runtime_label_names_a_stack_and_annotations_its_version() {
    let labels = vec![("app.kubernetes.io/runtime", "Angular")];
    let annotations = vec![("app.spring.io/version", "3.2.0"), ("angular.io/version", " 17.0.0 ")];
    let t = detect_from_labels(&labels, &annotations).unwrap();
    assert_eq!(t.subtype.as_deref(), Some("angular"));
    assert_eq!(t.version.as_deref(), Some("17.0.0"));
}
