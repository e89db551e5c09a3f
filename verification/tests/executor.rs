use sentinella_agent::action::{ExecutionSpec, KubeAction, KubeEvent, ScaleObject};
use sentinella_agent::command::{
    command_route, dispatch_command, invalid_spec, spec_error, Command, CommandDedupState, CommandResult, CommandRoute,
    Dispatch, ExecutionMode, SelfUpdateSpec, UpdateAgentSpec,
};
use sentinella_agent::config::Config;
use sentinella_agent::drain::{
    begin_drain, classify_pods_on_node, drain_delete_options, drain_step, drain_timeout_duration, DrainAction,
    DrainEvent, DrainNodeSpec, PodName,
};
use sentinella_agent::failure::KubeFailure;
use sentinella_agent::json::Json;
use sentinella_agent::model::{PostgresqlDiagnosticSpec, KV};
use sentinella_agent::objects::{
    label_selector_matches, Container, DaemonSet, DaemonSetSpec, DaemonSetStatus, Deployment, DeploymentSpec,
    DeploymentStatus, LabelSelector, LabelSelectorRequirement, Namespace, ObjectMeta, OwnerReference, Pod, PodSpec,
    PodTemplate, ResourceRequirements, StatefulSet, StatefulSetSpec,
};
use sentinella_agent::policy::{
    ensure_effective_policy_allows, ensure_effective_policy_ready, namespace_is_effective_for_command,
    policy_rejection_reason_for_command, policy_status_rejection_reason, select_cluster_action_policy, ResourceMap,
    SentinellaHubActionPolicy, SentinellaHubActionPolicyCondition, SentinellaHubActionPolicyLimits,
    SentinellaHubActionPolicySpec, SentinellaHubActionPolicyStatus, WorkloadResourcesSpec,
};
use sentinella_agent::preflight::{
    collect_preflight_warnings, merge_check, read_vertical_autoscaler, vpa_mode_is_conflicting, PreflightFindings,
};
use sentinella_agent::resize::{begin_resize, ensure_namespace_action_mode_enabled, resize_step};
use sentinella_agent::resource_yaml::{
    answer_resource_yaml, finish_resource_yaml, not_written_as_json, plan_resource_yaml, resource_yaml_read_error,
    resource_yaml_target, sanitize_manifest_like_yaml, split_api_version, ResourceYamlSpec,
};
use sentinella_agent::rollout::{
    begin_rollout, begin_rollout_at, rollout_step, verify_deployment_rollout, RolloutRestartSpec,
};
use sentinella_agent::scale::{begin_scale, scale_step, ScaleSpec};
use sentinella_agent::update::{
    begin_update, refuse_diagnosis, self_update, update_step, validate_update_agent_image, UPDATE_AGENT_ALLOWED_PREFIX,
};
use sentinella_agent::workload::{
    build_workload_resources_patch, daemonset_container_resources, deployment_container_resources,
    statefulset_container_resources, HorizontalPodAutoscaler, ScaleTarget, WorkloadObject, WorkloadTargetRef,
};
use serde_json::Value;

fn json(text: &str) -> Value {
    serde_json::from_str(text).expect("test document")
}

fn value(json: &Json) -> Value {
    match json {
        Json::Null => Value::Null,
        Json::Bool(b) => Value::Bool(*b),
        Json::Number(n) => Value::from(*n as i64),
        Json::Text(s) => Value::String(s.clone()),
        Json::Array(items) => Value::Array(items.iter().map(value).collect()),
        Json::Object(fields) => Value::Object(fields.iter().map(|f| (f.name.clone(), value(&f.value))).collect()),
    }
}

fn kv(key: &str, value: &str) -> KV {
    KV { key: key.to_string(), value: value.to_string() }
}

fn text_of(value: &Value, pointer: &str) -> String {
    value.pointer(pointer).and_then(Value::as_str).unwrap_or_default().to_string()
}

fn pairs_of(value: Option<&Value>) -> Option<Vec<KV>> {
    let object = value?.as_object()?;
    Some(object.iter().map(|(k, v)| kv(k, v.as_str().unwrap_or_default())).collect())
}

fn side_of(value: Option<&Value>) -> Option<ResourceMap> {
    let side = value?;
    Some(ResourceMap {
        cpu: side.get("cpu").and_then(Value::as_str).map(str::to_string),
        memory: side.get("memory").and_then(Value::as_str).map(str::to_string),
    })
}

fn workload_spec(spec: Value) -> WorkloadResourcesSpec {
    WorkloadResourcesSpec {
        workload_kind: text_of(&spec, "/workload_kind"),
        namespace: text_of(&spec, "/namespace"),
        name: text_of(&spec, "/name"),
        container: text_of(&spec, "/container"),
        requests: side_of(spec.get("requests")),
        limits: side_of(spec.get("limits")),
    }
}

fn workload_resources_spec(spec: Value) -> WorkloadResourcesSpec {
    workload_spec(spec)
}

fn template_of(value: &Value) -> PodTemplate {
    let containers = value.pointer("/spec/template/spec/containers").and_then(Value::as_array).map(|items| {
        items
            .iter()
            .map(|c| Container {
                name: text_of(c, "/name"),
                image: c.get("image").and_then(Value::as_str).map(str::to_string),
                image_pull_policy: None,
                command: None,
                args: None,
                resources: c.get("resources").map(|r| ResourceRequirements {
                    requests: pairs_of(r.get("requests")),
                    limits: pairs_of(r.get("limits")),
                }),
            })
            .collect()
    });
    PodTemplate { labels: pairs_of(value.pointer("/spec/template/metadata/labels")), annotations: None, containers }
}

fn meta_of(value: &Value) -> ObjectMeta {
    ObjectMeta {
        namespace: Some(text_of(value, "/metadata/namespace")),
        name: Some(text_of(value, "/metadata/name")),
        ..ObjectMeta::default()
    }
}

fn deployment_of(value: &Value) -> Deployment {
    Deployment {
        metadata: meta_of(value),
        spec: Some(DeploymentSpec {
            replicas: None,
            selector: LabelSelector::default(),
            template: template_of(value),
        }),
        status: None,
    }
}

fn statefulset_of(value: &Value) -> StatefulSet {
    StatefulSet {
        metadata: meta_of(value),
        spec: Some(StatefulSetSpec { replicas: None, template: template_of(value) }),
        status: None,
    }
}

fn daemonset_of(value: &Value) -> DaemonSet {
    DaemonSet {
        metadata: meta_of(value),
        spec: Some(DaemonSetSpec { template: template_of(value) }),
        status: None,
    }
}

fn selector_of(value: &Value) -> LabelSelector {
    let expressions = value.get("matchExpressions").and_then(Value::as_array).map(|items| {
        items
            .iter()
            .map(|e| LabelSelectorRequirement {
                key: text_of(e, "/key"),
                operator: text_of(e, "/operator"),
                values: e
                    .get("values")
                    .and_then(Value::as_array)
                    .map(|v| v.iter().map(|x| x.as_str().unwrap_or_default().to_string()).collect()),
            })
            .collect()
    });
    LabelSelector { match_labels: pairs_of(value.get("matchLabels")), match_expressions: expressions }
}

fn namespace_spec(label: Option<(&str, &str)>) -> Namespace {
    Namespace {
        metadata: ObjectMeta {
            name: Some("app-prod".to_string()),
            labels: label.map(|(k, v)| vec![kv(k, v)]),
            ..ObjectMeta::default()
        },
        phase: None,
    }
}

fn policy_for_gating(
    actions: Vec<&str>,
    resources: Vec<&str>,
    limits: Option<(&str, &str)>,
) -> SentinellaHubActionPolicy {
    SentinellaHubActionPolicy {
        metadata: ObjectMeta { name: Some("policy".to_string()), ..ObjectMeta::default() },
        spec: SentinellaHubActionPolicySpec {
            namespace_selector: Some(LabelSelector {
                match_labels: Some(vec![kv("environment", "prod")]),
                match_expressions: None,
            }),
            allowed_actions: actions.iter().map(|a| a.to_string()).collect(),
            allowed_resources: resources.iter().map(|r| r.to_string()).collect(),
            approval_required: true,
            limits: limits.map(|(cpu, memory)| SentinellaHubActionPolicyLimits {
                max_cpu_limit: Some(cpu.to_string()),
                max_memory_limit: Some(memory.to_string()),
            }),
        },
        status: None,
    }
}

fn policy_status(stale: bool, last_reconciled_at_ms: Option<u128>, ready: bool) -> SentinellaHubActionPolicyStatus {
    SentinellaHubActionPolicyStatus {
        effective_namespaces: vec!["app-prod".into()],
        conditions: vec![SentinellaHubActionPolicyCondition {
            type_: "Ready".into(),
            status: if ready { "True".into() } else { "False".into() },
            reason: None,
            message: None,
            observed_generation: Some(1),
            last_transition_time_ms: Some(1234),
        }],
        observed_generation: Some(1),
        last_reconciled_at_ms,
        stale,
    }
}

fn ready_policy(actions: Vec<&str>, resources: Vec<&str>) -> SentinellaHubActionPolicy {
    let mut policy = policy_for_gating(actions, resources, None);
    policy.status = Some(policy_status(false, Some(1000), true));
    policy
}

fn drain_spec(
    node_name: &str,
    timeout_seconds: Option<u64>,
    grace_period_seconds: Option<u64>,
    force: bool,
) -> DrainNodeSpec {
    DrainNodeSpec { node_name: node_name.into(), timeout_seconds, grace_period_seconds, force }
}

fn drain_pod(namespace: &str, name: &str, node_name: &str, owner_kind: Option<&str>, mirror: bool) -> Pod {
    Pod {
        metadata: ObjectMeta {
            namespace: Some(namespace.to_string()),
            name: Some(name.to_string()),
            annotations: if mirror { Some(vec![kv("kubernetes.io/config.mirror", "true")]) } else { None },
            owner_references: owner_kind
                .map(|kind| vec![OwnerReference { kind: kind.to_string(), name: String::new() }]),
            ..ObjectMeta::default()
        },
        spec: Some(PodSpec { node_name: Some(node_name.to_string()), containers: vec![] }),
        status: None,
    }
}

fn kube_api_error(code: u16) -> KubeFailure {
    KubeFailure::Api(code, String::new())
}

#[test]
fn select_cluster_action_policy_rejects_when_no_policies_match() {
    let err = select_cluster_action_policy(&vec![], "drain_node", 1000, 300)
        .unwrap_err();

    assert_eq!(
        err,
        "cluster action drain_node is not eligible: no Ready policy matched the cluster action"
    );
}

#[test]
fn select_cluster_action_policy_rejects_missing_status() {
    let mut policy = policy_for_gating(vec!["drain_node"], vec![], None);
    policy.status = None;

    let err = select_cluster_action_policy(&vec![policy], "drain_node", 1000, 300)
        .unwrap_err();

    assert_eq!(
        err,
        "cluster action drain_node is not eligible: policy policy has no status"
    );
}

#[test]
fn select_cluster_action_policy_rejects_missing_freshness_timestamp() {
    let mut policy = policy_for_gating(vec!["drain_node"], vec![], None);
    policy.status = Some(policy_status(false, None, true));

    let err = select_cluster_action_policy(&vec![policy], "drain_node", 1000, 300)
        .unwrap_err();

    assert_eq!(
        err,
        "cluster action drain_node is not eligible: policy policy status has no freshness timestamp"
    );
}

#[test]
fn select_cluster_action_policy_rejects_stale_policy() {
    let mut policy = policy_for_gating(vec!["drain_node"], vec![], None);
    policy.status = Some(policy_status(true, Some(1), true));

    let err = select_cluster_action_policy(&vec![policy], "drain_node", 1000, 300)
        .unwrap_err();

    assert_eq!(
        err,
        "cluster action drain_node is not eligible: policy policy status is stale"
    );
}

#[test]
fn select_cluster_action_policy_rejects_not_ready_policy() {
    let mut policy = policy_for_gating(vec!["drain_node"], vec![], None);
    policy.status = Some(policy_status(false, Some(1000), false));

    let err = select_cluster_action_policy(&vec![policy], "drain_node", 1000, 300)
        .unwrap_err();

    assert_eq!(
        err,
        "cluster action drain_node is not eligible: policy policy is not Ready"
    );
}

#[test]
fn select_cluster_action_policy_rejects_unsupported_action() {
    let mut policy = policy_for_gating(vec!["scale"], vec!["Deployment"], None);
    policy.status = Some(policy_status(false, Some(1000), true));

    let err = select_cluster_action_policy(&vec![policy], "drain_node", 1000, 300)
        .unwrap_err();

    assert_eq!(
        err,
        "cluster action drain_node is not eligible: policy policy does not allow action drain_node"
    );
}

#[test]
fn select_cluster_action_policy_allows_drain_node() {
    let mut policy = policy_for_gating(vec!["drain_node"], vec![], None);
    policy.status = Some(policy_status(false, Some(1000), true));

    let effective =
        select_cluster_action_policy(&vec![policy], "drain_node", 1000, 300)
            .expect("expected cluster action to be allowed");

    assert_eq!(effective.name, "policy");
}

#[test]
fn classify_pods_on_node_rejects_unmanaged_without_force() {
    let pods = vec![drain_pod("default", "bare", "worker-1", None, false)];

    let (_, unmanaged, drainable) = classify_pods_on_node("worker-1", &pods, false);

    assert_eq!(unmanaged, vec!["default/bare"]);
    assert!(drainable.is_empty());
}

#[test]
fn classify_pods_on_node_allows_unmanaged_with_force() {
    let pods = vec![drain_pod("default", "bare", "worker-1", None, false)];

    let (_, unmanaged, drainable) = classify_pods_on_node("worker-1", &pods, true);

    assert_eq!(unmanaged, vec!["default/bare"]);
    assert_eq!(drainable, vec![PodName { namespace: "default".into(), name: "bare".into() }]);
}

#[test]
fn classify_pods_on_node_keeps_daemonset_and_mirror_ignored() {
    let pods = vec![
        drain_pod("kube-system", "ds", "worker-1", Some("DaemonSet"), false),
        drain_pod("kube-system", "mirror", "worker-1", None, true),
    ];

    let (warnings, unmanaged, drainable) =
        classify_pods_on_node("worker-1", &pods, true);

    assert_eq!(warnings.len(), 2);
    assert!(unmanaged.is_empty());
    assert!(drainable.is_empty());
}

#[test]
fn drain_timeout_duration_defaults_to_300_seconds() {
    let spec = drain_spec("worker-1", None, None, false);

    assert_eq!(
        drain_timeout_duration(&spec).unwrap(),
        300
    );
}

#[test]
fn drain_timeout_duration_uses_specified_value() {
    let spec = drain_spec("worker-1", Some(900), None, false);

    assert_eq!(
        drain_timeout_duration(&spec).unwrap(),
        900
    );
}

#[test]
fn drain_timeout_duration_rejects_too_large_values() {
    let spec = drain_spec("worker-1", Some(3601), None, false);

    assert_eq!(
        drain_timeout_duration(&spec).unwrap_err(),
        "timeout_seconds must be less than or equal to 3600"
    );
}

#[test]
fn drain_timeout_duration_rejects_zero() {
    let spec = drain_spec("worker-1", Some(0), None, false);

    assert_eq!(
        drain_timeout_duration(&spec).unwrap_err(),
        "timeout_seconds must be greater than 0"
    );
}

#[test]
fn drain_delete_options_defaults_to_none() {
    let spec = drain_spec("worker-1", None, None, false);

    assert!(drain_delete_options(&spec).unwrap().is_none());
}

#[test]
fn drain_delete_options_sets_grace_period() {
    let spec = drain_spec("worker-1", None, Some(45), false);

    let delete_options = drain_delete_options(&spec).unwrap().unwrap();

    assert_eq!(delete_options.grace_period_seconds, Some(45));
}

#[test]
fn drain_delete_options_rejects_zero() {
    let spec = drain_spec("worker-1", None, Some(0), false);

    assert_eq!(
        drain_delete_options(&spec).unwrap_err(),
        "grace_period_seconds must be greater than 0"
    );
}

#[test]
fn policy_rejection_reason_for_command_allows_supported_workload_action() {
    let policy = policy_for_gating(vec!["rollout_restart"], vec!["Deployment"], None);
    let spec = workload_resources_spec(json(
r#"{
        "workload_kind": "Deployment",
        "namespace": "prod",
        "name": "api",
        "container": "app",
        "requests": {"cpu": "250m", "memory": "256Mi"}
    }"#));

    assert!(
        policy_rejection_reason_for_command(
            &policy,
            "rollout_restart",
            Some("Deployment"),
            Some(&spec)
        )
        .is_none()
    );
}

#[test]
fn policy_rejection_reason_for_command_allows_cluster_action() {
    let policy = policy_for_gating(vec!["drain_node"], vec![], None);

    assert!(
        policy_rejection_reason_for_command(&policy, "drain_node", None, None)
            .is_none()
    );
}

#[test]
fn policy_rejection_reason_for_command_rejects_unsupported_action() {
    let policy = policy_for_gating(vec!["scale"], vec!["Deployment"], None);
    let spec = workload_resources_spec(json(
r#"{
        "workload_kind": "Deployment",
        "namespace": "prod",
        "name": "api",
        "container": "app",
        "requests": {"cpu": "250m", "memory": "256Mi"}
    }"#));

    let reason = policy_rejection_reason_for_command(
        &policy,
        "rollout_restart",
        Some("Deployment"),
        Some(&spec),
    )
    .expect("expected action to be rejected");

    assert_eq!(reason, "does not allow action rollout_restart");
}

#[test]
fn policy_rejection_reason_for_command_rejects_unsupported_resource() {
    let policy = policy_for_gating(vec!["rollout_restart"], vec!["StatefulSet"], None);
    let spec = workload_resources_spec(json(
r#"{
        "workload_kind": "Deployment",
        "namespace": "prod",
        "name": "api",
        "container": "app",
        "requests": {"cpu": "250m", "memory": "256Mi"}
    }"#));

    let reason = policy_rejection_reason_for_command(
        &policy,
        "rollout_restart",
        Some("Deployment"),
        Some(&spec),
    )
    .expect("expected resource to be rejected");

    assert_eq!(reason, "does not allow resource Deployment");
}

#[test]
fn policy_rejection_reason_for_command_rejects_limits_exceeded() {
    let policy = policy_for_gating(
        vec!["apply_workload_resources"],
        vec!["Deployment"],
        Some(("500m", "512Mi")),
    );
    let spec = workload_resources_spec(json(
r#"{
        "workload_kind": "Deployment",
        "namespace": "prod",
        "name": "api",
        "container": "app",
        "requests": {"cpu": "750m", "memory": "256Mi"}
    }"#));

    let reason = policy_rejection_reason_for_command(
        &policy,
        "apply_workload_resources",
        Some("Deployment"),
        Some(&spec),
    )
    .expect("expected limits to be rejected");

    assert!(reason.contains("limits exceeded"));
}

#[test]
fn policy_rejection_reason_for_command_allows_self_update_without_resources() {
    let policy = policy_for_gating(vec!["self_update"], Vec::new(), None);

    assert!(
        policy_rejection_reason_for_command(&policy, "self_update", None, None)
            .is_none()
    );
}

#[test]
fn build_workload_resources_patch_includes_named_container_only() {
    let spec = workload_spec(json(
r#"{
        "workload_kind": "Deployment",
        "namespace": "default",
        "name": "api",
        "container": "app",
        "requests": {"cpu": "500m", "memory": "256Mi"},
        "limits": {"memory": "512Mi"}
    }"#));

    let patch = build_workload_resources_patch(&spec).unwrap();

    assert_eq!(
        value(&patch),
        json(
r#"{
            "spec": {
                "template": {
                    "spec": {
                        "containers": [{
                            "name": "app",
                            "resources": {
                                "requests": {"cpu": "500m", "memory": "256Mi"},
                                "limits": {"memory": "512Mi"}
                            }
                        }]
                    }
                }
            }
        }"#)
    );
}

#[test]
fn build_workload_resources_patch_rejects_empty_resource_change() {
    let spec = workload_spec(json(
r#"{
        "workload_kind": "Deployment",
        "namespace": "default",
        "name": "api",
        "container": "app"
    }"#));

    let err = build_workload_resources_patch(&spec).unwrap_err();

    assert_eq!(err, "at least one of requests or limits must be provided");
}

#[test]
fn policy_status_rejection_reason_rejects_stale_even_when_ready() {
    let status = policy_status(true, Some(1234), true);

    let reason = policy_status_rejection_reason("workload-tuning", &status, 1300, 50)
        .expect("expected stale status to be rejected");

    assert_eq!(reason, "policy workload-tuning status is stale");
}

#[test]
fn policy_status_rejection_reason_rejects_missing_freshness_timestamp() {
    let status = policy_status(false, None, true);

    let reason = policy_status_rejection_reason("workload-tuning", &status, 1300, 50)
        .expect("expected missing timestamp to be rejected");

    assert_eq!(
        reason,
        "policy workload-tuning status has no freshness timestamp"
    );
}

#[test]
fn namespace_is_effective_for_update_agent_allows_sentinella_bypass() {
    assert!(namespace_is_effective_for_command(
        "sentinella",
        "update_agent",
        &vec![]
    ));
    assert!(!namespace_is_effective_for_command(
        "sentinella",
        "scale",
        &vec![]
    ));
    assert!(namespace_is_effective_for_command(
        "app-prod",
        "scale",
        &vec!["app-prod".into()]
    ));
}

#[test]
fn build_workload_resources_patch_uses_null_to_clear_empty_side() {
    let spec = workload_spec(json(
r#"{
        "workload_kind": "Deployment",
        "namespace": "default",
        "name": "api",
        "container": "app",
        "limits": {}
    }"#));

    let patch = build_workload_resources_patch(&spec).unwrap();

    assert_eq!(
        value(&patch)["spec"]["template"]["spec"]["containers"][0]["resources"]["limits"],
        Value::Null
    );
}

#[test]
fn namespace_action_mode_enabled_accepts_enabled_label() {
    let namespace = namespace_spec(Some(("sentinella.io/action-mode", "enabled")));

    assert_eq!(ensure_namespace_action_mode_enabled(&namespace), Ok(()));
}

#[test]
fn namespace_action_mode_enabled_rejects_missing_label() {
    let namespace = namespace_spec(None);

    let err = ensure_namespace_action_mode_enabled(&namespace).unwrap_err();

    assert_eq!(
        err,
        "namespace app-prod is not enabled for Sentinella action mode: add label sentinella.io/action-mode=enabled"
    );
}

#[test]
fn namespace_action_mode_enabled_rejects_wrong_label_value() {
    let namespace = namespace_spec(Some(("sentinella.io/action-mode", "disabled")));

    let err = ensure_namespace_action_mode_enabled(&namespace).unwrap_err();

    assert_eq!(
        err,
        "namespace app-prod is not enabled for Sentinella action mode: label sentinella.io/action-mode=disabled is required"
    );
}

#[test]
fn deployment_container_resources_returns_existing_resources() {
    let deployment = deployment_of(&json(
r#"{
        "apiVersion": "apps/v1",
        "kind": "Deployment",
        "metadata": {"name": "api", "namespace": "default"},
        "spec": {
            "selector": {"matchLabels": {"app": "api"}},
            "template": {
                "metadata": {"labels": {"app": "api"}},
                "spec": {
                    "containers": [{
                        "name": "app",
                        "image": "example/api:latest",
                        "resources": {
                            "requests": {"cpu": "250m"},
                            "limits": {"memory": "512Mi"}
                        }
                    }]
                }
            }
        }
    }"#));

    let resources = deployment_container_resources(&deployment, "app").unwrap();

    assert_eq!(
        value(&resources),
        json(
r#"{
            "requests": {"cpu": "250m"},
            "limits": {"memory": "512Mi"}
        }"#)
    );
}

#[test]
fn deployment_container_resources_rejects_missing_container() {
    let deployment = deployment_of(&json(
r#"{
        "apiVersion": "apps/v1",
        "kind": "Deployment",
        "metadata": {"name": "api", "namespace": "default"},
        "spec": {
            "selector": {"matchLabels": {"app": "api"}},
            "template": {
                "metadata": {"labels": {"app": "api"}},
                "spec": {
                    "containers": [{"name": "app", "image": "example/api:latest"}]
                }
            }
        }
    }"#));

    let err = deployment_container_resources(&deployment, "sidecar").unwrap_err();

    assert_eq!(err, "container not found in workload pod template: sidecar");
}

#[test]
fn statefulset_container_resources_returns_existing_resources() {
    let statefulset = statefulset_of(&json(
r#"{
        "apiVersion": "apps/v1",
        "kind": "StatefulSet",
        "metadata": {"name": "db", "namespace": "default"},
        "spec": {
            "selector": {"matchLabels": {"app": "db"}},
            "serviceName": "db",
            "template": {
                "metadata": {"labels": {"app": "db"}},
                "spec": {
                    "containers": [{
                        "name": "postgres",
                        "image": "postgres:16",
                        "resources": {"requests": {"memory": "1Gi"}}
                    }]
                }
            }
        }
    }"#));

    let resources = statefulset_container_resources(&statefulset, "postgres").unwrap();

    assert_eq!(
        value(&resources), json(r#"{"requests": {"memory": "1Gi"}}"#));
}

#[test]
fn daemonset_container_resources_returns_empty_resources_when_absent() {
    let daemonset = daemonset_of(&json(
r#"{
        "apiVersion": "apps/v1",
        "kind": "DaemonSet",
        "metadata": {"name": "agent", "namespace": "default"},
        "spec": {
            "selector": {"matchLabels": {"app": "agent"}},
            "template": {
                "metadata": {"labels": {"app": "agent"}},
                "spec": {
                    "containers": [{"name": "agent", "image": "example/agent:latest"}]
                }
            }
        }
    }"#));

    let resources = daemonset_container_resources(&daemonset, "agent").unwrap();

    assert_eq!(
        value(&resources), json(r#"{}"#));
}

#[test]
fn vpa_mode_is_conflicting_defaults_to_auto() {
    assert!(vpa_mode_is_conflicting(None));
    assert!(vpa_mode_is_conflicting(Some("Auto")));
    assert!(vpa_mode_is_conflicting(Some("Recreate")));
    assert!(!vpa_mode_is_conflicting(Some("Off")));
}

#[test]
fn label_selector_matches_handles_match_labels_and_expressions() {
    let selector = selector_of(&json(
r#"{
        "matchLabels": {"app": "api"},
        "matchExpressions": [
            {"key": "tier", "operator": "In", "values": ["backend"]},
            {"key": "region", "operator": "DoesNotExist"}
        ]
    }"#));

    let labels = vec![
        kv("app", "api"),
        kv("tier", "backend"),
    ];

    assert!(label_selector_matches(Some(&selector), &labels));
}

#[test]
fn label_selector_matches_rejects_non_matching_expression() {
    let selector = selector_of(&json(
r#"{
        "matchExpressions": [
            {"key": "tier", "operator": "NotIn", "values": ["backend"]}
        ]
    }"#));

    let labels = vec![kv("tier", "backend")];

    assert!(!label_selector_matches(Some(&selector), &labels));
}

#[test]
fn merge_check_includes_unavailable_prefix() {
    let mut warnings = Vec::new();
    merge_check(&mut warnings, "hpa", &Err("forbidden".into()));

    assert_eq!(warnings.len(), 1);
    assert!(warnings[0].starts_with("preflight.check.unavailable: hpa unavailable:"));
}

#[test]
fn validate_update_agent_image_rejects_empty() {
    let err = validate_update_agent_image("").unwrap_err();
    assert_eq!(err, "update_agent image must be non-empty");
}

#[test]
fn validate_update_agent_image_rejects_whitespace() {
    let err = validate_update_agent_image("   ").unwrap_err();
    assert_eq!(err, "update_agent image must be non-empty");
}

#[test]
fn validate_update_agent_image_rejects_wrong_registry() {
    let err = validate_update_agent_image("ghcr.io/sentinella/agent:v1.2.3").unwrap_err();
    assert!(err.starts_with("update_agent image must start with allowed prefix"));
}

#[test]
fn validate_update_agent_image_rejects_wrong_repo_path() {
    let err = validate_update_agent_image(
        "us-east1-docker.pkg.dev/sentinella-hub/other-repo/agent:v1.2.3",
    )
    .unwrap_err();
    assert!(err.starts_with("update_agent image must start with allowed prefix"));
}

#[test]
fn validate_update_agent_image_rejects_prefix_only() {
    let err = validate_update_agent_image(UPDATE_AGENT_ALLOWED_PREFIX).unwrap_err();
    assert_eq!(
        err,
        "update_agent image must include an image name after allowed prefix"
    );
}

#[test]
fn validate_update_agent_image_rejects_missing_tag_or_digest() {
    let err = validate_update_agent_image(
        "us-east1-docker.pkg.dev/sentinella-hub/kubernetes-agent/sentinella-hub-k8s-agent",
    )
    .unwrap_err();
    assert_eq!(
        err,
        "update_agent image must include either :<tag> or @sha256:<digest>"
    );
}

#[test]
fn validate_update_agent_image_accepts_tagged_image() {
    let image = validate_update_agent_image(
        "us-east1-docker.pkg.dev/sentinella-hub/kubernetes-agent/sentinella-hub-k8s-agent:v1.2.3",
    )
    .unwrap();
    assert_eq!(
        image,
        "us-east1-docker.pkg.dev/sentinella-hub/kubernetes-agent/sentinella-hub-k8s-agent:v1.2.3"
    );
}

#[test]
fn validate_update_agent_image_allows_latest_tag() {
    let image = validate_update_agent_image(
        "us-east1-docker.pkg.dev/sentinella-hub/kubernetes-agent/sentinella-hub-k8s-agent:latest",
    )
    .unwrap();
    assert_eq!(
        image,
        "us-east1-docker.pkg.dev/sentinella-hub/kubernetes-agent/sentinella-hub-k8s-agent:latest"
    );
}

#[test]
fn validate_update_agent_image_accepts_valid_digest() {
    let image = validate_update_agent_image(
        "us-east1-docker.pkg.dev/sentinella-hub/kubernetes-agent/sentinella-hub-k8s-agent@sha256:aaaaaaaaaaaaaaaaaaaaaaaaaaaaaaaaaaaaaaaaaaaaaaaaaaaaaaaaaaaaaaaa",
    )
    .unwrap();
    assert_eq!(
        image,
        "us-east1-docker.pkg.dev/sentinella-hub/kubernetes-agent/sentinella-hub-k8s-agent@sha256:aaaaaaaaaaaaaaaaaaaaaaaaaaaaaaaaaaaaaaaaaaaaaaaaaaaaaaaaaaaaaaaa"
    );
}

#[test]
fn validate_update_agent_image_rejects_bad_digest() {
    let err = validate_update_agent_image(
        "us-east1-docker.pkg.dev/sentinella-hub/kubernetes-agent/sentinella-hub-k8s-agent@sha256:abc",
    )
    .unwrap_err();
    assert_eq!(err, "update_agent image has invalid sha256 digest format");
}

#[test]
fn split_api_version_handles_core_and_group_versions() {
    assert_eq!(split_api_version("v1"), Some(("", "v1")));
    assert_eq!(split_api_version("apps/v1"), Some(("apps", "v1")));
    assert_eq!(split_api_version(""), None);
    assert_eq!(split_api_version("apps/"), None);
}

#[test]
fn sanitize_manifest_like_yaml_strips_server_generated_fields() {
    let mut manifest = json(
r#"{
        "apiVersion": "apps/v1",
        "kind": "Deployment",
        "metadata": {
            "name": "checkout-api",
            "namespace": "app-prod",
            "managedFields": [{"foo": "bar"}],
            "resourceVersion": "18421102",
            "uid": "12345",
            "creationTimestamp": "2026-07-08T14:00:00Z",
            "generation": 7,
            "selfLink": "/apis/apps/v1/namespaces/app-prod/deployments/checkout-api"
        },
        "status": {
            "readyReplicas": 1
        }
    }"#);

    sanitize_manifest_like_yaml(&mut manifest).unwrap();

    assert_eq!(
        manifest.pointer("/metadata/name").and_then(Value::as_str),
        Some("checkout-api")
    );
    assert_eq!(
        manifest.pointer("/metadata/namespace").and_then(Value::as_str),
        Some("app-prod")
    );
    assert!(manifest.pointer("/metadata/managedFields").is_none());
    assert!(manifest.pointer("/metadata/resourceVersion").is_none());
    assert!(manifest.pointer("/metadata/uid").is_none());
    assert!(manifest.pointer("/metadata/creationTimestamp").is_none());
    assert!(manifest.pointer("/metadata/generation").is_none());
    assert!(manifest.pointer("/metadata/selfLink").is_none());
    assert!(manifest.get("status").is_none());
}

#[test]
fn resource_yaml_read_error_classifies_forbidden_and_missing() {
    assert!(
        resource_yaml_read_error(
            "Deployment",
            "app-prod",
            "checkout-api",
            &kube_api_error(403)
        )
        .contains("forbidden")
    );
    assert!(
        resource_yaml_read_error(
            "Deployment",
            "app-prod",
            "checkout-api",
            &kube_api_error(404)
        )
        .contains("not found")
    );
}

// ---- Commands ----

fn settings(extra: &[(&str, &str)]) -> Config {
    let mut env = vec![kv("HUB_URL", "https://hub"), kv("CLUSTER_ID", "c-1")];
    env.extend(extra.iter().map(|(k, v)| kv(k, v)));
    Config::from_env(&env).expect("settings")
}

fn command(id: &str, kind: &str) -> Command {
    Command { id: id.to_string(), kind: kind.to_string(), spec: Json::Null }
}

#[test]
fn changing_commands_are_skipped_where_actions_are_off() {
    let cfg = settings(&[]);
    match dispatch_command(&cfg, &command("1", "drain_node"), 7) {
        Dispatch::Reply(result) => {
            assert_eq!(result.status, "skipped");
            assert_eq!(result.command_id, "1");
            assert_eq!(result.finished_at_ms, 7);
        }
        Dispatch::Run(_) => panic!("actions are off"),
    }
}

#[test]
fn commands_run_where_actions_are_on() {
    let cfg = settings(&[("ACTIONS_ENABLED", "true")]);
    match dispatch_command(&cfg, &command("1", "drain_node"), 7) {
        Dispatch::Run(route) => assert_eq!(route, CommandRoute::DrainNode),
        Dispatch::Reply(_) => panic!("the command is to run"),
    }
    match dispatch_command(&cfg, &command("1", "dance"), 7) {
        Dispatch::Reply(result) => assert_ne!(result.status, "ok"),
        Dispatch::Run(_) => panic!("no such command"),
    }
    assert_eq!(command_route("scale"), Some(CommandRoute::Scale));
    assert_eq!(command_route("dance"), None);
}

#[test]
fn commands_are_run_once() {
    let mut state = CommandDedupState::new();
    let cmd = command("1", "scale");
    assert!(state.begin(&cmd, 1).is_none());
    let running = state.begin(&cmd, 2).expect("it runs already");
    assert_eq!(running.command_id, "1");
    let done = CommandResult::at("1".to_string(), "ok", None, 5);
    state.finish(&done);
    let again = state.begin(&cmd, 9).expect("it is done already");
    assert_eq!(again.status, "ok");
    assert_eq!(again.finished_at_ms, 5);

    let other = command("2", "scale");
    assert!(state.begin(&other, 10).is_none());
    assert_eq!(state.begin(&cmd, 11).expect("it is done already").finished_at_ms, 5);
    state.finish(&CommandResult::at("2".to_string(), "error", None, 12));
    assert_eq!(state.begin(&cmd, 13).expect("it is done already").finished_at_ms, 5);
    assert_eq!(state.begin(&other, 14).expect("it is done already").status, "error");
}

#[test]
fn simple_results_carry_the_time_of_day() {
    let result = CommandResult::simple("1".to_string(), "ok", None);
    assert!(result.finished_at_ms > 1_600_000_000_000);
}

#[test]
fn specs_that_cannot_be_read_are_answered() {
    let message = invalid_spec("scale", "missing field");
    assert_eq!(message, "invalid spec for kind scale: missing field");
    let result = spec_error(&command("1", "scale"), message, 3);
    assert_eq!(result.status, "error");
    assert_eq!(result.message.as_deref(), Some("invalid spec for kind scale: missing field"));
}

// ---- Policies ----

#[test]
fn effective_policy_is_the_first_that_is_ready() {
    let stale = {
        let mut policy = policy_for_gating(vec!["scale"], vec!["Deployment"], None);
        policy.status = Some(policy_status(true, Some(1000), true));
        policy
    };
    let found = ensure_effective_policy_ready(
        &vec![stale.clone(), ready_policy(vec!["scale"], vec!["Deployment"])],
        "app-prod",
        1000,
        300,
    )
    .expect("a policy");
    assert_eq!(found.name, "policy");
    assert!(ensure_effective_policy_ready(&vec![stale], "app-prod", 1000, 300).is_err());
}

#[test]
fn policies_allow_what_they_name_in_their_namespaces() {
    let policies = vec![ready_policy(vec!["scale"], vec!["Deployment"])];
    assert!(
        ensure_effective_policy_allows(&policies, "app-prod", "scale", Some("Deployment"), None, 1000, 300).is_ok()
    );
    assert!(
        ensure_effective_policy_allows(&policies, "other", "scale", Some("Deployment"), None, 1000, 300).is_err()
    );
    assert!(
        ensure_effective_policy_allows(&policies, "app-prod", "scale", Some("DaemonSet"), None, 1000, 300).is_err()
    );
}

// ---- Draining ----

#[test]
fn drain_cordons_evicts_and_waits() {
    let spec = drain_spec("worker-1", Some(60), Some(5), false);
    let pod = drain_pod("app", "api-1", "worker-1", Some("ReplicaSet"), false);
    let step = begin_drain("d-1", &spec, 1000);
    assert!(matches!(step.action, DrainAction::ListPolicies));
    let step = drain_step(
        step.state,
        &spec,
        &DrainEvent::Policies(vec![ready_policy(vec!["drain_node"], vec![])]),
        30,
        1000,
    );
    assert!(matches!(step.action, DrainAction::GetNode(ref name) if name == "worker-1"));
    let step = drain_step(step.state, &spec, &DrainEvent::Node(None), 30, 1000);
    assert!(matches!(step.action, DrainAction::ListPods(_)));
    let step = drain_step(step.state, &spec, &DrainEvent::Pods(vec![pod.clone()]), 30, 1000);
    match &step.action {
        DrainAction::Cordon(name, patch) => {
            assert_eq!(name, "worker-1");
            assert_eq!(value(patch), json(r#"{"spec": {"unschedulable": true}}"#));
        }
        _ => panic!("the node is closed first"),
    }
    let step = drain_step(step.state, &spec, &DrainEvent::Done, 30, 1000);
    match &step.action {
        DrainAction::Evict(name, options) => {
            assert_eq!(name.name, "api-1");
            assert_eq!(options.as_ref().unwrap().grace_period_seconds, Some(5));
        }
        _ => panic!("the pod is evicted"),
    }
    let step = drain_step(step.state, &spec, &DrainEvent::Done, 30, 1000);
    assert!(matches!(step.action, DrainAction::ListPods(_)));
    let step = drain_step(step.state, &spec, &DrainEvent::Pods(vec![pod]), 30, 2000);
    assert!(matches!(step.action, DrainAction::Sleep(_)));
    let step = drain_step(step.state, &spec, &DrainEvent::Done, 30, 3000);
    let step = drain_step(step.state, &spec, &DrainEvent::Pods(vec![]), 30, 3000);
    match step.action {
        DrainAction::Reply(result) => {
            assert_eq!(result.command_id, "d-1");
            assert_eq!(result.status, "ok");
        }
        _ => panic!("the node is empty"),
    }
}

#[test]
fn drain_is_refused_without_a_policy() {
    let spec = drain_spec("worker-1", None, None, false);
    let step = begin_drain("d-1", &spec, 1000);
    let step = drain_step(step.state, &spec, &DrainEvent::Policies(vec![]), 30, 1000);
    match step.action {
        DrainAction::Reply(result) => assert_eq!(result.status, "error"),
        _ => panic!("nothing allows it"),
    }
}

#[test]
fn drain_with_a_bad_spec_is_refused() {
    let spec = drain_spec("worker-1", Some(0), None, false);
    let step = begin_drain("d-1", &spec, 1000);
    let step = drain_step(
        step.state,
        &spec,
        &DrainEvent::Policies(vec![ready_policy(vec!["drain_node"], vec![])]),
        30,
        1000,
    );
    match step.action {
        DrainAction::Reply(result) => {
            assert_eq!(result.message.as_deref(), Some("timeout_seconds must be greater than 0"))
        }
        _ => panic!("the spec is refused"),
    }
}

// ---- Changes to workloads ----

fn target(kind: &str) -> WorkloadTargetRef {
    WorkloadTargetRef { kind: kind.to_string(), namespace: "app-prod".to_string(), name: "api".to_string() }
}

fn rolled_out(ready: i32) -> Deployment {
    let mut deployment = deployment_of(&json(
        r#"{
            "metadata": {"name": "api", "namespace": "app-prod"},
            "spec": {"template": {"metadata": {"labels": {"app": "api"}},
                "spec": {"containers": [{"name": "app", "resources": {"requests": {"cpu": "100m"}}}]}}}
        }"#,
    ));
    deployment.metadata.generation = Some(2);
    deployment.spec.as_mut().unwrap().replicas = Some(2);
    deployment.status = Some(DeploymentStatus {
        replicas: Some(2),
        updated_replicas: Some(2),
        available_replicas: Some(ready),
        ready_replicas: Some(ready),
        observed_generation: Some(2),
    });
    deployment
}

#[test]
fn deployment_is_rolled_out_once_all_its_pods_are_there() {
    assert!(verify_deployment_rollout(&rolled_out(2)).0);
    assert!(!verify_deployment_rollout(&rolled_out(1)).0);
}

#[test]
fn resources_are_previewed_without_a_change() {
    let spec = workload_spec(json(
        r#"{"workload_kind": "Deployment", "namespace": "app-prod", "name": "api", "container": "app",
            "requests": {"cpu": "200m"}}"#,
    ));
    let step = begin_resize("r-1", spec, true);
    assert!(matches!(step.action, KubeAction::ListPolicies));
    let policies = vec![ready_policy(vec!["preview_workload_resources", "apply_workload_resources"], vec!["Deployment"])];
    let step = resize_step(step.state, &KubeEvent::Policies(policies), 30, 1000);
    assert!(matches!(step.action, KubeAction::GetNamespace(ref ns) if ns == "app-prod"));
    let enabled = namespace_spec(Some(("sentinella.io/action-mode", "enabled")));
    let step = resize_step(step.state, &KubeEvent::Namespace(enabled), 30, 1000);
    assert!(matches!(step.action, KubeAction::GetWorkload(_)));
    let step = resize_step(step.state, &KubeEvent::Workload(WorkloadObject::Deployment(rolled_out(2))), 30, 1000);
    match &step.action {
        KubeAction::Preflight(_, labels) => assert_eq!(labels, &vec![kv("app", "api")]),
        _ => panic!("the change is checked first"),
    }
    let step = resize_step(step.state, &KubeEvent::Warnings(vec!["w".to_string()]), 30, 1000);
    match &step.action {
        KubeAction::PatchWorkload(_, _, dry_run) => assert!(dry_run),
        _ => panic!("the change is tried"),
    }
    let step = resize_step(step.state, &KubeEvent::Workload(WorkloadObject::Deployment(rolled_out(2))), 30, 1000);
    match step.action {
        KubeAction::Reply(result) => {
            assert_eq!(result.dry_run, Some(true));
            assert_eq!(result.warnings, vec!["w"]);
        }
        _ => panic!("the preview is answered"),
    }
}

#[test]
fn resources_are_not_changed_in_a_namespace_without_the_label() {
    let spec = workload_spec(json(
        r#"{"workload_kind": "Deployment", "namespace": "app-prod", "name": "api", "container": "app",
            "requests": {"cpu": "200m"}}"#,
    ));
    let step = begin_resize("r-1", spec, false);
    let policies = vec![ready_policy(vec!["apply_workload_resources"], vec!["Deployment"])];
    let step = resize_step(step.state, &KubeEvent::Policies(policies), 30, 1000);
    let step = resize_step(step.state, &KubeEvent::Namespace(namespace_spec(None)), 30, 1000);
    match step.action {
        KubeAction::Reply(result) => {
            assert_eq!(result.status, "error");
            assert!(result.message.unwrap().contains("add label sentinella.io/action-mode=enabled"));
        }
        _ => panic!("the namespace is not open to actions"),
    }
}

#[test]
fn restart_is_tried_then_made_then_verified() {
    let spec = RolloutRestartSpec {
        target: target("Deployment"),
        execution: ExecutionSpec { mode: ExecutionMode::Execute },
    };
    let workload = || KubeEvent::Workload(WorkloadObject::Deployment(rolled_out(2)));
    let step = begin_rollout_at("a-1", spec, "2026-01-01T00:00:00Z".to_string());
    let step = rollout_step(
        step.state,
        &KubeEvent::Policies(vec![ready_policy(vec!["rollout_restart"], vec!["Deployment"])]),
        30,
        1000,
    );
    assert!(matches!(step.action, KubeAction::GetNamespace(ref ns) if ns == "app-prod"));
    let enabled = namespace_spec(Some(("sentinella.io/action-mode", "enabled")));
    let step = rollout_step(step.state, &KubeEvent::Namespace(enabled), 30, 1000);
    assert!(matches!(step.action, KubeAction::GetWorkload(_)));
    let step = rollout_step(step.state, &workload(), 30, 1000);
    match &step.action {
        KubeAction::PatchWorkload(_, patch, dry_run) => {
            assert!(dry_run);
            assert_eq!(
                value(patch)
                    .pointer("/spec/template/metadata/annotations/kubectl.kubernetes.io~1restartedAt")
                    .and_then(Value::as_str),
                Some("2026-01-01T00:00:00Z")
            );
        }
        _ => panic!("the restart is tried first"),
    }
    let restarted = |at: &str| {
        let mut patched = rolled_out(2);
        if let Some(spec) = patched.spec.as_mut() {
            spec.template.annotations = Some(vec![KV {
                key: "kubectl.kubernetes.io/restartedAt".to_string(),
                value: at.to_string(),
            }]);
        }
        KubeEvent::Workload(WorkloadObject::Deployment(patched))
    };
    let step = rollout_step(step.state, &restarted("tried"), 30, 1000);
    let step = rollout_step(step.state, &workload(), 30, 1000);
    assert!(matches!(step.action, KubeAction::PatchWorkload(_, _, false)));
    let step = rollout_step(step.state, &restarted("2026-01-01T00:00:00Z"), 30, 1000);
    assert!(matches!(step.action, KubeAction::GetWorkload(_)));
    let step = rollout_step(step.state, &workload(), 30, 1000);
    match step.action {
        KubeAction::Reply(result) => {
            assert_eq!(result.status, "ok");
            assert!(result.verification.is_some());
            assert_eq!(value(&result.observed_before.unwrap())["restartedAt"], Value::Null);
            assert_eq!(value(&result.observed_after.unwrap())["restartedAt"], "2026-01-01T00:00:00Z");
        }
        _ => panic!("the restart is verified"),
    }
}

#[test]
fn preview_of_a_restart_shows_what_the_dry_run_gave() {
    let spec = RolloutRestartSpec {
        target: target("Deployment"),
        execution: ExecutionSpec { mode: ExecutionMode::Preview },
    };
    let step = begin_rollout_at("a-1", spec, "2026-01-01T00:00:00Z".to_string());
    let policies = vec![ready_policy(vec!["rollout_restart"], vec!["Deployment"])];
    let step = rollout_step(step.state, &KubeEvent::Policies(policies), 30, 1000);
    let enabled = namespace_spec(Some(("sentinella.io/action-mode", "enabled")));
    let step = rollout_step(step.state, &KubeEvent::Namespace(enabled), 30, 1000);
    let step =
        rollout_step(step.state, &KubeEvent::Workload(WorkloadObject::Deployment(rolled_out(2))), 30, 1000);
    let mut patched = rolled_out(2);
    if let Some(spec) = patched.spec.as_mut() {
        spec.template.annotations = Some(vec![KV {
            key: "kubectl.kubernetes.io/restartedAt".to_string(),
            value: "2026-01-01T00:00:00Z".to_string(),
        }]);
    }
    let step = rollout_step(step.state, &KubeEvent::Workload(WorkloadObject::Deployment(patched)), 30, 1000);
    match step.action {
        KubeAction::Reply(result) => {
            assert_eq!(result.dry_run, Some(true));
            assert_eq!(value(&result.observed_before.unwrap())["restartedAt"], Value::Null);
            assert_eq!(value(&result.observed_after.unwrap())["restartedAt"], "2026-01-01T00:00:00Z");
        }
        _ => panic!("a preview ends with the dry run"),
    }
}

#[test]
fn workloads_are_left_alone_in_a_namespace_that_is_not_open() {
    let spec = ScaleSpec {
        target: target("Deployment"),
        replicas: 3,
        execution: ExecutionSpec { mode: ExecutionMode::Execute },
    };
    let step = begin_scale("s-1", spec);
    let policies = vec![ready_policy(vec!["scale"], vec!["Deployment"])];
    let step = scale_step(step.state, &KubeEvent::Policies(policies), 30, 1000);
    let closed = namespace_spec(Some(("sentinella.io/action-mode", "disabled")));
    let step = scale_step(step.state, &KubeEvent::Namespace(closed), 30, 1000);
    match step.action {
        KubeAction::Reply(result) => assert_eq!(result.status, "error"),
        _ => panic!("the namespace is not open to actions"),
    }
}

#[test]
fn restart_of_an_unknown_kind_is_refused() {
    let spec =
        RolloutRestartSpec { target: target("CronJob"), execution: ExecutionSpec { mode: ExecutionMode::Preview } };
    let step = begin_rollout("a-1", spec);
    assert!(step.state.restart_at.contains('T'));
    let policies = vec![ready_policy(vec!["rollout_restart"], vec!["CronJob"])];
    let step = rollout_step(step.state, &KubeEvent::Policies(policies), 30, 1000);
    match step.action {
        KubeAction::Reply(result) => assert_eq!(result.status, "error"),
        _ => panic!("no such workload"),
    }
}

#[test]
fn scaling_is_tried_then_made() {
    let spec = ScaleSpec {
        target: target("Deployment"),
        replicas: 3,
        execution: ExecutionSpec { mode: ExecutionMode::Execute },
    };
    let scale = |n: i32| KubeEvent::Scale(ScaleObject { desired: Some(n), current: Some(2) });
    let step = begin_scale("s-1", spec);
    let step = scale_step(
        step.state,
        &KubeEvent::Policies(vec![ready_policy(vec!["scale"], vec!["Deployment"])]),
        30,
        1000,
    );
    let enabled = namespace_spec(Some(("sentinella.io/action-mode", "enabled")));
    let step = scale_step(step.state, &KubeEvent::Namespace(enabled), 30, 1000);
    let step = scale_step(step.state, &KubeEvent::Workload(WorkloadObject::Deployment(rolled_out(2))), 30, 1000);
    assert!(matches!(step.action, KubeAction::GetScale(_)));
    let step = scale_step(step.state, &scale(2), 30, 1000);
    match &step.action {
        KubeAction::PatchScale(_, patch, dry_run) => {
            assert!(dry_run);
            assert_eq!(value(patch), json(r#"{"spec": {"replicas": 3}}"#));
        }
        _ => panic!("the scaling is tried first"),
    }
    let step = scale_step(step.state, &scale(3), 30, 1000);
    assert!(matches!(step.action, KubeAction::PatchScale(_, _, false)));
    let step = scale_step(step.state, &scale(3), 30, 1000);
    match step.action {
        KubeAction::Reply(result) => assert_eq!(result.status, "ok"),
        _ => panic!("the scaling is answered"),
    }
}

// ---- Updates of the agent ----

#[test]
fn update_is_refused_for_a_foreign_image() {
    let step = begin_update("u-1", &UpdateAgentSpec { image: "nginx:1".to_string() });
    let policies = vec![ready_policy(vec!["update_agent"], vec![])];
    let step = update_step(step.state, &KubeEvent::Policies(policies), 30, 1000);
    match step.action {
        KubeAction::Reply(result) => {
            assert_eq!(result.status, "error");
            assert!(result.message.unwrap().starts_with("update_agent image must start with allowed prefix"));
        }
        _ => panic!("the image is refused"),
    }
}

#[test]
fn update_asks_for_the_policies_first() {
    let image = format!("{UPDATE_AGENT_ALLOWED_PREFIX}sentinella-hub-k8s-agent:v1");
    let step = begin_update("u-1", &UpdateAgentSpec { image });
    assert!(matches!(step.action, KubeAction::ListPolicies));
    let step = update_step(step.state, &KubeEvent::Policies(vec![]), 30, 1000);
    match step.action {
        KubeAction::Reply(result) => assert_eq!(result.status, "error"),
        _ => panic!("nothing allows it"),
    }
}

#[test]
fn restart_of_the_agent_needs_a_policy() {
    let spec = SelfUpdateSpec::default();
    let refused = self_update("u-1", &spec, &vec![], 30, 1000);
    assert_eq!(refused.status, "error");
    let mut policy = ready_policy(vec!["self_update"], vec![]);
    policy.status.as_mut().unwrap().effective_namespaces.push("sentinella".to_string());
    let allowed = self_update("u-1", &spec, &vec![policy], 30, 1000);
    assert_eq!(allowed.restart_requested, Some(true));
}

// ---- Preflight ----

#[test]
fn preflight_tells_of_autoscalers_and_of_checks_that_failed() {
    let spec = workload_spec(json(
        r#"{"workload_kind": "Deployment", "namespace": "app-prod", "name": "api", "container": "app"}"#,
    ));
    let vpa = read_vertical_autoscaler(
        Some("v".to_string()),
        &json(r#"{"spec": {"targetRef": {"kind": "Deployment", "name": "api"}}}"#),
    );
    assert_eq!(vpa.target_name.as_deref(), Some("api"));
    assert_eq!(vpa.update_mode, None);
    let findings = PreflightFindings {
        hpas: Ok(vec![HorizontalPodAutoscaler {
            name: Some("h".to_string()),
            target: Some(ScaleTarget { kind: "Deployment".to_string(), name: "api".to_string() }),
        }]),
        vpas: Ok(vec![vpa]),
        limit_ranges: Err("forbidden".to_string()),
        resource_quotas: Ok(0),
        pdbs: Ok(vec![]),
    };
    let warnings = collect_preflight_warnings(&findings, &spec, &vec![]);
    assert_eq!(warnings.len(), 3);
    assert!(warnings[2].starts_with("preflight.check.unavailable"));
}

// ---- Manifests ----

#[test]
fn manifests_are_written_without_what_the_server_adds() {
    let spec = ResourceYamlSpec {
        api_version: "apps/v1".to_string(),
        kind: "Deployment".to_string(),
        namespace: Some("app-prod".to_string()),
        name: "api".to_string(),
    };
    let request = plan_resource_yaml(&spec).expect("an allowed kind");
    assert_eq!((request.group.as_str(), request.version.as_str()), ("apps", "v1"));
    assert!(request.namespaced);
    let object = json(r#"{"kind": "Deployment", "metadata": {"name": "api", "uid": "1"}, "status": {}}"#);
    let result = finish_resource_yaml("y-1", "c-1", &request, Some("7".to_string()), object, 5);
    assert_eq!(result.status, "ok");
    let manifest = result.resource_yaml.expect("a manifest");
    assert!(manifest.content.contains("name: api"));
    assert!(!manifest.content.contains("uid"));
    assert!(!manifest.content.contains("status"));
    assert_eq!(manifest.resource.resource_version.as_deref(), Some("7"));
    assert!(manifest.fetched_at.contains('T'));
}

#[test]
fn secrets_are_not_shown() {
    let spec = ResourceYamlSpec {
        api_version: "v1".to_string(),
        kind: "Secret".to_string(),
        namespace: Some("app-prod".to_string()),
        name: "s".to_string(),
    };
    assert!(plan_resource_yaml(&spec).is_err());
    assert_eq!(resource_yaml_target("v1", "Secret"), None);
    assert_eq!(resource_yaml_target("v1", "ConfigMap"), Some(true));
}

#[test]
fn manifests_that_are_too_large_or_not_written_are_refused() {
    let spec = ResourceYamlSpec {
        api_version: "v1".to_string(),
        kind: "ConfigMap".to_string(),
        namespace: Some("n".to_string()),
        name: "c".to_string(),
    };
    let request = plan_resource_yaml(&spec).expect("an allowed kind");
    let large = answer_resource_yaml("y", "c", &request, None, Ok("x".repeat(524_289)), String::new(), 1);
    assert_eq!(
        large.message.as_deref(),
        Some("resource YAML exceeds maximum size of 524288 bytes (got 524289)")
    );
    let failed = answer_resource_yaml("y", "c", &request, None, Err("bad".to_string()), String::new(), 1);
    assert_eq!(failed.message.as_deref(), Some("failed to serialize ConfigMap c to YAML: bad"));
    assert_eq!(not_written_as_json("ConfigMap", "c", "bad"), "failed to serialize ConfigMap c to JSON: bad");
}

#[test]
fn a_manifest_without_an_object_is_refused() {
    assert!(sanitize_manifest_like_yaml(&mut json("[]")).is_err());
}

// ---- Diagnoses ----

#[test]
fn diagnosis_needs_a_policy() {
    let spec = PostgresqlDiagnosticSpec { namespace: "app-prod".to_string(), ..PostgresqlDiagnosticSpec::default() };
    let refused = refuse_diagnosis("d-1", &spec, &vec![], 30, 1000).expect("a refusal");
    assert_eq!(refused.status, "error");
    assert_eq!(refused.dry_run, Some(false));
    let mut policy = ready_policy(vec!["diagnose_postgresql"], vec![]);
    policy.status.as_mut().unwrap().effective_namespaces.push("app-prod".to_string());
    assert!(refuse_diagnosis("d-1", &spec, &vec![policy], 30, 1000).is_none());
}
