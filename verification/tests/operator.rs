use sentinella_agent::json::Json;
use sentinella_agent::lifecycle::{
    desired_operator_deployment, desired_operator_service_account, is_operator_enabled, lifecycle_step,
    reconcile_operator_workload, resolve_operator_image, LifecycleEvent, LifecycleState, OperatorStep,
    ACTION_OPERATOR_ENABLED_KEY, CONFIG_MAP_NAME, OPERATOR_NAME,
};
use sentinella_agent::model::KV;
use sentinella_agent::objects::{ConfigMap, Container, LabelSelector, Namespace, ObjectMeta, Pod, PodSpec};
use sentinella_agent::operator::{
    binding_outcome, build_policy_conditions, build_policy_status, combined_excluded_namespaces,
    desired_action_role_binding, effective_namespaces, namespace_action_mode_enabled, namespace_is_excluded,
    plan_action_role_bindings, reconcile_action_policies, BindingReconcileOutcome, ACTION_CLUSTER_ROLE_NAME,
    ACTION_MODE_NAMESPACE_LABEL, ACTION_MODE_NAMESPACE_LABEL_ENABLED, ACTION_ROLE_BINDING_NAME,
    ACTION_SERVICE_ACCOUNT_NAME, ACTION_SERVICE_ACCOUNT_NAMESPACE,
};
use sentinella_agent::policy::{
    policy_status_is_stale, SentinellaHubActionPolicy, SentinellaHubActionPolicyCondition,
    SentinellaHubActionPolicyLimits, SentinellaHubActionPolicySpec, SentinellaHubActionPolicyStatus,
};
use serde_json::Value;

fn value(json: &Json) -> Value {
    match json {
        Json::Null => Value::Null,
        Json::Bool(b) => Value::Bool(*b),
        Json::Number(n) => Value::from(*n as i64),
        Json::Text(s) => Value::String(s.clone()),
        Json::Array(items) => Value::Array(items.iter().map(value).collect()),
        Json::Object(fields) => Value::Object(fields.iter().map(|f| (f.name.clone(), value(&f.value))).collect()),
    }
}

fn kv(key: &str, value: &str) -> KV {
    KV { key: key.to_string(), value: value.to_string() }
}

fn namespace_with_name(name: &str, labels: &[(&str, &str)]) -> Namespace {
    Namespace {
        metadata: ObjectMeta {
            name: Some(name.to_string()),
            labels: Some(labels.iter().map(|(k, v)| kv(k, v)).collect()),
            ..ObjectMeta::default()
        },
        phase: None,
    }
}

fn open_namespace() -> Namespace {
    namespace_with_name(
        "app-prod",
        &[("environment", "prod"), (ACTION_MODE_NAMESPACE_LABEL, ACTION_MODE_NAMESPACE_LABEL_ENABLED)],
    )
}

fn policy_named(name: &str, label: (&str, &str)) -> SentinellaHubActionPolicy {
    let texts = |items: &[&str]| items.iter().map(|i| i.to_string()).collect::<Vec<_>>();
    SentinellaHubActionPolicy {
        metadata: ObjectMeta { name: Some(name.to_string()), ..ObjectMeta::default() },
        spec: SentinellaHubActionPolicySpec {
            namespace_selector: Some(LabelSelector {
                match_labels: Some(vec![kv(label.0, label.1)]),
                match_expressions: None,
            }),
            allowed_actions: texts(&[
                "rollout_restart",
                "scale",
                "preview_workload_resources",
                "apply_workload_resources",
                "self_update",
                "update_agent",
                "diagnose_postgresql",
            ]),
            allowed_resources: texts(&["Deployment", "StatefulSet", "DaemonSet"]),
            approval_required: true,
            limits: None,
        },
        status: None,
    }
}

fn policy(label: (&str, &str)) -> SentinellaHubActionPolicy {
    policy_named("workload-tuning", label)
}

fn reconciled(last_reconciled_at_ms: Option<u128>) -> Option<SentinellaHubActionPolicyStatus> {
    Some(SentinellaHubActionPolicyStatus {
        effective_namespaces: Vec::new(),
        conditions: Vec::new(),
        observed_generation: Some(1),
        last_reconciled_at_ms,
        stale: false,
    })
}

fn outcome(permission_granted: bool, reconciliation_error: Option<&str>) -> BindingReconcileOutcome {
    BindingReconcileOutcome {
        permission_granted,
        reconciliation_error: reconciliation_error.map(str::to_string),
    }
}

fn ready_conditions(
    stale: bool,
    ready: bool,
    reconciliation_error: Option<&str>,
) -> Vec<SentinellaHubActionPolicyCondition> {
    let policy = policy(("environment", "prod"));

    build_policy_conditions(
        &policy,
        true,
        true,
        reconciliation_error.is_none(),
        true,
        true,
        true,
        reconciliation_error,
        stale,
        ready,
        1234,
    )
}

fn condition_status(conditions: &[SentinellaHubActionPolicyCondition], name: &str) -> String {
    conditions
        .iter()
        .find(|condition| condition.type_ == name)
        .map(|condition| condition.status.clone())
        .unwrap_or_default()
}

#[test]
fn build_policy_status_marks_ready_when_all_gates_pass() {
    let namespaces = vec![open_namespace()];
    let mut policy = policy(("environment", "prod"));
    policy.status = reconciled(Some(900));

    let status = build_policy_status(&policy, &namespaces, &vec![], &outcome(true, None), 1000, 150);

    assert_eq!(status.effective_namespaces, vec!["app-prod"]);
    assert_eq!(condition_status(&status.conditions, "Ready"), "True");
    assert_eq!(condition_status(&status.conditions, "ActionAllowed"), "True");
    assert_eq!(condition_status(&status.conditions, "ResourceAllowed"), "True");
    assert_eq!(condition_status(&status.conditions, "LimitsSatisfied"), "True");
    assert_eq!(condition_status(&status.conditions, "Stale"), "False");
    assert_eq!(condition_status(&status.conditions, "PermissionGranted"), "True");
    assert_eq!(condition_status(&status.conditions, "ReconciliationError"), "False");
    assert!(!status.stale);
}

#[test]
fn build_policy_status_marks_not_ready_on_partial_rbac_failure() {
    let namespaces = vec![open_namespace()];
    let mut policy = policy(("environment", "prod"));
    policy.status = reconciled(Some(900));

    let status = build_policy_status(
        &policy,
        &namespaces,
        &vec![],
        &outcome(false, Some("cannot reconcile app-prod")),
        1000,
        150,
    );

    assert_eq!(condition_status(&status.conditions, "Ready"), "False");
    assert_eq!(condition_status(&status.conditions, "PermissionGranted"), "False");
    assert_eq!(condition_status(&status.conditions, "ReconciliationError"), "True");
    assert_eq!(condition_status(&status.conditions, "Stale"), "False");
}

#[test]
fn build_policy_status_marks_stale_when_timestamp_missing() {
    let namespaces = vec![open_namespace()];
    let mut policy = policy(("environment", "prod"));
    policy.status = reconciled(None);

    let status = build_policy_status(&policy, &namespaces, &vec![], &outcome(true, None), 1000, 150);

    assert!(status.stale);
    assert_eq!(condition_status(&status.conditions, "Ready"), "False");
    assert_eq!(condition_status(&status.conditions, "Stale"), "True");
}

#[test]
fn build_policy_status_marks_not_ready_when_no_eligible_namespaces() {
    let namespaces = vec![namespace_with_name("app-qa", &[("environment", "qa")])];
    let excluded_namespaces = vec!["app-qa".to_string()];
    let mut policy = policy(("environment", "prod"));
    policy.status = reconciled(Some(900));

    let status = build_policy_status(&policy, &namespaces, &excluded_namespaces, &outcome(true, None), 1000, 150);

    assert_eq!(condition_status(&status.conditions, "NamespacesEligible"), "False");
    assert_eq!(condition_status(&status.conditions, "Ready"), "False");
}

#[test]
fn build_policy_status_marks_not_ready_when_action_is_not_allowed() {
    let namespaces = vec![open_namespace()];
    let mut policy = policy(("environment", "prod"));
    policy.spec.allowed_actions = vec!["bogus_action".into()];
    policy.status = reconciled(Some(900));

    let status = build_policy_status(&policy, &namespaces, &vec![], &outcome(true, None), 1000, 150);

    assert_eq!(condition_status(&status.conditions, "ActionAllowed"), "False");
    assert_eq!(condition_status(&status.conditions, "Ready"), "False");
}

#[test]
fn build_policy_status_marks_not_ready_when_resource_is_not_allowed() {
    let namespaces = vec![open_namespace()];
    let mut policy = policy(("environment", "prod"));
    policy.spec.allowed_resources = vec!["ConfigMap".into()];
    policy.status = reconciled(Some(900));

    let status = build_policy_status(&policy, &namespaces, &vec![], &outcome(true, None), 1000, 150);

    assert_eq!(condition_status(&status.conditions, "ResourceAllowed"), "False");
    assert_eq!(condition_status(&status.conditions, "Ready"), "False");
}

#[test]
fn build_policy_status_marks_not_ready_when_limits_are_invalid() {
    let namespaces = vec![open_namespace()];
    let mut policy = policy(("environment", "prod"));
    policy.spec.limits = Some(SentinellaHubActionPolicyLimits {
        max_cpu_limit: Some("bogus".into()),
        max_memory_limit: Some("1Gi".into()),
    });
    policy.status = reconciled(Some(900));

    let status = build_policy_status(&policy, &namespaces, &vec![], &outcome(true, None), 1000, 150);

    assert_eq!(condition_status(&status.conditions, "LimitsSatisfied"), "False");
    assert_eq!(condition_status(&status.conditions, "Ready"), "False");
}

#[test]
fn reconcile_action_policies_with_patches_each_policy_even_when_binding_fails() {
    let namespaces = vec![open_namespace()];
    let mut policy_a = policy_named("workload-a", ("environment", "prod"));
    policy_a.status = reconciled(Some(900));
    let mut policy_b = policy_named("workload-b", ("environment", "prod"));
    policy_b.status = reconciled(Some(900));

    let patches = reconcile_action_policies(
        &vec![policy_a, policy_b],
        &namespaces,
        &vec![],
        &outcome(false, Some("cannot reconcile app-prod")),
        1000,
        150,
    );

    assert_eq!(patches.len(), 2);
    assert_eq!(patches[0].name, "workload-a");
    assert_eq!(patches[1].name, "workload-b");
    assert_eq!(condition_status(&patches[0].status.conditions, "Ready"), "False");
    assert_eq!(condition_status(&patches[1].status.conditions, "Ready"), "False");
}

#[test]
fn reconcile_action_role_bindings_reports_partial_failure() {
    let namespaces = vec![open_namespace(), namespace_with_name("app-qa", &[("environment", "qa")])];
    let policies = vec![policy(("environment", "prod"))];
    let excluded_namespaces = vec!["app-qa".to_string()];

    let mut ensure_calls = Vec::new();
    let mut remove_calls = Vec::new();
    let mut errors = Vec::new();
    for step in plan_action_role_bindings(&namespaces, &policies, &excluded_namespaces) {
        if step.ensure {
            if step.namespace == "app-prod" {
                errors.push("cannot reconcile app-prod".to_string());
            }
            ensure_calls.push(step.namespace);
        } else {
            remove_calls.push(step.namespace);
        }
    }
    let outcome = binding_outcome(&errors);

    assert!(!outcome.permission_granted);
    assert_eq!(outcome.reconciliation_error.as_deref(), Some("cannot reconcile app-prod"));
    assert_eq!(ensure_calls, vec!["app-prod".to_string()]);
    assert_eq!(remove_calls, vec!["app-qa".to_string()]);
}

#[test]
fn role_bindings_need_a_policy_that_selects_the_namespace() {
    let namespaces = vec![open_namespace()];
    let steps = plan_action_role_bindings(&namespaces, &vec![], &vec![]);
    assert_eq!(steps.len(), 1);
    assert_eq!(steps[0].namespace, "app-prod");
    assert!(!steps[0].ensure);

    let elsewhere = vec![policy(("environment", "qa"))];
    assert!(!plan_action_role_bindings(&namespaces, &elsewhere, &vec![])[0].ensure);

    let here = vec![policy(("environment", "qa")), policy(("environment", "prod"))];
    assert!(plan_action_role_bindings(&namespaces, &here, &vec![])[0].ensure);
}

#[test]
fn namespace_is_excluded_matches_additive_denylist() {
    let excluded_namespaces = vec!["app-prod".to_string(), "kube-system".to_string()];

    assert!(namespace_is_excluded("app-prod", &excluded_namespaces));
    assert!(namespace_is_excluded("kube-system", &excluded_namespaces));
    assert!(!namespace_is_excluded("app-qa", &excluded_namespaces));
}

#[test]
fn effective_namespaces_excludes_blocked_namespaces() {
    let namespaces = vec![
        namespace_with_name("app-prod", &[("environment", "prod")]),
        namespace_with_name("app-qa", &[("environment", "qa")]),
    ];
    let excluded_namespaces = vec!["app-qa".to_string()];

    assert_eq!(effective_namespaces(&namespaces, &excluded_namespaces), vec!["app-prod".to_string()]);
}

#[test]
fn own_exclusions_are_added_to_those_of_the_system() {
    let excluded = combined_excluded_namespaces(&vec!["mine".to_string()]);
    assert!(excluded.contains(&"mine".to_string()));
    assert!(excluded.contains(&"kube-system".to_string()));
    assert!(namespace_action_mode_enabled(&open_namespace()));
    assert!(!namespace_action_mode_enabled(&namespace_with_name("a", &[])));
}

#[test]
fn policy_status_is_fresh_when_timestamp_is_recent() {
    assert!(!policy_status_is_stale(Some(900), 1000, 150));
}

#[test]
fn policy_status_is_stale_when_timestamp_exceeds_window() {
    assert!(policy_status_is_stale(Some(800), 1000, 150));
}

#[test]
fn policy_status_is_stale_when_timestamp_missing() {
    assert!(policy_status_is_stale(None, 1000, 150));
}

#[test]
fn build_policy_conditions_marks_ready_when_all_gates_pass() {
    let conditions = ready_conditions(false, true, None);

    assert_eq!(condition_status(&conditions, "Ready"), "True");
    assert_eq!(condition_status(&conditions, "Stale"), "False");
    assert_eq!(condition_status(&conditions, "PermissionGranted"), "True");
    assert_eq!(condition_status(&conditions, "ReconciliationError"), "False");
}

#[test]
fn build_policy_conditions_marks_not_ready_on_rbac_error() {
    let conditions = ready_conditions(false, false, Some("rbac denied"));

    assert_eq!(condition_status(&conditions, "Ready"), "False");
    assert_eq!(condition_status(&conditions, "PermissionGranted"), "False");
    assert_eq!(condition_status(&conditions, "ReconciliationError"), "True");
}

#[test]
fn build_policy_conditions_marks_not_ready_when_stale() {
    let conditions = ready_conditions(true, false, None);

    assert_eq!(condition_status(&conditions, "Ready"), "False");
    assert_eq!(condition_status(&conditions, "Stale"), "True");
}

#[test]
fn desired_role_binding_targets_sentinella_service_account() {
    let role_binding = value(&desired_action_role_binding("app-prod"));

    assert_eq!(role_binding["metadata"]["name"], ACTION_ROLE_BINDING_NAME);
    assert_eq!(role_binding["metadata"]["namespace"], "app-prod");
    assert_eq!(role_binding["roleRef"]["kind"], "ClusterRole");
    assert_eq!(role_binding["roleRef"]["name"], ACTION_CLUSTER_ROLE_NAME);
    let subject = &role_binding["subjects"][0];
    assert_eq!(subject["kind"], "ServiceAccount");
    assert_eq!(subject["name"], ACTION_SERVICE_ACCOUNT_NAME);
    assert_eq!(subject["namespace"], ACTION_SERVICE_ACCOUNT_NAMESPACE);
}

// ---- The operator's own workload ----

fn configmap_with_data(data: &[(&str, &str)]) -> ConfigMap {
    ConfigMap {
        metadata: ObjectMeta {
            name: Some(CONFIG_MAP_NAME.to_string()),
            namespace: Some("sentinella".to_string()),
            ..ObjectMeta::default()
        },
        data: Some(data.iter().map(|(k, v)| kv(k, v)).collect()),
        ..ConfigMap::default()
    }
}

#[test]
fn is_operator_enabled_true() {
    let cm = configmap_with_data(&[(ACTION_OPERATOR_ENABLED_KEY, "true")]);
    assert!(is_operator_enabled(&cm));
}

#[test]
fn is_operator_enabled_one() {
    let cm = configmap_with_data(&[(ACTION_OPERATOR_ENABLED_KEY, "1")]);
    assert!(is_operator_enabled(&cm));
}

#[test]
fn is_operator_enabled_false() {
    let cm = configmap_with_data(&[(ACTION_OPERATOR_ENABLED_KEY, "false")]);
    assert!(!is_operator_enabled(&cm));
}

#[test]
fn is_operator_enabled_missing_key_defaults_false() {
    let cm = configmap_with_data(&[("HUB_URL", "https://hub.example.com")]);
    assert!(!is_operator_enabled(&cm));
}

#[test]
fn is_operator_enabled_missing_data_defaults_false() {
    let cm = ConfigMap {
        metadata: ObjectMeta { name: Some(CONFIG_MAP_NAME.to_string()), ..ObjectMeta::default() },
        ..ConfigMap::default()
    };
    assert!(!is_operator_enabled(&cm));
}

#[test]
fn is_operator_enabled_whitespace_trimmed() {
    let cm = configmap_with_data(&[(ACTION_OPERATOR_ENABLED_KEY, "  true  ")]);
    assert!(is_operator_enabled(&cm));
}

#[test]
fn desired_service_account_has_correct_name_and_labels() {
    let sa = value(&desired_operator_service_account("sentinella"));
    assert_eq!(sa["metadata"]["name"], OPERATOR_NAME);
    assert_eq!(sa["metadata"]["namespace"], "sentinella");
    assert_eq!(sa["metadata"]["labels"]["sentinella.io/managed-by"], "sentinella-hub-k8s-agent");
}

#[test]
fn desired_deployment_has_correct_metadata_and_image() {
    let deploy = value(&desired_operator_deployment("sentinella", "repo/agent:v1.2.3"));
    assert_eq!(deploy["metadata"]["name"], OPERATOR_NAME);
    assert_eq!(deploy["metadata"]["namespace"], "sentinella");

    let spec = &deploy["spec"];
    assert_eq!(spec["replicas"], 1);

    let template_spec = &spec["template"]["spec"];
    assert_eq!(template_spec["serviceAccountName"], OPERATOR_NAME);

    let container = &template_spec["containers"][0];
    assert_eq!(container["name"], "operator");
    assert_eq!(container["image"], "repo/agent:v1.2.3");
    assert_eq!(container["args"], Value::from(vec!["--mode", "operator"]));
}

#[test]
fn desired_deployment_has_probes_and_security_context() {
    let deploy = value(&desired_operator_deployment("sentinella", "repo/agent:v1.0.0"));
    let template_spec = &deploy["spec"]["template"]["spec"];

    let sc = &template_spec["securityContext"];
    assert_eq!(sc["runAsNonRoot"], true);
    assert_eq!(sc["runAsUser"], 65532);

    let container = &template_spec["containers"][0];
    assert!(container["startupProbe"].is_object());
    assert!(container["livenessProbe"].is_object());
    assert!(container["readinessProbe"].is_object());

    let csc = &container["securityContext"];
    assert_eq!(csc["allowPrivilegeEscalation"], false);
    assert_eq!(csc["readOnlyRootFilesystem"], true);
}

#[test]
fn desired_deployment_uses_configmap_envfrom() {
    let deploy = value(&desired_operator_deployment("sentinella", "repo/agent:v1.0.0"));
    let env_from = deploy["spec"]["template"]["spec"]["containers"][0]["envFrom"].as_array().unwrap();
    assert_eq!(env_from.len(), 1);
    assert_eq!(env_from[0]["configMapRef"]["name"], CONFIG_MAP_NAME);
}

#[test]
fn only_the_leader_acts_on_the_switch() {
    let on = configmap_with_data(&[(ACTION_OPERATOR_ENABLED_KEY, "true")]);
    let seen = LifecycleEvent::Seen(on, Some("7".to_string()));
    let follower = lifecycle_step(LifecycleState::new(), &seen, false);
    assert_eq!(follower.reconcile, None);
    let leader = lifecycle_step(LifecycleState::new(), &seen, true);
    assert_eq!(leader.reconcile, Some(true));
    assert!(leader.changed);
    let deleted = lifecycle_step(leader.state, &LifecycleEvent::Deleted, true);
    assert_eq!(deleted.reconcile, Some(false));
}

#[test]
fn operator_workload_is_made_or_removed() {
    assert_eq!(
        reconcile_operator_workload(true, false, true),
        vec![OperatorStep::CreateServiceAccount, OperatorStep::PatchDeployment]
    );
    assert_eq!(
        reconcile_operator_workload(false, true, true),
        vec![OperatorStep::DeleteDeployment, OperatorStep::DeleteServiceAccount]
    );
}

#[test]
fn operator_image_is_that_of_the_agent() {
    let container = |name: &str, image: Option<&str>| Container {
        name: name.to_string(),
        image: image.map(str::to_string),
        image_pull_policy: None,
        command: None,
        args: None,
        resources: None,
    };
    let pod = Pod {
        spec: Some(PodSpec {
            node_name: None,
            containers: vec![container("agent", Some("repo/agent:v2")), container("sidecar", Some("x"))],
        }),
        ..Pod::default()
    };
    assert_eq!(resolve_operator_image(&pod), Ok("repo/agent:v2".to_string()));
    assert!(resolve_operator_image(&Pod::default()).is_err());
}
