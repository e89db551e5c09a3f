//! The action operator: which namespaces are open to actions, and what is said of each policy.
use crate::json::{Json, json_one_item, json_text, JsonView, ObjectBuilder};
use crate::model::KV;
use crate::objects;
use crate::objects::{label_selector_matches, Namespace, NamespaceView};
use crate::order;
use crate::order::{sort_distinct, sort_texts, str_eq};
use crate::pairs;
use crate::pairs::pair_value;
use crate::policy;
use crate::policy::{
    actions_declared, policy_action_targets_workload, policy_limits_are_valid, policy_status_is_stale,
    resources_declared, SentinellaHubActionPolicy, SentinellaHubActionPolicyCondition,
    SentinellaHubActionPolicyConditionView, SentinellaHubActionPolicySpec,
    SentinellaHubActionPolicySpecView, SentinellaHubActionPolicyStatus, SentinellaHubActionPolicyStatusView,
    SentinellaHubActionPolicyView,
};
use crate::quantity;
use crate::text;
use crate::text::{join, list_has, owned, text2, trim};
use crate::views;
use crate::views::{any_item, append_cloned, DeepClone, filter_map_items};
use vstd::prelude::*;

verus! {

/// The label that opens a namespace to actions.
pub const ACTION_MODE_NAMESPACE_LABEL: &'static str = "sentinella.io/action-mode";

/// The value of that label in a namespace that is open.
pub const ACTION_MODE_NAMESPACE_LABEL_ENABLED: &'static str = "enabled";

/// The name of the role binding in each open namespace.
pub const ACTION_ROLE_BINDING_NAME: &'static str = "sentinella-hub-k8s-agent-action-mode";

/// The cluster role that the binding grants.
pub const ACTION_CLUSTER_ROLE_NAME: &'static str = "sentinella-hub-k8s-agent-action-mode";

/// The namespace of the service account that the binding grants the role to.
pub const ACTION_SERVICE_ACCOUNT_NAMESPACE: &'static str = "sentinella";

/// The service account that the binding grants the role to.
pub const ACTION_SERVICE_ACCOUNT_NAME: &'static str = "sentinella-hub-k8s-agent";

/// How the reconciliation of the role bindings went.
#[derive(Clone, Debug, PartialEq, Eq)]
pub struct BindingReconcileOutcome {
    pub permission_granted: bool,
    pub reconciliation_error: Option<String>,
}

/// The view of [`BindingReconcileOutcome`].
pub struct BindingReconcileOutcomeView {
    pub permission_granted: bool,
    pub reconciliation_error: Option<Seq<char>>,
}

impl DeepView for BindingReconcileOutcome {
    type V = BindingReconcileOutcomeView;

    open spec fn deep_view(&self) -> BindingReconcileOutcomeView {
        BindingReconcileOutcomeView {
            permission_granted: self.permission_granted.deep_view(),
            reconciliation_error: self.reconciliation_error.deep_view(),
        }
    }
}

impl DeepClone for BindingReconcileOutcome {
    fn deep_clone(&self) -> (copy: Self) {
        BindingReconcileOutcome {
            permission_granted: self.permission_granted.deep_clone(),
            reconciliation_error: self.reconciliation_error.deep_clone(),
        }
    }
}

/// What is to be done about the role binding of one namespace.
#[derive(Clone, Debug, PartialEq, Eq)]
pub struct BindingStep {
    pub namespace: String,
    /// Whether the binding is to be there; it is to be gone otherwise.
    pub ensure: bool,
}

/// The view of [`BindingStep`].
pub struct BindingStepView {
    pub namespace: Seq<char>,
    pub ensure: bool,
}

impl DeepView for BindingStep {
    type V = BindingStepView;

    open spec fn deep_view(&self) -> BindingStepView {
        BindingStepView {
            namespace: self.namespace.deep_view(),
            ensure: self.ensure.deep_view(),
        }
    }
}

impl DeepClone for BindingStep {
    fn deep_clone(&self) -> (copy: Self) {
        BindingStep {
            namespace: self.namespace.deep_clone(),
            ensure: self.ensure.deep_clone(),
        }
    }
}

/// A new status for a policy.
#[derive(Clone, Debug, PartialEq, Eq)]
pub struct PolicyStatusPatch {
    pub name: String,
    pub status: SentinellaHubActionPolicyStatus,
}

/// The view of [`PolicyStatusPatch`].
pub struct PolicyStatusPatchView {
    pub name: Seq<char>,
    pub status: SentinellaHubActionPolicyStatusView,
}

impl DeepView for PolicyStatusPatch {
    type V = PolicyStatusPatchView;

    open spec fn deep_view(&self) -> PolicyStatusPatchView {
        PolicyStatusPatchView {
            name: self.name.deep_view(),
            status: self.status.deep_view(),
        }
    }
}

impl DeepClone for PolicyStatusPatch {
    fn deep_clone(&self) -> (copy: Self) {
        PolicyStatusPatch {
            name: self.name.deep_clone(),
            status: self.status.deep_clone(),
        }
    }
}

// ------------------------------------------------------------------- namespaces

/// The namespaces that are never open to actions.
pub open spec fn system_namespaces() -> Seq<Seq<char>> {
    seq!["kube-system"@, "kube-public"@, "kube-node-lease"@, "sentinella"@, "tetragon"@]
}

/// The namespaces that are not open to actions: the system's and the given ones that are not
/// blank, trimmed; each once, in order.
pub open spec fn excluded_namespaces(extra: Seq<Seq<char>>) -> Seq<Seq<char>> {
    order::distinct_texts(
        system_namespaces() + extra.filter_map(
            |n: Seq<char>| if text::trimmed(n).len() == 0 { None } else { Some(text::trimmed(n)) },
        ),
    )
}

/// The namespaces that are not open to actions.
pub fn combined_excluded_namespaces(extra: &Vec<String>) -> (r: Vec<String>)
    ensures
        r.deep_view() == excluded_namespaces(extra.deep_view()),
{
    let mut all: Vec<String> = Vec::new();
    all.push(owned("kube-system"));
    all.push(owned("kube-public"));
    all.push(owned("kube-node-lease"));
    all.push(owned("sentinella"));
    all.push(owned("tetragon"));
    assert(all.deep_view() =~= system_namespaces());
    let f = |n: &String| -> (t: Option<String>)
        ensures
            t.deep_view() == (if text::trimmed(n.deep_view()).len() == 0 {
                None
            } else {
                Some(text::trimmed(n.deep_view()))
            }),
        {
            let t = trim(n.as_str());
            if t.is_empty() {
                None
            } else {
                Some(owned(t))
            }
        };
    let named = filter_map_items(
        extra,
        f,
        Ghost(|n: Seq<char>| if text::trimmed(n).len() == 0 { None } else { Some(text::trimmed(n)) }),
    );
    append_cloned(&mut all, &named);
    sort_distinct(all)
}

/// Whether a namespace is not open to actions.
pub fn namespace_is_excluded(name: &str, excluded: &Vec<String>) -> (r: bool)
    ensures
        r == excluded.deep_view().contains(name@),
{
    list_has(excluded, name)
}

/// The names of the namespaces that are not excluded, in order.
pub open spec fn effective_names(namespaces: Seq<NamespaceView>, excluded: Seq<Seq<char>>) -> Seq<Seq<char>> {
    order::sorted_texts(
        namespaces.filter_map(
            |n: NamespaceView|
                match n.metadata.name {
                    Some(name) => if excluded.contains(name) {
                        None
                    } else {
                        Some(name)
                    },
                    None => None,
                },
        ),
    )
}

/// The names of the namespaces that are not excluded, in order.
pub fn effective_namespaces(namespaces: &Vec<Namespace>, excluded: &Vec<String>) -> (r: Vec<String>)
    ensures
        r.deep_view() == effective_names(namespaces.deep_view(), excluded.deep_view()),
{
    let ghost image = |n: NamespaceView|
        match n.metadata.name {
            Some(name) => if excluded.deep_view().contains(name) {
                None
            } else {
                Some(name)
            },
            None => None,
        };
    let f = |n: &Namespace| -> (t: Option<String>)
        ensures
            t.deep_view() == (match n.deep_view().metadata.name {
                Some(name) => if excluded.deep_view().contains(name) {
                    None
                } else {
                    Some(name)
                },
                None => None,
            }),
        {
            match &n.metadata.name {
                Some(name) => if namespace_is_excluded(name.as_str(), excluded) {
                    None
                } else {
                    Some(name.clone())
                },
                None => None,
            }
        };
    let names = filter_map_items(namespaces, f, Ghost(image));
    sort_texts(names)
}

/// A namespace carries the label that opens it to actions.
pub open spec fn action_mode_on(namespace: NamespaceView) -> bool {
    namespace.metadata.labels matches Some(labels) && pairs::value_of(labels, ACTION_MODE_NAMESPACE_LABEL@) == Some(
        ACTION_MODE_NAMESPACE_LABEL_ENABLED@,
    )
}

/// Whether a namespace carries the label that opens it to actions.
pub fn namespace_action_mode_enabled(namespace: &Namespace) -> (r: bool)
    ensures
        r == action_mode_on(namespace.deep_view()),
{
    match &namespace.metadata.labels {
        Some(labels) => match pair_value(labels, ACTION_MODE_NAMESPACE_LABEL) {
            Some(value) => str_eq(value, ACTION_MODE_NAMESPACE_LABEL_ENABLED),
            None => false,
        },
        None => false,
    }
}

// ------------------------------------------------------------------- role bindings

/// A policy selects a namespace: its selection fits the labels of the namespace.
pub open spec fn selects_namespace(policy: SentinellaHubActionPolicyView, namespace: NamespaceView) -> bool {
    objects::selector_matches(policy.spec.namespace_selector, objects::labels_of(namespace.metadata))
}

/// Some policy selects a namespace.
pub open spec fn is_selected(policies: Seq<SentinellaHubActionPolicyView>, namespace: NamespaceView) -> bool {
    policies.any(|p: SentinellaHubActionPolicyView| selects_namespace(p, namespace))
}

/// Whether some policy selects a namespace.
pub fn namespace_is_selected(policies: &Vec<SentinellaHubActionPolicy>, namespace: &Namespace) -> (r: bool)
    ensures
        r == is_selected(policies.deep_view(), namespace.deep_view()),
{
    let no_labels: Vec<KV> = Vec::new();
    assert(no_labels.deep_view() =~= seq![]);
    let labels = match &namespace.metadata.labels {
        Some(labels) => labels,
        None => &no_labels,
    };
    let test = |p: &SentinellaHubActionPolicy| -> (b: bool)
        ensures
            b == selects_namespace(p.deep_view(), namespace.deep_view()),
        { label_selector_matches(p.spec.namespace_selector.as_ref(), labels) };
    any_item(
        policies,
        test,
        Ghost(|p: SentinellaHubActionPolicyView| selects_namespace(p, namespace.deep_view())),
    )
}

/// What is to be done about the role binding of a namespace that has a name: it is to be there
/// where the namespace is labelled, not excluded, and selected by a policy, and gone otherwise.
pub open spec fn binding_step(
    namespace: NamespaceView,
    policies: Seq<SentinellaHubActionPolicyView>,
    excluded: Seq<Seq<char>>,
) -> Option<BindingStepView> {
    match namespace.metadata.name {
        Some(name) => Some(
            BindingStepView {
                namespace: name,
                ensure: !excluded.contains(name) && action_mode_on(namespace) && is_selected(policies, namespace),
            },
        ),
        None => None,
    }
}

/// What is to be done about the role bindings, namespace by namespace.
pub open spec fn binding_steps(
    namespaces: Seq<NamespaceView>,
    policies: Seq<SentinellaHubActionPolicyView>,
    excluded: Seq<Seq<char>>,
) -> Seq<BindingStepView> {
    namespaces.filter_map(|n: NamespaceView| binding_step(n, policies, excluded))
}

/// What is to be done about the role bindings, namespace by namespace.
pub fn plan_action_role_bindings(
    namespaces: &Vec<Namespace>,
    policies: &Vec<SentinellaHubActionPolicy>,
    excluded: &Vec<String>,
) -> (r: Vec<BindingStep>)
    ensures
        r.deep_view() == binding_steps(namespaces.deep_view(), policies.deep_view(), excluded.deep_view()),
{
    let f = |n: &Namespace| -> (s: Option<BindingStep>)
        ensures
            s.deep_view() == binding_step(n.deep_view(), policies.deep_view(), excluded.deep_view()),
        {
            match &n.metadata.name {
                Some(name) => {
                    let ensure = !namespace_is_excluded(name.as_str(), excluded) && namespace_action_mode_enabled(n)
                        && namespace_is_selected(policies, n);
                    Some(BindingStep { namespace: name.clone(), ensure })
                },
                None => None,
            }
        };
    filter_map_items(
        namespaces,
        f,
        Ghost(|n: NamespaceView| binding_step(n, policies.deep_view(), excluded.deep_view())),
    )
}

/// How the reconciliation went, by the errors of its steps.
pub open spec fn outcome_of(errors: Seq<Seq<char>>) -> BindingReconcileOutcomeView {
    BindingReconcileOutcomeView {
        permission_granted: errors.len() == 0,
        reconciliation_error: if errors.len() == 0 {
            None
        } else {
            Some(text::joined(errors, "; "@))
        },
    }
}

/// How the reconciliation went, by the errors of its steps.
pub fn binding_outcome(errors: &Vec<String>) -> (r: BindingReconcileOutcome)
    ensures
        r.deep_view() == outcome_of(errors.deep_view()),
{
    BindingReconcileOutcome {
        permission_granted: errors.len() == 0,
        reconciliation_error: if errors.len() == 0 {
            None
        } else {
            Some(join(errors, "; "))
        },
    }
}

/// The role binding of an open namespace.
pub open spec fn role_binding(namespace: Seq<char>) -> JsonView {
    JsonView::Object(
        seq![
            ("apiVersion"@, JsonView::Text("rbac.authorization.k8s.io/v1"@)),
            ("kind"@, JsonView::Text("RoleBinding"@)),
            (
                "metadata"@,
                JsonView::Object(
                    seq![
                        ("name"@, JsonView::Text(ACTION_ROLE_BINDING_NAME@)),
                        ("namespace"@, JsonView::Text(namespace)),
                        (
                            "labels"@,
                            JsonView::Object(
                                seq![
                                    ("app.kubernetes.io/part-of"@, JsonView::Text("sentinella"@)),
                                    ("sentinella.io/managed-by"@, JsonView::Text("sentinella-hub-k8s-agent"@)),
                                    (
                                        ACTION_MODE_NAMESPACE_LABEL@,
                                        JsonView::Text(ACTION_MODE_NAMESPACE_LABEL_ENABLED@),
                                    ),
                                ],
                            ),
                        ),
                        (
                            "annotations"@,
                            JsonView::Object(
                                seq![("sentinella.io/policy-scope"@, JsonView::Text("cluster-scoped"@))],
                            ),
                        ),
                    ],
                ),
            ),
            (
                "roleRef"@,
                JsonView::Object(
                    seq![
                        ("apiGroup"@, JsonView::Text("rbac.authorization.k8s.io"@)),
                        ("kind"@, JsonView::Text("ClusterRole"@)),
                        ("name"@, JsonView::Text(ACTION_CLUSTER_ROLE_NAME@)),
                    ],
                ),
            ),
            (
                "subjects"@,
                JsonView::Array(
                    seq![
                        JsonView::Object(
                            seq![
                                ("kind"@, JsonView::Text("ServiceAccount"@)),
                                ("name"@, JsonView::Text(ACTION_SERVICE_ACCOUNT_NAME@)),
                                ("namespace"@, JsonView::Text(ACTION_SERVICE_ACCOUNT_NAMESPACE@)),
                            ],
                        ),
                    ],
                ),
            ),
        ],
    )
}

/// The role binding of an open namespace.
pub fn desired_action_role_binding(namespace: &str) -> (r: Json)
    ensures
        r.node() == role_binding(namespace@),
{
    let ghost want = role_binding(namespace@)->Object_0;
    let labels = ObjectBuilder::new().with("app.kubernetes.io/part-of", json_text("sentinella")).with(
        "sentinella.io/managed-by",
        json_text("sentinella-hub-k8s-agent"),
    ).with(ACTION_MODE_NAMESPACE_LABEL, json_text(ACTION_MODE_NAMESPACE_LABEL_ENABLED));
    let ghost metadata_want = want[2].1->Object_0;
    assert(labels.members() =~= metadata_want[2].1->Object_0);
    let annotations = ObjectBuilder::new().with("sentinella.io/policy-scope", json_text("cluster-scoped"));
    assert(annotations.members() =~= metadata_want[3].1->Object_0);
    let metadata = ObjectBuilder::new().with("name", json_text(ACTION_ROLE_BINDING_NAME)).with(
        "namespace",
        json_text(namespace),
    ).with("labels", labels.build()).with("annotations", annotations.build());
    assert(metadata.members() =~= metadata_want);
    let role_ref = ObjectBuilder::new().with("apiGroup", json_text("rbac.authorization.k8s.io")).with(
        "kind",
        json_text("ClusterRole"),
    ).with("name", json_text(ACTION_CLUSTER_ROLE_NAME));
    assert(role_ref.members() =~= want[3].1->Object_0);
    let subject = ObjectBuilder::new().with("kind", json_text("ServiceAccount")).with(
        "name",
        json_text(ACTION_SERVICE_ACCOUNT_NAME),
    ).with("namespace", json_text(ACTION_SERVICE_ACCOUNT_NAMESPACE));
    assert(subject.members() =~= want[4].1->Array_0[0]->Object_0);
    let all = ObjectBuilder::new().with("apiVersion", json_text("rbac.authorization.k8s.io/v1")).with(
        "kind",
        json_text("RoleBinding"),
    ).with("metadata", metadata.build()).with("roleRef", role_ref.build()).with(
        "subjects",
        json_one_item(subject.build()),
    );
    assert(all.members() =~= want);
    all.build()
}

// ------------------------------------------------------------------- policy status

/// A condition of a policy.
pub open spec fn condition(
    type_: Seq<char>,
    is_true: bool,
    reason: Option<Seq<char>>,
    message: Option<Seq<char>>,
    observed_generation: Option<i64>,
    now_ms: u128,
) -> SentinellaHubActionPolicyConditionView {
    SentinellaHubActionPolicyConditionView {
        type_,
        status: if is_true {
            "True"@
        } else {
            "False"@
        },
        reason,
        message,
        observed_generation,
        last_transition_time_ms: Some(now_ms),
    }
}

/// A condition of a policy.
pub fn policy_condition(
    type_: &str,
    is_true: bool,
    reason: Option<&str>,
    message: Option<String>,
    observed_generation: Option<i64>,
    now_ms: u128,
) -> (r: SentinellaHubActionPolicyCondition)
    ensures
        r.deep_view() == condition(
            type_@,
            is_true,
            reason.deep_view(),
            message.deep_view(),
            observed_generation,
            now_ms,
        ),
{
    let status = if is_true {
        owned("True")
    } else {
        owned("False")
    };
    let reason_text = match reason {
        Some(text) => Some(owned(text)),
        None => None,
    };
    assert(observed_generation.deep_view() == observed_generation);
    SentinellaHubActionPolicyCondition {
        type_: owned(type_),
        status,
        reason: reason_text,
        message,
        observed_generation,
        last_transition_time_ms: Some(now_ms),
    }
}

/// A condition with one wording for when it holds and one for when it does not.
pub open spec fn gate_condition(
    type_: Seq<char>,
    holds: bool,
    if_true: (Seq<char>, Seq<char>),
    if_false: (Seq<char>, Seq<char>),
    generation: Option<i64>,
    now_ms: u128,
) -> SentinellaHubActionPolicyConditionView {
    let wording = if holds {
        if_true
    } else {
        if_false
    };
    condition(type_, holds, Some(wording.0), Some(wording.1), generation, now_ms)
}

fn gate(
    type_: &str,
    holds: bool,
    true_reason: &str,
    true_message: &str,
    false_reason: &str,
    false_message: &str,
    generation: Option<i64>,
    now_ms: u128,
) -> (r: SentinellaHubActionPolicyCondition)
    ensures
        r.deep_view() == gate_condition(
            type_@,
            holds,
            (true_reason@, true_message@),
            (false_reason@, false_message@),
            generation,
            now_ms,
        ),
{
    if holds {
        policy_condition(type_, true, Some(true_reason), Some(owned(true_message)), generation, now_ms)
    } else {
        policy_condition(type_, false, Some(false_reason), Some(owned(false_message)), generation, now_ms)
    }
}

/// The conditions of a policy, in the order in which they are shown.
pub open spec fn policy_conditions(
    policy: SentinellaHubActionPolicyView,
    policy_matched: bool,
    namespaces_eligible: bool,
    permission_granted: bool,
    action_allowed: bool,
    resource_allowed: bool,
    limits_satisfied: bool,
    reconciliation_error: Option<Seq<char>>,
    stale: bool,
    ready: bool,
    now_ms: u128,
) -> Seq<SentinellaHubActionPolicyConditionView> {
    let generation = policy.metadata.generation;
    seq![
        gate_condition(
            "NamespacesEligible"@,
            namespaces_eligible,
            (
                "eligible_namespaces_found"@,
                "At least one namespace is eligible after applying the operator exclude list"@,
            ),
            ("all_namespaces_excluded"@, "All namespaces are excluded from action-mode reconciliation"@),
            generation,
            now_ms,
        ),
        condition(
            "PolicyMatched"@,
            policy_matched,
            Some("global_exclude_list_active"@),
            Some("Policy is evaluated under the global namespace exclude-list model"@),
            generation,
            now_ms,
        ),
        gate_condition(
            "PermissionGranted"@,
            permission_granted,
            ("rolebinding_reconciled"@, "Managed RoleBindings were reconciled successfully"@),
            ("rolebinding_reconcile_failed"@, "Managed RoleBindings are not fully reconciled"@),
            generation,
            now_ms,
        ),
        gate_condition(
            "ActionAllowed"@,
            action_allowed,
            ("action_allowed"@, "At least one declared action is supported"@),
            ("action_not_allowed"@, "No supported actions are declared"@),
            generation,
            now_ms,
        ),
        gate_condition(
            "ResourceAllowed"@,
            resource_allowed,
            ("resource_allowed"@, "Declared resources are compatible with declared actions"@),
            ("resource_not_allowed"@, "Declared resources do not permit the declared actions"@),
            generation,
            now_ms,
        ),
        gate_condition(
            "LimitsSatisfied"@,
            limits_satisfied,
            ("limits_satisfied"@, "Declared limits are valid"@),
            ("limits_exceeded"@, "Declared limits are invalid"@),
            generation,
            now_ms,
        ),
        condition(
            "ReconciliationError"@,
            reconciliation_error is Some,
            Some(
                if reconciliation_error is Some {
                    "reconcile_error"@
                } else {
                    "reconcile_ok"@
                },
            ),
            match reconciliation_error {
                Some(message) => Some("Reconciliation error: "@ + message),
                None => None,
            },
            generation,
            now_ms,
        ),
        gate_condition(
            "Stale"@,
            stale,
            ("status_stale"@, "Policy status is stale"@),
            ("status_fresh"@, "Policy status is fresh"@),
            generation,
            now_ms,
        ),
        gate_condition(
            "Ready"@,
            ready,
            ("ready"@, "Policy is Ready for global agent action checks"@),
            ("not_ready"@, "Policy is not Ready for global agent action checks"@),
            generation,
            now_ms,
        ),
    ]
}

/// The conditions of a policy, in the order in which they are shown.
pub fn build_policy_conditions(
    policy: &SentinellaHubActionPolicy,
    policy_matched: bool,
    namespaces_eligible: bool,
    permission_granted: bool,
    action_allowed: bool,
    resource_allowed: bool,
    limits_satisfied: bool,
    reconciliation_error: Option<&str>,
    stale: bool,
    ready: bool,
    now_ms: u128,
) -> (r: Vec<SentinellaHubActionPolicyCondition>)
    ensures
        r.deep_view() == policy_conditions(
            policy.deep_view(),
            policy_matched,
            namespaces_eligible,
            permission_granted,
            action_allowed,
            resource_allowed,
            limits_satisfied,
            reconciliation_error.deep_view(),
            stale,
            ready,
            now_ms,
        ),
{
    let generation = policy.metadata.generation;
    assert(generation.deep_view() == generation);
    let mut r: Vec<SentinellaHubActionPolicyCondition> = Vec::new();
    r.push(
        gate(
            "NamespacesEligible",
            namespaces_eligible,
            "eligible_namespaces_found",
            "At least one namespace is eligible after applying the operator exclude list",
            "all_namespaces_excluded",
            "All namespaces are excluded from action-mode reconciliation",
            generation,
            now_ms,
        ),
    );
    r.push(
        policy_condition(
            "PolicyMatched",
            policy_matched,
            Some("global_exclude_list_active"),
            Some(owned("Policy is evaluated under the global namespace exclude-list model")),
            generation,
            now_ms,
        ),
    );
    r.push(
        gate(
            "PermissionGranted",
            permission_granted,
            "rolebinding_reconciled",
            "Managed RoleBindings were reconciled successfully",
            "rolebinding_reconcile_failed",
            "Managed RoleBindings are not fully reconciled",
            generation,
            now_ms,
        ),
    );
    r.push(
        gate(
            "ActionAllowed",
            action_allowed,
            "action_allowed",
            "At least one declared action is supported",
            "action_not_allowed",
            "No supported actions are declared",
            generation,
            now_ms,
        ),
    );
    r.push(
        gate(
            "ResourceAllowed",
            resource_allowed,
            "resource_allowed",
            "Declared resources are compatible with declared actions",
            "resource_not_allowed",
            "Declared resources do not permit the declared actions",
            generation,
            now_ms,
        ),
    );
    r.push(
        gate(
            "LimitsSatisfied",
            limits_satisfied,
            "limits_satisfied",
            "Declared limits are valid",
            "limits_exceeded",
            "Declared limits are invalid",
            generation,
            now_ms,
        ),
    );
    let error_reason = if reconciliation_error.is_some() {
        "reconcile_error"
    } else {
        "reconcile_ok"
    };
    let error_message = match reconciliation_error {
        Some(message) => Some(text2("Reconciliation error: ", message)),
        None => None,
    };
    r.push(
        policy_condition(
            "ReconciliationError",
            reconciliation_error.is_some(),
            Some(error_reason),
            error_message,
            generation,
            now_ms,
        ),
    );
    r.push(
        gate(
            "Stale",
            stale,
            "status_stale",
            "Policy status is stale",
            "status_fresh",
            "Policy status is fresh",
            generation,
            now_ms,
        ),
    );
    r.push(
        gate(
            "Ready",
            ready,
            "ready",
            "Policy is Ready for global agent action checks",
            "not_ready",
            "Policy is not Ready for global agent action checks",
            generation,
            now_ms,
        ),
    );
    let ghost want = policy_conditions(
        policy.deep_view(),
        policy_matched,
        namespaces_eligible,
        permission_granted,
        action_allowed,
        resource_allowed,
        limits_satisfied,
        reconciliation_error.deep_view(),
        stale,
        ready,
        now_ms,
    );
    assert(r.deep_view().len() == want.len());
    assert forall|i: int| 0 <= i < want.len() implies r.deep_view()[i] == want[i] by {
        assert(i == 0 || i == 1 || i == 2 || i == 3 || i == 4 || i == 5 || i == 6 || i == 7 || i == 8);
    }
    assert(r.deep_view() =~= want);
    r
}

/// The kinds of workload that a policy declares are compatible with its actions.
pub open spec fn resources_compatible(spec: SentinellaHubActionPolicySpecView) -> bool {
    spec.allowed_actions.any(|a: Seq<char>| policy::workload_actions().contains(a)) ==> policy::all_known(
        spec.allowed_resources,
        policy::supported_resources(),
    )
}

/// When the status of a policy was last set.
pub open spec fn last_reconciled(policy: SentinellaHubActionPolicyView) -> Option<u128> {
    match policy.status {
        Some(status) => status.last_reconciled_at_ms,
        None => None,
    }
}

/// A policy is ready: a namespace is open, the bindings are in place, actions, kinds and limits
/// are in order, the last status is fresh, and nothing went wrong.
pub open spec fn policy_ready(
    policy: SentinellaHubActionPolicyView,
    effective: Seq<Seq<char>>,
    outcome: BindingReconcileOutcomeView,
    now_ms: u128,
    stale_after_ms: u128,
) -> bool {
    &&& effective.len() > 0
    &&& outcome.permission_granted
    &&& policy::all_known(policy.spec.allowed_actions, policy::supported_actions())
    &&& resources_compatible(policy.spec)
    &&& policy::limits_valid(policy.spec.limits)
    &&& !policy::is_stale(last_reconciled(policy), now_ms, stale_after_ms)
    &&& outcome.reconciliation_error is None
}

/// What is said of a policy after a reconciliation.
pub open spec fn policy_status(
    policy: SentinellaHubActionPolicyView,
    namespaces: Seq<NamespaceView>,
    excluded: Seq<Seq<char>>,
    outcome: BindingReconcileOutcomeView,
    now_ms: u128,
    stale_after_ms: u128,
) -> SentinellaHubActionPolicyStatusView {
    let effective = effective_names(namespaces, excluded);
    let stale = policy::is_stale(last_reconciled(policy), now_ms, stale_after_ms);
    SentinellaHubActionPolicyStatusView {
        effective_namespaces: effective,
        conditions: policy_conditions(
            policy,
            true,
            effective.len() > 0,
            outcome.permission_granted,
            policy::all_known(policy.spec.allowed_actions, policy::supported_actions()),
            resources_compatible(policy.spec),
            policy::limits_valid(policy.spec.limits),
            outcome.reconciliation_error,
            stale,
            policy_ready(policy, effective, outcome, now_ms, stale_after_ms),
            now_ms,
        ),
        observed_generation: policy.metadata.generation,
        last_reconciled_at_ms: Some(now_ms),
        stale,
    }
}

fn resources_are_compatible(spec: &SentinellaHubActionPolicySpec) -> (r: bool)
    ensures
        r == resources_compatible(spec.deep_view()),
{
    let test = |a: &String| -> (b: bool)
        ensures
            b == policy::workload_actions().contains(a.deep_view()),
        { policy_action_targets_workload(a.as_str()) };
    if any_item(&spec.allowed_actions, test, Ghost(|a: Seq<char>| policy::workload_actions().contains(a))) {
        resources_declared(&spec.allowed_resources)
    } else {
        true
    }
}

/// What is said of a policy after a reconciliation.
pub fn build_policy_status(
    policy: &SentinellaHubActionPolicy,
    namespaces: &Vec<Namespace>,
    excluded: &Vec<String>,
    outcome: &BindingReconcileOutcome,
    now_ms: u128,
    stale_after_ms: u128,
) -> (r: SentinellaHubActionPolicyStatus)
    ensures
        r.deep_view() == policy_status(
            policy.deep_view(),
            namespaces.deep_view(),
            excluded.deep_view(),
            outcome.deep_view(),
            now_ms,
            stale_after_ms,
        ),
{
    let effective = effective_namespaces(namespaces, excluded);
    let namespaces_eligible = effective.len() > 0;
    let action_allowed = actions_declared(&policy.spec.allowed_actions);
    let resource_allowed = resources_are_compatible(&policy.spec);
    let limits_satisfied = policy_limits_are_valid(&policy.spec.limits);
    let last = match &policy.status {
        Some(status) => status.last_reconciled_at_ms,
        None => None,
    };
    assert(last == last_reconciled(policy.deep_view()));
    let stale = policy_status_is_stale(last, now_ms, stale_after_ms);
    let ready = namespaces_eligible && outcome.permission_granted && action_allowed && resource_allowed
        && limits_satisfied && !stale && outcome.reconciliation_error.is_none();
    let error = match &outcome.reconciliation_error {
        Some(message) => Some(message.as_str()),
        None => None,
    };
    let conditions = build_policy_conditions(
        policy,
        true,
        namespaces_eligible,
        outcome.permission_granted,
        action_allowed,
        resource_allowed,
        limits_satisfied,
        error,
        stale,
        ready,
        now_ms,
    );
    SentinellaHubActionPolicyStatus {
        effective_namespaces: effective,
        conditions,
        observed_generation: policy.metadata.generation,
        last_reconciled_at_ms: Some(now_ms),
        stale,
    }
}

/// The new status of each policy that has a name.
pub open spec fn policy_patches(
    policies: Seq<SentinellaHubActionPolicyView>,
    namespaces: Seq<NamespaceView>,
    excluded: Seq<Seq<char>>,
    outcome: BindingReconcileOutcomeView,
    now_ms: u128,
    stale_after_ms: u128,
) -> Seq<PolicyStatusPatchView> {
    policies.filter_map(
        |p: SentinellaHubActionPolicyView|
            match p.metadata.name {
                Some(name) => Some(
                    PolicyStatusPatchView {
                        name,
                        status: policy_status(p, namespaces, excluded, outcome, now_ms, stale_after_ms),
                    },
                ),
                None => None,
            },
    )
}

/// The new status of each policy that has a name.
pub fn reconcile_action_policies(
    policies: &Vec<SentinellaHubActionPolicy>,
    namespaces: &Vec<Namespace>,
    excluded: &Vec<String>,
    outcome: &BindingReconcileOutcome,
    now_ms: u128,
    stale_after_ms: u128,
) -> (r: Vec<PolicyStatusPatch>)
    ensures
        r.deep_view() == policy_patches(
            policies.deep_view(),
            namespaces.deep_view(),
            excluded.deep_view(),
            outcome.deep_view(),
            now_ms,
            stale_after_ms,
        ),
{
    let ghost image = |p: SentinellaHubActionPolicyView|
        match p.metadata.name {
            Some(name) => Some(
                PolicyStatusPatchView {
                    name,
                    status: policy_status(
                        p,
                        namespaces.deep_view(),
                        excluded.deep_view(),
                        outcome.deep_view(),
                        now_ms,
                        stale_after_ms,
                    ),
                },
            ),
            None => None,
        };
    let f = |p: &SentinellaHubActionPolicy| -> (x: Option<PolicyStatusPatch>)
        ensures
            x.deep_view() == (match p.deep_view().metadata.name {
                Some(name) => Some(
                    PolicyStatusPatchView {
                        name,
                        status: policy_status(
                            p.deep_view(),
                            namespaces.deep_view(),
                            excluded.deep_view(),
                            outcome.deep_view(),
                            now_ms,
                            stale_after_ms,
                        ),
                    },
                ),
                None => None,
            }),
        {
            match &p.metadata.name {
                Some(name) => Some(
                    PolicyStatusPatch {
                        name: name.clone(),
                        status: build_policy_status(p, namespaces, excluded, outcome, now_ms, stale_after_ms),
                    },
                ),
                None => None,
            }
        };
    filter_map_items(policies, f, Ghost(image))
}

// ------------------------------------------------------------------- laws

/// A role binding is asked for only where the namespace is labelled, not excluded, and selected by
/// one of the policies; every namespace with a name gets a step.
pub proof fn lemma_bindings_need_a_policy(
    namespaces: Seq<NamespaceView>,
    policies: Seq<SentinellaHubActionPolicyView>,
    excluded: Seq<Seq<char>>,
    step: BindingStepView,
)
    ensures
        binding_steps(namespaces, policies, excluded).contains(step) && step.ensure ==> exists|i: int, j: int|
            0 <= i < namespaces.len() && 0 <= j < policies.len() && (#[trigger] namespaces[i]).metadata.name == Some(
                step.namespace,
            ) && action_mode_on(namespaces[i]) && !excluded.contains(step.namespace) && selects_namespace(
                #[trigger] policies[j],
                namespaces[i],
            ),
        policies.len() == 0 && binding_steps(namespaces, policies, excluded).contains(step) ==> !step.ensure,
{
    let f = |n: NamespaceView| binding_step(n, policies, excluded);
    if binding_steps(namespaces, policies, excluded).contains(step) && step.ensure {
        namespaces.lemma_filter_map_contains(f, step);
        let i = choose|i: int| 0 <= i < namespaces.len() && f(namespaces[i]) == Some(step);
        let selects = |p: SentinellaHubActionPolicyView| selects_namespace(p, namespaces[i]);
        assert(policies.any(selects));
        let j = choose|j: int| 0 <= j < policies.len() && selects(policies[j]);
        assert(selects_namespace(policies[j], namespaces[i]));
    }
}


/// The executor finds a policy ready exactly where the operator's gates all hold.
pub proof fn lemma_ready_condition_agrees(
    policy: SentinellaHubActionPolicyView,
    namespaces: Seq<NamespaceView>,
    excluded: Seq<Seq<char>>,
    outcome: BindingReconcileOutcomeView,
    now_ms: u128,
    stale_after_ms: u128,
)
    ensures
        ({
            let status = policy_status(policy, namespaces, excluded, outcome, now_ms, stale_after_ms);
            policy::condition_holds(status.conditions, "Ready"@) <==> policy_ready(
                policy,
                effective_names(namespaces, excluded),
                outcome,
                now_ms,
                stale_after_ms,
            )
        }),
{
    let status = policy_status(policy, namespaces, excluded, outcome, now_ms, stale_after_ms);
    let c = status.conditions;
    reveal_strlit("Ready");
    reveal_strlit("True");
    reveal_strlit("False");
    reveal_strlit("true");
    reveal_strlit("NamespacesEligible");
    reveal_strlit("PolicyMatched");
    reveal_strlit("PermissionGranted");
    reveal_strlit("ActionAllowed");
    reveal_strlit("ResourceAllowed");
    reveal_strlit("LimitsSatisfied");
    reveal_strlit("ReconciliationError");
    reveal_strlit("Stale");
    assert(text::ascii_lower("True"@) =~= text::ascii_lower("true"@));
    assert(text::ascii_lower("False"@).len() == 5 && text::ascii_lower("true"@).len() == 4);
    assert(c[8].type_ == "Ready"@);
    assert("Stale"@[0] != "Ready"@[0]);
    let holds = |x: SentinellaHubActionPolicyConditionView|
        x.type_ == "Ready"@ && text::ascii_lower(x.status) == text::ascii_lower("true"@);
    if policy_ready(policy, effective_names(namespaces, excluded), outcome, now_ms, stale_after_ms) {
        assert(holds(c[8]));
    } else {
        assert forall|i: int| 0 <= i < c.len() implies !(#[trigger] holds(c[i])) by {
            assert(i == 0 || i == 1 || i == 2 || i == 3 || i == 4 || i == 5 || i == 6 || i == 7 || i == 8);
        }
    }
}

/// Once a policy is reconciled, its status is fresh for as long as it may be, and the system's
/// namespaces are never effective.
pub proof fn lemma_status_fresh_and_safe(
    policy: SentinellaHubActionPolicyView,
    namespaces: Seq<NamespaceView>,
    extra: Seq<Seq<char>>,
    outcome: BindingReconcileOutcomeView,
    now_ms: u128,
    later_ms: u128,
    stale_after_ms: u128,
    i: int,
)
    requires
        now_ms <= later_ms <= now_ms + stale_after_ms,
    ensures
        ({
            let status = policy_status(
                policy,
                namespaces,
                excluded_namespaces(extra),
                outcome,
                now_ms,
                stale_after_ms,
            );
            &&& !policy::is_stale(status.last_reconciled_at_ms, later_ms, stale_after_ms)
            &&& 0 <= i < status.effective_namespaces.len() ==> !excluded_namespaces(extra).contains(
                status.effective_namespaces[i],
            )
        }),
{
    let excluded = excluded_namespaces(extra);
    let f = |n: NamespaceView|
        match n.metadata.name {
            Some(name) => if excluded.contains(name) {
                None
            } else {
                Some(name)
            },
            None => None,
        };
    let names = namespaces.filter_map(f);
    let sorted = order::sorted_texts(names);
    order::lemma_in_order_keeps_items(names, |a: Seq<char>, b: Seq<char>| order::text_le(a, b));
    if 0 <= i < sorted.len() {
        broadcast use vstd::seq_lib::group_to_multiset_ensures;

        assert(sorted.contains(sorted[i]));
        assert(sorted.to_multiset().count(sorted[i]) > 0);
        assert(names.contains(sorted[i]));
        namespaces.lemma_filter_map_contains(f, sorted[i]);
    }
}

// ------------------------------------------------------------- what it is for

/// The namespaces that actions never touch are the system's own and those that are named, without
/// white space around them; and no others.
pub proof fn lemma_excluded_are_those_named(extra: Seq<Seq<char>>, name: Seq<char>)
    ensures
        excluded_namespaces(extra).contains(name) <==> {
            ||| name == "kube-system"@
            ||| name == "kube-public"@
            ||| name == "kube-node-lease"@
            ||| name == "sentinella"@
            ||| name == "tetragon"@
            ||| exists|i: int| 0 <= i < extra.len() && text::trimmed(#[trigger] extra[i]).len() > 0 && text::trimmed(extra[i]) == name
        },
{
    let f = |n: Seq<char>| if text::trimmed(n).len() == 0 { None } else { Some(text::trimmed(n)) };
    let named = extra.filter_map(f);
    let own = system_namespaces();
    let all = own + named;
    order::lemma_distinct_texts(all);
    assert(excluded_namespaces(extra) == order::distinct_texts(all));
    assert(own[0] == "kube-system"@ && own[1] == "kube-public"@ && own[2] == "kube-node-lease"@ && own[3]
        == "sentinella"@ && own[4] == "tetragon"@);
    assert(all.contains(name) <==> own.contains(name) || named.contains(name)) by {
        if own.contains(name) {
            let i = choose|i: int| 0 <= i < own.len() && own[i] == name;
            assert(all[i] == name);
        }
        if named.contains(name) {
            let i = choose|i: int| 0 <= i < named.len() && named[i] == name;
            assert(all[own.len() + i] == name);
        }
        if all.contains(name) {
            let i = choose|i: int| 0 <= i < all.len() && all[i] == name;
            if i < own.len() {
                assert(own[i] == name);
            } else {
                assert(named[i - own.len()] == name);
            }
        }
    }
    if named.contains(name) {
        extra.lemma_filter_map_contains(f, name);
        let n = choose|n: Seq<char>| #[trigger] extra.contains(n) && f(n) == Some(name);
        let i = choose|i: int| 0 <= i < extra.len() && extra[i] == n;
        assert(text::trimmed(extra[i]) == name);
    }
    if exists|i: int| 0 <= i < extra.len() && text::trimmed(#[trigger] extra[i]).len() > 0 && text::trimmed(extra[i]) == name {
        let i = choose|i: int| 0 <= i < extra.len() && text::trimmed(#[trigger] extra[i]).len() > 0 && text::trimmed(extra[i]) == name;
        views::lemma_filter_map_has(extra, f, i);
    }
}

/// The namespaces that a policy is effective in are all those that there are, but for the excluded
/// ones.
pub proof fn lemma_effective_are_those_left(namespaces: Seq<NamespaceView>, excluded: Seq<Seq<char>>, name: Seq<char>)
    ensures
        effective_names(namespaces, excluded).contains(name) <==> !excluded.contains(name) && exists|i: int|
            0 <= i < namespaces.len() && (#[trigger] namespaces[i]).metadata.name == Some(name),
        effective_names(namespaces, excluded).len() > 0 <==> exists|i: int|
            0 <= i < namespaces.len() && (#[trigger] namespaces[i]).metadata.name is Some && !excluded.contains(
                namespaces[i].metadata.name->0,
            ),
{
    let f = |n: NamespaceView|
        match n.metadata.name {
            Some(name) => if excluded.contains(name) {
                None
            } else {
                Some(name)
            },
            None => None,
        };
    let names = namespaces.filter_map(f);
    order::lemma_sorted_has(names, name);
    if names.contains(name) {
        namespaces.lemma_filter_map_contains(f, name);
        let n = choose|n: NamespaceView| #[trigger] namespaces.contains(n) && f(n) == Some(name);
        let i = choose|i: int| 0 <= i < namespaces.len() && namespaces[i] == n;
        assert(namespaces[i].metadata.name == Some(name));
    }
    if !excluded.contains(name) && exists|i: int|
        0 <= i < namespaces.len() && (#[trigger] namespaces[i]).metadata.name == Some(name) {
        let i = choose|i: int| 0 <= i < namespaces.len() && (#[trigger] namespaces[i]).metadata.name == Some(name);
        views::lemma_filter_map_has(namespaces, f, i);
    }
    if names.len() > 0 {
        assert(names.contains(names[0]));
        namespaces.lemma_filter_map_contains(f, names[0]);
        let n = choose|n: NamespaceView| #[trigger] namespaces.contains(n) && f(n) == Some(names[0]);
        let i = choose|i: int| 0 <= i < namespaces.len() && namespaces[i] == n;
        assert(namespaces[i].metadata.name is Some);
    }
    if exists|i: int|
        0 <= i < namespaces.len() && (#[trigger] namespaces[i]).metadata.name is Some && !excluded.contains(
            namespaces[i].metadata.name->0,
        ) {
        let i = choose|i: int|
            0 <= i < namespaces.len() && (#[trigger] namespaces[i]).metadata.name is Some && !excluded.contains(
                namespaces[i].metadata.name->0,
            );
        views::lemma_filter_map_has(namespaces, f, i);
    }
}

/// A namespace gets the role binding exactly where it is not excluded, its label opens it to
/// actions, and the selector of some policy takes its labels.
pub proof fn lemma_binding_where_it_is_due(
    namespace: NamespaceView,
    policies: Seq<SentinellaHubActionPolicyView>,
    excluded: Seq<Seq<char>>,
    name: Seq<char>,
)
    requires
        namespace.metadata.name == Some(name),
    ensures
        binding_step(namespace, policies, excluded) matches Some(step) && step.namespace == name && (step.ensure <==> {
            &&& !excluded.contains(name)
            &&& namespace.metadata.labels matches Some(labels) && pairs::gives_value(
                labels,
                "sentinella.io/action-mode"@,
                "enabled"@,
            ) && exists|i: int|
                0 <= i < policies.len() && objects::selector_matches((#[trigger] policies[i]).spec.namespace_selector, labels)
        }),
{
    let selects = |p: SentinellaHubActionPolicyView| selects_namespace(p, namespace);
    if let Some(labels) = namespace.metadata.labels {
        pairs::lemma_value_is_the_first(labels, "sentinella.io/action-mode"@, "enabled"@);
        if exists|i: int|
            0 <= i < policies.len() && objects::selector_matches((#[trigger] policies[i]).spec.namespace_selector, labels) {
            let i = choose|i: int|
                0 <= i < policies.len() && objects::selector_matches((#[trigger] policies[i]).spec.namespace_selector, labels);
            assert(selects(policies[i]));
        }
        if policies.any(selects) {
            let i = choose|i: int| 0 <= i < policies.len() && selects(policies[i]);
            assert(objects::selector_matches(policies[i].spec.namespace_selector, labels));
        }
    }
}

/// A condition says that it holds exactly where it does.
pub open spec fn says(
    conditions: Seq<SentinellaHubActionPolicyConditionView>,
    type_: Seq<char>,
    holds: bool,
) -> bool {
    exists|i: int|
        0 <= i < conditions.len() && (#[trigger] conditions[i]).type_ == type_ && conditions[i].status == (if holds {
            "True"@
        } else {
            "False"@
        })
}

/// The status of a policy tells each of the gates as it is, and that the policy is ready exactly
/// where all of them hold; it is as of now, and tells the namespaces in which the policy is
/// effective.
pub proof fn lemma_status_tells_the_gates(
    policy: SentinellaHubActionPolicyView,
    namespaces: Seq<NamespaceView>,
    excluded: Seq<Seq<char>>,
    outcome: BindingReconcileOutcomeView,
    now_ms: u128,
    stale_after_ms: u128,
)
    ensures
        ({
            let status = policy_status(policy, namespaces, excluded, outcome, now_ms, stale_after_ms);
            let some = effective_names(namespaces, excluded).len() > 0;
            let actions = policy.spec.allowed_actions.len() > 0 && forall|i: int|
                0 <= i < policy.spec.allowed_actions.len() ==> policy::is_known_action(#[trigger] policy.spec.allowed_actions[i]);
            let resources = (exists|i: int|
                0 <= i < policy.spec.allowed_actions.len() && policy::acts_on_workload(#[trigger] policy.spec.allowed_actions[i]))
                ==> policy.spec.allowed_resources.len() > 0 && forall|i: int|
                0 <= i < policy.spec.allowed_resources.len() ==> policy::is_known_kind(
                    #[trigger] policy.spec.allowed_resources[i],
                );
            let limits = policy.spec.limits matches Some(l) ==> (l.max_cpu_limit matches Some(cpu) ==> quantity::cpu_quantity(
                cpu,
            ) is Some) && (l.max_memory_limit matches Some(memory) ==> quantity::memory_quantity(memory) is Some);
            let fresh = policy.status is Some && policy.status->0.last_reconciled_at_ms is Some && now_ms
                <= policy.status->0.last_reconciled_at_ms->0 + stale_after_ms;
            let error = outcome.reconciliation_error is Some;
            &&& says(status.conditions, "NamespacesEligible"@, some)
            &&& says(status.conditions, "PermissionGranted"@, outcome.permission_granted)
            &&& says(status.conditions, "ActionAllowed"@, actions)
            &&& says(status.conditions, "ResourceAllowed"@, resources)
            &&& says(status.conditions, "LimitsSatisfied"@, limits)
            &&& says(status.conditions, "ReconciliationError"@, error)
            &&& says(status.conditions, "Stale"@, !fresh)
            &&& says(
                status.conditions,
                "Ready"@,
                some && outcome.permission_granted && actions && resources && limits && fresh && !error,
            )
            &&& status.stale == !fresh
            &&& status.last_reconciled_at_ms == Some(now_ms)
            &&& status.observed_generation == policy.metadata.generation
            &&& status.effective_namespaces == effective_names(namespaces, excluded)
        }),
{
    let status = policy_status(policy, namespaces, excluded, outcome, now_ms, stale_after_ms);
    let c = status.conditions;
    policy::lemma_all_known(policy.spec.allowed_actions);
    policy::lemma_all_known(policy.spec.allowed_resources);
    let acts = |a: Seq<char>| policy::workload_actions().contains(a);
    if policy.spec.allowed_actions.any(acts) {
        let i = choose|i: int| 0 <= i < policy.spec.allowed_actions.len() && acts(policy.spec.allowed_actions[i]);
        policy::lemma_known_names(policy.spec.allowed_actions[i]);
        assert(policy::acts_on_workload(policy.spec.allowed_actions[i]));
    }
    if exists|i: int|
        0 <= i < policy.spec.allowed_actions.len() && policy::acts_on_workload(#[trigger] policy.spec.allowed_actions[i]) {
        let i = choose|i: int|
            0 <= i < policy.spec.allowed_actions.len() && policy::acts_on_workload(#[trigger] policy.spec.allowed_actions[i]);
        policy::lemma_known_names(policy.spec.allowed_actions[i]);
        assert(acts(policy.spec.allowed_actions[i]));
    }
    assert(c[0].type_ == "NamespacesEligible"@);
    assert(c[2].type_ == "PermissionGranted"@);
    assert(c[3].type_ == "ActionAllowed"@);
    assert(c[4].type_ == "ResourceAllowed"@);
    assert(c[5].type_ == "LimitsSatisfied"@);
    assert(c[6].type_ == "ReconciliationError"@);
    assert(c[7].type_ == "Stale"@);
    assert(c[8].type_ == "Ready"@);
}

/// Each policy with a name gets its own status; the bindings are granted exactly where none of them
/// failed, and a failure is told with each error.
pub proof fn lemma_each_policy_gets_its_status(
    policies: Seq<SentinellaHubActionPolicyView>,
    namespaces: Seq<NamespaceView>,
    excluded: Seq<Seq<char>>,
    outcome: BindingReconcileOutcomeView,
    errors: Seq<Seq<char>>,
    now_ms: u128,
    stale_after_ms: u128,
    i: int,
)
    requires
        0 <= i < policies.len(),
    ensures
        policies[i].metadata.name matches Some(name) ==> policy_patches(
            policies,
            namespaces,
            excluded,
            outcome,
            now_ms,
            stale_after_ms,
        ).contains(
            PolicyStatusPatchView {
                name,
                status: policy_status(policies[i], namespaces, excluded, outcome, now_ms, stale_after_ms),
            },
        ),
        outcome_of(errors).permission_granted <==> errors.len() == 0,
        outcome_of(errors).reconciliation_error is None <==> errors.len() == 0,
        forall|k: int|
            0 <= k < errors.len() ==> text::contains_text(
                outcome_of(errors).reconciliation_error->0,
                #[trigger] errors[k],
            ),
{
    let f = |p: SentinellaHubActionPolicyView|
        match p.metadata.name {
            Some(name) => Some(
                PolicyStatusPatchView {
                    name,
                    status: policy_status(p, namespaces, excluded, outcome, now_ms, stale_after_ms),
                },
            ),
            None => None,
        };
    if policies[i].metadata.name is Some {
        views::lemma_filter_map_has(policies, f, i);
    }
    assert forall|k: int| 0 <= k < errors.len() implies text::contains_text(
        outcome_of(errors).reconciliation_error->0,
        #[trigger] errors[k],
    ) by {
        text::lemma_joined_holds_each(errors, "; "@, k);
    }
}

/// The role binding of a namespace stands in that namespace and gives the agent's own service
/// account the cluster role for actions.
pub proof fn lemma_binding_is_for_the_agent(namespace: Seq<char>)
    ensures
        role_binding(namespace) matches JsonView::Object(members) && {
            &&& members.contains(("kind"@, JsonView::Text("RoleBinding"@)))
            &&& members.len() == 5
            &&& members[2].0 == "metadata"@ && (members[2].1 matches JsonView::Object(meta) && meta.contains(
                ("namespace"@, JsonView::Text(namespace)),
            ) && meta.contains(("name"@, JsonView::Text("sentinella-hub-k8s-agent-action-mode"@))))
            &&& members[3].0 == "roleRef"@ && (members[3].1 matches JsonView::Object(role) && role.contains(
                ("kind"@, JsonView::Text("ClusterRole"@)),
            ) && role.contains(("name"@, JsonView::Text("sentinella-hub-k8s-agent-action-mode"@))))
            &&& members[4].0 == "subjects"@ && members[4].1 == JsonView::Array(
                seq![
                    JsonView::Object(
                        seq![
                            ("kind"@, JsonView::Text("ServiceAccount"@)),
                            ("name"@, JsonView::Text("sentinella-hub-k8s-agent"@)),
                            ("namespace"@, JsonView::Text("sentinella"@)),
                        ],
                    ),
                ],
            )
        },
{
    let members = role_binding(namespace)->Object_0;
    assert(members[1] == ("kind"@, JsonView::Text("RoleBinding"@)));
    let meta = members[2].1->Object_0;
    assert(meta[0] == ("name"@, JsonView::Text("sentinella-hub-k8s-agent-action-mode"@)));
    assert(meta[1] == ("namespace"@, JsonView::Text(namespace)));
    let role = members[3].1->Object_0;
    assert(role[1] == ("kind"@, JsonView::Text("ClusterRole"@)));
    assert(role[2] == ("name"@, JsonView::Text("sentinella-hub-k8s-agent-action-mode"@)));
}

} // verus!
