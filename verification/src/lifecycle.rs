//! The operator's workload: it is there while the agent's settings ask for it.
use crate::json;
use crate::json::{
    Json, json_object2, json_object3, json_object4, json_object5, json_one, json_one_item, json_text,
    JsonView, ObjectBuilder,
};
use crate::model::KVView;
use crate::objects::{ConfigMap, ConfigMapView, Pod, PodSpecView, PodView};
use crate::order::str_eq;
use crate::pairs;
use crate::pairs::pair_value;
use crate::text;
use crate::text::{owned, trim};
use crate::views;
use crate::views::{DeepClone, opt_str};
use vstd::prelude::*;

verus! {

/// The settings of the agent.
pub const CONFIG_MAP_NAME: &'static str = "sentinella-hub-k8s-agent-config";

/// The workload of the operator.
pub const OPERATOR_NAME: &'static str = "sentinella-hub-k8s-operator";

/// The operator's switch among the settings.
pub const ACTION_OPERATOR_ENABLED_KEY: &'static str = "ACTION_OPERATOR_ENABLED";

/// What is known of the operator's switch.
#[derive(Clone, Debug, PartialEq, Eq)]
pub struct LifecycleState {
    /// What the switch was last seen as.
    pub last_enabled: Option<bool>,
    pub resource_version: String,
}

/// The view of [`LifecycleState`].
pub struct LifecycleStateView {
    pub last_enabled: Option<bool>,
    pub resource_version: Seq<char>,
}

impl DeepView for LifecycleState {
    type V = LifecycleStateView;

    open spec fn deep_view(&self) -> LifecycleStateView {
        LifecycleStateView {
            last_enabled: self.last_enabled.deep_view(),
            resource_version: self.resource_version.deep_view(),
        }
    }
}

impl DeepClone for LifecycleState {
    fn deep_clone(&self) -> (copy: Self) {
        LifecycleState {
            last_enabled: self.last_enabled.deep_clone(),
            resource_version: self.resource_version.deep_clone(),
        }
    }
}

/// What was seen of the agent's settings.
#[derive(Clone, Debug, PartialEq, Eq)]
pub enum LifecycleEvent {
    /// The settings as they are; the version, where it is known.
    Seen(ConfigMap, Option<String>),
    Deleted,
    Bookmark(String),
    /// Nothing more is seen until it is asked for again.
    Broken,
    /// Time has passed.
    Tick,
}

/// The view of [`LifecycleEvent`].
pub enum LifecycleEventView {
    Seen(ConfigMapView, Option<Seq<char>>),
    Deleted,
    Bookmark(Seq<char>),
    Broken,
    Tick,
}

impl DeepView for LifecycleEvent {
    type V = LifecycleEventView;

    open spec fn deep_view(&self) -> LifecycleEventView {
        match self {
            LifecycleEvent::Seen(a, b) => LifecycleEventView::Seen(a.deep_view(), b.deep_view()),
            LifecycleEvent::Deleted => LifecycleEventView::Deleted,
            LifecycleEvent::Bookmark(a) => LifecycleEventView::Bookmark(a.deep_view()),
            LifecycleEvent::Broken => LifecycleEventView::Broken,
            LifecycleEvent::Tick => LifecycleEventView::Tick,
        }
    }
}

impl DeepClone for LifecycleEvent {
    fn deep_clone(&self) -> (copy: Self) {
        match self {
            LifecycleEvent::Seen(a, b) => LifecycleEvent::Seen(a.deep_clone(), b.deep_clone()),
            LifecycleEvent::Deleted => LifecycleEvent::Deleted,
            LifecycleEvent::Bookmark(a) => LifecycleEvent::Bookmark(a.deep_clone()),
            LifecycleEvent::Broken => LifecycleEvent::Broken,
            LifecycleEvent::Tick => LifecycleEvent::Tick,
        }
    }
}

/// What follows from it.
#[derive(Clone, Debug, PartialEq, Eq)]
pub struct LifecycleStep {
    pub state: LifecycleState,
    /// Whether the switch was turned.
    pub changed: bool,
    /// What the operator is to be, where something is to be done about it.
    pub reconcile: Option<bool>,
    /// Whether the settings are to be watched anew.
    pub reconnect: bool,
}

/// The view of [`LifecycleStep`].
pub struct LifecycleStepView {
    pub state: LifecycleStateView,
    pub changed: bool,
    pub reconcile: Option<bool>,
    pub reconnect: bool,
}

impl DeepView for LifecycleStep {
    type V = LifecycleStepView;

    open spec fn deep_view(&self) -> LifecycleStepView {
        LifecycleStepView {
            state: self.state.deep_view(),
            changed: self.changed.deep_view(),
            reconcile: self.reconcile.deep_view(),
            reconnect: self.reconnect.deep_view(),
        }
    }
}

impl DeepClone for LifecycleStep {
    fn deep_clone(&self) -> (copy: Self) {
        LifecycleStep {
            state: self.state.deep_clone(),
            changed: self.changed.deep_clone(),
            reconcile: self.reconcile.deep_clone(),
            reconnect: self.reconnect.deep_clone(),
        }
    }
}

/// Something that is done about the operator.
#[derive(Clone, Copy, Debug, PartialEq, Eq)]
pub enum OperatorStep {
    CreateServiceAccount,
    PatchServiceAccount,
    CreateDeployment,
    PatchDeployment,
    DeleteDeployment,
    DeleteServiceAccount,
}

impl DeepView for OperatorStep {
    type V = OperatorStep;

    open spec fn deep_view(&self) -> OperatorStep {
        *self
    }
}

impl DeepClone for OperatorStep {
    fn deep_clone(&self) -> (copy: Self) {
        *self
    }
}

// ------------------------------------------------------------------- the switch

/// The settings ask for the operator.
pub open spec fn operator_on(settings: ConfigMapView) -> bool {
    settings.data matches Some(data) && (pairs::value_of(data, ACTION_OPERATOR_ENABLED_KEY@) matches Some(value) && (text::trimmed(
        value,
    ) == "true"@ || text::trimmed(value) == "1"@))
}

/// Whether the settings ask for the operator.
pub fn is_operator_enabled(settings: &ConfigMap) -> (r: bool)
    ensures
        r == operator_on(settings.deep_view()),
{
    match &settings.data {
        Some(data) => match pair_value(data, ACTION_OPERATOR_ENABLED_KEY) {
            Some(value) => {
                let value = trim(value);
                str_eq(value, "true") || str_eq(value, "1")
            },
            None => false,
        },
        None => false,
    }
}

impl LifecycleState {
    /// Nothing was seen.
    pub fn new() -> (r: Self)
        ensures
            r.deep_view() == (LifecycleStateView { last_enabled: None, resource_version: "0"@ }),
    {
        LifecycleState { last_enabled: None, resource_version: owned("0") }
    }
}

/// What follows from what was seen. Only the leader does something about the operator; settings that
/// are gone ask for none.
pub open spec fn lifecycle_next(state: LifecycleStateView, event: LifecycleEventView, leader: bool) -> LifecycleStepView {
    match event {
        LifecycleEventView::Seen(settings, version) => {
            let enabled = operator_on(settings);
            LifecycleStepView {
                state: LifecycleStateView {
                    last_enabled: Some(enabled),
                    resource_version: views::text_or(version, state.resource_version),
                },
                changed: state.last_enabled != Some(enabled),
                reconcile: if leader {
                    Some(enabled)
                } else {
                    None
                },
                reconnect: false,
            }
        },
        LifecycleEventView::Deleted => LifecycleStepView {
            state: LifecycleStateView { last_enabled: Some(false), ..state },
            changed: false,
            reconcile: if leader {
                Some(false)
            } else {
                None
            },
            reconnect: false,
        },
        LifecycleEventView::Bookmark(version) => LifecycleStepView {
            state: LifecycleStateView { resource_version: version, ..state },
            changed: false,
            reconcile: None,
            reconnect: false,
        },
        LifecycleEventView::Broken => LifecycleStepView { state, changed: false, reconcile: None, reconnect: true },
        LifecycleEventView::Tick => LifecycleStepView {
            state,
            changed: false,
            reconcile: if leader {
                state.last_enabled
            } else {
                None
            },
            reconnect: false,
        },
    }
}

/// What follows from what was seen.
pub fn lifecycle_step(state: LifecycleState, event: &LifecycleEvent, leader: bool) -> (r: LifecycleStep)
    ensures
        r.deep_view() == lifecycle_next(state.deep_view(), event.deep_view(), leader),
{
    match event {
        LifecycleEvent::Seen(settings, version) => {
            let enabled = is_operator_enabled(settings);
            let changed = match state.last_enabled {
                Some(last) => last != enabled,
                None => true,
            };
            LifecycleStep {
                state: LifecycleState {
                    last_enabled: Some(enabled),
                    resource_version: owned(opt_str(version, state.resource_version.as_str())),
                },
                changed,
                reconcile: if leader {
                    Some(enabled)
                } else {
                    None
                },
                reconnect: false,
            }
        },
        LifecycleEvent::Deleted => LifecycleStep {
            state: LifecycleState { last_enabled: Some(false), ..state },
            changed: false,
            reconcile: if leader {
                Some(false)
            } else {
                None
            },
            reconnect: false,
        },
        LifecycleEvent::Bookmark(version) => LifecycleStep {
            state: LifecycleState { resource_version: version.deep_clone(), ..state },
            changed: false,
            reconcile: None,
            reconnect: false,
        },
        LifecycleEvent::Broken => LifecycleStep { state, changed: false, reconcile: None, reconnect: true },
        LifecycleEvent::Tick => {
            let reconcile = if leader {
                state.last_enabled
            } else {
                None
            };
            LifecycleStep { state, changed: false, reconcile, reconnect: false }
        },
    }
}

/// What is done about the operator: made or brought up to date, the account before the workload, or
/// taken away, the workload before the account.
pub open spec fn operator_steps(enabled: bool, account_exists: bool, deployment_exists: bool) -> Seq<OperatorStep> {
    if enabled {
        seq![
            if account_exists {
                OperatorStep::PatchServiceAccount
            } else {
                OperatorStep::CreateServiceAccount
            },
            if deployment_exists {
                OperatorStep::PatchDeployment
            } else {
                OperatorStep::CreateDeployment
            },
        ]
    } else {
        (if deployment_exists {
            seq![OperatorStep::DeleteDeployment]
        } else {
            seq![]
        }) + (if account_exists {
            seq![OperatorStep::DeleteServiceAccount]
        } else {
            seq![]
        })
    }
}

/// What is done about the operator, given what is there of it.
pub fn reconcile_operator_workload(enabled: bool, account_exists: bool, deployment_exists: bool) -> (r: Vec<OperatorStep>)
    ensures
        r@ == operator_steps(enabled, account_exists, deployment_exists),
{
    let mut steps: Vec<OperatorStep> = Vec::new();
    if enabled {
        steps.push(
            if account_exists {
                OperatorStep::PatchServiceAccount
            } else {
                OperatorStep::CreateServiceAccount
            },
        );
        steps.push(
            if deployment_exists {
                OperatorStep::PatchDeployment
            } else {
                OperatorStep::CreateDeployment
            },
        );
    } else {
        if deployment_exists {
            steps.push(OperatorStep::DeleteDeployment);
        }
        if account_exists {
            steps.push(OperatorStep::DeleteServiceAccount);
        }
    }
    assert(steps@ =~= operator_steps(enabled, account_exists, deployment_exists));
    steps
}

/// An agent that does not lead does nothing about the operator, and the leader does what was last
/// seen to be asked for.
pub proof fn lemma_only_the_leader_acts(state: LifecycleStateView, event: LifecycleEventView, leader: bool)
    ensures
        ({
            let step = lifecycle_next(state, event, leader);
            &&& step.reconcile is Some ==> leader && step.reconcile == step.state.last_enabled
            &&& leader && (event is Seen || event is Deleted) ==> step.reconcile is Some
        }),
{
}

/// The image that the operator runs: that of the agent itself.
pub open spec fn operator_image(pod: PodView) -> Option<Seq<char>> {
    match pod.spec {
        Some(spec) => if spec.containers.len() > 0 {
            spec.containers[0].image
        } else {
            None
        },
        None => None,
    }
}

/// The image that the operator runs: that of the agent itself.
pub fn resolve_operator_image(pod: &Pod) -> (r: Result<String, String>)
    ensures
        match r {
            Ok(image) => operator_image(pod.deep_view()) == Some(image@),
            Err(message) => operator_image(pod.deep_view()) is None && message@ == "agent pod has no container image"@,
        },
{
    match &pod.spec {
        Some(spec) => if spec.containers.len() > 0 {
            assert(pod.deep_view().spec->0.containers[0] == spec.containers@[0].deep_view());
            match &spec.containers[0].image {
                Some(image) => Ok(owned(image.as_str())),
                None => Err(owned("agent pod has no container image")),
            }
        } else {
            Err(owned("agent pod has no container image"))
        },
        None => Err(owned("agent pod has no container image")),
    }
}

// ------------------------------------------------------------------- what is made

/// The labels of what belongs to the operator.
pub open spec fn operator_labels() -> JsonView {
    JsonView::Object(
        seq![
            ("app.kubernetes.io/name"@, JsonView::Text(OPERATOR_NAME@)),
            ("app.kubernetes.io/part-of"@, JsonView::Text("sentinella"@)),
            ("sentinella.io/managed-by"@, JsonView::Text("sentinella-hub-k8s-agent"@)),
        ],
    )
}

/// The metadata of what belongs to the operator.
pub open spec fn operator_metadata(namespace: Seq<char>) -> JsonView {
    JsonView::Object(
        seq![
            ("name"@, JsonView::Text(OPERATOR_NAME@)),
            ("namespace"@, JsonView::Text(namespace)),
            ("labels"@, operator_labels()),
        ],
    )
}

fn build_metadata(namespace: &str) -> (r: Json)
    ensures
        r.node() == operator_metadata(namespace@),
{
    let labels = json_object3(
        "app.kubernetes.io/name",
        json_text(OPERATOR_NAME),
        "app.kubernetes.io/part-of",
        json_text("sentinella"),
        "sentinella.io/managed-by",
        json_text("sentinella-hub-k8s-agent"),
    );
    json_object3("name", json_text(OPERATOR_NAME), "namespace", json_text(namespace), "labels", labels)
}

/// The account of the operator.
pub open spec fn operator_account(namespace: Seq<char>) -> JsonView {
    JsonView::Object(
        seq![
            ("apiVersion"@, JsonView::Text("v1"@)),
            ("kind"@, JsonView::Text("ServiceAccount"@)),
            ("metadata"@, operator_metadata(namespace)),
        ],
    )
}

/// The account of the operator.
pub fn desired_operator_service_account(namespace: &str) -> (r: Json)
    ensures
        r.node() == operator_account(namespace@),
{
    json_object3(
        "apiVersion",
        json_text("v1"),
        "kind",
        json_text("ServiceAccount"),
        "metadata",
        build_metadata(namespace),
    )
}

/// A variable that is taken from the pod itself.
pub open spec fn pod_field(name: Seq<char>, path: Seq<char>) -> JsonView {
    JsonView::Object(
        seq![
            ("name"@, JsonView::Text(name)),
            ("valueFrom"@, json::one_member("fieldRef"@, json::one_member("fieldPath"@, JsonView::Text(path)))),
        ],
    )
}

fn build_pod_field(name: &str, path: &str) -> (r: Json)
    ensures
        r.node() == pod_field(name@, path@),
{
    json_object2(
        "name",
        json_text(name),
        "valueFrom",
        json_one("fieldRef", json_one("fieldPath", json_text(path))),
    )
}

/// What is asked to tell how the operator is.
pub open spec fn probe_target(path: Seq<char>) -> JsonView {
    JsonView::Object(seq![("path"@, JsonView::Text(path)), ("port"@, JsonView::Text("metrics"@))])
}

/// How the operator is told to be alive.
pub open spec fn alive_probe(period: int, threshold: int) -> JsonView {
    JsonView::Object(
        seq![
            ("httpGet"@, probe_target("/livez"@)),
            ("periodSeconds"@, JsonView::Number(period)),
            ("timeoutSeconds"@, JsonView::Number(2)),
            ("failureThreshold"@, JsonView::Number(threshold)),
        ],
    )
}

fn build_alive_probe(period: i128, threshold: i128) -> (r: Json)
    ensures
        r.node() == alive_probe(period as int, threshold as int),
{
    json_object4(
        "httpGet",
        json_object2("path", json_text("/livez"), "port", json_text("metrics")),
        "periodSeconds",
        Json::Number(period),
        "timeoutSeconds",
        Json::Number(2),
        "failureThreshold",
        Json::Number(threshold),
    )
}

/// How the operator is told to be ready.
pub open spec fn ready_probe() -> JsonView {
    JsonView::Object(
        seq![
            ("httpGet"@, probe_target("/readyz"@)),
            ("initialDelaySeconds"@, JsonView::Number(5)),
            ("periodSeconds"@, JsonView::Number(10)),
            ("timeoutSeconds"@, JsonView::Number(2)),
            ("failureThreshold"@, JsonView::Number(3)),
        ],
    )
}

fn build_ready_probe() -> (r: Json)
    ensures
        r.node() == ready_probe(),
{
    json_object5(
        "httpGet",
        json_object2("path", json_text("/readyz"), "port", json_text("metrics")),
        "initialDelaySeconds",
        Json::Number(5),
        "periodSeconds",
        Json::Number(10),
        "timeoutSeconds",
        Json::Number(2),
        "failureThreshold",
        Json::Number(3),
    )
}

/// Amounts of processor and memory.
pub open spec fn amounts(cpu: Seq<char>, memory: Seq<char>) -> JsonView {
    JsonView::Object(seq![("cpu"@, JsonView::Text(cpu)), ("memory"@, JsonView::Text(memory))])
}

fn build_amounts(cpu: &str, memory: &str) -> (r: Json)
    ensures
        r.node() == amounts(cpu@, memory@),
{
    json_object2("cpu", json_text(cpu), "memory", json_text(memory))
}

/// What the operator's container may do.
pub open spec fn container_security() -> JsonView {
    JsonView::Object(
        seq![
            ("allowPrivilegeEscalation"@, JsonView::Bool(false)),
            ("readOnlyRootFilesystem"@, JsonView::Bool(true)),
            ("capabilities"@, json::one_member("drop"@, json::one_item(JsonView::Text("ALL"@)))),
        ],
    )
}

fn build_container_security() -> (r: Json)
    ensures
        r.node() == container_security(),
{
    json_object3(
        "allowPrivilegeEscalation",
        Json::Bool(false),
        "readOnlyRootFilesystem",
        Json::Bool(true),
        "capabilities",
        json_one("drop", json_one_item(json_text("ALL"))),
    )
}

/// The port at which the operator is asked how it is.
pub open spec fn metrics_port() -> JsonView {
    JsonView::Object(
        seq![
            ("name"@, JsonView::Text("metrics"@)),
            ("containerPort"@, JsonView::Number(9090)),
            ("protocol"@, JsonView::Text("TCP"@)),
        ],
    )
}

fn json_two_items(first: Json, second: Json) -> (r: Json)
    ensures
        r.node() == JsonView::Array(seq![first.node(), second.node()]),
{
    let ghost a = first.node();
    let ghost b = second.node();
    let mut items: Vec<Json> = Vec::new();
    items.push(first);
    items.push(second);
    let r = Json::Array(items);
    assert(r.node()->Array_0 =~= seq![a, b]);
    r
}

/// The members of the operator's container.
pub open spec fn operator_container(image: Seq<char>) -> Seq<(Seq<char>, JsonView)> {
    seq![
        ("name"@, JsonView::Text("operator"@)),
        ("image"@, JsonView::Text(image)),
        ("imagePullPolicy"@, JsonView::Text("IfNotPresent"@)),
        ("args"@, JsonView::Array(seq![JsonView::Text("--mode"@), JsonView::Text("operator"@)])),
        (
            "envFrom"@,
            json::one_item(json::one_member("configMapRef"@, json::one_member("name"@, JsonView::Text(CONFIG_MAP_NAME@)))),
        ),
        (
            "env"@,
            JsonView::Array(
                seq![pod_field("POD_NAME"@, "metadata.name"@), pod_field("POD_NAMESPACE"@, "metadata.namespace"@)],
            ),
        ),
        ("ports"@, json::one_item(metrics_port())),
        ("startupProbe"@, alive_probe(5, 12)),
        ("livenessProbe"@, alive_probe(30, 3)),
        ("readinessProbe"@, ready_probe()),
        (
            "resources"@,
            JsonView::Object(
                seq![("requests"@, amounts("10m"@, "32Mi"@)), ("limits"@, amounts("100m"@, "128Mi"@))],
            ),
        ),
        ("securityContext"@, container_security()),
    ]
}

fn build_container(image: &str) -> (r: Json)
    ensures
        r.node() == JsonView::Object(operator_container(image@)),
{
    let resources = json_object2(
        "requests",
        build_amounts("10m", "32Mi"),
        "limits",
        build_amounts("100m", "128Mi"),
    );
    let port = json_object3(
        "name",
        json_text("metrics"),
        "containerPort",
        Json::Number(9090),
        "protocol",
        json_text("TCP"),
    );
    let b = ObjectBuilder::new().with("name", json_text("operator")).with("image", json_text(image)).with(
        "imagePullPolicy",
        json_text("IfNotPresent"),
    ).with("args", json_two_items(json_text("--mode"), json_text("operator"))).with(
        "envFrom",
        json_one_item(json_one("configMapRef", json_one("name", json_text(CONFIG_MAP_NAME)))),
    ).with(
        "env",
        json_two_items(
            build_pod_field("POD_NAME", "metadata.name"),
            build_pod_field("POD_NAMESPACE", "metadata.namespace"),
        ),
    ).with("ports", json_one_item(port)).with("startupProbe", build_alive_probe(5, 12)).with(
        "livenessProbe",
        build_alive_probe(30, 3),
    ).with("readinessProbe", build_ready_probe()).with("resources", resources).with(
        "securityContext",
        build_container_security(),
    );
    assert(b.members() =~= operator_container(image@));
    b.build()
}

/// The operator's pods.
pub open spec fn operator_template(image: Seq<char>) -> JsonView {
    JsonView::Object(
        seq![
            (
                "metadata"@,
                JsonView::Object(
                    seq![
                        (
                            "labels"@,
                            JsonView::Object(
                                seq![
                                    ("app.kubernetes.io/name"@, JsonView::Text(OPERATOR_NAME@)),
                                    ("app.kubernetes.io/part-of"@, JsonView::Text("sentinella"@)),
                                ],
                            ),
                        ),
                        (
                            "annotations"@,
                            JsonView::Object(
                                seq![
                                    ("prometheus.io/scrape"@, JsonView::Text("true"@)),
                                    ("prometheus.io/port"@, JsonView::Text("9090"@)),
                                    ("prometheus.io/path"@, JsonView::Text("/metrics"@)),
                                ],
                            ),
                        ),
                    ],
                ),
            ),
            (
                "spec"@,
                JsonView::Object(
                    seq![
                        ("serviceAccountName"@, JsonView::Text(OPERATOR_NAME@)),
                        (
                            "securityContext"@,
                            JsonView::Object(
                                seq![
                                    ("runAsNonRoot"@, JsonView::Bool(true)),
                                    ("runAsUser"@, JsonView::Number(65532)),
                                    ("runAsGroup"@, JsonView::Number(65532)),
                                    ("seccompProfile"@, json::one_member("type"@, JsonView::Text("RuntimeDefault"@))),
                                ],
                            ),
                        ),
                        ("containers"@, json::one_item(JsonView::Object(operator_container(image)))),
                    ],
                ),
            ),
        ],
    )
}

fn build_template(image: &str) -> (r: Json)
    ensures
        r.node() == operator_template(image@),
{
    let labels = json_object2(
        "app.kubernetes.io/name",
        json_text(OPERATOR_NAME),
        "app.kubernetes.io/part-of",
        json_text("sentinella"),
    );
    let annotations = json_object3(
        "prometheus.io/scrape",
        json_text("true"),
        "prometheus.io/port",
        json_text("9090"),
        "prometheus.io/path",
        json_text("/metrics"),
    );
    let security = json_object4(
        "runAsNonRoot",
        Json::Bool(true),
        "runAsUser",
        Json::Number(65532),
        "runAsGroup",
        Json::Number(65532),
        "seccompProfile",
        json_one("type", json_text("RuntimeDefault")),
    );
    let spec = json_object3(
        "serviceAccountName",
        json_text(OPERATOR_NAME),
        "securityContext",
        security,
        "containers",
        json_one_item(build_container(image)),
    );
    json_object2("metadata", json_object2("labels", labels, "annotations", annotations), "spec", spec)
}

/// The workload of the operator.
pub open spec fn operator_deployment(namespace: Seq<char>, image: Seq<char>) -> JsonView {
    JsonView::Object(
        seq![
            ("apiVersion"@, JsonView::Text("apps/v1"@)),
            ("kind"@, JsonView::Text("Deployment"@)),
            ("metadata"@, operator_metadata(namespace)),
            (
                "spec"@,
                JsonView::Object(
                    seq![
                        ("replicas"@, JsonView::Number(1)),
                        (
                            "selector"@,
                            json::one_member(
                                "matchLabels"@,
                                json::one_member("app.kubernetes.io/name"@, JsonView::Text(OPERATOR_NAME@)),
                            ),
                        ),
                        ("template"@, operator_template(image)),
                    ],
                ),
            ),
        ],
    )
}

/// The workload of the operator.
pub fn desired_operator_deployment(namespace: &str, image: &str) -> (r: Json)
    ensures
        r.node() == operator_deployment(namespace@, image@),
{
    let selector = json_one("matchLabels", json_one("app.kubernetes.io/name", json_text(OPERATOR_NAME)));
    let spec = json_object3(
        "replicas",
        Json::Number(1),
        "selector",
        selector,
        "template",
        build_template(image),
    );
    json_object4(
        "apiVersion",
        json_text("apps/v1"),
        "kind",
        json_text("Deployment"),
        "metadata",
        build_metadata(namespace),
        "spec",
        spec,
    )
}

// ------------------------------------------------------------- what it is for

/// The operator is on exactly where the settings say so, by one of two words.
pub proof fn lemma_operator_is_switched(settings: ConfigMapView, data: Seq<KVView>, value: Seq<char>)
    requires
        settings.data == Some(data),
    ensures
        pairs::gives_value(data, "ACTION_OPERATOR_ENABLED"@, value) ==> (operator_on(settings) <==> text::trimmed(value) == "true"@
            || text::trimmed(value) == "1"@),
        (forall|i: int| 0 <= i < data.len() ==> (#[trigger] data[i]).key != "ACTION_OPERATOR_ENABLED"@) ==> !operator_on(
            settings,
        ),
{
    pairs::lemma_value_is_the_first(data, "ACTION_OPERATOR_ENABLED"@, value);
}

/// What the leader sees it brings about: the operator as the settings have it, and no operator where
/// they are gone. What was seen last is brought about again with each tick.
pub proof fn lemma_settings_are_brought_about(
    state: LifecycleStateView,
    settings: ConfigMapView,
    version: Seq<char>,
    event: LifecycleEventView,
    leader: bool,
)
    ensures
        ({
            let seen = lifecycle_next(state, LifecycleEventView::Seen(settings, Some(version)), leader);
            let gone = lifecycle_next(state, LifecycleEventView::Deleted, leader);
            &&& leader ==> seen.reconcile == Some(operator_on(settings)) && gone.reconcile == Some(false)
            &&& seen.state.resource_version == version
            &&& seen.changed <==> state.last_enabled != Some(operator_on(settings))
            &&& lifecycle_next(seen.state, LifecycleEventView::Tick, true).reconcile == Some(operator_on(settings))
            &&& lifecycle_next(gone.state, LifecycleEventView::Tick, true).reconcile == Some(false)
            &&& !lifecycle_next(seen.state, LifecycleEventView::Seen(settings, Some(version)), leader).changed
            &&& !leader ==> lifecycle_next(state, event, leader).reconcile is None
            &&& lifecycle_next(state, event, leader).reconnect <==> event is Broken
            &&& lifecycle_next(state, LifecycleEventView::Bookmark(version), leader).state == (LifecycleStateView {
                resource_version: version,
                ..state
            })
            &&& lifecycle_next(state, LifecycleEventView::Bookmark(version), leader).reconcile is None
        }),
{
}

/// An operator that is on gets its account and its deployment, each made where it is not there and
/// brought up to date where it is; of one that is off nothing stays, and nothing is deleted that is
/// not there.
pub proof fn lemma_operator_is_there_where_it_is_on(enabled: bool, account_exists: bool, deployment_exists: bool)
    ensures
        ({
            let steps = operator_steps(enabled, account_exists, deployment_exists);
            &&& steps.contains(OperatorStep::CreateServiceAccount) <==> enabled && !account_exists
            &&& steps.contains(OperatorStep::PatchServiceAccount) <==> enabled && account_exists
            &&& steps.contains(OperatorStep::CreateDeployment) <==> enabled && !deployment_exists
            &&& steps.contains(OperatorStep::PatchDeployment) <==> enabled && deployment_exists
            &&& steps.contains(OperatorStep::DeleteServiceAccount) <==> !enabled && account_exists
            &&& steps.contains(OperatorStep::DeleteDeployment) <==> !enabled && deployment_exists
        }),
{
    let steps = operator_steps(enabled, account_exists, deployment_exists);
    if enabled {
        assert(steps[0] == steps[0] && steps[1] == steps[1] && steps.len() == 2);
    } else if deployment_exists && account_exists {
        assert(steps =~= seq![OperatorStep::DeleteDeployment, OperatorStep::DeleteServiceAccount]);
        assert(steps[0] == OperatorStep::DeleteDeployment && steps[1] == OperatorStep::DeleteServiceAccount);
    } else if deployment_exists {
        assert(steps =~= seq![OperatorStep::DeleteDeployment]);
        assert(steps[0] == OperatorStep::DeleteDeployment);
    } else if account_exists {
        assert(steps =~= seq![OperatorStep::DeleteServiceAccount]);
        assert(steps[0] == OperatorStep::DeleteServiceAccount);
    } else {
        assert(steps.len() == 0);
    }
}

/// The operator runs the agent's own image, in the agent's namespace.
pub proof fn lemma_operator_runs_the_agents_image(pod: PodView, spec: PodSpecView, namespace: Seq<char>, image: Seq<char>)
    requires
        pod.spec == Some(spec),
    ensures
        spec.containers.len() > 0 ==> operator_image(pod) == spec.containers[0].image,
        operator_container(image).contains(("image"@, JsonView::Text(image))),
        operator_metadata(namespace) matches JsonView::Object(members) && members.contains(
            ("namespace"@, JsonView::Text(namespace)),
        ) && members.contains(("name"@, JsonView::Text("sentinella-hub-k8s-operator"@))),
{
    assert(operator_container(image)[1] == ("image"@, JsonView::Text(image)));
    let members = operator_metadata(namespace)->Object_0;
    assert(members[0] == ("name"@, JsonView::Text("sentinella-hub-k8s-operator"@)));
    assert(members[1] == ("namespace"@, JsonView::Text(namespace)));
}

} // verus!
