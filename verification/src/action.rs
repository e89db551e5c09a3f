//! What the handlers of commands ask of the cluster, and what comes of it.
use crate::command::{CommandResult, CommandResultView, ExecutionMode};
use crate::json;
use crate::json::{Json, json_object3, json_one, json_text, JsonView};
use crate::model::{KV, KVView};
use crate::objects::{Namespace, NamespaceView};
use crate::order::str_eq;
use crate::policy::{
    SentinellaHubActionPolicy, SentinellaHubActionPolicyView, WorkloadResourcesSpec,
    WorkloadResourcesSpecView,
};
use crate::views::DeepClone;
use crate::workload::{WorkloadObject, WorkloadObjectView, WorkloadTargetRef, WorkloadTargetRefView};
use vstd::prelude::*;

verus! {

/// What an action asks of the cluster.
#[derive(Clone, Debug, PartialEq, Eq)]
pub enum KubeAction {
    ListPolicies,
    GetNamespace(String),
    GetWorkload(WorkloadTargetRef),
    GetScale(WorkloadTargetRef),
    /// The checks before a change, with the labels of the pods that it is about.
    Preflight(WorkloadResourcesSpec, Vec<KV>),
    /// A patch of a workload, and whether it is only tried.
    PatchWorkload(WorkloadTargetRef, Json, bool),
    /// A patch of a workload's scale, and whether it is only tried.
    PatchScale(WorkloadTargetRef, Json, bool),
    /// So many seconds of rest.
    Sleep(u64),
    Reply(CommandResult),
}

/// The view of [`KubeAction`].
pub enum KubeActionView {
    ListPolicies,
    GetNamespace(Seq<char>),
    GetWorkload(WorkloadTargetRefView),
    GetScale(WorkloadTargetRefView),
    Preflight(WorkloadResourcesSpecView, Seq<KVView>),
    PatchWorkload(WorkloadTargetRefView, JsonView, bool),
    PatchScale(WorkloadTargetRefView, JsonView, bool),
    Sleep(u64),
    Reply(CommandResultView),
}

impl DeepView for KubeAction {
    type V = KubeActionView;

    open spec fn deep_view(&self) -> KubeActionView {
        match self {
            KubeAction::ListPolicies => KubeActionView::ListPolicies,
            KubeAction::GetNamespace(a) => KubeActionView::GetNamespace(a.deep_view()),
            KubeAction::GetWorkload(a) => KubeActionView::GetWorkload(a.deep_view()),
            KubeAction::GetScale(a) => KubeActionView::GetScale(a.deep_view()),
            KubeAction::Preflight(a, b) => KubeActionView::Preflight(a.deep_view(), b.deep_view()),
            KubeAction::PatchWorkload(a, b, c) => KubeActionView::PatchWorkload(a.deep_view(), b.deep_view(), c.deep_view()),
            KubeAction::PatchScale(a, b, c) => KubeActionView::PatchScale(a.deep_view(), b.deep_view(), c.deep_view()),
            KubeAction::Sleep(a) => KubeActionView::Sleep(a.deep_view()),
            KubeAction::Reply(a) => KubeActionView::Reply(a.deep_view()),
        }
    }
}

impl DeepClone for KubeAction {
    fn deep_clone(&self) -> (copy: Self) {
        match self {
            KubeAction::ListPolicies => KubeAction::ListPolicies,
            KubeAction::GetNamespace(a) => KubeAction::GetNamespace(a.deep_clone()),
            KubeAction::GetWorkload(a) => KubeAction::GetWorkload(a.deep_clone()),
            KubeAction::GetScale(a) => KubeAction::GetScale(a.deep_clone()),
            KubeAction::Preflight(a, b) => KubeAction::Preflight(a.deep_clone(), b.deep_clone()),
            KubeAction::PatchWorkload(a, b, c) => KubeAction::PatchWorkload(a.deep_clone(), b.deep_clone(), c.deep_clone()),
            KubeAction::PatchScale(a, b, c) => KubeAction::PatchScale(a.deep_clone(), b.deep_clone(), c.deep_clone()),
            KubeAction::Sleep(a) => KubeAction::Sleep(a.deep_clone()),
            KubeAction::Reply(a) => KubeAction::Reply(a.deep_clone()),
        }
    }
}

/// What came of it.
#[derive(Clone, Debug, PartialEq, Eq)]
pub enum KubeEvent {
    Policies(Vec<SentinellaHubActionPolicy>),
    Namespace(Namespace),
    Workload(WorkloadObject),
    Scale(ScaleObject),
    Warnings(Vec<String>),
    Done,
    Failed(String),
}

/// The view of [`KubeEvent`].
pub enum KubeEventView {
    Policies(Seq<SentinellaHubActionPolicyView>),
    Namespace(NamespaceView),
    Workload(WorkloadObjectView),
    Scale(ScaleObjectView),
    Warnings(Seq<Seq<char>>),
    Done,
    Failed(Seq<char>),
}

impl DeepView for KubeEvent {
    type V = KubeEventView;

    open spec fn deep_view(&self) -> KubeEventView {
        match self {
            KubeEvent::Policies(a) => KubeEventView::Policies(a.deep_view()),
            KubeEvent::Namespace(a) => KubeEventView::Namespace(a.deep_view()),
            KubeEvent::Workload(a) => KubeEventView::Workload(a.deep_view()),
            KubeEvent::Scale(a) => KubeEventView::Scale(a.deep_view()),
            KubeEvent::Warnings(a) => KubeEventView::Warnings(a.deep_view()),
            KubeEvent::Done => KubeEventView::Done,
            KubeEvent::Failed(a) => KubeEventView::Failed(a.deep_view()),
        }
    }
}

impl DeepClone for KubeEvent {
    fn deep_clone(&self) -> (copy: Self) {
        match self {
            KubeEvent::Policies(a) => KubeEvent::Policies(a.deep_clone()),
            KubeEvent::Namespace(a) => KubeEvent::Namespace(a.deep_clone()),
            KubeEvent::Workload(a) => KubeEvent::Workload(a.deep_clone()),
            KubeEvent::Scale(a) => KubeEvent::Scale(a.deep_clone()),
            KubeEvent::Warnings(a) => KubeEvent::Warnings(a.deep_clone()),
            KubeEvent::Done => KubeEvent::Done,
            KubeEvent::Failed(a) => KubeEvent::Failed(a.deep_clone()),
        }
    }
}

/// How many pods a workload is to have, and has.
#[derive(Clone, Debug, Default, PartialEq, Eq)]
pub struct ScaleObject {
    pub desired: Option<i32>,
    pub current: Option<i32>,
}

/// The view of [`ScaleObject`].
pub struct ScaleObjectView {
    pub desired: Option<i32>,
    pub current: Option<i32>,
}

impl DeepView for ScaleObject {
    type V = ScaleObjectView;

    open spec fn deep_view(&self) -> ScaleObjectView {
        ScaleObjectView {
            desired: self.desired.deep_view(),
            current: self.current.deep_view(),
        }
    }
}

impl DeepClone for ScaleObject {
    fn deep_clone(&self) -> (copy: Self) {
        ScaleObject {
            desired: self.desired.deep_clone(),
            current: self.current.deep_clone(),
        }
    }
}

/// How a command is to be executed.
#[derive(Clone, Debug, PartialEq, Eq)]
pub struct ExecutionSpec {
    pub mode: ExecutionMode,
}

/// The view of [`ExecutionSpec`].
pub struct ExecutionSpecView {
    pub mode: ExecutionMode,
}

impl DeepView for ExecutionSpec {
    type V = ExecutionSpecView;

    open spec fn deep_view(&self) -> ExecutionSpecView {
        ExecutionSpecView {
            mode: self.mode.deep_view(),
        }
    }
}

impl DeepClone for ExecutionSpec {
    fn deep_clone(&self) -> (copy: Self) {
        ExecutionSpec {
            mode: self.mode.deep_clone(),
        }
    }
}

/// The kinds of workloads that can be changed.
pub open spec fn is_workload_kind(kind: Seq<char>) -> bool {
    kind == "Deployment"@ || kind == "StatefulSet"@ || kind == "DaemonSet"@
}

/// Whether workloads of a kind can be changed.
pub fn workload_kind_is_supported(kind: &str) -> (r: bool)
    ensures
        r == is_workload_kind(kind@),
{
    str_eq(kind, "Deployment") || str_eq(kind, "StatefulSet") || str_eq(kind, "DaemonSet")
}

/// The name of a mode.
pub open spec fn mode_name(mode: ExecutionMode) -> Seq<char> {
    match mode {
        ExecutionMode::Preview => "preview"@,
        ExecutionMode::Execute => "execute"@,
    }
}

fn name_mode(mode: ExecutionMode) -> (r: &'static str)
    ensures
        r@ == mode_name(mode),
{
    match mode {
        ExecutionMode::Preview => "preview",
        ExecutionMode::Execute => "execute",
    }
}

/// What a command asks for of a workload, with one thing more.
pub open spec fn requested_of(
    mode: ExecutionMode,
    target: WorkloadTargetRefView,
    name: Seq<char>,
    value: JsonView,
) -> JsonView {
    JsonView::Object(
        seq![
            ("execution"@, json::one_member("mode"@, JsonView::Text(mode_name(mode)))),
            (
                "target"@,
                JsonView::Object(
                    seq![
                        ("kind"@, JsonView::Text(target.kind)),
                        ("namespace"@, JsonView::Text(target.namespace)),
                        ("name"@, JsonView::Text(target.name)),
                    ],
                ),
            ),
            (name, value),
        ],
    )
}

/// What a command asks for of a workload, with one thing more.
pub fn requested_state(mode: ExecutionMode, target: &WorkloadTargetRef, name: &str, value: Json) -> (r: Json)
    ensures
        r.node() == requested_of(mode, target.deep_view(), name@, value.node()),
{
    let shown = json_object3(
        "kind",
        json_text(target.kind.as_str()),
        "namespace",
        json_text(target.namespace.as_str()),
        "name",
        json_text(target.name.as_str()),
    );
    json_object3("execution", json_one("mode", json_text(name_mode(mode))), "target", shown, name, value)
}

} // verus!
