//! Draining a node: it is closed to new pods, and the pods that something would bring back
//! elsewhere are evicted.
use crate::command;
use crate::command::{ActionVerification, ActionVerificationView, CommandResult, CommandResultView};
use crate::json;
use crate::json::{Json, json_object2, json_object4, json_one, json_text, json_texts, JsonView};
use crate::objects::{Node, OwnerReference, OwnerReferenceView, Pod, PodView};
use crate::order::str_eq;
use crate::pairs;
use crate::pairs::pair_value;
use crate::policy;
use crate::policy::{
    refuse_cluster_action, SentinellaHubActionPolicy, SentinellaHubActionPolicyView, stale_after_ms,
};
use crate::text;
use crate::text::{join, owned, text2, text3, text4, text6, trim};
use crate::views;
use crate::views::{any_item, append_cloned, DeepClone, filter_map_items, map_items, opt_str};
use vstd::prelude::*;

verus! {

/// How long a drain may take where nothing else is asked for.
pub const DRAIN_NODE_DEFAULT_TIMEOUT_SECONDS: u64 = 300;

/// How long a drain may take.
pub const DRAIN_NODE_MAX_TIMEOUT_SECONDS: u64 = 3600;

/// A node to be drained.
#[derive(Clone, Debug, PartialEq, Eq)]
pub struct DrainNodeSpec {
    pub node_name: String,
    pub timeout_seconds: Option<u64>,
    pub grace_period_seconds: Option<u64>,
    /// Whether pods that nothing would bring back are evicted too.
    pub force: bool,
}

/// The view of [`DrainNodeSpec`].
pub struct DrainNodeSpecView {
    pub node_name: Seq<char>,
    pub timeout_seconds: Option<u64>,
    pub grace_period_seconds: Option<u64>,
    pub force: bool,
}

impl DeepView for DrainNodeSpec {
    type V = DrainNodeSpecView;

    open spec fn deep_view(&self) -> DrainNodeSpecView {
        DrainNodeSpecView {
            node_name: self.node_name.deep_view(),
            timeout_seconds: self.timeout_seconds.deep_view(),
            grace_period_seconds: self.grace_period_seconds.deep_view(),
            force: self.force.deep_view(),
        }
    }
}

impl DeepClone for DrainNodeSpec {
    fn deep_clone(&self) -> (copy: Self) {
        DrainNodeSpec {
            node_name: self.node_name.deep_clone(),
            timeout_seconds: self.timeout_seconds.deep_clone(),
            grace_period_seconds: self.grace_period_seconds.deep_clone(),
            force: self.force.deep_clone(),
        }
    }
}

/// How a pod is deleted.
#[derive(Clone, Debug, Default, PartialEq, Eq)]
pub struct DeleteOptions {
    pub grace_period_seconds: Option<i64>,
}

/// The view of [`DeleteOptions`].
pub struct DeleteOptionsView {
    pub grace_period_seconds: Option<i64>,
}

impl DeepView for DeleteOptions {
    type V = DeleteOptionsView;

    open spec fn deep_view(&self) -> DeleteOptionsView {
        DeleteOptionsView {
            grace_period_seconds: self.grace_period_seconds.deep_view(),
        }
    }
}

impl DeepClone for DeleteOptions {
    fn deep_clone(&self) -> (copy: Self) {
        DeleteOptions {
            grace_period_seconds: self.grace_period_seconds.deep_clone(),
        }
    }
}

/// The name of a pod.
#[derive(Clone, Debug, PartialEq, Eq)]
pub struct PodName {
    pub namespace: String,
    pub name: String,
}

/// The view of [`PodName`].
pub struct PodNameView {
    pub namespace: Seq<char>,
    pub name: Seq<char>,
}

impl DeepView for PodName {
    type V = PodNameView;

    open spec fn deep_view(&self) -> PodNameView {
        PodNameView {
            namespace: self.namespace.deep_view(),
            name: self.name.deep_view(),
        }
    }
}

impl DeepClone for PodName {
    fn deep_clone(&self) -> (copy: Self) {
        PodName {
            namespace: self.namespace.deep_clone(),
            name: self.name.deep_clone(),
        }
    }
}

/// What a drain waits for.
#[derive(Clone, Copy, Debug, PartialEq, Eq)]
pub enum DrainStage {
    Policies,
    Node,
    Pods,
    Cordon,
    Evict,
    Poll,
    Wait,
    Done,
}

impl DeepView for DrainStage {
    type V = DrainStage;

    open spec fn deep_view(&self) -> DrainStage {
        *self
    }
}

impl DeepClone for DrainStage {
    fn deep_clone(&self) -> (copy: Self) {
        *self
    }
}

/// A drain that is under way.
#[derive(Clone, Debug, PartialEq, Eq)]
pub struct DrainState {
    pub command_id: String,
    pub node_name: String,
    pub force: bool,
    pub timeout_seconds: u64,
    pub delete_options: Option<DeleteOptions>,
    pub stage: DrainStage,
    pub before_unschedulable: bool,
    pub warnings: Vec<String>,
    pub queue: Vec<PodName>,
    pub evicted: Vec<String>,
    pub remaining: Vec<String>,
    pub deadline_ms: u128,
}

/// The view of [`DrainState`].
pub struct DrainStateView {
    pub command_id: Seq<char>,
    pub node_name: Seq<char>,
    pub force: bool,
    pub timeout_seconds: u64,
    pub delete_options: Option<DeleteOptionsView>,
    pub stage: DrainStage,
    pub before_unschedulable: bool,
    pub warnings: Seq<Seq<char>>,
    pub queue: Seq<PodNameView>,
    pub evicted: Seq<Seq<char>>,
    pub remaining: Seq<Seq<char>>,
    pub deadline_ms: u128,
}

impl DeepView for DrainState {
    type V = DrainStateView;

    open spec fn deep_view(&self) -> DrainStateView {
        DrainStateView {
            command_id: self.command_id.deep_view(),
            node_name: self.node_name.deep_view(),
            force: self.force.deep_view(),
            timeout_seconds: self.timeout_seconds.deep_view(),
            delete_options: self.delete_options.deep_view(),
            stage: self.stage.deep_view(),
            before_unschedulable: self.before_unschedulable.deep_view(),
            warnings: self.warnings.deep_view(),
            queue: self.queue.deep_view(),
            evicted: self.evicted.deep_view(),
            remaining: self.remaining.deep_view(),
            deadline_ms: self.deadline_ms.deep_view(),
        }
    }
}

impl DeepClone for DrainState {
    fn deep_clone(&self) -> (copy: Self) {
        DrainState {
            command_id: self.command_id.deep_clone(),
            node_name: self.node_name.deep_clone(),
            force: self.force.deep_clone(),
            timeout_seconds: self.timeout_seconds.deep_clone(),
            delete_options: self.delete_options.deep_clone(),
            stage: self.stage.deep_clone(),
            before_unschedulable: self.before_unschedulable.deep_clone(),
            warnings: self.warnings.deep_clone(),
            queue: self.queue.deep_clone(),
            evicted: self.evicted.deep_clone(),
            remaining: self.remaining.deep_clone(),
            deadline_ms: self.deadline_ms.deep_clone(),
        }
    }
}

/// What a drain asks for.
#[derive(Clone, Debug, PartialEq, Eq)]
pub enum DrainAction {
    ListPolicies,
    GetNode(String),
    /// The pods of a node.
    ListPods(String),
    /// A patch of a node.
    Cordon(String, Json),
    Evict(PodName, Option<DeleteOptions>),
    /// So many seconds of rest.
    Sleep(u64),
    Reply(CommandResult),
}

/// The view of [`DrainAction`].
pub enum DrainActionView {
    ListPolicies,
    GetNode(Seq<char>),
    ListPods(Seq<char>),
    Cordon(Seq<char>, JsonView),
    Evict(PodNameView, Option<DeleteOptionsView>),
    Sleep(u64),
    Reply(CommandResultView),
}

impl DeepView for DrainAction {
    type V = DrainActionView;

    open spec fn deep_view(&self) -> DrainActionView {
        match self {
            DrainAction::ListPolicies => DrainActionView::ListPolicies,
            DrainAction::GetNode(a) => DrainActionView::GetNode(a.deep_view()),
            DrainAction::ListPods(a) => DrainActionView::ListPods(a.deep_view()),
            DrainAction::Cordon(a, b) => DrainActionView::Cordon(a.deep_view(), b.deep_view()),
            DrainAction::Evict(a, b) => DrainActionView::Evict(a.deep_view(), b.deep_view()),
            DrainAction::Sleep(a) => DrainActionView::Sleep(a.deep_view()),
            DrainAction::Reply(a) => DrainActionView::Reply(a.deep_view()),
        }
    }
}

impl DeepClone for DrainAction {
    fn deep_clone(&self) -> (copy: Self) {
        match self {
            DrainAction::ListPolicies => DrainAction::ListPolicies,
            DrainAction::GetNode(a) => DrainAction::GetNode(a.deep_clone()),
            DrainAction::ListPods(a) => DrainAction::ListPods(a.deep_clone()),
            DrainAction::Cordon(a, b) => DrainAction::Cordon(a.deep_clone(), b.deep_clone()),
            DrainAction::Evict(a, b) => DrainAction::Evict(a.deep_clone(), b.deep_clone()),
            DrainAction::Sleep(a) => DrainAction::Sleep(a.deep_clone()),
            DrainAction::Reply(a) => DrainAction::Reply(a.deep_clone()),
        }
    }
}

/// What came of it.
#[derive(Clone, Debug, PartialEq, Eq)]
pub enum DrainEvent {
    Policies(Vec<SentinellaHubActionPolicy>),
    /// The node that was asked for, by whether it was closed to pods.
    Node(Option<bool>),
    Pods(Vec<Pod>),
    Done,
    Failed(String),
}

/// The view of [`DrainEvent`].
pub enum DrainEventView {
    Policies(Seq<SentinellaHubActionPolicyView>),
    Node(Option<bool>),
    Pods(Seq<PodView>),
    Done,
    Failed(Seq<char>),
}

impl DeepView for DrainEvent {
    type V = DrainEventView;

    open spec fn deep_view(&self) -> DrainEventView {
        match self {
            DrainEvent::Policies(a) => DrainEventView::Policies(a.deep_view()),
            DrainEvent::Node(a) => DrainEventView::Node(a.deep_view()),
            DrainEvent::Pods(a) => DrainEventView::Pods(a.deep_view()),
            DrainEvent::Done => DrainEventView::Done,
            DrainEvent::Failed(a) => DrainEventView::Failed(a.deep_view()),
        }
    }
}

impl DeepClone for DrainEvent {
    fn deep_clone(&self) -> (copy: Self) {
        match self {
            DrainEvent::Policies(a) => DrainEvent::Policies(a.deep_clone()),
            DrainEvent::Node(a) => DrainEvent::Node(a.deep_clone()),
            DrainEvent::Pods(a) => DrainEvent::Pods(a.deep_clone()),
            DrainEvent::Done => DrainEvent::Done,
            DrainEvent::Failed(a) => DrainEvent::Failed(a.deep_clone()),
        }
    }
}

/// A drain with what it asks for next.
#[derive(Clone, Debug, PartialEq, Eq)]
pub struct DrainStep {
    pub state: DrainState,
    pub action: DrainAction,
}

/// The view of [`DrainStep`].
pub struct DrainStepView {
    pub state: DrainStateView,
    pub action: DrainActionView,
}

impl DeepView for DrainStep {
    type V = DrainStepView;

    open spec fn deep_view(&self) -> DrainStepView {
        DrainStepView {
            state: self.state.deep_view(),
            action: self.action.deep_view(),
        }
    }
}

impl DeepClone for DrainStep {
    fn deep_clone(&self) -> (copy: Self) {
        DrainStep {
            state: self.state.deep_clone(),
            action: self.action.deep_clone(),
        }
    }
}

// -------------------------------------------------------------- what is asked

/// How long a drain may take: at least a second, and at most an hour.
pub open spec fn drain_timeout(timeout_seconds: Option<u64>) -> Result<u64, Seq<char>> {
    let seconds = timeout_seconds.unwrap_or(DRAIN_NODE_DEFAULT_TIMEOUT_SECONDS);
    if seconds == 0 {
        Err("timeout_seconds must be greater than 0"@)
    } else if seconds > DRAIN_NODE_MAX_TIMEOUT_SECONDS {
        Err("timeout_seconds must be less than or equal to 3600"@)
    } else {
        Ok(seconds)
    }
}

/// How long a drain may take, in seconds.
pub fn drain_timeout_duration(spec: &DrainNodeSpec) -> (r: Result<u64, String>)
    ensures
        match r {
            Ok(seconds) => drain_timeout(spec.timeout_seconds) == Ok::<u64, Seq<char>>(seconds),
            Err(message) => drain_timeout(spec.timeout_seconds) == Err::<u64, Seq<char>>(message@),
        },
{
    let seconds: u64 = spec.timeout_seconds.unwrap_or(DRAIN_NODE_DEFAULT_TIMEOUT_SECONDS);
    if seconds == 0 {
        Err(owned("timeout_seconds must be greater than 0"))
    } else if seconds > DRAIN_NODE_MAX_TIMEOUT_SECONDS {
        Err(owned("timeout_seconds must be less than or equal to 3600"))
    } else {
        Ok(seconds)
    }
}

/// How pods are deleted: with the grace period that is asked for, which is not zero.
pub open spec fn drain_options(grace_period_seconds: Option<u64>) -> Result<Option<DeleteOptionsView>, Seq<char>> {
    match grace_period_seconds {
        None => Ok(None),
        Some(seconds) => if seconds == 0 {
            Err("grace_period_seconds must be greater than 0"@)
        } else if seconds > i64::MAX {
            Err("grace_period_seconds is too large"@)
        } else {
            Ok(Some(DeleteOptionsView { grace_period_seconds: Some(seconds as i64) }))
        },
    }
}

/// How pods are deleted.
pub fn drain_delete_options(spec: &DrainNodeSpec) -> (r: Result<Option<DeleteOptions>, String>)
    ensures
        match r {
            Ok(options) => drain_options(spec.grace_period_seconds) == Ok::<Option<DeleteOptionsView>, Seq<char>>(
                options.deep_view(),
            ),
            Err(message) => drain_options(spec.grace_period_seconds) == Err::<Option<DeleteOptionsView>, Seq<char>>(
                message@,
            ),
        },
{
    match spec.grace_period_seconds {
        None => Ok(None),
        Some(seconds) => if seconds == 0 {
            Err(owned("grace_period_seconds must be greater than 0"))
        } else if seconds > i64::MAX as u64 {
            Err(owned("grace_period_seconds is too large"))
        } else {
            Ok(Some(DeleteOptions { grace_period_seconds: Some(seconds as i64) }))
        },
    }
}

// ------------------------------------------------------------------- the pods

/// The kubelet runs the pod from a file, and would bring it back.
pub open spec fn is_mirror(pod: PodView) -> bool {
    match pod.metadata.annotations {
        Some(annotations) => pairs::value_of(annotations, "kubernetes.io/config.mirror"@) is Some,
        None => false,
    }
}

/// Whether the kubelet runs the pod from a file.
pub fn pod_is_mirror(pod: &Pod) -> (r: bool)
    ensures
        r == is_mirror(pod.deep_view()),
{
    match &pod.metadata.annotations {
        Some(annotations) => pair_value(annotations, "kubernetes.io/config.mirror").is_some(),
        None => false,
    }
}

/// The owners of a pod.
pub open spec fn owners_of(pod: PodView) -> Seq<OwnerReferenceView> {
    match pod.metadata.owner_references {
        Some(owners) => owners,
        None => seq![],
    }
}

/// A daemon set owns the pod.
pub open spec fn owned_by_daemon_set(pod: PodView) -> bool {
    owners_of(pod).any(|o: OwnerReferenceView| o.kind == "DaemonSet"@)
}

fn has_daemon_set_owner(pod: &Pod) -> (r: bool)
    ensures
        r == owned_by_daemon_set(pod.deep_view()),
{
    match &pod.metadata.owner_references {
        Some(owners) => {
            let daemon_set = |o: &OwnerReference| -> (b: bool)
                ensures
                    b == (o.deep_view().kind == "DaemonSet"@),
                { str_eq(o.kind.as_str(), "DaemonSet") };
            any_item(owners, daemon_set, Ghost(|o: OwnerReferenceView| o.kind == "DaemonSet"@))
        },
        None => false,
    }
}

fn has_owners(pod: &Pod) -> (r: bool)
    ensures
        r == (owners_of(pod.deep_view()).len() > 0),
{
    match &pod.metadata.owner_references {
        Some(owners) => owners.len() > 0,
        None => false,
    }
}

/// The pod runs on the node.
pub open spec fn runs_on(pod: PodView, node_name: Seq<char>) -> bool {
    match pod.spec {
        Some(spec) => spec.node_name == Some(node_name),
        None => false,
    }
}

fn pod_runs_on(pod: &Pod, node_name: &str) -> (r: bool)
    ensures
        r == runs_on(pod.deep_view(), node_name@),
{
    match &pod.spec {
        Some(spec) => match &spec.node_name {
            Some(name) => str_eq(name.as_str(), node_name),
            None => false,
        },
        None => false,
    }
}

/// The namespace and the name of a pod.
pub open spec fn shown_name(namespace: Seq<char>, name: Seq<char>) -> Seq<char> {
    namespace + "/"@ + name
}

/// The name of a pod.
pub open spec fn name_of_pod(pod: PodView) -> PodNameView {
    PodNameView { namespace: views::text_or(pod.metadata.namespace, ""@), name: views::text_or(pod.metadata.name, ""@) }
}

/// The name of a pod as it is shown.
pub open spec fn shown_pod(pod: PodView) -> Seq<char> {
    shown_name(name_of_pod(pod).namespace, name_of_pod(pod).name)
}

fn pod_name(pod: &Pod) -> (r: PodName)
    ensures
        r.deep_view() == name_of_pod(pod.deep_view()),
{
    PodName {
        namespace: owned(opt_str(&pod.metadata.namespace, "")),
        name: owned(opt_str(&pod.metadata.name, "")),
    }
}

fn show_name(name: &PodName) -> (r: String)
    ensures
        r@ == shown_name(name.deep_view().namespace, name.deep_view().name),
{
    text3(name.namespace.as_str(), "/", name.name.as_str())
}

/// What is said of a pod of the node that is left alone.
pub open spec fn ignored_note(pod: PodView, node_name: Seq<char>) -> Option<Seq<char>> {
    if !runs_on(pod, node_name) {
        None
    } else if is_mirror(pod) {
        Some("ignored mirror pod "@ + shown_pod(pod))
    } else if owned_by_daemon_set(pod) {
        Some("ignored DaemonSet pod "@ + shown_pod(pod))
    } else {
        None
    }
}

/// The pod runs on the node, and nothing would bring it back.
pub open spec fn is_unmanaged(pod: PodView, node_name: Seq<char>) -> bool {
    runs_on(pod, node_name) && !is_mirror(pod) && owners_of(pod).len() == 0
}

/// The name of a pod of the node that nothing would bring back.
pub open spec fn unmanaged_name(pod: PodView, node_name: Seq<char>) -> Option<Seq<char>> {
    if is_unmanaged(pod, node_name) {
        Some(shown_pod(pod))
    } else {
        None
    }
}

/// The pod runs on the node and is to leave it: something would bring it back elsewhere, or it
/// is forced to.
pub open spec fn is_drainable(pod: PodView, node_name: Seq<char>, force: bool) -> bool {
    runs_on(pod, node_name) && !is_mirror(pod) && !owned_by_daemon_set(pod) && (owners_of(pod).len() > 0 || force)
}

/// The name of a pod that is to leave the node.
pub open spec fn drainable_name(pod: PodView, node_name: Seq<char>, force: bool) -> Option<PodNameView> {
    if is_drainable(pod, node_name, force) {
        Some(name_of_pod(pod))
    } else {
        None
    }
}

/// What is said of the pods that are left alone.
pub open spec fn ignored_notes(pods: Seq<PodView>, node_name: Seq<char>) -> Seq<Seq<char>> {
    pods.filter_map(|p: PodView| ignored_note(p, node_name))
}

/// The names of the pods that nothing would bring back.
pub open spec fn unmanaged_names(pods: Seq<PodView>, node_name: Seq<char>) -> Seq<Seq<char>> {
    pods.filter_map(|p: PodView| unmanaged_name(p, node_name))
}

/// The names of the pods that are to leave the node.
pub open spec fn drainable_names(pods: Seq<PodView>, node_name: Seq<char>, force: bool) -> Seq<PodNameView> {
    pods.filter_map(|p: PodView| drainable_name(p, node_name, force))
}

/// The pods of a node: what is said of those that are left alone, the names of those that
/// nothing would bring back, and the names of those that are to leave.
pub fn classify_pods_on_node(node_name: &str, pods: &Vec<Pod>, force: bool) -> (r: (
    Vec<String>,
    Vec<String>,
    Vec<PodName>,
))
    ensures
        r.0.deep_view() == ignored_notes(pods.deep_view(), node_name@),
        r.1.deep_view() == unmanaged_names(pods.deep_view(), node_name@),
        r.2.deep_view() == drainable_names(pods.deep_view(), node_name@, force),
{
    let ignored = |pod: &Pod| -> (r: Option<String>)
        ensures
            r.deep_view() == ignored_note(pod.deep_view(), node_name@),
        {
            if !pod_runs_on(pod, node_name) {
                None
            } else if pod_is_mirror(pod) {
                Some(text2("ignored mirror pod ", show_name(&pod_name(pod)).as_str()))
            } else if has_daemon_set_owner(pod) {
                Some(text2("ignored DaemonSet pod ", show_name(&pod_name(pod)).as_str()))
            } else {
                None
            }
        };
    let unmanaged = |pod: &Pod| -> (r: Option<String>)
        ensures
            r.deep_view() == unmanaged_name(pod.deep_view(), node_name@),
        {
            if pod_runs_on(pod, node_name) && !pod_is_mirror(pod) && !has_owners(pod) {
                Some(show_name(&pod_name(pod)))
            } else {
                None
            }
        };
    let drainable = |pod: &Pod| -> (r: Option<PodName>)
        ensures
            r.deep_view() == drainable_name(pod.deep_view(), node_name@, force),
        {
            if pod_runs_on(pod, node_name) && !pod_is_mirror(pod) && !has_daemon_set_owner(pod) && (has_owners(pod)
                || force) {
                Some(pod_name(pod))
            } else {
                None
            }
        };
    (
        filter_map_items(pods, ignored, Ghost(|p: PodView| ignored_note(p, node_name@))),
        filter_map_items(pods, unmanaged, Ghost(|p: PodView| unmanaged_name(p, node_name@))),
        filter_map_items(pods, drainable, Ghost(|p: PodView| drainable_name(p, node_name@, force))),
    )
}

// ------------------------------------------------------------------- the steps

/// The drain ends with a failure.
pub open spec fn drain_fails(state: DrainStateView, message: Seq<char>, now_ms: u128) -> DrainStepView {
    DrainStepView {
        state: DrainStateView { stage: DrainStage::Done, ..state },
        action: DrainActionView::Reply(command::simple_result(state.command_id, "error"@, Some(message), now_ms)),
    }
}

fn fail_drain(state: DrainState, message: String, now_ms: u128) -> (r: DrainStep)
    ensures
        r.deep_view() == drain_fails(state.deep_view(), message@, now_ms),
{
    let reply = CommandResult::at(owned(state.command_id.as_str()), "error", Some(message), now_ms);
    DrainStep { state: DrainState { stage: DrainStage::Done, ..state }, action: DrainAction::Reply(reply) }
}

/// What is asked for is refused before anything is looked at.
pub open spec fn drain_begins(command_id: Seq<char>, spec: DrainNodeSpecView, now_ms: u128) -> DrainStepView {
    let state = DrainStateView {
        command_id,
        node_name: text::trimmed(spec.node_name),
        force: spec.force,
        timeout_seconds: 0,
        delete_options: None,
        stage: DrainStage::Policies,
        before_unschedulable: false,
        warnings: seq![],
        queue: seq![],
        evicted: seq![],
        remaining: seq![],
        deadline_ms: 0,
    };
    if state.node_name.len() == 0 {
        drain_fails(state, "node_name is required"@, now_ms)
    } else {
        DrainStepView { state, action: DrainActionView::ListPolicies }
    }
}

/// Begins a drain.
pub fn begin_drain(command_id: &str, spec: &DrainNodeSpec, now_ms: u128) -> (r: DrainStep)
    ensures
        r.deep_view() == drain_begins(command_id@, spec.deep_view(), now_ms),
{
    let warnings: Vec<String> = Vec::new();
    let queue: Vec<PodName> = Vec::new();
    let evicted: Vec<String> = Vec::new();
    let remaining: Vec<String> = Vec::new();
    assert(warnings.deep_view() =~= seq![]);
    assert(queue.deep_view() =~= seq![]);
    assert(evicted.deep_view() =~= seq![]);
    assert(remaining.deep_view() =~= seq![]);
    let state = DrainState {
        command_id: owned(command_id),
        node_name: owned(trim(spec.node_name.as_str())),
        force: spec.force,
        timeout_seconds: 0,
        delete_options: None,
        stage: DrainStage::Policies,
        before_unschedulable: false,
        warnings,
        queue,
        evicted,
        remaining,
        deadline_ms: 0,
    };
    if state.node_name.as_str().is_empty() {
        fail_drain(state, owned("node_name is required"), now_ms)
    } else {
        DrainStep { state, action: DrainAction::ListPolicies }
    }
}

/// The policies allow a drain, and what is asked for is in order: the node is looked at.
pub open spec fn drain_allowed(
    state: DrainStateView,
    spec: DrainNodeSpecView,
    policies: Seq<SentinellaHubActionPolicyView>,
    poll_interval_secs: u64,
    now_ms: u128,
) -> DrainStepView {
    match policy::cluster_refusal(policies, "drain_node"@, now_ms, policy::stale_after(poll_interval_secs)) {
        Some(message) => drain_fails(state, message, now_ms),
        None => match drain_timeout(spec.timeout_seconds) {
            Err(message) => drain_fails(state, message, now_ms),
            Ok(timeout_seconds) => match drain_options(spec.grace_period_seconds) {
                Err(message) => drain_fails(state, message, now_ms),
                Ok(delete_options) => DrainStepView {
                    state: DrainStateView { timeout_seconds, delete_options, stage: DrainStage::Node, ..state },
                    action: DrainActionView::GetNode(state.node_name),
                },
            },
        },
    }
}

fn allow_drain(
    state: DrainState,
    spec: &DrainNodeSpec,
    policies: &Vec<SentinellaHubActionPolicy>,
    poll_interval_secs: u64,
    now_ms: u128,
) -> (r: DrainStep)
    ensures
        r.deep_view() == drain_allowed(
            state.deep_view(),
            spec.deep_view(),
            policies.deep_view(),
            poll_interval_secs,
            now_ms,
        ),
{
    match refuse_cluster_action(policies, "drain_node", now_ms, stale_after_ms(poll_interval_secs)) {
        Some(message) => fail_drain(state, message, now_ms),
        None => match drain_timeout_duration(spec) {
            Err(message) => fail_drain(state, message, now_ms),
            Ok(timeout_seconds) => match drain_delete_options(spec) {
                Err(message) => fail_drain(state, message, now_ms),
                Ok(delete_options) => {
                    let action = DrainAction::GetNode(owned(state.node_name.as_str()));
                    DrainStep {
                        state: DrainState { timeout_seconds, delete_options, stage: DrainStage::Node, ..state },
                        action,
                    }
                },
            },
        },
    }
}

/// What is said of the pods that are forced to leave.
pub open spec fn forced_notes(names: Seq<Seq<char>>) -> Seq<Seq<char>> {
    names.map_values(|name: Seq<char>| "forced unmanaged pod "@ + name)
}

fn note_forced(names: &Vec<String>) -> (r: Vec<String>)
    ensures
        r.deep_view() == forced_notes(names.deep_view()),
{
    let note = |name: &String| -> (r: String)
        ensures
            r.deep_view() == "forced unmanaged pod "@ + name.deep_view(),
        { text2("forced unmanaged pod ", name.as_str()) };
    map_items(names, note, Ghost(|name: Seq<char>| "forced unmanaged pod "@ + name))
}

/// The patch that closes a node to new pods.
pub open spec fn cordon_patch() -> JsonView {
    json::one_member("spec"@, json::one_member("unschedulable"@, JsonView::Bool(true)))
}

/// The pods of the node are known: the drain is refused where some would not come back and that
/// is not forced, else the node is closed.
pub open spec fn drain_surveyed(state: DrainStateView, pods: Seq<PodView>, now_ms: u128) -> DrainStepView {
    let unmanaged = unmanaged_names(pods, state.node_name);
    if !state.force && unmanaged.len() > 0 {
        drain_fails(
            state,
            "refusing to drain Node "@ + state.node_name
                + " because unmanaged Pods require an explicit force path: "@ + text::joined(unmanaged, ", "@),
            now_ms,
        )
    } else {
        DrainStepView {
            state: DrainStateView {
                warnings: ignored_notes(pods, state.node_name) + forced_notes(unmanaged),
                queue: drainable_names(pods, state.node_name, state.force),
                stage: DrainStage::Cordon,
                ..state
            },
            action: DrainActionView::Cordon(state.node_name, cordon_patch()),
        }
    }
}

fn survey_drain(state: DrainState, pods: &Vec<Pod>, now_ms: u128) -> (r: DrainStep)
    ensures
        r.deep_view() == drain_surveyed(state.deep_view(), pods.deep_view(), now_ms),
{
    let (ignored, unmanaged, queue) = classify_pods_on_node(state.node_name.as_str(), pods, state.force);
    if !state.force && unmanaged.len() > 0 {
        let message = text4(
            "refusing to drain Node ",
            state.node_name.as_str(),
            " because unmanaged Pods require an explicit force path: ",
            join(&unmanaged, ", ").as_str(),
        );
        return fail_drain(state, message, now_ms);
    }
    let mut warnings = ignored;
    append_cloned(&mut warnings, &note_forced(&unmanaged));
    let action = DrainAction::Cordon(
        owned(state.node_name.as_str()),
        json_one("spec", json_one("unschedulable", Json::Bool(true))),
    );
    DrainStep { state: DrainState { warnings, queue, stage: DrainStage::Cordon, ..state }, action }
}

/// The next pod is evicted; where none is left, the pods are looked at until the time is up.
pub open spec fn drain_goes_on(state: DrainStateView, now_ms: u128) -> DrainStepView {
    if state.evicted.len() < state.queue.len() {
        DrainStepView {
            state: DrainStateView { stage: DrainStage::Evict, ..state },
            action: DrainActionView::Evict(state.queue[state.evicted.len() as int], state.delete_options),
        }
    } else {
        DrainStepView {
            state: DrainStateView {
                stage: DrainStage::Poll,
                deadline_ms: later_by(now_ms, state.timeout_seconds),
                ..state
            },
            action: DrainActionView::ListPods(state.node_name),
        }
    }
}

/// So many seconds after a time, or the last time there is.
pub open spec fn later_by(time_ms: u128, seconds: u64) -> u128 {
    if time_ms + seconds * 1000 > u128::MAX {
        u128::MAX
    } else {
        (time_ms + seconds * 1000) as u128
    }
}

fn go_on_draining(state: DrainState, now_ms: u128) -> (r: DrainStep)
    ensures
        r.deep_view() == drain_goes_on(state.deep_view(), now_ms),
{
    let done: usize = state.evicted.len();
    if done < state.queue.len() {
        let action = DrainAction::Evict(state.queue[done].deep_clone(), state.delete_options.deep_clone());
        DrainStep { state: DrainState { stage: DrainStage::Evict, ..state }, action }
    } else {
        let action = DrainAction::ListPods(owned(state.node_name.as_str()));
        let deadline_ms: u128 = now_ms.saturating_add(state.timeout_seconds as u128 * 1000);
        DrainStep { state: DrainState { stage: DrainStage::Poll, deadline_ms, ..state }, action }
    }
}

/// A pod has left: the next one.
pub open spec fn drain_evicted(state: DrainStateView, now_ms: u128) -> DrainStepView {
    let name = state.queue[state.evicted.len() as int];
    drain_goes_on(
        DrainStateView { evicted: state.evicted.push(shown_name(name.namespace, name.name)), ..state },
        now_ms,
    )
}

fn record_eviction(state: DrainState, now_ms: u128) -> (r: DrainStep)
    requires
        state.evicted.len() < state.queue.len(),
    ensures
        r.deep_view() == drain_evicted(state.deep_view(), now_ms),
{
    let ghost before = state.evicted.deep_view();
    let name = show_name(&state.queue[state.evicted.len()]);
    let ghost shown = name@;
    let mut evicted = state.evicted;
    evicted.push(name);
    assert(evicted.deep_view() =~= before.push(shown));
    go_on_draining(DrainState { evicted, ..state }, now_ms)
}

/// The answer to a drain that is done.
pub open spec fn drain_answer(state: DrainStateView, now_ms: u128) -> CommandResultView {
    CommandResultView {
        dry_run: Some(false),
        requested_state: Some(json::one_member("nodeName"@, JsonView::Text(state.node_name))),
        observed_before: Some(
            JsonView::Object(
                seq![
                    ("unschedulable"@, JsonView::Bool(state.before_unschedulable)),
                    ("drainablePods"@, JsonView::Number(state.evicted.len() as int)),
                ],
            ),
        ),
        observed_after: Some(
            JsonView::Object(
                seq![
                    ("unschedulable"@, JsonView::Bool(true)),
                    ("evictedPods"@, json::texts_node(state.evicted)),
                    ("remainingPods"@, json::texts_node(state.remaining)),
                    ("warnings"@, json::texts_node(state.warnings)),
                ],
            ),
        ),
        warnings: state.warnings,
        verification: Some(
            ActionVerificationView {
                status: "accepted"@,
                message: Some("node cordoned and pod eviction completed"@),
                observed_state: Some(
                    JsonView::Object(
                        seq![
                            ("unschedulable"@, JsonView::Bool(true)),
                            ("evictedPods"@, json::texts_node(state.evicted)),
                        ],
                    ),
                ),
            },
        ),
        ..command::simple_result(state.command_id, "ok"@, None, now_ms)
    }
}

fn answer_drain(state: &DrainState, now_ms: u128) -> (r: CommandResult)
    ensures
        r.deep_view() == drain_answer(state.deep_view(), now_ms),
{
    let before = json_object2(
        "unschedulable",
        Json::Bool(state.before_unschedulable),
        "drainablePods",
        Json::Number(state.evicted.len() as i128),
    );
    let after = json_object4(
        "unschedulable",
        Json::Bool(true),
        "evictedPods",
        json_texts(&state.evicted),
        "remainingPods",
        json_texts(&state.remaining),
        "warnings",
        json_texts(&state.warnings),
    );
    let verified = json_object2("unschedulable", Json::Bool(true), "evictedPods", json_texts(&state.evicted));
    CommandResult {
        dry_run: Some(false),
        requested_state: Some(json_one("nodeName", json_text(state.node_name.as_str()))),
        observed_before: Some(before),
        observed_after: Some(after),
        warnings: state.warnings.deep_clone(),
        verification: Some(
            ActionVerification {
                status: owned("accepted"),
                message: Some(owned("node cordoned and pod eviction completed")),
                observed_state: Some(verified),
            },
        ),
        ..CommandResult::at(owned(state.command_id.as_str()), "ok", None, now_ms)
    }
}

/// The names as they are shown.
pub open spec fn shown_names(names: Seq<PodNameView>) -> Seq<Seq<char>> {
    names.map_values(|n: PodNameView| shown_name(n.namespace, n.name))
}

fn show_names(names: &Vec<PodName>) -> (r: Vec<String>)
    ensures
        r.deep_view() == shown_names(names.deep_view()),
{
    let show = |n: &PodName| -> (r: String)
        ensures
            r.deep_view() == shown_name(n.deep_view().namespace, n.deep_view().name),
        { show_name(n) };
    map_items(names, show, Ghost(|n: PodNameView| shown_name(n.namespace, n.name)))
}

/// The pods of the node were looked at again: the drain is done where none is left to leave, and
/// fails where the time is up, or where pods have come that would not come back.
pub open spec fn drain_polled(state: DrainStateView, pods: Seq<PodView>, now_ms: u128) -> DrainStepView {
    let unmanaged = unmanaged_names(pods, state.node_name);
    let left = drainable_names(pods, state.node_name, state.force);
    if !state.force && unmanaged.len() > 0 {
        drain_fails(
            state,
            "Node "@ + state.node_name + " gained unmanaged Pods during drain: "@ + text::joined(unmanaged, ", "@),
            now_ms,
        )
    } else {
        let seen = DrainStateView { warnings: state.warnings + forced_notes(unmanaged), ..state };
        if left.len() == 0 {
            DrainStepView {
                state: DrainStateView { stage: DrainStage::Done, ..seen },
                action: DrainActionView::Reply(drain_answer(seen, now_ms)),
            }
        } else if now_ms >= state.deadline_ms {
            drain_fails(
                DrainStateView { remaining: shown_names(left), ..seen },
                "timed out waiting for Node "@ + state.node_name + " to drain; remaining Pods: "@ + text::joined(
                    shown_names(left),
                    ", "@,
                ),
                now_ms,
            )
        } else {
            DrainStepView {
                state: DrainStateView { remaining: shown_names(left), stage: DrainStage::Wait, ..seen },
                action: DrainActionView::Sleep(5),
            }
        }
    }
}

fn poll_drain(state: DrainState, pods: &Vec<Pod>, now_ms: u128) -> (r: DrainStep)
    ensures
        r.deep_view() == drain_polled(state.deep_view(), pods.deep_view(), now_ms),
{
    let (_, unmanaged, left) = classify_pods_on_node(state.node_name.as_str(), pods, state.force);
    if !state.force && unmanaged.len() > 0 {
        let message = text4(
            "Node ",
            state.node_name.as_str(),
            " gained unmanaged Pods during drain: ",
            join(&unmanaged, ", ").as_str(),
        );
        return fail_drain(state, message, now_ms);
    }
    let mut warnings = state.warnings;
    append_cloned(&mut warnings, &note_forced(&unmanaged));
    let seen = DrainState { warnings, ..state };
    if left.len() == 0 {
        let reply = answer_drain(&seen, now_ms);
        return DrainStep { state: DrainState { stage: DrainStage::Done, ..seen }, action: DrainAction::Reply(reply) };
    }
    let remaining = show_names(&left);
    if now_ms >= seen.deadline_ms {
        let message = text4(
            "timed out waiting for Node ",
            seen.node_name.as_str(),
            " to drain; remaining Pods: ",
            join(&remaining, ", ").as_str(),
        );
        return fail_drain(DrainState { remaining, ..seen }, message, now_ms);
    }
    DrainStep { state: DrainState { remaining, stage: DrainStage::Wait, ..seen }, action: DrainAction::Sleep(5) }
}

/// What failed, by what the drain waited for.
pub open spec fn drain_failure(state: DrainStateView, error: Seq<char>) -> Seq<char> {
    match state.stage {
        DrainStage::Node => "failed to get Node "@ + state.node_name + ": "@ + error,
        DrainStage::Pods => "failed to list Pods for drain "@ + state.node_name + ": "@ + error,
        DrainStage::Cordon => "failed to cordon Node "@ + state.node_name + ": "@ + error,
        DrainStage::Evict => {
            let name = state.queue[state.evicted.len() as int];
            "failed to evict Pod "@ + shown_name(name.namespace, name.name) + " while draining Node "@
                + state.node_name + ": "@ + error
        },
        DrainStage::Poll => "failed to poll Pods while draining Node "@ + state.node_name + ": "@ + error,
        _ => error,
    }
}

fn describe_failure(state: &DrainState, error: &str) -> (r: String)
    requires
        state.stage == DrainStage::Evict ==> state.evicted.len() < state.queue.len(),
    ensures
        r@ == drain_failure(state.deep_view(), error@),
{
    match state.stage {
        DrainStage::Node => text4("failed to get Node ", state.node_name.as_str(), ": ", error),
        DrainStage::Pods => text4("failed to list Pods for drain ", state.node_name.as_str(), ": ", error),
        DrainStage::Cordon => text4("failed to cordon Node ", state.node_name.as_str(), ": ", error),
        DrainStage::Evict => {
            let name = show_name(&state.queue[state.evicted.len()]);
            text6(
                "failed to evict Pod ",
                name.as_str(),
                " while draining Node ",
                state.node_name.as_str(),
                ": ",
                error,
            )
        },
        DrainStage::Poll => text4("failed to poll Pods while draining Node ", state.node_name.as_str(), ": ", error),
        _ => owned(error),
    }
}

/// The event is one that the drain waits for.
pub open spec fn drain_awaits(state: DrainStateView, event: DrainEventView) -> bool {
    &&& state.stage == DrainStage::Evict ==> state.evicted.len() < state.queue.len()
    &&& match state.stage {
        DrainStage::Policies => event is Policies || event is Failed,
        DrainStage::Node => event is Node || event is Failed,
        DrainStage::Pods => event is Pods || event is Failed,
        DrainStage::Cordon => event is Done || event is Failed,
        DrainStage::Evict => event is Done || event is Failed,
        DrainStage::Poll => event is Pods || event is Failed,
        DrainStage::Wait => event is Done,
        DrainStage::Done => false,
    }
}

/// What a drain does about what came of what it asked for.
pub open spec fn drain_next(
    state: DrainStateView,
    spec: DrainNodeSpecView,
    event: DrainEventView,
    poll_interval_secs: u64,
    now_ms: u128,
) -> DrainStepView {
    match event {
        DrainEventView::Failed(error) => drain_fails(state, drain_failure(state, error), now_ms),
        DrainEventView::Policies(policies) => drain_allowed(state, spec, policies, poll_interval_secs, now_ms),
        DrainEventView::Node(unschedulable) => DrainStepView {
            state: DrainStateView {
                before_unschedulable: unschedulable.unwrap_or(false),
                stage: DrainStage::Pods,
                ..state
            },
            action: DrainActionView::ListPods(state.node_name),
        },
        DrainEventView::Pods(pods) => if state.stage == DrainStage::Pods {
            drain_surveyed(state, pods, now_ms)
        } else {
            drain_polled(state, pods, now_ms)
        },
        DrainEventView::Done => match state.stage {
            DrainStage::Cordon => drain_goes_on(state, now_ms),
            DrainStage::Evict => drain_evicted(state, now_ms),
            _ => DrainStepView {
                state: DrainStateView { stage: DrainStage::Poll, ..state },
                action: DrainActionView::ListPods(state.node_name),
            },
        },
    }
}

/// Goes on with a drain.
pub fn drain_step(
    state: DrainState,
    spec: &DrainNodeSpec,
    event: &DrainEvent,
    poll_interval_secs: u64,
    now_ms: u128,
) -> (r: DrainStep)
    requires
        drain_awaits(state.deep_view(), event.deep_view()),
    ensures
        r.deep_view() == drain_next(
            state.deep_view(),
            spec.deep_view(),
            event.deep_view(),
            poll_interval_secs,
            now_ms,
        ),
{
    match event {
        DrainEvent::Failed(error) => {
            let message = describe_failure(&state, error.as_str());
            fail_drain(state, message, now_ms)
        },
        DrainEvent::Policies(policies) => allow_drain(state, spec, policies, poll_interval_secs, now_ms),
        DrainEvent::Node(unschedulable) => {
            let action = DrainAction::ListPods(owned(state.node_name.as_str()));
            DrainStep {
                state: DrainState {
                    before_unschedulable: unschedulable.unwrap_or(false),
                    stage: DrainStage::Pods,
                    ..state
                },
                action,
            }
        },
        DrainEvent::Pods(pods) => match state.stage {
            DrainStage::Pods => survey_drain(state, pods, now_ms),
            _ => poll_drain(state, pods, now_ms),
        },
        DrainEvent::Done => match state.stage {
            DrainStage::Cordon => go_on_draining(state, now_ms),
            DrainStage::Evict => record_eviction(state, now_ms),
            _ => {
                let action = DrainAction::ListPods(owned(state.node_name.as_str()));
                DrainStep { state: DrainState { stage: DrainStage::Poll, ..state }, action }
            },
        },
    }
}

// -------------------------------------------------------------------- laws

/// A drain waits for what it asked for, and for nothing once it has answered.
pub open spec fn asks_for_what_it_awaits(step: DrainStepView) -> bool {
    match step.action {
        DrainActionView::ListPolicies => step.state.stage == DrainStage::Policies,
        DrainActionView::GetNode(_) => step.state.stage == DrainStage::Node,
        DrainActionView::ListPods(_) => step.state.stage == DrainStage::Pods || step.state.stage == DrainStage::Poll,
        DrainActionView::Cordon(_, _) => step.state.stage == DrainStage::Cordon,
        DrainActionView::Evict(name, _) => step.state.stage == DrainStage::Evict && step.state.evicted.len()
            < step.state.queue.len() && name == step.state.queue[step.state.evicted.len() as int],
        DrainActionView::Sleep(_) => step.state.stage == DrainStage::Wait,
        DrainActionView::Reply(result) => step.state.stage == DrainStage::Done && result.command_id
            == step.state.command_id,
    }
}

/// From its beginning on, a drain waits for what it asked for, and keeps to its node.
pub proof fn lemma_drain_stays_on_course(
    command_id: Seq<char>,
    state: DrainStateView,
    spec: DrainNodeSpecView,
    event: DrainEventView,
    poll_interval_secs: u64,
    now_ms: u128,
)
    ensures
        asks_for_what_it_awaits(drain_begins(command_id, spec, now_ms)),
        drain_begins(command_id, spec, now_ms).state.node_name == text::trimmed(spec.node_name),
        drain_begins(command_id, spec, now_ms).state.force == spec.force,
        drain_awaits(state, event) ==> {
            let step = drain_next(state, spec, event, poll_interval_secs, now_ms);
            &&& asks_for_what_it_awaits(step)
            &&& step.state.node_name == state.node_name
            &&& step.state.force == state.force
            &&& step.state.command_id == state.command_id
        },
{
}

/// No pod is evicted before the node was closed, and the node is closed only once the policies
/// allow a drain and every pod that would not come back may be forced to leave.
pub proof fn lemma_no_eviction_before_cordon(
    state: DrainStateView,
    spec: DrainNodeSpecView,
    event: DrainEventView,
    poll_interval_secs: u64,
    now_ms: u128,
)
    requires
        drain_awaits(state, event),
    ensures
        ({
            let action = drain_next(state, spec, event, poll_interval_secs, now_ms).action;
            &&& action is Evict ==> event is Done && (state.stage == DrainStage::Cordon || state.stage
                == DrainStage::Evict)
            &&& action is Cordon ==> state.stage == DrainStage::Pods && (event matches DrainEventView::Pods(pods)
                && (state.force || unmanaged_names(pods, state.node_name).len() == 0))
            &&& action is GetNode ==> state.stage == DrainStage::Policies && (event matches DrainEventView::Policies(
                policies,
            ) && policy::cluster_refusal(policies, "drain_node"@, now_ms, policy::stale_after(poll_interval_secs)) is None)
        }),
{
}

/// The pods that are to leave run on the node, and neither the kubelet nor a daemon set would
/// bring them back to it; unless it is forced, something would bring each of them back.
pub proof fn lemma_only_pods_of_the_node_leave(
    pods: Seq<PodView>,
    node_name: Seq<char>,
    force: bool,
    name: PodNameView,
)
    requires
        drainable_names(pods, node_name, force).contains(name),
    ensures
        exists|pod: PodView| #[trigger]
            pods.contains(pod) && name_of_pod(pod) == name && runs_on(pod, node_name) && !is_mirror(pod)
                && !owned_by_daemon_set(pod) && (force || owners_of(pod).len() > 0),
{
    pods.lemma_filter_map_contains(|p: PodView| drainable_name(p, node_name, force), name);
}

/// The pods are evicted one after the other, and a drain that is done has evicted all that were
/// to leave.
pub proof fn lemma_done_drain_evicted_all(
    state: DrainStateView,
    spec: DrainNodeSpecView,
    event: DrainEventView,
    poll_interval_secs: u64,
    now_ms: u128,
)
    requires
        drain_awaits(state, event),
        state.evicted.len() <= state.queue.len(),
        state.stage == DrainStage::Poll || state.stage == DrainStage::Wait ==> state.evicted.len()
            == state.queue.len(),
        state.stage == DrainStage::Policies || state.stage == DrainStage::Node || state.stage == DrainStage::Pods
            || state.stage == DrainStage::Cordon ==> state.evicted.len() == 0,
    ensures
        ({
            let step = drain_next(state, spec, event, poll_interval_secs, now_ms);
            &&& step.state.evicted.len() <= step.state.queue.len()
            &&& step.state.stage == DrainStage::Poll || step.state.stage == DrainStage::Wait
                ==> step.state.evicted.len() == step.state.queue.len()
            &&& (step.action matches DrainActionView::Reply(result) && result.status == "ok"@)
                ==> step.state.evicted.len() == step.state.queue.len()
        }),
{
    reveal_strlit("ok");
    reveal_strlit("error");
    assert("ok"@.len() != "error"@.len());
}

// ------------------------------------------------------------- what it is for

/// A pod is to leave a node: it runs on the node, no annotation says that the kubelet runs it from
/// a file, no daemon set owns it, and something owns it or it is forced.
pub open spec fn must_leave(pod: PodView, node_name: Seq<char>, force: bool) -> bool {
    &&& pod.spec matches Some(spec) && spec.node_name == Some(node_name)
    &&& pod.metadata.annotations matches Some(notes) ==> forall|i: int|
        0 <= i < notes.len() ==> (#[trigger] notes[i]).key != "kubernetes.io/config.mirror"@
    &&& match pod.metadata.owner_references {
        Some(owners) => (owners.len() > 0 || force) && forall|i: int|
            0 <= i < owners.len() ==> (#[trigger] owners[i]).kind != "DaemonSet"@,
        None => force,
    }
}

/// Nothing would bring a pod of a node back: it runs on the node, no annotation says that the
/// kubelet runs it from a file, and nothing owns it.
pub open spec fn is_alone(pod: PodView, node_name: Seq<char>) -> bool {
    &&& pod.spec matches Some(spec) && spec.node_name == Some(node_name)
    &&& pod.metadata.annotations matches Some(notes) ==> forall|i: int|
        0 <= i < notes.len() ==> (#[trigger] notes[i]).key != "kubernetes.io/config.mirror"@
    &&& pod.metadata.owner_references matches Some(owners) ==> owners.len() == 0
}

/// The namespace of a pod and its name, as an answer shows them.
pub open spec fn path_of(pod: PodView) -> Seq<char> {
    (match pod.metadata.namespace {
        Some(namespace) => namespace,
        None => ""@,
    }) + "/"@ + (match pod.metadata.name {
        Some(name) => name,
        None => ""@,
    })
}

/// A pod is taken for one that is to leave, or for one that nothing would bring back, exactly
/// where it is one; and it is named by its namespace and name.
pub proof fn lemma_pods_are_told_apart(pod: PodView, node_name: Seq<char>, force: bool)
    ensures
        drainable_name(pod, node_name, force) is Some <==> must_leave(pod, node_name, force),
        drainable_name(pod, node_name, force) matches Some(name) ==> name.namespace + "/"@ + name.name == path_of(pod)
            && (pod.metadata.namespace matches Some(n) ==> name.namespace == n) && (pod.metadata.name matches Some(n)
            ==> name.name == n),
        unmanaged_name(pod, node_name) == (if is_alone(pod, node_name) {
            Some(path_of(pod))
        } else {
            None
        }),
        ignored_note(pod, node_name) is Some ==> !must_leave(pod, node_name, force) && text::contains_text(
            ignored_note(pod, node_name)->0,
            path_of(pod),
        ),
        pod.spec matches Some(spec) && spec.node_name == Some(node_name) ==> must_leave(pod, node_name, true)
            || ignored_note(pod, node_name) is Some,
{
    if let Some(notes) = pod.metadata.annotations {
        pairs::lemma_value_is_the_first(notes, "kubernetes.io/config.mirror"@, seq![]);
    }
    if let Some(owners) = pod.metadata.owner_references {
        let daemon = |o: OwnerReferenceView| o.kind == "DaemonSet"@;
        if !owners.any(daemon) {
            assert forall|i: int| 0 <= i < owners.len() implies (#[trigger] owners[i]).kind != "DaemonSet"@ by {
                assert(!daemon(owners[i]));
            }
        }
        if forall|i: int| 0 <= i < owners.len() ==> (#[trigger] owners[i]).kind != "DaemonSet"@ {
            assert(!owners.any(daemon));
        }
    }
    if let Some(note) = ignored_note(pod, node_name) {
        let head = if is_mirror(pod) {
            "ignored mirror pod "@
        } else {
            "ignored DaemonSet pod "@
        };
        assert(path_of(pod).subrange(0, path_of(pod).len() as int) =~= path_of(pod));
        assert(text::occurs_at(path_of(pod), path_of(pod), 0));
        text::lemma_held_in_longer(head, path_of(pod), seq![], path_of(pod));
        assert(note =~= head + path_of(pod) + seq![]);
    }
}

proof fn lemma_names_of_leavers(pods: Seq<PodView>, node_name: Seq<char>, force: bool)
    ensures
        drainable_names(pods, node_name, force).len() > 0 <==> exists|i: int|
            0 <= i < pods.len() && must_leave(#[trigger] pods[i], node_name, force),
        unmanaged_names(pods, node_name).len() > 0 <==> exists|i: int|
            0 <= i < pods.len() && is_alone(#[trigger] pods[i], node_name),
        forall|i: int|
            0 <= i < pods.len() && must_leave(#[trigger] pods[i], node_name, force) ==> exists|k: int|
                0 <= k < drainable_names(pods, node_name, force).len() && {
                    let name = #[trigger] drainable_names(pods, node_name, force)[k];
                    name.namespace + "/"@ + name.name == path_of(pods[i])
                },
        forall|i: int|
            0 <= i < pods.len() && is_alone(#[trigger] pods[i], node_name) ==> unmanaged_names(
                pods,
                node_name,
            ).contains(path_of(pods[i])),
{
    let names = drainable_names(pods, node_name, force);
    let alone = unmanaged_names(pods, node_name);
    let f = |p: PodView| drainable_name(p, node_name, force);
    let g = |p: PodView| unmanaged_name(p, node_name);
    assert forall|i: int| 0 <= i < pods.len() && must_leave(#[trigger] pods[i], node_name, force) implies exists|k: int|
        0 <= k < names.len() && {
            let name = #[trigger] names[k];
            name.namespace + "/"@ + name.name == path_of(pods[i])
        } by {
        lemma_pods_are_told_apart(pods[i], node_name, force);
        views::lemma_filter_map_has(pods, f, i);
        let k = choose|k: int| 0 <= k < names.len() && names[k] == f(pods[i])->0;
        assert(names[k] == f(pods[i])->0);
    }
    assert forall|i: int| 0 <= i < pods.len() && is_alone(#[trigger] pods[i], node_name) implies alone.contains(
        path_of(pods[i]),
    ) by {
        lemma_pods_are_told_apart(pods[i], node_name, force);
        views::lemma_filter_map_has(pods, g, i);
    }
    if names.len() > 0 {
        assert(names.contains(names[0]));
        pods.lemma_filter_map_contains(f, names[0]);
        let p = choose|p: PodView| #[trigger] pods.contains(p) && f(p) == Some(names[0]);
        let i = choose|i: int| 0 <= i < pods.len() && pods[i] == p;
        lemma_pods_are_told_apart(pods[i], node_name, force);
        assert(must_leave(pods[i], node_name, force));
    }
    if exists|i: int| 0 <= i < pods.len() && must_leave(#[trigger] pods[i], node_name, force) {
        let i = choose|i: int| 0 <= i < pods.len() && must_leave(#[trigger] pods[i], node_name, force);
        assert(must_leave(pods[i], node_name, force));
    }
    if alone.len() > 0 {
        assert(alone.contains(alone[0]));
        pods.lemma_filter_map_contains(g, alone[0]);
        let p = choose|p: PodView| #[trigger] pods.contains(p) && g(p) == Some(alone[0]);
        let i = choose|i: int| 0 <= i < pods.len() && pods[i] == p;
        lemma_pods_are_told_apart(pods[i], node_name, force);
        assert(is_alone(pods[i], node_name));
    }
    if exists|i: int| 0 <= i < pods.len() && is_alone(#[trigger] pods[i], node_name) {
        let i = choose|i: int| 0 <= i < pods.len() && is_alone(#[trigger] pods[i], node_name);
        assert(is_alone(pods[i], node_name));
    }
}

/// When the pods are listed again, a drain is answered as done exactly where none of them is to
/// leave the node, and none has come that nothing would bring back unless that is forced. Where a
/// pod is still to leave, the drain waits until its time is up; then it is answered with an error
/// that names each such pod.
pub proof fn lemma_drain_is_done_when_all_left(
    state: DrainStateView,
    spec: DrainNodeSpecView,
    pods: Seq<PodView>,
    poll_interval_secs: u64,
    now_ms: u128,
)
    requires
        state.stage == DrainStage::Poll,
    ensures
        ({
            let action = drain_next(state, spec, DrainEventView::Pods(pods), poll_interval_secs, now_ms).action;
            let stays = exists|i: int|
                0 <= i < pods.len() && must_leave(#[trigger] pods[i], state.node_name, state.force);
            let lonely = !state.force && exists|i: int|
                0 <= i < pods.len() && is_alone(#[trigger] pods[i], state.node_name);
            &&& (action matches DrainActionView::Reply(result) && result.status == "ok"@) <==> !stays && !lonely
            &&& stays && !lonely && now_ms < state.deadline_ms ==> action == DrainActionView::Sleep(5)
            &&& (stays && now_ms >= state.deadline_ms) || lonely ==> (action matches DrainActionView::Reply(result)
                && result.status == "error"@ && result.message is Some)
            &&& stays && !lonely && now_ms >= state.deadline_ms ==> forall|i: int|
                0 <= i < pods.len() && must_leave(#[trigger] pods[i], state.node_name, state.force) ==> text::contains_text(
                    action->Reply_0.message->0,
                    path_of(pods[i]),
                )
            &&& lonely ==> forall|i: int|
                0 <= i < pods.len() && is_alone(#[trigger] pods[i], state.node_name) ==> text::contains_text(
                    action->Reply_0.message->0,
                    path_of(pods[i]),
                )
        }),
{
    reveal_strlit("ok");
    reveal_strlit("error");
    assert("ok"@.len() != "error"@.len());
    let force = state.force;
    lemma_names_of_leavers(pods, state.node_name, force);
    let left = drainable_names(pods, state.node_name, force);
    let unmanaged = unmanaged_names(pods, state.node_name);
    let action = drain_next(state, spec, DrainEventView::Pods(pods), poll_interval_secs, now_ms).action;
    if !force && unmanaged.len() > 0 {
        assert forall|i: int| 0 <= i < pods.len() && is_alone(#[trigger] pods[i], state.node_name) implies text::contains_text(
            action->Reply_0.message->0,
            path_of(pods[i]),
        ) by {
            let k = choose|k: int| 0 <= k < unmanaged.len() && unmanaged[k] == path_of(pods[i]);
            text::lemma_joined_holds_each(unmanaged, ", "@, k);
            let head = "Node "@ + state.node_name + " gained unmanaged Pods during drain: "@;
            text::lemma_held_in_longer(head, text::joined(unmanaged, ", "@), seq![], path_of(pods[i]));
            assert(action->Reply_0.message->0 =~= head + text::joined(unmanaged, ", "@) + seq![]);
        }
    } else if left.len() > 0 && now_ms >= state.deadline_ms {
        let shown = shown_names(left);
        assert forall|i: int| 0 <= i < pods.len() && must_leave(#[trigger] pods[i], state.node_name, force) implies text::contains_text(
            action->Reply_0.message->0,
            path_of(pods[i]),
        ) by {
            let k = choose|k: int|
                0 <= k < left.len() && {
                    let name = #[trigger] left[k];
                    name.namespace + "/"@ + name.name == path_of(pods[i])
                };
            assert(shown[k] == path_of(pods[i]));
            text::lemma_joined_holds_each(shown, ", "@, k);
            let head = "timed out waiting for Node "@ + state.node_name + " to drain; remaining Pods: "@;
            text::lemma_held_in_longer(head, text::joined(shown, ", "@), seq![], path_of(pods[i]));
            assert(action->Reply_0.message->0 =~= head + text::joined(shown, ", "@) + seq![]);
        }
    }
}

/// Once the node's pods are known, the node is closed exactly where each pod that nothing would
/// bring back is forced to leave; the drain is refused otherwise, naming those pods. Every pod that
/// is to leave is then waiting to be evicted, and nothing else is.
pub proof fn lemma_drain_is_planned(
    state: DrainStateView,
    spec: DrainNodeSpecView,
    pods: Seq<PodView>,
    poll_interval_secs: u64,
    now_ms: u128,
)
    requires
        state.stage == DrainStage::Pods,
    ensures
        ({
            let step = drain_next(state, spec, DrainEventView::Pods(pods), poll_interval_secs, now_ms);
            let lonely = !state.force && exists|i: int|
                0 <= i < pods.len() && is_alone(#[trigger] pods[i], state.node_name);
            &&& lonely ==> (step.action matches DrainActionView::Reply(result) && result.status == "error"@
                && result.message is Some)
            &&& lonely ==> forall|i: int|
                0 <= i < pods.len() && is_alone(#[trigger] pods[i], state.node_name) ==> text::contains_text(
                    step.action->Reply_0.message->0,
                    path_of(pods[i]),
                )
            &&& !lonely ==> step.action == DrainActionView::Cordon(
                state.node_name,
                JsonView::Object(
                    seq![("spec"@, JsonView::Object(seq![("unschedulable"@, JsonView::Bool(true))]))],
                ),
            )
            &&& !lonely ==> forall|i: int|
                0 <= i < pods.len() && must_leave(#[trigger] pods[i], state.node_name, state.force) ==> exists|k: int|
                    0 <= k < step.state.queue.len() && {
                        let name = #[trigger] step.state.queue[k];
                        name.namespace + "/"@ + name.name == path_of(pods[i])
                    }
            &&& !lonely ==> forall|k: int|
                0 <= k < step.state.queue.len() ==> exists|i: int|
                    0 <= i < pods.len() && must_leave(#[trigger] pods[i], state.node_name, state.force) && path_of(
                        pods[i],
                    ) == (#[trigger] step.state.queue[k]).namespace + "/"@ + step.state.queue[k].name
        }),
{
    let force = state.force;
    lemma_names_of_leavers(pods, state.node_name, force);
    let unmanaged = unmanaged_names(pods, state.node_name);
    let step = drain_next(state, spec, DrainEventView::Pods(pods), poll_interval_secs, now_ms);
    if !force && unmanaged.len() > 0 {
        assert forall|i: int| 0 <= i < pods.len() && is_alone(#[trigger] pods[i], state.node_name) implies text::contains_text(
            step.action->Reply_0.message->0,
            path_of(pods[i]),
        ) by {
            let k = choose|k: int| 0 <= k < unmanaged.len() && unmanaged[k] == path_of(pods[i]);
            text::lemma_joined_holds_each(unmanaged, ", "@, k);
            let head = "refusing to drain Node "@ + state.node_name
                + " because unmanaged Pods require an explicit force path: "@;
            text::lemma_held_in_longer(head, text::joined(unmanaged, ", "@), seq![], path_of(pods[i]));
            assert(step.action->Reply_0.message->0 =~= head + text::joined(unmanaged, ", "@) + seq![]);
        }
    } else {
        let queue = step.state.queue;
        let f = |p: PodView| drainable_name(p, state.node_name, force);
        assert forall|k: int| 0 <= k < queue.len() implies exists|i: int|
            0 <= i < pods.len() && must_leave(#[trigger] pods[i], state.node_name, force) && path_of(pods[i]) == (
            #[trigger] queue[k]).namespace + "/"@ + queue[k].name by {
            assert(queue.contains(queue[k]));
            pods.lemma_filter_map_contains(f, queue[k]);
            let p = choose|p: PodView| #[trigger] pods.contains(p) && f(p) == Some(queue[k]);
            let i = choose|i: int| 0 <= i < pods.len() && pods[i] == p;
            lemma_pods_are_told_apart(pods[i], state.node_name, force);
            assert(must_leave(pods[i], state.node_name, force));
        }
        assert(cordon_patch()->Object_0 =~= seq![
            ("spec"@, JsonView::Object(seq![("unschedulable"@, JsonView::Bool(true))])),
        ]);
    }
}

/// A drain takes the time that is asked for, or five minutes: from one second to one hour, and
/// nothing else is accepted. Its pods are given the grace period that is asked for, never none.
/// The time runs from the last eviction.
pub proof fn lemma_drain_keeps_to_its_time(state: DrainStateView, spec: DrainNodeSpecView, now_ms: u128)
    ensures
        spec.timeout_seconds is None ==> drain_timeout(spec.timeout_seconds) == Ok::<u64, Seq<char>>(300),
        spec.timeout_seconds matches Some(n) ==> (drain_timeout(spec.timeout_seconds) is Ok <==> 1 <= n <= 3600),
        spec.timeout_seconds matches Some(n) ==> 1 <= n <= 3600 ==> drain_timeout(spec.timeout_seconds) == Ok::<
            u64,
            Seq<char>,
        >(n),
        spec.grace_period_seconds is None ==> drain_options(spec.grace_period_seconds) == Ok::<
            Option<DeleteOptionsView>,
            Seq<char>,
        >(None),
        spec.grace_period_seconds matches Some(n) ==> (drain_options(spec.grace_period_seconds) is Ok <==> 1 <= n
            <= i64::MAX),
        spec.grace_period_seconds matches Some(n) ==> 1 <= n <= i64::MAX ==> (drain_options(
            spec.grace_period_seconds,
        ) matches Ok(Some(options)) && options.grace_period_seconds == Some(n as i64)),
        state.evicted.len() >= state.queue.len() && now_ms + state.timeout_seconds * 1000 <= u128::MAX ==> {
            let step = drain_goes_on(state, now_ms);
            step.state.deadline_ms - now_ms == state.timeout_seconds * 1000 && step.action == DrainActionView::ListPods(
                state.node_name,
            )
        },
        state.evicted.len() < state.queue.len() ==> drain_goes_on(state, now_ms).action == DrainActionView::Evict(
            state.queue[state.evicted.len() as int],
            state.delete_options,
        ),
{
}

/// A drain begins with the policies, unless no node is named. It looks at the node only where a
/// policy allows a drain and the times that are asked for are in order, and keeps those times.
pub proof fn lemma_drain_begins_in_order(
    command_id: Seq<char>,
    state: DrainStateView,
    spec: DrainNodeSpecView,
    policies: Seq<SentinellaHubActionPolicyView>,
    poll_interval_secs: u64,
    now_ms: u128,
)
    ensures
        text::trimmed(spec.node_name).len() > 0 ==> drain_begins(command_id, spec, now_ms).action
            == DrainActionView::ListPolicies,
        text::trimmed(spec.node_name).len() == 0 ==> (drain_begins(command_id, spec, now_ms).action matches DrainActionView::Reply(
            result,
        ) && result.status == "error"@ && result.command_id == command_id),
        ({
            let step = drain_next(state, spec, DrainEventView::Policies(policies), poll_interval_secs, now_ms);
            if policy::cluster_refusal(policies, "drain_node"@, now_ms, policy::stale_after(poll_interval_secs)) is None && drain_timeout(
                spec.timeout_seconds,
            ) is Ok && drain_options(spec.grace_period_seconds) is Ok {
                &&& step.action == DrainActionView::GetNode(state.node_name)
                &&& step.state.timeout_seconds == drain_timeout(spec.timeout_seconds)->Ok_0
                &&& step.state.delete_options == drain_options(spec.grace_period_seconds)->Ok_0
            } else {
                step.action matches DrainActionView::Reply(result) && result.status == "error"@
            }
        }),
{
}

/// Each eviction that came about is put down under the pod's namespace and name, and whatever a
/// drain waited for that failed ends it with an error.
pub proof fn lemma_drain_records_and_fails(
    state: DrainStateView,
    spec: DrainNodeSpecView,
    error: Seq<char>,
    poll_interval_secs: u64,
    now_ms: u128,
)
    ensures
        state.stage == DrainStage::Evict && state.evicted.len() < state.queue.len() ==> {
            let step = drain_next(state, spec, DrainEventView::Done, poll_interval_secs, now_ms);
            let name = state.queue[state.evicted.len() as int];
            step.state.evicted == state.evicted + seq![name.namespace + "/"@ + name.name] && step.state.queue
                == state.queue
        },
        drain_next(state, spec, DrainEventView::Failed(error), poll_interval_secs, now_ms).action matches DrainActionView::Reply(
            result,
        ) && result.status == "error"@ && result.message is Some && text::contains_text(result.message->0, error),
{
    let message = drain_failure(state, error);
    if state.stage == DrainStage::Evict && state.evicted.len() < state.queue.len() {
        let name = state.queue[state.evicted.len() as int];
        assert(state.evicted.push(name.namespace + "/"@ + name.name) =~= state.evicted + seq![
            name.namespace + "/"@ + name.name,
        ]);
    }
    let at = message.len() - error.len();
    assert(message.subrange(at, at + error.len()) =~= error);
    assert(text::occurs_at(message, error, at));
}

/// What a drain that is done is answered with: the node, what was evicted, what was said on the
/// way, and that the node is closed.
pub proof fn lemma_drain_answer_shows_what_was_done(state: DrainStateView, now_ms: u128)
    ensures
        ({
            let answer = drain_answer(state, now_ms);
            &&& answer.command_id == state.command_id
            &&& answer.status == "ok"@
            &&& answer.dry_run == Some(false)
            &&& answer.warnings == state.warnings
            &&& answer.finished_at_ms == now_ms
            &&& answer.requested_state matches Some(JsonView::Object(members)) && members.contains(
                ("nodeName"@, JsonView::Text(state.node_name)),
            )
            &&& answer.observed_before matches Some(JsonView::Object(members)) && members.contains(
                ("unschedulable"@, JsonView::Bool(state.before_unschedulable)),
            ) && members.contains(("drainablePods"@, JsonView::Number(state.evicted.len() as int)))
            &&& answer.observed_after matches Some(JsonView::Object(members)) && members.contains(
                ("unschedulable"@, JsonView::Bool(true)),
            ) && members.contains(
                ("evictedPods"@, JsonView::Array(state.evicted.map_values(|s: Seq<char>| JsonView::Text(s)))),
            ) && members.contains(
                ("remainingPods"@, JsonView::Array(state.remaining.map_values(|s: Seq<char>| JsonView::Text(s)))),
            )
        }),
{
    let answer = drain_answer(state, now_ms);
    assert(answer.requested_state->0->Object_0[0] == ("nodeName"@, JsonView::Text(state.node_name)));
    assert(answer.observed_before->0->Object_0[0] == ("unschedulable"@, JsonView::Bool(state.before_unschedulable)));
    assert(answer.observed_before->0->Object_0[1] == ("drainablePods"@, JsonView::Number(state.evicted.len() as int)));
    assert(answer.observed_after->0->Object_0[0] == ("unschedulable"@, JsonView::Bool(true)));
    assert(json::texts_node(state.evicted)->Array_0 =~= state.evicted.map_values(|s: Seq<char>| JsonView::Text(s)));
    assert(json::texts_node(state.remaining)->Array_0 =~= state.remaining.map_values(|s: Seq<char>| JsonView::Text(s)));
    assert(answer.observed_after->0->Object_0[1] == (
        "evictedPods"@,
        JsonView::Array(state.evicted.map_values(|s: Seq<char>| JsonView::Text(s))),
    ));
    assert(answer.observed_after->0->Object_0[2] == (
        "remainingPods"@,
        JsonView::Array(state.remaining.map_values(|s: Seq<char>| JsonView::Text(s))),
    ));
}

} // verus!
