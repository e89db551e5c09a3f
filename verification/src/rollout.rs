//! Restarting the pods of a workload: tried first, then made, then followed until the new pods
//! are there.
use crate::action;
use crate::action::{
    ExecutionSpec, ExecutionSpecView, KubeAction, KubeActionView, KubeEvent, KubeEventView, requested_state,
    workload_kind_is_supported,
};
use crate::clock;
use crate::clock::now_rfc3339;
use crate::command;
use crate::command::{
    ActionVerification, ActionVerificationView, command_error, CommandResult, CommandResultView,
    ExecutionMode,
};
use crate::json;
use crate::json::{Json, json_object6, json_object7, json_text, JsonView};
use crate::objects::{
    DaemonSet, DaemonSetStatusView, DaemonSetView, Deployment, DeploymentStatusView, DeploymentView,
    Namespace, NamespaceView, StatefulSet, StatefulSetStatusView, StatefulSetView,
};
use crate::pairs;
use crate::policy;
use crate::policy::{refuse_command, SentinellaHubActionPolicy, SentinellaHubActionPolicyView, stale_after_ms};
use crate::resize;
use crate::resize::ensure_namespace_action_mode_enabled;
use crate::text;
use crate::text::{owned, text3, text4, text6};
use crate::views::DeepClone;
use crate::workload;
use crate::workload::{
    json_opt_i32, json_opt_i64, observed_restart, rollout_restart_patch, WorkloadObject, WorkloadObjectView,
    WorkloadTargetRef, WorkloadTargetRefView,
};
use vstd::prelude::*;

verus! {

/// How long the new pods are waited for, in milliseconds.
pub const ROLLOUT_TIMEOUT_MS: u128 = 120_000;

/// A restart of a workload's pods.
#[derive(Clone, Debug, PartialEq, Eq)]
pub struct RolloutRestartSpec {
    pub target: WorkloadTargetRef,
    pub execution: ExecutionSpec,
}

/// The view of [`RolloutRestartSpec`].
pub struct RolloutRestartSpecView {
    pub target: WorkloadTargetRefView,
    pub execution: ExecutionSpecView,
}

impl DeepView for RolloutRestartSpec {
    type V = RolloutRestartSpecView;

    open spec fn deep_view(&self) -> RolloutRestartSpecView {
        RolloutRestartSpecView {
            target: self.target.deep_view(),
            execution: self.execution.deep_view(),
        }
    }
}

impl DeepClone for RolloutRestartSpec {
    fn deep_clone(&self) -> (copy: Self) {
        RolloutRestartSpec {
            target: self.target.deep_clone(),
            execution: self.execution.deep_clone(),
        }
    }
}

/// What a restart waits for.
#[derive(Clone, Copy, Debug, PartialEq, Eq)]
pub enum RolloutStage {
    Policies,
    Namespace,
    DryGet,
    DryPatch,
    LiveGet,
    LivePatch,
    Verify,
    Wait,
    Done,
}

impl DeepView for RolloutStage {
    type V = RolloutStage;

    open spec fn deep_view(&self) -> RolloutStage {
        *self
    }
}

impl DeepClone for RolloutStage {
    fn deep_clone(&self) -> (copy: Self) {
        *self
    }
}

/// A restart that is under way.
#[derive(Clone, Debug, PartialEq, Eq)]
pub struct RolloutState {
    pub command_id: String,
    pub spec: RolloutRestartSpec,
    pub restart_at: String,
    pub stage: RolloutStage,
    pub observed_before: Option<Json>,
    pub observed_after: Option<Json>,
    pub deadline_ms: u128,
}

/// The view of [`RolloutState`].
pub struct RolloutStateView {
    pub command_id: Seq<char>,
    pub spec: RolloutRestartSpecView,
    pub restart_at: Seq<char>,
    pub stage: RolloutStage,
    pub observed_before: Option<JsonView>,
    pub observed_after: Option<JsonView>,
    pub deadline_ms: u128,
}

impl DeepView for RolloutState {
    type V = RolloutStateView;

    open spec fn deep_view(&self) -> RolloutStateView {
        RolloutStateView {
            command_id: self.command_id.deep_view(),
            spec: self.spec.deep_view(),
            restart_at: self.restart_at.deep_view(),
            stage: self.stage.deep_view(),
            observed_before: self.observed_before.deep_view(),
            observed_after: self.observed_after.deep_view(),
            deadline_ms: self.deadline_ms.deep_view(),
        }
    }
}

impl DeepClone for RolloutState {
    fn deep_clone(&self) -> (copy: Self) {
        RolloutState {
            command_id: self.command_id.deep_clone(),
            spec: self.spec.deep_clone(),
            restart_at: self.restart_at.deep_clone(),
            stage: self.stage.deep_clone(),
            observed_before: self.observed_before.deep_clone(),
            observed_after: self.observed_after.deep_clone(),
            deadline_ms: self.deadline_ms.deep_clone(),
        }
    }
}

/// A restart with what it asks for next.
#[derive(Clone, Debug, PartialEq, Eq)]
pub struct RolloutStep {
    pub state: RolloutState,
    pub action: KubeAction,
}

/// The view of [`RolloutStep`].
pub struct RolloutStepView {
    pub state: RolloutStateView,
    pub action: KubeActionView,
}

impl DeepView for RolloutStep {
    type V = RolloutStepView;

    open spec fn deep_view(&self) -> RolloutStepView {
        RolloutStepView {
            state: self.state.deep_view(),
            action: self.action.deep_view(),
        }
    }
}

impl DeepClone for RolloutStep {
    fn deep_clone(&self) -> (copy: Self) {
        RolloutStep {
            state: self.state.deep_clone(),
            action: self.action.deep_clone(),
        }
    }
}

// ------------------------------------------------------- when pods are there

/// The number, or 0 where there is none.
pub open spec fn count_of(n: Option<i32>) -> int {
    match n {
        Some(k) => k as int,
        None => 0,
    }
}

/// The generation, or 0 where there is none.
pub open spec fn generation_of(n: Option<i64>) -> int {
    match n {
        Some(k) => k as int,
        None => 0,
    }
}

/// A field of what is observed of a workload, where something is.
pub open spec fn field_of<S, T>(status: Option<S>, field: spec_fn(S) -> Option<T>) -> Option<T> {
    match status {
        Some(s) => field(s),
        None => None,
    }
}

/// The new pods of a deployment are there.
pub open spec fn deployment_ready(workload: DeploymentView) -> bool {
    let wanted = match workload.spec {
        Some(spec) => spec.replicas.unwrap_or(1) as int,
        None => 1,
    };
    let status = workload.status;
    &&& count_of(field_of(status, |s: DeploymentStatusView| s.updated_replicas)) >= wanted
    &&& count_of(field_of(status, |s: DeploymentStatusView| s.available_replicas)) >= wanted
    &&& generation_of(field_of(status, |s: DeploymentStatusView| s.observed_generation)) >= generation_of(
        workload.metadata.generation,
    )
}

/// What is observed of a deployment that restarts.
pub open spec fn deployment_progress(workload: DeploymentView) -> JsonView {
    let status = workload.status;
    JsonView::Object(
        seq![
            ("ready"@, JsonView::Bool(deployment_ready(workload))),
            ("replicas"@, workload::opt_number_node(workload::opt_int32(field_of(status, |s: DeploymentStatusView| s.replicas)))),
            (
                "updated_replicas"@,
                JsonView::Number(count_of(field_of(status, |s: DeploymentStatusView| s.updated_replicas))),
            ),
            (
                "available_replicas"@,
                JsonView::Number(count_of(field_of(status, |s: DeploymentStatusView| s.available_replicas))),
            ),
            (
                "ready_replicas"@,
                JsonView::Number(count_of(field_of(status, |s: DeploymentStatusView| s.ready_replicas))),
            ),
            (
                "observed_generation"@,
                JsonView::Number(generation_of(field_of(status, |s: DeploymentStatusView| s.observed_generation))),
            ),
        ],
    )
}

fn count(n: Option<i32>) -> (r: i32)
    ensures
        r == count_of(n),
{
    match n {
        Some(k) => k,
        None => 0,
    }
}

fn generation(n: Option<i64>) -> (r: i64)
    ensures
        r == generation_of(n),
{
    match n {
        Some(k) => k,
        None => 0,
    }
}

/// Whether the new pods of a deployment are there, and what is observed of it.
pub fn verify_deployment_rollout(workload: &Deployment) -> (r: (bool, Json))
    ensures
        r.0 == deployment_ready(workload.deep_view()),
        r.1.node() == deployment_progress(workload.deep_view()),
{
    let wanted: i32 = match &workload.spec {
        Some(spec) => spec.replicas.unwrap_or(1),
        None => 1,
    };
    let (replicas, updated, available, ready_replicas, observed) = match &workload.status {
        Some(s) => (
            s.replicas,
            count(s.updated_replicas),
            count(s.available_replicas),
            count(s.ready_replicas),
            generation(s.observed_generation),
        ),
        None => (None, 0, 0, 0, 0),
    };
    let ready = updated >= wanted && available >= wanted && observed >= generation(workload.metadata.generation);
    let shown = json_object6(
        "ready",
        Json::Bool(ready),
        "replicas",
        json_opt_i32(replicas),
        "updated_replicas",
        Json::Number(updated as i128),
        "available_replicas",
        Json::Number(available as i128),
        "ready_replicas",
        Json::Number(ready_replicas as i128),
        "observed_generation",
        Json::Number(observed as i128),
    );
    (ready, shown)
}

/// The new pods of a stateful set are there.
pub open spec fn statefulset_ready(workload: StatefulSetView) -> bool {
    let wanted = match workload.spec {
        Some(spec) => spec.replicas.unwrap_or(1) as int,
        None => 1,
    };
    let status = workload.status;
    &&& count_of(field_of(status, |s: StatefulSetStatusView| s.updated_replicas)) >= wanted
    &&& count_of(field_of(status, |s: StatefulSetStatusView| s.ready_replicas)) >= wanted
    &&& generation_of(field_of(status, |s: StatefulSetStatusView| s.observed_generation)) >= generation_of(
        workload.metadata.generation,
    )
}

/// What is observed of a stateful set that restarts.
pub open spec fn statefulset_progress(workload: StatefulSetView) -> JsonView {
    let status = workload.status;
    JsonView::Object(
        seq![
            ("ready"@, JsonView::Bool(statefulset_ready(workload))),
            (
                "replicas"@,
                JsonView::Number(count_of(field_of(status, |s: StatefulSetStatusView| Some(s.replicas)))),
            ),
            (
                "updated_replicas"@,
                JsonView::Number(count_of(field_of(status, |s: StatefulSetStatusView| s.updated_replicas))),
            ),
            (
                "ready_replicas"@,
                JsonView::Number(count_of(field_of(status, |s: StatefulSetStatusView| s.ready_replicas))),
            ),
            (
                "current_replicas"@,
                JsonView::Number(count_of(field_of(status, |s: StatefulSetStatusView| s.current_replicas))),
            ),
            (
                "observed_generation"@,
                JsonView::Number(generation_of(field_of(status, |s: StatefulSetStatusView| s.observed_generation))),
            ),
        ],
    )
}

/// Whether the new pods of a stateful set are there, and what is observed of it.
pub fn verify_statefulset_rollout(workload: &StatefulSet) -> (r: (bool, Json))
    ensures
        r.0 == statefulset_ready(workload.deep_view()),
        r.1.node() == statefulset_progress(workload.deep_view()),
{
    let wanted: i32 = match &workload.spec {
        Some(spec) => spec.replicas.unwrap_or(1),
        None => 1,
    };
    let (replicas, updated, ready_replicas, current, observed) = match &workload.status {
        Some(s) => (
            s.replicas,
            count(s.updated_replicas),
            count(s.ready_replicas),
            count(s.current_replicas),
            generation(s.observed_generation),
        ),
        None => (0, 0, 0, 0, 0),
    };
    let ready = updated >= wanted && ready_replicas >= wanted && observed >= generation(workload.metadata.generation);
    let shown = json_object6(
        "ready",
        Json::Bool(ready),
        "replicas",
        Json::Number(replicas as i128),
        "updated_replicas",
        Json::Number(updated as i128),
        "ready_replicas",
        Json::Number(ready_replicas as i128),
        "current_replicas",
        Json::Number(current as i128),
        "observed_generation",
        Json::Number(observed as i128),
    );
    (ready, shown)
}

/// The new pods of a daemon set are there, on at least one node.
pub open spec fn daemonset_ready(workload: DaemonSetView) -> bool {
    let status = workload.status;
    let wanted = count_of(field_of(status, |s: DaemonSetStatusView| Some(s.desired_number_scheduled)));
    &&& wanted > 0
    &&& count_of(field_of(status, |s: DaemonSetStatusView| s.updated_number_scheduled)) >= wanted
    &&& count_of(field_of(status, |s: DaemonSetStatusView| s.number_available)) >= wanted
    &&& generation_of(field_of(status, |s: DaemonSetStatusView| s.observed_generation)) >= generation_of(
        workload.metadata.generation,
    )
}

/// What is observed of a daemon set that restarts.
pub open spec fn daemonset_progress(workload: DaemonSetView) -> JsonView {
    let status = workload.status;
    JsonView::Object(
        seq![
            ("ready"@, JsonView::Bool(daemonset_ready(workload))),
            (
                "desired_number_scheduled"@,
                JsonView::Number(count_of(field_of(status, |s: DaemonSetStatusView| Some(s.desired_number_scheduled)))),
            ),
            (
                "current_number_scheduled"@,
                JsonView::Number(count_of(field_of(status, |s: DaemonSetStatusView| Some(s.current_number_scheduled)))),
            ),
            (
                "number_ready"@,
                JsonView::Number(count_of(field_of(status, |s: DaemonSetStatusView| Some(s.number_ready)))),
            ),
            (
                "updated_number_scheduled"@,
                workload::opt_number_node(workload::opt_int32(field_of(status, |s: DaemonSetStatusView| s.updated_number_scheduled))),
            ),
            (
                "number_available"@,
                workload::opt_number_node(workload::opt_int32(field_of(status, |s: DaemonSetStatusView| s.number_available))),
            ),
            (
                "observed_generation"@,
                workload::opt_number_node(workload::opt_int64(field_of(status, |s: DaemonSetStatusView| s.observed_generation))),
            ),
        ],
    )
}

/// Whether the new pods of a daemon set are there, and what is observed of it.
pub fn verify_daemonset_rollout(workload: &DaemonSet) -> (r: (bool, Json))
    ensures
        r.0 == daemonset_ready(workload.deep_view()),
        r.1.node() == daemonset_progress(workload.deep_view()),
{
    let (wanted, current, number_ready, updated, available, observed) = match &workload.status {
        Some(s) => (
            s.desired_number_scheduled,
            s.current_number_scheduled,
            s.number_ready,
            s.updated_number_scheduled,
            s.number_available,
            s.observed_generation,
        ),
        None => (0, 0, 0, None, None, None),
    };
    let ready = wanted > 0 && count(updated) >= wanted && count(available) >= wanted && generation(observed)
        >= generation(workload.metadata.generation);
    let shown = json_object7(
        "ready",
        Json::Bool(ready),
        "desired_number_scheduled",
        Json::Number(wanted as i128),
        "current_number_scheduled",
        Json::Number(current as i128),
        "number_ready",
        Json::Number(number_ready as i128),
        "updated_number_scheduled",
        json_opt_i32(updated),
        "number_available",
        json_opt_i32(available),
        "observed_generation",
        json_opt_i64(observed),
    );
    (ready, shown)
}

/// The new pods of a workload are there.
pub open spec fn workload_ready(workload: WorkloadObjectView) -> bool {
    match workload {
        WorkloadObjectView::Deployment(w) => deployment_ready(w),
        WorkloadObjectView::StatefulSet(w) => statefulset_ready(w),
        WorkloadObjectView::DaemonSet(w) => daemonset_ready(w),
    }
}

/// What is observed of a workload that restarts.
pub open spec fn workload_progress(workload: WorkloadObjectView) -> JsonView {
    match workload {
        WorkloadObjectView::Deployment(w) => deployment_progress(w),
        WorkloadObjectView::StatefulSet(w) => statefulset_progress(w),
        WorkloadObjectView::DaemonSet(w) => daemonset_progress(w),
    }
}

fn verify_rollout(workload: &WorkloadObject) -> (r: (bool, Json))
    ensures
        r.0 == workload_ready(workload.deep_view()),
        r.1.node() == workload_progress(workload.deep_view()),
{
    match workload {
        WorkloadObject::Deployment(w) => verify_deployment_rollout(w),
        WorkloadObject::StatefulSet(w) => verify_statefulset_rollout(w),
        WorkloadObject::DaemonSet(w) => verify_daemonset_rollout(w),
    }
}

// ------------------------------------------------------------------- the steps

/// The restart ends with a failure before it was made.
pub open spec fn rollout_fails(state: RolloutStateView, message: Seq<char>, now_ms: u128) -> RolloutStepView {
    RolloutStepView {
        state: RolloutStateView { stage: RolloutStage::Done, ..state },
        action: KubeActionView::Reply(
            command::failed_command(state.command_id, state.spec.execution.mode, message, now_ms),
        ),
    }
}

fn fail_rollout(state: RolloutState, message: String, now_ms: u128) -> (r: RolloutStep)
    ensures
        r.deep_view() == rollout_fails(state.deep_view(), message@, now_ms),
{
    let reply = command_error(state.command_id.as_str(), state.spec.execution.mode, message, now_ms);
    RolloutStep { state: RolloutState { stage: RolloutStage::Done, ..state }, action: KubeAction::Reply(reply) }
}

/// A restart begins with the policies.
pub open spec fn rollout_begins(
    command_id: Seq<char>,
    spec: RolloutRestartSpecView,
    restart_at: Seq<char>,
) -> RolloutStepView {
    RolloutStepView {
        state: RolloutStateView {
            command_id,
            spec,
            restart_at,
            stage: RolloutStage::Policies,
            observed_before: None,
            observed_after: None,
            deadline_ms: 0,
        },
        action: KubeActionView::ListPolicies,
    }
}

/// Begins a restart that is to be known by a time.
pub fn begin_rollout_at(command_id: &str, spec: RolloutRestartSpec, restart_at: String) -> (r: RolloutStep)
    ensures
        r.deep_view() == rollout_begins(command_id@, spec.deep_view(), restart_at@),
{
    RolloutStep {
        state: RolloutState {
            command_id: owned(command_id),
            spec,
            restart_at,
            stage: RolloutStage::Policies,
            observed_before: None,
            observed_after: None,
            deadline_ms: 0,
        },
        action: KubeAction::ListPolicies,
    }
}

/// Begins a restart that is to be known by the present time.
pub fn begin_rollout(command_id: &str, spec: RolloutRestartSpec) -> (r: RolloutStep)
    ensures
        r.deep_view() == rollout_begins(command_id@, spec.deep_view(), r.state.restart_at@),
        clock::shows_a_time(r.state.restart_at@),
{
    begin_rollout_at(command_id, spec, now_rfc3339())
}

/// The answer to a restart, as far as it has come.
pub open spec fn rollout_answer(state: RolloutStateView, dry_run: bool, now_ms: u128) -> CommandResultView {
    CommandResultView {
        dry_run: Some(dry_run),
        requested_state: Some(
            action::requested_of(
                state.spec.execution.mode,
                state.spec.target,
                "restartedAt"@,
                JsonView::Text(state.restart_at),
            ),
        ),
        applied_patch: Some(workload::restart_patch(state.restart_at)),
        observed_before: state.observed_before,
        observed_after: state.observed_after,
        ..command::simple_result(state.command_id, "ok"@, None, now_ms)
    }
}

fn answer_rollout(state: &RolloutState, dry_run: bool, now_ms: u128) -> (r: CommandResult)
    ensures
        r.deep_view() == rollout_answer(state.deep_view(), dry_run, now_ms),
{
    CommandResult {
        dry_run: Some(dry_run),
        requested_state: Some(
            requested_state(
                state.spec.execution.mode,
                &state.spec.target,
                "restartedAt",
                json_text(state.restart_at.as_str()),
            ),
        ),
        applied_patch: Some(rollout_restart_patch(state.restart_at.as_str())),
        observed_before: state.observed_before.deep_clone(),
        observed_after: state.observed_after.deep_clone(),
        ..CommandResult::at(owned(state.command_id.as_str()), "ok", None, now_ms)
    }
}

/// The policies are known: they allow the restart, and the namespace is asked for, or it fails.
pub open spec fn rollout_judged(
    state: RolloutStateView,
    policies: Seq<SentinellaHubActionPolicyView>,
    poll_interval_secs: u64,
    now_ms: u128,
) -> RolloutStepView {
    match policy::command_refusal(
        policies,
        state.spec.target.namespace,
        "rollout_restart"@,
        Some(state.spec.target.kind),
        None,
        now_ms,
        policy::stale_after(poll_interval_secs),
    ) {
        Some(message) => rollout_fails(state, message, now_ms),
        None => if action::is_workload_kind(state.spec.target.kind) {
            RolloutStepView {
                state: RolloutStateView { stage: RolloutStage::Namespace, ..state },
                action: KubeActionView::GetNamespace(state.spec.target.namespace),
            }
        } else {
            rollout_fails(
                state,
                "unsupported rollout_restart target kind "@ + state.spec.target.kind
                    + "; expected Deployment, StatefulSet, or DaemonSet"@,
                now_ms,
            )
        },
    }
}

fn judge_rollout(
    state: RolloutState,
    policies: &Vec<SentinellaHubActionPolicy>,
    poll_interval_secs: u64,
    now_ms: u128,
) -> (r: RolloutStep)
    ensures
        r.deep_view() == rollout_judged(state.deep_view(), policies.deep_view(), poll_interval_secs, now_ms),
{
    match refuse_command(
        policies,
        state.spec.target.namespace.as_str(),
        "rollout_restart",
        Some(state.spec.target.kind.as_str()),
        None,
        now_ms,
        stale_after_ms(poll_interval_secs),
    ) {
        Some(message) => fail_rollout(state, message, now_ms),
        None => if workload_kind_is_supported(state.spec.target.kind.as_str()) {
            let action = KubeAction::GetNamespace(owned(state.spec.target.namespace.as_str()));
            RolloutStep { state: RolloutState { stage: RolloutStage::Namespace, ..state }, action }
        } else {
            let message = text3(
                "unsupported rollout_restart target kind ",
                state.spec.target.kind.as_str(),
                "; expected Deployment, StatefulSet, or DaemonSet",
            );
            fail_rollout(state, message, now_ms)
        },
    }
}

/// The namespace is known: it is open to actions, or the restart fails.
pub open spec fn rollout_opened(state: RolloutStateView, namespace: NamespaceView, now_ms: u128) -> RolloutStepView {
    match resize::closed_reason(namespace) {
        Some(message) => rollout_fails(state, message, now_ms),
        None => RolloutStepView {
            state: RolloutStateView { stage: RolloutStage::DryGet, ..state },
            action: KubeActionView::GetWorkload(state.spec.target),
        },
    }
}

fn open_rollout(state: RolloutState, namespace: &Namespace, now_ms: u128) -> (r: RolloutStep)
    ensures
        r.deep_view() == rollout_opened(state.deep_view(), namespace.deep_view(), now_ms),
{
    match ensure_namespace_action_mode_enabled(namespace) {
        Err(message) => fail_rollout(state, message, now_ms),
        Ok(_) => {
            let action = KubeAction::GetWorkload(state.spec.target.deep_clone());
            RolloutStep { state: RolloutState { stage: RolloutStage::DryGet, ..state }, action }
        },
    }
}

/// The workload was looked at while the new pods are waited for.
pub open spec fn rollout_watched(
    state: RolloutStateView,
    workload: WorkloadObjectView,
    now_ms: u128,
) -> RolloutStepView {
    if workload_ready(workload) {
        RolloutStepView {
            state: RolloutStateView { stage: RolloutStage::Done, ..state },
            action: KubeActionView::Reply(
                CommandResultView {
                    verification: Some(
                        ActionVerificationView {
                            status: "ready"@,
                            message: Some("workload rollout completed successfully"@),
                            observed_state: Some(workload_progress(workload)),
                        },
                    ),
                    ..rollout_answer(state, false, now_ms)
                },
            ),
        }
    } else {
        RolloutStepView {
            state: RolloutStateView { stage: RolloutStage::Wait, ..state },
            action: KubeActionView::Sleep(2),
        }
    }
}

fn watch_rollout(state: RolloutState, workload: &WorkloadObject, now_ms: u128) -> (r: RolloutStep)
    ensures
        r.deep_view() == rollout_watched(state.deep_view(), workload.deep_view(), now_ms),
{
    let (ready, progress) = verify_rollout(workload);
    if ready {
        let reply = CommandResult {
            verification: Some(
                ActionVerification {
                    status: owned("ready"),
                    message: Some(owned("workload rollout completed successfully")),
                    observed_state: Some(progress),
                },
            ),
            ..answer_rollout(&state, false, now_ms)
        };
        RolloutStep { state: RolloutState { stage: RolloutStage::Done, ..state }, action: KubeAction::Reply(reply) }
    } else {
        RolloutStep { state: RolloutState { stage: RolloutStage::Wait, ..state }, action: KubeAction::Sleep(2) }
    }
}

/// The restart was made, but the new pods could not be followed.
pub open spec fn rollout_lost(state: RolloutStateView, message: Seq<char>, now_ms: u128) -> RolloutStepView {
    RolloutStepView {
        state: RolloutStateView { stage: RolloutStage::Done, ..state },
        action: KubeActionView::Reply(
            CommandResultView {
                status: "error"@,
                message: Some(message),
                verification: Some(
                    ActionVerificationView {
                        status: "failed"@,
                        message: Some("rollout verification failed"@),
                        observed_state: None,
                    },
                ),
                ..rollout_answer(state, false, now_ms)
            },
        ),
    }
}

fn lose_rollout(state: RolloutState, message: String, now_ms: u128) -> (r: RolloutStep)
    ensures
        r.deep_view() == rollout_lost(state.deep_view(), message@, now_ms),
{
    let reply = CommandResult {
        status: "error",
        message: Some(message),
        verification: Some(
            ActionVerification {
                status: owned("failed"),
                message: Some(owned("rollout verification failed")),
                observed_state: None,
            },
        ),
        ..answer_rollout(&state, false, now_ms)
    };
    RolloutStep { state: RolloutState { stage: RolloutStage::Done, ..state }, action: KubeAction::Reply(reply) }
}

/// The workload was looked at, or patched: what a patch gave is what is observed after it.
pub open spec fn rollout_seen(state: RolloutStateView, workload: WorkloadObjectView, now_ms: u128) -> RolloutStepView {
    let observed = json::one_member("restartedAt"@, json::opt_text_node(workload::restarted_at(workload)));
    match state.stage {
        RolloutStage::DryGet => RolloutStepView {
            state: RolloutStateView { observed_before: Some(observed), stage: RolloutStage::DryPatch, ..state },
            action: KubeActionView::PatchWorkload(state.spec.target, workload::restart_patch(state.restart_at), true),
        },
        RolloutStage::DryPatch => {
            let tried = RolloutStateView { observed_after: Some(observed), ..state };
            if state.spec.execution.mode == ExecutionMode::Preview {
                RolloutStepView {
                    state: RolloutStateView { stage: RolloutStage::Done, ..tried },
                    action: KubeActionView::Reply(rollout_answer(tried, true, now_ms)),
                }
            } else {
                RolloutStepView {
                    state: RolloutStateView { stage: RolloutStage::LiveGet, ..tried },
                    action: KubeActionView::GetWorkload(state.spec.target),
                }
            }
        },
        RolloutStage::LiveGet => RolloutStepView {
            state: RolloutStateView { stage: RolloutStage::LivePatch, ..state },
            action: KubeActionView::PatchWorkload(state.spec.target, workload::restart_patch(state.restart_at), false),
        },
        RolloutStage::LivePatch => RolloutStepView {
            state: RolloutStateView {
                observed_after: Some(observed),
                stage: RolloutStage::Verify,
                deadline_ms: later_than(now_ms, ROLLOUT_TIMEOUT_MS),
                ..state
            },
            action: KubeActionView::GetWorkload(state.spec.target),
        },
        _ => rollout_watched(state, workload, now_ms),
    }
}

fn see_rollout(state: RolloutState, workload: &WorkloadObject, now_ms: u128) -> (r: RolloutStep)
    ensures
        r.deep_view() == rollout_seen(state.deep_view(), workload.deep_view(), now_ms),
{
    let target = state.spec.target.deep_clone();
    match state.stage {
        RolloutStage::DryGet => {
            let patch = rollout_restart_patch(state.restart_at.as_str());
            RolloutStep {
                state: RolloutState {
                    observed_before: Some(observed_restart(workload)),
                    stage: RolloutStage::DryPatch,
                    ..state
                },
                action: KubeAction::PatchWorkload(target, patch, true),
            }
        },
        RolloutStage::DryPatch => {
            let tried = RolloutState { observed_after: Some(observed_restart(workload)), ..state };
            if matches!(tried.spec.execution.mode, ExecutionMode::Preview) {
                let reply = answer_rollout(&tried, true, now_ms);
                RolloutStep {
                    state: RolloutState { stage: RolloutStage::Done, ..tried },
                    action: KubeAction::Reply(reply),
                }
            } else {
                RolloutStep {
                    state: RolloutState { stage: RolloutStage::LiveGet, ..tried },
                    action: KubeAction::GetWorkload(target),
                }
            }
        },
        RolloutStage::LiveGet => {
            let patch = rollout_restart_patch(state.restart_at.as_str());
            RolloutStep {
                state: RolloutState { stage: RolloutStage::LivePatch, ..state },
                action: KubeAction::PatchWorkload(target, patch, false),
            }
        },
        RolloutStage::LivePatch => {
            let deadline_ms: u128 = now_ms.saturating_add(ROLLOUT_TIMEOUT_MS);
            RolloutStep {
                state: RolloutState {
                    observed_after: Some(observed_restart(workload)),
                    stage: RolloutStage::Verify,
                    deadline_ms,
                    ..state
                },
                action: KubeAction::GetWorkload(target),
            }
        },
        _ => watch_rollout(state, workload, now_ms),
    }
}

/// A rest is over: the workload is looked at again, unless the time is up.
pub open spec fn rollout_goes_on(state: RolloutStateView, now_ms: u128) -> RolloutStepView {
    if now_ms > state.deadline_ms {
        rollout_lost(
            state,
            "rollout verification timed out for "@ + state.spec.target.namespace + "/"@ + state.spec.target.kind
                + " "@ + state.spec.target.name,
            now_ms,
        )
    } else {
        RolloutStepView {
            state: RolloutStateView { stage: RolloutStage::Verify, ..state },
            action: KubeActionView::GetWorkload(state.spec.target),
        }
    }
}

/// So long after a time, or the last time there is.
pub open spec fn later_than(time_ms: u128, by_ms: u128) -> u128 {
    if time_ms + by_ms > u128::MAX {
        u128::MAX
    } else {
        (time_ms + by_ms) as u128
    }
}

fn go_on_with_rollout(state: RolloutState, now_ms: u128) -> (r: RolloutStep)
    ensures
        r.deep_view() == rollout_goes_on(state.deep_view(), now_ms),
{
    if now_ms > state.deadline_ms {
        let message = text6(
            "rollout verification timed out for ",
            state.spec.target.namespace.as_str(),
            "/",
            state.spec.target.kind.as_str(),
            " ",
            state.spec.target.name.as_str(),
        );
        lose_rollout(state, message, now_ms)
    } else {
        let look = KubeAction::GetWorkload(state.spec.target.deep_clone());
        RolloutStep { state: RolloutState { stage: RolloutStage::Verify, ..state }, action: look }
    }
}

/// What failed, by what the restart waited for.
pub open spec fn rollout_failed(state: RolloutStateView, error: Seq<char>, now_ms: u128) -> RolloutStepView {
    let target = state.spec.target.kind + " "@ + state.spec.target.name;
    match state.stage {
        RolloutStage::Namespace => rollout_fails(
            state,
            "failed to get Namespace "@ + state.spec.target.namespace + ": "@ + error,
            now_ms,
        ),
        RolloutStage::DryGet => rollout_fails(state, "failed to get "@ + target + ": "@ + error, now_ms),
        RolloutStage::LiveGet => rollout_fails(state, "failed to get "@ + target + ": "@ + error, now_ms),
        RolloutStage::DryPatch => rollout_fails(
            state,
            "dry-run patch failed for "@ + target + ": "@ + error,
            now_ms,
        ),
        RolloutStage::LivePatch => rollout_fails(state, "apply patch failed for "@ + target + ": "@ + error, now_ms),
        RolloutStage::Verify => rollout_lost(
            state,
            "failed to read "@ + target + " for rollout verification: "@ + error,
            now_ms,
        ),
        _ => rollout_fails(state, error, now_ms),
    }
}

fn rollout_failure(state: RolloutState, error: &str, now_ms: u128) -> (r: RolloutStep)
    ensures
        r.deep_view() == rollout_failed(state.deep_view(), error@, now_ms),
{
    let target = text3(state.spec.target.kind.as_str(), " ", state.spec.target.name.as_str());
    match state.stage {
        RolloutStage::Namespace => {
            let message = text4("failed to get Namespace ", state.spec.target.namespace.as_str(), ": ", error);
            fail_rollout(state, message, now_ms)
        },
        RolloutStage::DryGet => fail_rollout(state, text4("failed to get ", target.as_str(), ": ", error), now_ms),
        RolloutStage::LiveGet => fail_rollout(state, text4("failed to get ", target.as_str(), ": ", error), now_ms),
        RolloutStage::DryPatch => fail_rollout(
            state,
            text4("dry-run patch failed for ", target.as_str(), ": ", error),
            now_ms,
        ),
        RolloutStage::LivePatch => fail_rollout(
            state,
            text4("apply patch failed for ", target.as_str(), ": ", error),
            now_ms,
        ),
        RolloutStage::Verify => lose_rollout(
            state,
            text4("failed to read ", target.as_str(), " for rollout verification: ", error),
            now_ms,
        ),
        _ => fail_rollout(state, owned(error), now_ms),
    }
}

/// The event is one that the restart waits for.
pub open spec fn rollout_awaits(state: RolloutStateView, event: KubeEventView) -> bool {
    match state.stage {
        RolloutStage::Policies => event is Policies || event is Failed,
        RolloutStage::Namespace => event is Namespace || event is Failed,
        RolloutStage::DryGet => event is Workload || event is Failed,
        RolloutStage::DryPatch => event is Workload || event is Failed,
        RolloutStage::LiveGet => event is Workload || event is Failed,
        RolloutStage::LivePatch => event is Workload || event is Failed,
        RolloutStage::Verify => event is Workload || event is Failed,
        RolloutStage::Wait => event is Done,
        RolloutStage::Done => false,
    }
}

/// What a restart does about what came of what it asked for.
pub open spec fn rollout_next(
    state: RolloutStateView,
    event: KubeEventView,
    poll_interval_secs: u64,
    now_ms: u128,
) -> RolloutStepView {
    match event {
        KubeEventView::Policies(policies) => rollout_judged(state, policies, poll_interval_secs, now_ms),
        KubeEventView::Namespace(namespace) => rollout_opened(state, namespace, now_ms),
        KubeEventView::Workload(workload) => rollout_seen(state, workload, now_ms),
        KubeEventView::Done => rollout_goes_on(state, now_ms),
        KubeEventView::Failed(error) => rollout_failed(state, error, now_ms),
        _ => rollout_fails(state, seq![], now_ms),
    }
}

/// Goes on with a restart.
pub fn rollout_step(state: RolloutState, event: &KubeEvent, poll_interval_secs: u64, now_ms: u128) -> (r: RolloutStep)
    requires
        rollout_awaits(state.deep_view(), event.deep_view()),
    ensures
        r.deep_view() == rollout_next(state.deep_view(), event.deep_view(), poll_interval_secs, now_ms),
{
    match event {
        KubeEvent::Policies(policies) => judge_rollout(state, policies, poll_interval_secs, now_ms),
        KubeEvent::Namespace(namespace) => open_rollout(state, namespace, now_ms),
        KubeEvent::Workload(workload) => see_rollout(state, workload, now_ms),
        KubeEvent::Done => go_on_with_rollout(state, now_ms),
        KubeEvent::Failed(error) => rollout_failure(state, error.as_str(), now_ms),
        _ => fail_rollout(state, String::new(), now_ms),
    }
}

// -------------------------------------------------------------------- laws

/// A restart is made only when it is to be executed, and only after the same patch was tried; a
/// preview never sends a patch that is more than tried. Nothing is patched in a namespace that is
/// not open to actions.
pub proof fn lemma_restart_is_tried_first(
    state: RolloutStateView,
    event: KubeEventView,
    poll_interval_secs: u64,
    now_ms: u128,
)
    requires
        rollout_awaits(state, event),
    ensures
        ({
            let step = rollout_next(state, event, poll_interval_secs, now_ms);
            &&& step.state.spec == state.spec && step.state.restart_at == state.restart_at
            &&& (step.action matches KubeActionView::PatchWorkload(target, patch, dry_run) ==> target
                == state.spec.target && patch == workload::restart_patch(state.restart_at) && dry_run == (state.stage
                == RolloutStage::DryGet))
            &&& step.state.stage == RolloutStage::Namespace ==> state.stage == RolloutStage::Policies
            &&& step.state.stage == RolloutStage::DryGet ==> state.stage == RolloutStage::Namespace && (
            event matches KubeEventView::Namespace(namespace) && resize::closed_reason(namespace) is None)
            &&& step.state.stage == RolloutStage::DryPatch ==> state.stage == RolloutStage::DryGet
            &&& step.state.stage == RolloutStage::LivePatch ==> state.stage == RolloutStage::LiveGet
            &&& step.state.stage == RolloutStage::LiveGet ==> state.stage == RolloutStage::DryPatch && event is Workload
                && state.spec.execution.mode == ExecutionMode::Execute
        }),
{
}

/// Whether a step waits for what it asks for.
pub open spec fn asks_for_what_it_awaits(step: RolloutStepView) -> bool {
    match step.action {
        KubeActionView::ListPolicies => step.state.stage == RolloutStage::Policies,
        KubeActionView::GetNamespace(_) => step.state.stage == RolloutStage::Namespace,
        KubeActionView::GetWorkload(_) => step.state.stage == RolloutStage::DryGet || step.state.stage == RolloutStage::LiveGet || step.state.stage == RolloutStage::Verify,
        KubeActionView::PatchWorkload(_, _, dry_run) => step.state.stage == (if dry_run {
            RolloutStage::DryPatch
        } else {
            RolloutStage::LivePatch
        }),
        KubeActionView::Sleep(_) => step.state.stage == RolloutStage::Wait,
        KubeActionView::Reply(result) => step.state.stage == RolloutStage::Done && result.command_id
            == step.state.command_id,
        _ => false,
    }
}

/// From its beginning on, a restart waits for what it asked for, and keeps to its command.
pub proof fn lemma_rollout_stays_on_course(
    command_id: Seq<char>,
    spec: RolloutRestartSpecView,
    restart_at: Seq<char>,
    state: RolloutStateView,
    event: KubeEventView,
    poll_interval_secs: u64,
    now_ms: u128,
)
    ensures
        asks_for_what_it_awaits(rollout_begins(command_id, spec, restart_at)),
        rollout_awaits(state, event) ==> {
            let step = rollout_next(state, event, poll_interval_secs, now_ms);
            &&& asks_for_what_it_awaits(step)
            &&& step.state.command_id == state.command_id
            &&& step.state.spec == state.spec
            &&& step.state.restart_at == state.restart_at
        },
{
}

// ------------------------------------------------------------- what it is for

/// The new pods of a workload are there: as many as it asks for are updated and serve, and the
/// cluster has seen the last change to it. What a status does not tell counts as none; a deployment
/// or a stateful set that names no number asks for one pod, and a daemon set must be wanted
/// somewhere.
pub open spec fn new_pods_are_there(workload: WorkloadObjectView) -> bool {
    match workload {
        WorkloadObjectView::Deployment(w) => {
            let wanted = if w.spec is Some && w.spec->0.replicas is Some {
                w.spec->0.replicas->0 as int
            } else {
                1
            };
            let generation = if w.metadata.generation is Some {
                w.metadata.generation->0 as int
            } else {
                0
            };
            match w.status {
                None => wanted <= 0 && generation <= 0,
                Some(s) => {
                    &&& s.updated_replicas is None ==> wanted <= 0
                    &&& s.updated_replicas is Some ==> s.updated_replicas->0 >= wanted
                    &&& s.available_replicas is None ==> wanted <= 0
                    &&& s.available_replicas is Some ==> s.available_replicas->0 >= wanted
                    &&& s.observed_generation is None ==> generation <= 0
                    &&& s.observed_generation is Some ==> s.observed_generation->0 >= generation
                },
            }
        },
        WorkloadObjectView::StatefulSet(w) => {
            let wanted = if w.spec is Some && w.spec->0.replicas is Some {
                w.spec->0.replicas->0 as int
            } else {
                1
            };
            let generation = if w.metadata.generation is Some {
                w.metadata.generation->0 as int
            } else {
                0
            };
            match w.status {
                None => wanted <= 0 && generation <= 0,
                Some(s) => {
                    &&& s.updated_replicas is None ==> wanted <= 0
                    &&& s.updated_replicas is Some ==> s.updated_replicas->0 >= wanted
                    &&& s.ready_replicas is None ==> wanted <= 0
                    &&& s.ready_replicas is Some ==> s.ready_replicas->0 >= wanted
                    &&& s.observed_generation is None ==> generation <= 0
                    &&& s.observed_generation is Some ==> s.observed_generation->0 >= generation
                },
            }
        },
        WorkloadObjectView::DaemonSet(w) => {
            let generation = if w.metadata.generation is Some {
                w.metadata.generation->0 as int
            } else {
                0
            };
            w.status matches Some(s) && {
                &&& s.desired_number_scheduled > 0
                &&& s.updated_number_scheduled matches Some(n) && n >= s.desired_number_scheduled
                &&& s.number_available matches Some(n) && n >= s.desired_number_scheduled
                &&& s.observed_generation is None ==> generation <= 0
                &&& s.observed_generation is Some ==> s.observed_generation->0 >= generation
            }
        },
    }
}

/// A restart is answered as completed exactly where the new pods are there; until then it waits,
/// and once its time is up it is answered with an error. A workload that cannot be read ends it
/// with an error too.
pub proof fn lemma_restart_is_done_when_pods_are_there(
    state: RolloutStateView,
    workload: WorkloadObjectView,
    error: Seq<char>,
    poll_interval_secs: u64,
    now_ms: u128,
)
    ensures
        state.stage == RolloutStage::Verify ==> {
            let action = rollout_next(state, KubeEventView::Workload(workload), poll_interval_secs, now_ms).action;
            &&& (action matches KubeActionView::Reply(result) && result.status == "ok"@) <==> new_pods_are_there(
                workload,
            )
            &&& action is Reply ==> (action->Reply_0.verification matches Some(v) && v.status == "ready"@
                && v.observed_state == Some(workload_progress(workload))) && action->Reply_0.dry_run == Some(false)
            &&& !new_pods_are_there(workload) ==> action == KubeActionView::Sleep(2)
        },
        state.stage == RolloutStage::Wait ==> {
            let action = rollout_next(state, KubeEventView::Done, poll_interval_secs, now_ms).action;
            &&& now_ms <= state.deadline_ms ==> action == KubeActionView::GetWorkload(state.spec.target)
            &&& now_ms > state.deadline_ms ==> (action matches KubeActionView::Reply(result) && result.status
                == "error"@ && (result.verification matches Some(v) && v.status == "failed"@))
        },
        state.stage == RolloutStage::LivePatch && now_ms + 120_000 <= u128::MAX ==> rollout_next(
            state,
            KubeEventView::Workload(workload),
            poll_interval_secs,
            now_ms,
        ).state.deadline_ms == now_ms + 120_000,
        rollout_next(state, KubeEventView::Failed(error), poll_interval_secs, now_ms).action matches KubeActionView::Reply(
            result,
        ) && result.status == "error"@ && result.message is Some && text::contains_text(result.message->0, error),
{
    reveal_strlit("ok");
    reveal_strlit("error");
    assert("ok"@.len() != "error"@.len());
    let message = rollout_next(
        state,
        KubeEventView::Failed(error),
        poll_interval_secs,
        now_ms,
    ).action->Reply_0.message->0;
    let at = message.len() - error.len();
    assert(message.subrange(at, at + error.len()) =~= error);
    assert(text::occurs_at(message, error, at));
}

/// What was observed of a workload is shown as it is: each count under its own name.
pub proof fn lemma_progress_shows_the_counts(workload: WorkloadObjectView)
    ensures
        workload_progress(workload) matches JsonView::Object(members) && members.len() > 0 && {
            &&& members[0] == ("ready"@, JsonView::Bool(new_pods_are_there(workload)))
            &&& workload matches WorkloadObjectView::Deployment(w) ==> w.status matches Some(s) ==> {
                &&& s.updated_replicas matches Some(n) ==> members.contains(
                    ("updated_replicas"@, JsonView::Number(n as int)),
                )
                &&& s.available_replicas matches Some(n) ==> members.contains(
                    ("available_replicas"@, JsonView::Number(n as int)),
                )
                &&& s.ready_replicas matches Some(n) ==> members.contains(
                    ("ready_replicas"@, JsonView::Number(n as int)),
                )
            }
            &&& workload matches WorkloadObjectView::StatefulSet(w) ==> w.status matches Some(s) ==> {
                &&& members.contains(("replicas"@, JsonView::Number(s.replicas as int)))
                &&& s.updated_replicas matches Some(n) ==> members.contains(
                    ("updated_replicas"@, JsonView::Number(n as int)),
                )
                &&& s.ready_replicas matches Some(n) ==> members.contains(
                    ("ready_replicas"@, JsonView::Number(n as int)),
                )
                &&& s.current_replicas matches Some(n) ==> members.contains(
                    ("current_replicas"@, JsonView::Number(n as int)),
                )
            }
            &&& workload matches WorkloadObjectView::DaemonSet(w) ==> w.status matches Some(s) ==> {
                &&& members.contains(("desired_number_scheduled"@, JsonView::Number(s.desired_number_scheduled as int)))
                &&& members.contains(("current_number_scheduled"@, JsonView::Number(s.current_number_scheduled as int)))
                &&& members.contains(("number_ready"@, JsonView::Number(s.number_ready as int)))
            }
        },
{
    let members = workload_progress(workload)->Object_0;
    assert(forall|i: int| 0 <= i < members.len() ==> members.contains(#[trigger] members[i]));
    match workload {
        WorkloadObjectView::Deployment(w) => {
            assert(members[2].0 == "updated_replicas"@ && members[3].0 == "available_replicas"@ && members[4].0
                == "ready_replicas"@);
        },
        WorkloadObjectView::StatefulSet(w) => {
            assert(members[1].0 == "replicas"@ && members[2].0 == "updated_replicas"@ && members[3].0
                == "ready_replicas"@ && members[4].0 == "current_replicas"@);
        },
        WorkloadObjectView::DaemonSet(w) => {
            assert(members[1].0 == "desired_number_scheduled"@ && members[2].0 == "current_number_scheduled"@
                && members[3].0 == "number_ready"@);
        },
    }
}

/// Nothing is looked at before a policy allows a restart of the workload, whose kind must be one
/// that makes pods; and nothing before its namespace is open to actions. A preview is answered
/// with what the trial gave, and a restart that is to be executed goes on to make it.
pub proof fn lemma_restart_goes_in_order(
    state: RolloutStateView,
    policies: Seq<SentinellaHubActionPolicyView>,
    namespace: NamespaceView,
    workload: WorkloadObjectView,
    poll_interval_secs: u64,
    now_ms: u128,
)
    ensures
        ({
            let action = rollout_next(state, KubeEventView::Policies(policies), poll_interval_secs, now_ms).action;
            let allowed = policy::command_refusal(
                policies,
                state.spec.target.namespace,
                "rollout_restart"@,
                Some(state.spec.target.kind),
                None,
                now_ms,
                policy::stale_after(poll_interval_secs),
            ) is None;
            let kind = state.spec.target.kind;
            let known = kind == "Deployment"@ || kind == "StatefulSet"@ || kind == "DaemonSet"@;
            &&& allowed && known ==> action == KubeActionView::GetNamespace(state.spec.target.namespace)
            &&& !(allowed && known) ==> (action matches KubeActionView::Reply(result) && result.status == "error"@)
        }),
        ({
            let action = rollout_next(state, KubeEventView::Namespace(namespace), poll_interval_secs, now_ms).action;
            let open = namespace.metadata.labels matches Some(labels) && pairs::gives_value(
                labels,
                "sentinella.io/action-mode"@,
                "enabled"@,
            );
            &&& open ==> action == KubeActionView::GetWorkload(state.spec.target)
            &&& !open ==> (action matches KubeActionView::Reply(result) && result.status == "error"@)
        }),
        state.stage == RolloutStage::DryPatch ==> {
            let step = rollout_next(state, KubeEventView::Workload(workload), poll_interval_secs, now_ms);
            &&& state.spec.execution.mode == ExecutionMode::Preview ==> (step.action matches KubeActionView::Reply(
                result,
            ) && result.status == "ok"@ && result.dry_run == Some(true) && result.observed_before
                == state.observed_before && result.observed_after == Some(
                JsonView::Object(seq![("restartedAt"@, json::opt_text_node(workload::restarted_at(workload)))]),
            ))
            &&& state.spec.execution.mode != ExecutionMode::Preview ==> step.action == KubeActionView::GetWorkload(
                state.spec.target,
            )
        },
{
    reveal_strlit("ok");
    reveal_strlit("error");
    if let Some(labels) = namespace.metadata.labels {
        pairs::lemma_value_is_the_first(labels, "sentinella.io/action-mode"@, "enabled"@);
    }
}

} // verus!
