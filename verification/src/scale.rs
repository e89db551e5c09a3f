//! Scaling a deployment: tried first, then made.
use crate::action;
use crate::action::{
    ExecutionSpec, ExecutionSpecView, KubeAction, KubeActionView, KubeEvent, KubeEventView, requested_state,
    ScaleObject, ScaleObjectView,
};
use crate::command;
use crate::command::{
    ActionVerification, ActionVerificationView, command_error, CommandResult, CommandResultView,
    ExecutionMode,
};
use crate::json;
use crate::json::{Json, json_object2, json_object3, json_one, JsonView};
use crate::objects::{Namespace, NamespaceView};
use crate::order::str_eq;
use crate::pairs;
use crate::policy;
use crate::policy::{refuse_command, SentinellaHubActionPolicy, SentinellaHubActionPolicyView, stale_after_ms};
use crate::resize;
use crate::resize::ensure_namespace_action_mode_enabled;
use crate::rollout;
use crate::text;
use crate::text::{owned, text3, text4};
use crate::views::DeepClone;
use crate::workload;
use crate::workload::{
    json_opt_i32, WorkloadObject, WorkloadObjectView, WorkloadTargetRef, WorkloadTargetRefView,
};
use vstd::prelude::*;

verus! {

/// Another number of pods for a workload.
#[derive(Clone, Debug, PartialEq, Eq)]
pub struct ScaleSpec {
    pub target: WorkloadTargetRef,
    pub replicas: i32,
    pub execution: ExecutionSpec,
}

/// The view of [`ScaleSpec`].
pub struct ScaleSpecView {
    pub target: WorkloadTargetRefView,
    pub replicas: i32,
    pub execution: ExecutionSpecView,
}

impl DeepView for ScaleSpec {
    type V = ScaleSpecView;

    open spec fn deep_view(&self) -> ScaleSpecView {
        ScaleSpecView {
            target: self.target.deep_view(),
            replicas: self.replicas.deep_view(),
            execution: self.execution.deep_view(),
        }
    }
}

impl DeepClone for ScaleSpec {
    fn deep_clone(&self) -> (copy: Self) {
        ScaleSpec {
            target: self.target.deep_clone(),
            replicas: self.replicas.deep_clone(),
            execution: self.execution.deep_clone(),
        }
    }
}

/// What a scaling waits for.
#[derive(Clone, Copy, Debug, PartialEq, Eq)]
pub enum ScaleStage {
    Policies,
    Namespace,
    Workload,
    Scale,
    DryPatch,
    LivePatch,
    Done,
}

impl DeepView for ScaleStage {
    type V = ScaleStage;

    open spec fn deep_view(&self) -> ScaleStage {
        *self
    }
}

impl DeepClone for ScaleStage {
    fn deep_clone(&self) -> (copy: Self) {
        *self
    }
}

/// A scaling that is under way.
#[derive(Clone, Debug, PartialEq, Eq)]
pub struct ScaleState {
    pub command_id: String,
    pub spec: ScaleSpec,
    pub stage: ScaleStage,
    pub ready_replicas: Option<i32>,
    pub available_replicas: Option<i32>,
    pub observed_before: Option<Json>,
    pub observed_after: Option<Json>,
}

/// The view of [`ScaleState`].
pub struct ScaleStateView {
    pub command_id: Seq<char>,
    pub spec: ScaleSpecView,
    pub stage: ScaleStage,
    pub ready_replicas: Option<i32>,
    pub available_replicas: Option<i32>,
    pub observed_before: Option<JsonView>,
    pub observed_after: Option<JsonView>,
}

impl DeepView for ScaleState {
    type V = ScaleStateView;

    open spec fn deep_view(&self) -> ScaleStateView {
        ScaleStateView {
            command_id: self.command_id.deep_view(),
            spec: self.spec.deep_view(),
            stage: self.stage.deep_view(),
            ready_replicas: self.ready_replicas.deep_view(),
            available_replicas: self.available_replicas.deep_view(),
            observed_before: self.observed_before.deep_view(),
            observed_after: self.observed_after.deep_view(),
        }
    }
}

impl DeepClone for ScaleState {
    fn deep_clone(&self) -> (copy: Self) {
        ScaleState {
            command_id: self.command_id.deep_clone(),
            spec: self.spec.deep_clone(),
            stage: self.stage.deep_clone(),
            ready_replicas: self.ready_replicas.deep_clone(),
            available_replicas: self.available_replicas.deep_clone(),
            observed_before: self.observed_before.deep_clone(),
            observed_after: self.observed_after.deep_clone(),
        }
    }
}

/// A scaling with what it asks for next.
#[derive(Clone, Debug, PartialEq, Eq)]
pub struct ScaleStep {
    pub state: ScaleState,
    pub action: KubeAction,
}

/// The view of [`ScaleStep`].
pub struct ScaleStepView {
    pub state: ScaleStateView,
    pub action: KubeActionView,
}

impl DeepView for ScaleStep {
    type V = ScaleStepView;

    open spec fn deep_view(&self) -> ScaleStepView {
        ScaleStepView {
            state: self.state.deep_view(),
            action: self.action.deep_view(),
        }
    }
}

impl DeepClone for ScaleStep {
    fn deep_clone(&self) -> (copy: Self) {
        ScaleStep {
            state: self.state.deep_clone(),
            action: self.action.deep_clone(),
        }
    }
}

/// The scaling ends with a failure.
pub open spec fn scale_fails(state: ScaleStateView, message: Seq<char>, now_ms: u128) -> ScaleStepView {
    ScaleStepView {
        state: ScaleStateView { stage: ScaleStage::Done, ..state },
        action: KubeActionView::Reply(command::failed_command(state.command_id, state.spec.execution.mode, message, now_ms)),
    }
}

fn fail_scale(state: ScaleState, message: String, now_ms: u128) -> (r: ScaleStep)
    ensures
        r.deep_view() == scale_fails(state.deep_view(), message@, now_ms),
{
    let reply = command_error(state.command_id.as_str(), state.spec.execution.mode, message, now_ms);
    ScaleStep { state: ScaleState { stage: ScaleStage::Done, ..state }, action: KubeAction::Reply(reply) }
}

/// A scaling begins with the policies.
pub open spec fn scale_begins(command_id: Seq<char>, spec: ScaleSpecView) -> ScaleStepView {
    ScaleStepView {
        state: ScaleStateView {
            command_id,
            spec,
            stage: ScaleStage::Policies,
            ready_replicas: None,
            available_replicas: None,
            observed_before: None,
            observed_after: None,
        },
        action: KubeActionView::ListPolicies,
    }
}

/// Begins a scaling.
pub fn begin_scale(command_id: &str, spec: ScaleSpec) -> (r: ScaleStep)
    ensures
        r.deep_view() == scale_begins(command_id@, spec.deep_view()),
{
    ScaleStep {
        state: ScaleState {
            command_id: owned(command_id),
            spec,
            stage: ScaleStage::Policies,
            ready_replicas: None,
            available_replicas: None,
            observed_before: None,
            observed_after: None,
        },
        action: KubeAction::ListPolicies,
    }
}

/// The policies are known: they allow the scaling and what is asked for is in order, so that the
/// namespace is asked for, or it fails.
pub open spec fn scale_judged(
    state: ScaleStateView,
    policies: Seq<SentinellaHubActionPolicyView>,
    poll_interval_secs: u64,
    now_ms: u128,
) -> ScaleStepView {
    match policy::command_refusal(
        policies,
        state.spec.target.namespace,
        "scale"@,
        Some(state.spec.target.kind),
        None,
        now_ms,
        policy::stale_after(poll_interval_secs),
    ) {
        Some(message) => scale_fails(state, message, now_ms),
        None => if state.spec.replicas < 0 {
            scale_fails(state, "scale replicas must be greater than or equal to 0"@, now_ms)
        } else if state.spec.target.kind != "Deployment"@ {
            scale_fails(
                state,
                "unsupported scale target kind "@ + state.spec.target.kind + "; expected Deployment"@,
                now_ms,
            )
        } else {
            ScaleStepView {
                state: ScaleStateView { stage: ScaleStage::Namespace, ..state },
                action: KubeActionView::GetNamespace(state.spec.target.namespace),
            }
        },
    }
}

fn judge_scale(
    state: ScaleState,
    policies: &Vec<SentinellaHubActionPolicy>,
    poll_interval_secs: u64,
    now_ms: u128,
) -> (r: ScaleStep)
    ensures
        r.deep_view() == scale_judged(state.deep_view(), policies.deep_view(), poll_interval_secs, now_ms),
{
    match refuse_command(
        policies,
        state.spec.target.namespace.as_str(),
        "scale",
        Some(state.spec.target.kind.as_str()),
        None,
        now_ms,
        stale_after_ms(poll_interval_secs),
    ) {
        Some(message) => fail_scale(state, message, now_ms),
        None => if state.spec.replicas < 0 {
            fail_scale(state, owned("scale replicas must be greater than or equal to 0"), now_ms)
        } else if !str_eq(state.spec.target.kind.as_str(), "Deployment") {
            let message = text3(
                "unsupported scale target kind ",
                state.spec.target.kind.as_str(),
                "; expected Deployment",
            );
            fail_scale(state, message, now_ms)
        } else {
            let action = KubeAction::GetNamespace(owned(state.spec.target.namespace.as_str()));
            ScaleStep { state: ScaleState { stage: ScaleStage::Namespace, ..state }, action }
        },
    }
}

/// The namespace is known: it is open to actions, or the scaling fails.
pub open spec fn scale_opened(state: ScaleStateView, namespace: NamespaceView, now_ms: u128) -> ScaleStepView {
    match resize::closed_reason(namespace) {
        Some(message) => scale_fails(state, message, now_ms),
        None => ScaleStepView {
            state: ScaleStateView { stage: ScaleStage::Workload, ..state },
            action: KubeActionView::GetWorkload(state.spec.target),
        },
    }
}

fn open_scale(state: ScaleState, namespace: &Namespace, now_ms: u128) -> (r: ScaleStep)
    ensures
        r.deep_view() == scale_opened(state.deep_view(), namespace.deep_view(), now_ms),
{
    match ensure_namespace_action_mode_enabled(namespace) {
        Err(message) => fail_scale(state, message, now_ms),
        Ok(_) => {
            let action = KubeAction::GetWorkload(state.spec.target.deep_clone());
            ScaleStep { state: ScaleState { stage: ScaleStage::Workload, ..state }, action }
        },
    }
}

/// The pods of a workload that are ready, and those that are available, as far as it says.
pub open spec fn pods_there(workload: WorkloadObjectView) -> (Option<i32>, Option<i32>) {
    match workload {
        WorkloadObjectView::Deployment(w) => match w.status {
            Some(status) => (status.ready_replicas, status.available_replicas),
            None => (None, None),
        },
        _ => (None, None),
    }
}

fn count_pods(workload: &WorkloadObject) -> (r: (Option<i32>, Option<i32>))
    ensures
        r == pods_there(workload.deep_view()),
{
    match workload {
        WorkloadObject::Deployment(w) => match &w.status {
            Some(status) => (status.ready_replicas, status.available_replicas),
            None => (None, None),
        },
        _ => (None, None),
    }
}

/// The patch that scales a workload.
pub open spec fn scale_patch(replicas: int) -> JsonView {
    json::one_member("spec"@, json::one_member("replicas"@, JsonView::Number(replicas)))
}

fn patch_scale(replicas: i32) -> (r: Json)
    ensures
        r.node() == scale_patch(replicas as int),
{
    json_one("spec", json_one("replicas", Json::Number(replicas as i128)))
}

/// A scale as it is shown.
pub open spec fn shown_scale(scale: ScaleObjectView) -> JsonView {
    JsonView::Object(
        seq![
            ("desired_replicas"@, JsonView::Number(rollout::count_of(scale.desired))),
            ("current_replicas"@, JsonView::Number(rollout::count_of(scale.current))),
        ],
    )
}

fn show_scale(scale: &ScaleObject) -> (r: Json)
    ensures
        r.node() == shown_scale(scale.deep_view()),
{
    let desired: i32 = match scale.desired {
        Some(n) => n,
        None => 0,
    };
    let current: i32 = match scale.current {
        Some(n) => n,
        None => 0,
    };
    json_object2(
        "desired_replicas",
        Json::Number(desired as i128),
        "current_replicas",
        Json::Number(current as i128),
    )
}

/// The answer to a scaling, as far as it has come.
pub open spec fn scale_answer(state: ScaleStateView, dry_run: bool, now_ms: u128) -> CommandResultView {
    CommandResultView {
        dry_run: Some(dry_run),
        requested_state: Some(
            action::requested_of(
                state.spec.execution.mode,
                state.spec.target,
                "replicas"@,
                JsonView::Number(state.spec.replicas as int),
            ),
        ),
        applied_patch: Some(scale_patch(state.spec.replicas as int)),
        observed_before: state.observed_before,
        observed_after: state.observed_after,
        ..command::simple_result(state.command_id, "ok"@, None, now_ms)
    }
}

fn answer_scale(state: &ScaleState, dry_run: bool, now_ms: u128) -> (r: CommandResult)
    ensures
        r.deep_view() == scale_answer(state.deep_view(), dry_run, now_ms),
{
    CommandResult {
        dry_run: Some(dry_run),
        requested_state: Some(
            requested_state(
                state.spec.execution.mode,
                &state.spec.target,
                "replicas",
                Json::Number(state.spec.replicas as i128),
            ),
        ),
        applied_patch: Some(patch_scale(state.spec.replicas)),
        observed_before: state.observed_before.deep_clone(),
        observed_after: state.observed_after.deep_clone(),
        ..CommandResult::at(owned(state.command_id.as_str()), "ok", None, now_ms)
    }
}

/// The scale was read, or patched.
pub open spec fn scale_seen(state: ScaleStateView, scale: ScaleObjectView, now_ms: u128) -> ScaleStepView {
    let patch = scale_patch(state.spec.replicas as int);
    match state.stage {
        ScaleStage::Scale => ScaleStepView {
            state: ScaleStateView {
                observed_before: Some(
                    JsonView::Object(
                        seq![
                            ("replicas"@, workload::opt_number_node(workload::opt_int32(scale.desired))),
                            ("ready_replicas"@, workload::opt_number_node(workload::opt_int32(state.ready_replicas))),
                            ("available_replicas"@, workload::opt_number_node(workload::opt_int32(state.available_replicas))),
                        ],
                    ),
                ),
                stage: ScaleStage::DryPatch,
                ..state
            },
            action: KubeActionView::PatchScale(state.spec.target, patch, true),
        },
        ScaleStage::DryPatch => {
            let tried = ScaleStateView { observed_after: Some(shown_scale(scale)), ..state };
            if state.spec.execution.mode == ExecutionMode::Preview {
                ScaleStepView {
                    state: ScaleStateView { stage: ScaleStage::Done, ..tried },
                    action: KubeActionView::Reply(scale_answer(tried, true, now_ms)),
                }
            } else {
                ScaleStepView {
                    state: ScaleStateView { stage: ScaleStage::LivePatch, ..tried },
                    action: KubeActionView::PatchScale(state.spec.target, patch, false),
                }
            }
        },
        _ => {
            let made = ScaleStateView { observed_after: Some(shown_scale(scale)), ..state };
            ScaleStepView {
                state: ScaleStateView { stage: ScaleStage::Done, ..made },
                action: KubeActionView::Reply(
                    CommandResultView {
                        verification: Some(
                            ActionVerificationView {
                                status: "accepted"@,
                                message: Some("scale request applied; stabilization is tracked separately"@),
                                observed_state: Some(shown_scale(scale)),
                            },
                        ),
                        ..scale_answer(made, false, now_ms)
                    },
                ),
            }
        },
    }
}

fn see_scale(state: ScaleState, scale: &ScaleObject, now_ms: u128) -> (r: ScaleStep)
    ensures
        r.deep_view() == scale_seen(state.deep_view(), scale.deep_view(), now_ms),
{
    match state.stage {
        ScaleStage::Scale => {
            let before = json_object3(
                "replicas",
                json_opt_i32(scale.desired),
                "ready_replicas",
                json_opt_i32(state.ready_replicas),
                "available_replicas",
                json_opt_i32(state.available_replicas),
            );
            let action = KubeAction::PatchScale(
                state.spec.target.deep_clone(),
                patch_scale(state.spec.replicas),
                true,
            );
            ScaleStep {
                state: ScaleState { observed_before: Some(before), stage: ScaleStage::DryPatch, ..state },
                action,
            }
        },
        ScaleStage::DryPatch => {
            let tried = ScaleState { observed_after: Some(show_scale(scale)), ..state };
            if matches!(tried.spec.execution.mode, ExecutionMode::Preview) {
                let reply = answer_scale(&tried, true, now_ms);
                ScaleStep { state: ScaleState { stage: ScaleStage::Done, ..tried }, action: KubeAction::Reply(reply) }
            } else {
                let action = KubeAction::PatchScale(
                    tried.spec.target.deep_clone(),
                    patch_scale(tried.spec.replicas),
                    false,
                );
                ScaleStep { state: ScaleState { stage: ScaleStage::LivePatch, ..tried }, action }
            }
        },
        _ => {
            let made = ScaleState { observed_after: Some(show_scale(scale)), ..state };
            let reply = CommandResult {
                verification: Some(
                    ActionVerification {
                        status: owned("accepted"),
                        message: Some(owned("scale request applied; stabilization is tracked separately")),
                        observed_state: Some(show_scale(scale)),
                    },
                ),
                ..answer_scale(&made, false, now_ms)
            };
            ScaleStep { state: ScaleState { stage: ScaleStage::Done, ..made }, action: KubeAction::Reply(reply) }
        },
    }
}

/// What failed, by what the scaling waited for.
pub open spec fn scale_failure(state: ScaleStateView, error: Seq<char>) -> Seq<char> {
    let name = state.spec.target.name;
    match state.stage {
        ScaleStage::Namespace => "failed to get Namespace "@ + state.spec.target.namespace + ": "@ + error,
        ScaleStage::Workload => "failed to get Deployment "@ + name + ": "@ + error,
        ScaleStage::Scale => "failed to get scale for Deployment "@ + name + ": "@ + error,
        ScaleStage::DryPatch => "scale dry-run failed for Deployment "@ + name + ": "@ + error,
        ScaleStage::LivePatch => "scale apply failed for Deployment "@ + name + ": "@ + error,
        _ => error,
    }
}

fn describe_scale_failure(state: &ScaleState, error: &str) -> (r: String)
    ensures
        r@ == scale_failure(state.deep_view(), error@),
{
    let name = state.spec.target.name.as_str();
    match state.stage {
        ScaleStage::Namespace => text4("failed to get Namespace ", state.spec.target.namespace.as_str(), ": ", error),
        ScaleStage::Workload => text4("failed to get Deployment ", name, ": ", error),
        ScaleStage::Scale => text4("failed to get scale for Deployment ", name, ": ", error),
        ScaleStage::DryPatch => text4("scale dry-run failed for Deployment ", name, ": ", error),
        ScaleStage::LivePatch => text4("scale apply failed for Deployment ", name, ": ", error),
        _ => owned(error),
    }
}

/// The event is one that the scaling waits for.
pub open spec fn scale_awaits(state: ScaleStateView, event: KubeEventView) -> bool {
    match state.stage {
        ScaleStage::Policies => event is Policies || event is Failed,
        ScaleStage::Namespace => event is Namespace || event is Failed,
        ScaleStage::Workload => event is Workload || event is Failed,
        ScaleStage::Scale => event is Scale || event is Failed,
        ScaleStage::DryPatch => event is Scale || event is Failed,
        ScaleStage::LivePatch => event is Scale || event is Failed,
        ScaleStage::Done => false,
    }
}

/// What a scaling does about what came of what it asked for.
pub open spec fn scale_next(
    state: ScaleStateView,
    event: KubeEventView,
    poll_interval_secs: u64,
    now_ms: u128,
) -> ScaleStepView {
    match event {
        KubeEventView::Policies(policies) => scale_judged(state, policies, poll_interval_secs, now_ms),
        KubeEventView::Namespace(namespace) => scale_opened(state, namespace, now_ms),
        KubeEventView::Workload(workload) => ScaleStepView {
            state: ScaleStateView {
                ready_replicas: pods_there(workload).0,
                available_replicas: pods_there(workload).1,
                stage: ScaleStage::Scale,
                ..state
            },
            action: KubeActionView::GetScale(state.spec.target),
        },
        KubeEventView::Scale(scale) => scale_seen(state, scale, now_ms),
        KubeEventView::Failed(error) => scale_fails(state, scale_failure(state, error), now_ms),
        _ => scale_fails(state, seq![], now_ms),
    }
}

/// Goes on with a scaling.
pub fn scale_step(state: ScaleState, event: &KubeEvent, poll_interval_secs: u64, now_ms: u128) -> (r: ScaleStep)
    requires
        scale_awaits(state.deep_view(), event.deep_view()),
    ensures
        r.deep_view() == scale_next(state.deep_view(), event.deep_view(), poll_interval_secs, now_ms),
{
    match event {
        KubeEvent::Policies(policies) => judge_scale(state, policies, poll_interval_secs, now_ms),
        KubeEvent::Namespace(namespace) => open_scale(state, namespace, now_ms),
        KubeEvent::Workload(workload) => {
            let (ready_replicas, available_replicas) = count_pods(workload);
            let action = KubeAction::GetScale(state.spec.target.deep_clone());
            ScaleStep {
                state: ScaleState { ready_replicas, available_replicas, stage: ScaleStage::Scale, ..state },
                action,
            }
        },
        KubeEvent::Scale(scale) => see_scale(state, scale, now_ms),
        KubeEvent::Failed(error) => {
            let message = describe_scale_failure(&state, error.as_str());
            fail_scale(state, message, now_ms)
        },
        _ => fail_scale(state, String::new(), now_ms),
    }
}

/// A scaling is made only when it is to be executed, and only after the same patch was tried; a
/// preview never sends a patch that is more than tried. Nothing is patched in a namespace that is
/// not open to actions.
pub proof fn lemma_scale_is_tried_first(
    state: ScaleStateView,
    event: KubeEventView,
    poll_interval_secs: u64,
    now_ms: u128,
)
    requires
        scale_awaits(state, event),
    ensures
        ({
            let step = scale_next(state, event, poll_interval_secs, now_ms);
            &&& step.state.spec == state.spec
            &&& (step.action matches KubeActionView::PatchScale(target, patch, dry_run) ==> {
                &&& target == state.spec.target
                &&& patch == scale_patch(state.spec.replicas as int)
                &&& dry_run == (state.stage == ScaleStage::Scale)
                &&& !dry_run ==> state.stage == ScaleStage::DryPatch && state.spec.execution.mode
                    == ExecutionMode::Execute
            })
            &&& step.state.stage == ScaleStage::Namespace ==> state.spec.replicas >= 0 && state.spec.target.kind
                == "Deployment"@
            &&& step.state.stage == ScaleStage::Workload ==> state.stage == ScaleStage::Namespace && (
            event matches KubeEventView::Namespace(namespace) && resize::closed_reason(namespace) is None)
        }),
{
}

/// Whether a step waits for what it asks for.
pub open spec fn asks_for_what_it_awaits(step: ScaleStepView) -> bool {
    match step.action {
        KubeActionView::ListPolicies => step.state.stage == ScaleStage::Policies,
        KubeActionView::GetNamespace(_) => step.state.stage == ScaleStage::Namespace,
        KubeActionView::GetWorkload(_) => step.state.stage == ScaleStage::Workload,
        KubeActionView::GetScale(_) => step.state.stage == ScaleStage::Scale,
        KubeActionView::PatchScale(_, _, dry_run) => step.state.stage == (if dry_run {
            ScaleStage::DryPatch
        } else {
            ScaleStage::LivePatch
        }),
        KubeActionView::Reply(result) => step.state.stage == ScaleStage::Done && result.command_id
            == step.state.command_id,
        _ => false,
    }
}

/// From its beginning on, a scaling waits for what it asked for, and keeps to its command.
pub proof fn lemma_scale_stays_on_course(
    command_id: Seq<char>,
    spec: ScaleSpecView,
    state: ScaleStateView,
    event: KubeEventView,
    poll_interval_secs: u64,
    now_ms: u128,
)
    ensures
        asks_for_what_it_awaits(scale_begins(command_id, spec)),
        scale_awaits(state, event) ==> {
            let step = scale_next(state, event, poll_interval_secs, now_ms);
            &&& asks_for_what_it_awaits(step)
            &&& step.state.command_id == state.command_id
            &&& step.state.spec == state.spec
        },
{
}

// ------------------------------------------------------------- what it is for

/// A deployment alone is scaled, to a number that is not negative, where a policy allows it and the
/// namespace is open to actions; anything else is answered with an error.
pub proof fn lemma_scale_only_what_may_be(
    state: ScaleStateView,
    policies: Seq<SentinellaHubActionPolicyView>,
    namespace: NamespaceView,
    error: Seq<char>,
    poll_interval_secs: u64,
    now_ms: u128,
)
    ensures
        ({
            let action = scale_next(state, KubeEventView::Policies(policies), poll_interval_secs, now_ms).action;
            let may = policy::command_refusal(
                policies,
                state.spec.target.namespace,
                "scale"@,
                Some(state.spec.target.kind),
                None,
                now_ms,
                policy::stale_after(poll_interval_secs),
            ) is None && state.spec.replicas >= 0 && state.spec.target.kind == "Deployment"@;
            &&& may ==> action == KubeActionView::GetNamespace(state.spec.target.namespace)
            &&& !may ==> (action matches KubeActionView::Reply(result) && result.status == "error"@)
        }),
        ({
            let action = scale_next(state, KubeEventView::Namespace(namespace), poll_interval_secs, now_ms).action;
            let open = namespace.metadata.labels matches Some(labels) && pairs::gives_value(
                labels,
                "sentinella.io/action-mode"@,
                "enabled"@,
            );
            &&& open ==> action == KubeActionView::GetWorkload(state.spec.target)
            &&& !open ==> (action matches KubeActionView::Reply(result) && result.status == "error"@)
        }),
        scale_next(state, KubeEventView::Failed(error), poll_interval_secs, now_ms).action matches KubeActionView::Reply(
            result,
        ) && result.status == "error"@ && result.message is Some && text::contains_text(result.message->0, error),
{
    if let Some(labels) = namespace.metadata.labels {
        pairs::lemma_value_is_the_first(labels, "sentinella.io/action-mode"@, "enabled"@);
    }
    let message = scale_failure(state, error);
    let at = message.len() - error.len();
    assert(message.subrange(at, at + error.len()) =~= error);
    assert(text::occurs_at(message, error, at));
}

/// What is patched is the number of pods that is asked for, first as a trial. A preview ends with
/// what the trial gave; an execution makes the same patch, and ends with what that gave.
pub proof fn lemma_scale_makes_what_is_asked(
    state: ScaleStateView,
    workload: WorkloadObjectView,
    scale: ScaleObjectView,
    poll_interval_secs: u64,
    now_ms: u128,
)
    ensures
        ({
            let patch = JsonView::Object(
                seq![
                    (
                        "spec"@,
                        JsonView::Object(seq![("replicas"@, JsonView::Number(state.spec.replicas as int))]),
                    ),
                ],
            );
            let step = scale_next(state, KubeEventView::Scale(scale), poll_interval_secs, now_ms);
            &&& state.stage == ScaleStage::Scale ==> step.action == KubeActionView::PatchScale(
                state.spec.target,
                patch,
                true,
            ) && (scale.desired matches Some(n) ==> step.state.observed_before->0->Object_0.contains(
                ("replicas"@, JsonView::Number(n as int)),
            ))
            &&& state.stage == ScaleStage::DryPatch && state.spec.execution.mode == ExecutionMode::Execute
                ==> step.action == KubeActionView::PatchScale(state.spec.target, patch, false)
            &&& state.stage == ScaleStage::DryPatch && state.spec.execution.mode == ExecutionMode::Preview ==> (
            step.action matches KubeActionView::Reply(result) && result.status == "ok"@ && result.dry_run == Some(true)
                && result.applied_patch == Some(patch) && result.observed_before == state.observed_before
                && result.observed_after is Some && shows_scale(result.observed_after->0, scale))
            &&& state.stage == ScaleStage::LivePatch ==> (step.action matches KubeActionView::Reply(result)
                && result.status == "ok"@ && result.dry_run == Some(false) && result.applied_patch == Some(patch)
                && result.observed_before == state.observed_before && result.observed_after is Some && shows_scale(
                result.observed_after->0,
                scale,
            ) && (result.verification matches Some(v) && v.status == "accepted"@))
        }),
        ({
            let step = scale_next(state, KubeEventView::Workload(workload), poll_interval_secs, now_ms);
            &&& step.action == KubeActionView::GetScale(state.spec.target)
            &&& workload matches WorkloadObjectView::Deployment(w) ==> w.status matches Some(s)
                ==> step.state.ready_replicas == s.ready_replicas && step.state.available_replicas == s.available_replicas
        }),
{
    let one = JsonView::Object(seq![("replicas"@, JsonView::Number(state.spec.replicas as int))]);
    assert(scale_patch(state.spec.replicas as int) == JsonView::Object(seq![("spec"@, one)]));
    let before = scale_seen(
        ScaleStateView { stage: ScaleStage::Scale, ..state },
        scale,
        now_ms,
    ).state.observed_before->0->Object_0;
    assert(before[0].0 == "replicas"@);
    assert(before.contains(before[0]));
    let shown = shown_scale(scale)->Object_0;
    assert(shown.contains(shown[0]) && shown.contains(shown[1]));
    assert(shown[0].0 == "desired_replicas"@ && shown[1].0 == "current_replicas"@);
}

/// A value shows how many pods a workload is to have, and has.
pub open spec fn shows_scale(shown: JsonView, scale: ScaleObjectView) -> bool {
    shown matches JsonView::Object(members) && {
        &&& scale.desired matches Some(n) ==> members.contains(("desired_replicas"@, JsonView::Number(n as int)))
        &&& scale.current matches Some(n) ==> members.contains(("current_replicas"@, JsonView::Number(n as int)))
    }
}

} // verus!
