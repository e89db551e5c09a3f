//! Changing the resources of a workload's container, or trying to.
//!
//! The change needs a policy that allows it and a namespace that is open to actions. What the
//! container asks for is observed before and after, and what may stand in the way is told.
use crate::action;
use crate::action::{KubeAction, KubeActionView, KubeEvent, KubeEventView, workload_kind_is_supported};
use crate::command;
use crate::command::{CommandResult, CommandResultView};
use crate::json::{Json, JsonView};
use crate::objects::{Namespace, NamespaceView};
use crate::operator::{ACTION_MODE_NAMESPACE_LABEL, ACTION_MODE_NAMESPACE_LABEL_ENABLED};
use crate::order::str_eq;
use crate::pairs;
use crate::pairs::pair_value;
use crate::policy;
use crate::policy::{
    refuse_command, SentinellaHubActionPolicy, SentinellaHubActionPolicyView, stale_after_ms,
    WorkloadResourcesSpec, WorkloadResourcesSpecView,
};
use crate::text;
use crate::text::{owned, text3, text4, text6, text7};
use crate::views;
use crate::views::{DeepClone, opt_str};
use crate::workload;
use crate::workload::{
    build_workload_resources_patch, workload_container_resources, workload_pod_labels, WorkloadObject,
    WorkloadObjectView, WorkloadTargetRef, WorkloadTargetRefView,
};
use vstd::prelude::*;

verus! {

/// What a change to resources waits for.
#[derive(Clone, Copy, Debug, PartialEq, Eq)]
pub enum ResizeStage {
    Policies,
    Namespace,
    Before,
    Preflight,
    Patch,
    Done,
}

impl DeepView for ResizeStage {
    type V = ResizeStage;

    open spec fn deep_view(&self) -> ResizeStage {
        *self
    }
}

impl DeepClone for ResizeStage {
    fn deep_clone(&self) -> (copy: Self) {
        *self
    }
}

/// A change to resources that is under way.
#[derive(Clone, Debug, PartialEq, Eq)]
pub struct ResizeState {
    pub command_id: String,
    pub spec: WorkloadResourcesSpec,
    pub dry_run: bool,
    pub stage: ResizeStage,
    pub patch: Option<Json>,
    pub observed_before: Option<Json>,
    pub warnings: Vec<String>,
}

/// The view of [`ResizeState`].
pub struct ResizeStateView {
    pub command_id: Seq<char>,
    pub spec: WorkloadResourcesSpecView,
    pub dry_run: bool,
    pub stage: ResizeStage,
    pub patch: Option<JsonView>,
    pub observed_before: Option<JsonView>,
    pub warnings: Seq<Seq<char>>,
}

impl DeepView for ResizeState {
    type V = ResizeStateView;

    open spec fn deep_view(&self) -> ResizeStateView {
        ResizeStateView {
            command_id: self.command_id.deep_view(),
            spec: self.spec.deep_view(),
            dry_run: self.dry_run.deep_view(),
            stage: self.stage.deep_view(),
            patch: self.patch.deep_view(),
            observed_before: self.observed_before.deep_view(),
            warnings: self.warnings.deep_view(),
        }
    }
}

impl DeepClone for ResizeState {
    fn deep_clone(&self) -> (copy: Self) {
        ResizeState {
            command_id: self.command_id.deep_clone(),
            spec: self.spec.deep_clone(),
            dry_run: self.dry_run.deep_clone(),
            stage: self.stage.deep_clone(),
            patch: self.patch.deep_clone(),
            observed_before: self.observed_before.deep_clone(),
            warnings: self.warnings.deep_clone(),
        }
    }
}

/// A change to resources with what it asks for next.
#[derive(Clone, Debug, PartialEq, Eq)]
pub struct ResizeStep {
    pub state: ResizeState,
    pub action: KubeAction,
}

/// The view of [`ResizeStep`].
pub struct ResizeStepView {
    pub state: ResizeStateView,
    pub action: KubeActionView,
}

impl DeepView for ResizeStep {
    type V = ResizeStepView;

    open spec fn deep_view(&self) -> ResizeStepView {
        ResizeStepView {
            state: self.state.deep_view(),
            action: self.action.deep_view(),
        }
    }
}

impl DeepClone for ResizeStep {
    fn deep_clone(&self) -> (copy: Self) {
        ResizeStep {
            state: self.state.deep_clone(),
            action: self.action.deep_clone(),
        }
    }
}

/// Why a namespace is closed to actions, where it is.
pub open spec fn closed_reason(namespace: NamespaceView) -> Option<Seq<char>> {
    let name = views::text_or(namespace.metadata.name, "<unknown>"@);
    match namespace.metadata.labels {
        Some(labels) => match pairs::value_of(labels, ACTION_MODE_NAMESPACE_LABEL@) {
            Some(found) => if found == ACTION_MODE_NAMESPACE_LABEL_ENABLED@ {
                None
            } else {
                Some(
                    "namespace "@ + name + " is not enabled for Sentinella action mode: label "@
                        + ACTION_MODE_NAMESPACE_LABEL@ + "="@ + found + " is required"@,
                )
            },
            None => Some(unlabelled(name)),
        },
        None => Some(unlabelled(name)),
    }
}

/// What is said of a namespace without the label that opens it.
pub open spec fn unlabelled(name: Seq<char>) -> Seq<char> {
    "namespace "@ + name + " is not enabled for Sentinella action mode: add label "@ + ACTION_MODE_NAMESPACE_LABEL@
        + "="@ + ACTION_MODE_NAMESPACE_LABEL_ENABLED@
}

/// Whether a namespace is open to actions; why not, where it is closed.
pub fn ensure_namespace_action_mode_enabled(namespace: &Namespace) -> (r: Result<(), String>)
    ensures
        match r {
            Ok(_) => closed_reason(namespace.deep_view()) is None,
            Err(message) => closed_reason(namespace.deep_view()) == Some(message@),
        },
{
    let name = opt_str(&namespace.metadata.name, "<unknown>");
    let value = match &namespace.metadata.labels {
        Some(labels) => pair_value(labels, ACTION_MODE_NAMESPACE_LABEL),
        None => None,
    };
    match value {
        Some(found) => if str_eq(found, ACTION_MODE_NAMESPACE_LABEL_ENABLED) {
            Ok(())
        } else {
            Err(
                text7(
                    "namespace ",
                    name,
                    " is not enabled for Sentinella action mode: label ",
                    ACTION_MODE_NAMESPACE_LABEL,
                    "=",
                    found,
                    " is required",
                ),
            )
        },
        None => Err(
            text6(
                "namespace ",
                name,
                " is not enabled for Sentinella action mode: add label ",
                ACTION_MODE_NAMESPACE_LABEL,
                "=",
                ACTION_MODE_NAMESPACE_LABEL_ENABLED,
            ),
        ),
    }
}

/// The workload of a change.
pub open spec fn target_of(spec: WorkloadResourcesSpecView) -> WorkloadTargetRefView {
    WorkloadTargetRefView { kind: spec.workload_kind, namespace: spec.namespace, name: spec.name }
}

fn change_target(spec: &WorkloadResourcesSpec) -> (r: WorkloadTargetRef)
    ensures
        r.deep_view() == target_of(spec.deep_view()),
{
    WorkloadTargetRef {
        kind: spec.workload_kind.deep_clone(),
        namespace: spec.namespace.deep_clone(),
        name: spec.name.deep_clone(),
    }
}

/// The command that a change is.
pub open spec fn change_command(dry_run: bool) -> Seq<char> {
    if dry_run {
        "preview_workload_resources"@
    } else {
        "apply_workload_resources"@
    }
}

/// The change ends with a failure.
pub open spec fn resize_fails(state: ResizeStateView, message: Seq<char>, now_ms: u128) -> ResizeStepView {
    ResizeStepView {
        state: ResizeStateView { stage: ResizeStage::Done, ..state },
        action: KubeActionView::Reply(
            CommandResultView {
                dry_run: Some(state.dry_run),
                ..command::simple_result(state.command_id, "error"@, Some(message), now_ms)
            },
        ),
    }
}

fn fail_resize(state: ResizeState, message: String, now_ms: u128) -> (r: ResizeStep)
    ensures
        r.deep_view() == resize_fails(state.deep_view(), message@, now_ms),
{
    let reply = CommandResult {
        dry_run: Some(state.dry_run),
        ..CommandResult::at(owned(state.command_id.as_str()), "error", Some(message), now_ms)
    };
    ResizeStep { state: ResizeState { stage: ResizeStage::Done, ..state }, action: KubeAction::Reply(reply) }
}

/// A change begins with the policies.
pub open spec fn resize_begins(
    command_id: Seq<char>,
    spec: WorkloadResourcesSpecView,
    dry_run: bool,
) -> ResizeStepView {
    ResizeStepView {
        state: ResizeStateView {
            command_id,
            spec,
            dry_run,
            stage: ResizeStage::Policies,
            patch: None,
            observed_before: None,
            warnings: seq![],
        },
        action: KubeActionView::ListPolicies,
    }
}

/// Begins a change, or the trial of one.
pub fn begin_resize(command_id: &str, spec: WorkloadResourcesSpec, dry_run: bool) -> (r: ResizeStep)
    ensures
        r.deep_view() == resize_begins(command_id@, spec.deep_view(), dry_run),
{
    let warnings: Vec<String> = Vec::new();
    assert(warnings.deep_view() =~= seq![]);
    ResizeStep {
        state: ResizeState {
            command_id: owned(command_id),
            spec,
            dry_run,
            stage: ResizeStage::Policies,
            patch: None,
            observed_before: None,
            warnings,
        },
        action: KubeAction::ListPolicies,
    }
}

/// The policies are known: they allow the change, or it fails.
pub open spec fn resize_judged(
    state: ResizeStateView,
    policies: Seq<SentinellaHubActionPolicyView>,
    poll_interval_secs: u64,
    now_ms: u128,
) -> ResizeStepView {
    match policy::command_refusal(
        policies,
        state.spec.namespace,
        change_command(state.dry_run),
        Some(state.spec.workload_kind),
        Some(state.spec),
        now_ms,
        policy::stale_after(poll_interval_secs),
    ) {
        Some(message) => resize_fails(state, message, now_ms),
        None => ResizeStepView {
            state: ResizeStateView { stage: ResizeStage::Namespace, ..state },
            action: KubeActionView::GetNamespace(state.spec.namespace),
        },
    }
}

fn judge_resize(
    state: ResizeState,
    policies: &Vec<SentinellaHubActionPolicy>,
    poll_interval_secs: u64,
    now_ms: u128,
) -> (r: ResizeStep)
    ensures
        r.deep_view() == resize_judged(state.deep_view(), policies.deep_view(), poll_interval_secs, now_ms),
{
    let command = if state.dry_run {
        "preview_workload_resources"
    } else {
        "apply_workload_resources"
    };
    match refuse_command(
        policies,
        state.spec.namespace.as_str(),
        command,
        Some(state.spec.workload_kind.as_str()),
        Some(&state.spec),
        now_ms,
        stale_after_ms(poll_interval_secs),
    ) {
        Some(message) => fail_resize(state, message, now_ms),
        None => {
            let action = KubeAction::GetNamespace(owned(state.spec.namespace.as_str()));
            ResizeStep { state: ResizeState { stage: ResizeStage::Namespace, ..state }, action }
        },
    }
}

/// The namespace is known: it is open to actions and what is asked for is in order, or the
/// change fails.
pub open spec fn resize_opened(state: ResizeStateView, namespace: NamespaceView, now_ms: u128) -> ResizeStepView {
    match closed_reason(namespace) {
        Some(message) => resize_fails(state, message, now_ms),
        None => match workload::resources_patch(state.spec) {
            None => resize_fails(state, "at least one of requests or limits must be provided"@, now_ms),
            Some(patch) => if action::is_workload_kind(state.spec.workload_kind) {
                ResizeStepView {
                    state: ResizeStateView { patch: Some(patch), stage: ResizeStage::Before, ..state },
                    action: KubeActionView::GetWorkload(target_of(state.spec)),
                }
            } else {
                resize_fails(
                    state,
                    "unsupported workload_kind "@ + state.spec.workload_kind
                        + "; expected Deployment, StatefulSet, or DaemonSet"@,
                    now_ms,
                )
            },
        },
    }
}

fn open_resize(state: ResizeState, namespace: &Namespace, now_ms: u128) -> (r: ResizeStep)
    ensures
        r.deep_view() == resize_opened(state.deep_view(), namespace.deep_view(), now_ms),
{
    match ensure_namespace_action_mode_enabled(namespace) {
        Err(message) => fail_resize(state, message, now_ms),
        Ok(_) => match build_workload_resources_patch(&state.spec) {
            Err(message) => fail_resize(state, message, now_ms),
            Ok(patch) => if workload_kind_is_supported(state.spec.workload_kind.as_str()) {
                let action = KubeAction::GetWorkload(change_target(&state.spec));
                ResizeStep {
                    state: ResizeState { patch: Some(patch), stage: ResizeStage::Before, ..state },
                    action,
                }
            } else {
                let message = text3(
                    "unsupported workload_kind ",
                    state.spec.workload_kind.as_str(),
                    "; expected Deployment, StatefulSet, or DaemonSet",
                );
                fail_resize(state, message, now_ms)
            },
        },
    }
}

/// The workload is known as it is: its container is observed, and what may stand in the way is
/// looked for.
pub open spec fn resize_observed(
    state: ResizeStateView,
    workload: WorkloadObjectView,
    now_ms: u128,
) -> ResizeStepView {
    match workload::observed_resources(workload, state.spec.container) {
        Err(message) => resize_fails(state, message, now_ms),
        Ok(observed) => ResizeStepView {
            state: ResizeStateView { observed_before: Some(observed), stage: ResizeStage::Preflight, ..state },
            action: KubeActionView::Preflight(state.spec, workload::pod_labels_of(workload)),
        },
    }
}

fn observe_resize(state: ResizeState, workload: &WorkloadObject, now_ms: u128) -> (r: ResizeStep)
    ensures
        r.deep_view() == resize_observed(state.deep_view(), workload.deep_view(), now_ms),
{
    match workload_container_resources(workload, state.spec.container.as_str()) {
        Err(message) => fail_resize(state, message, now_ms),
        Ok(observed) => {
            let action = KubeAction::Preflight(state.spec.deep_clone(), workload_pod_labels(workload));
            ResizeStep {
                state: ResizeState { observed_before: Some(observed), stage: ResizeStage::Preflight, ..state },
                action,
            }
        },
    }
}

/// The answer to a change that was made, or tried.
pub open spec fn resize_answer(state: ResizeStateView, observed_after: JsonView, now_ms: u128) -> CommandResultView {
    CommandResultView {
        dry_run: Some(state.dry_run),
        applied_patch: state.patch,
        observed_before: state.observed_before,
        observed_after: Some(observed_after),
        warnings: state.warnings,
        ..command::simple_result(state.command_id, "ok"@, None, now_ms)
    }
}

/// The workload is known as it is after the patch.
pub open spec fn resize_patched(
    state: ResizeStateView,
    workload: WorkloadObjectView,
    now_ms: u128,
) -> ResizeStepView {
    match workload::observed_resources(workload, state.spec.container) {
        Err(message) => resize_fails(state, message, now_ms),
        Ok(observed) => ResizeStepView {
            state: ResizeStateView { stage: ResizeStage::Done, ..state },
            action: KubeActionView::Reply(resize_answer(state, observed, now_ms)),
        },
    }
}

fn answer_resize(state: ResizeState, workload: &WorkloadObject, now_ms: u128) -> (r: ResizeStep)
    ensures
        r.deep_view() == resize_patched(state.deep_view(), workload.deep_view(), now_ms),
{
    match workload_container_resources(workload, state.spec.container.as_str()) {
        Err(message) => fail_resize(state, message, now_ms),
        Ok(observed) => {
            let reply = CommandResult {
                dry_run: Some(state.dry_run),
                applied_patch: state.patch.deep_clone(),
                observed_before: state.observed_before.deep_clone(),
                observed_after: Some(observed),
                warnings: state.warnings.deep_clone(),
                ..CommandResult::at(owned(state.command_id.as_str()), "ok", None, now_ms)
            };
            ResizeStep { state: ResizeState { stage: ResizeStage::Done, ..state }, action: KubeAction::Reply(reply) }
        },
    }
}

/// What failed, by what the change waited for.
pub open spec fn resize_failure(state: ResizeStateView, error: Seq<char>) -> Seq<char> {
    match state.stage {
        ResizeStage::Namespace => "failed to get Namespace "@ + state.spec.namespace + ": "@ + error,
        ResizeStage::Before => "failed to get "@ + state.spec.workload_kind + " "@ + state.spec.name + ": "@ + error,
        ResizeStage::Patch => (if state.dry_run {
            "dry-run patch"@
        } else {
            "apply patch"@
        }) + " failed for "@ + state.spec.workload_kind + " "@ + state.spec.name + ": "@ + error,
        _ => error,
    }
}

fn describe_resize_failure(state: &ResizeState, error: &str) -> (r: String)
    ensures
        r@ == resize_failure(state.deep_view(), error@),
{
    match state.stage {
        ResizeStage::Namespace => text4("failed to get Namespace ", state.spec.namespace.as_str(), ": ", error),
        ResizeStage::Before => text6(
            "failed to get ",
            state.spec.workload_kind.as_str(),
            " ",
            state.spec.name.as_str(),
            ": ",
            error,
        ),
        ResizeStage::Patch => text7(
            if state.dry_run {
                "dry-run patch"
            } else {
                "apply patch"
            },
            " failed for ",
            state.spec.workload_kind.as_str(),
            " ",
            state.spec.name.as_str(),
            ": ",
            error,
        ),
        _ => owned(error),
    }
}

/// The event is one that the change waits for.
pub open spec fn resize_awaits(state: ResizeStateView, event: KubeEventView) -> bool {
    match state.stage {
        ResizeStage::Policies => event is Policies || event is Failed,
        ResizeStage::Namespace => event is Namespace || event is Failed,
        ResizeStage::Before => (event is Workload || event is Failed) && state.patch is Some,
        ResizeStage::Preflight => event is Warnings && state.patch is Some,
        ResizeStage::Patch => event is Workload || event is Failed,
        ResizeStage::Done => false,
    }
}

/// What a change does about what came of what it asked for.
pub open spec fn resize_next(
    state: ResizeStateView,
    event: KubeEventView,
    poll_interval_secs: u64,
    now_ms: u128,
) -> ResizeStepView {
    match event {
        KubeEventView::Policies(policies) => resize_judged(state, policies, poll_interval_secs, now_ms),
        KubeEventView::Namespace(namespace) => resize_opened(state, namespace, now_ms),
        KubeEventView::Workload(workload) => if state.stage == ResizeStage::Before {
            resize_observed(state, workload, now_ms)
        } else {
            resize_patched(state, workload, now_ms)
        },
        KubeEventView::Warnings(warnings) => ResizeStepView {
            state: ResizeStateView { warnings, stage: ResizeStage::Patch, ..state },
            action: KubeActionView::PatchWorkload(target_of(state.spec), state.patch->0, state.dry_run),
        },
        KubeEventView::Failed(error) => resize_fails(state, resize_failure(state, error), now_ms),
        _ => resize_fails(state, seq![], now_ms),
    }
}

/// Goes on with a change.
pub fn resize_step(state: ResizeState, event: &KubeEvent, poll_interval_secs: u64, now_ms: u128) -> (r: ResizeStep)
    requires
        resize_awaits(state.deep_view(), event.deep_view()),
    ensures
        r.deep_view() == resize_next(state.deep_view(), event.deep_view(), poll_interval_secs, now_ms),
{
    match event {
        KubeEvent::Policies(policies) => judge_resize(state, policies, poll_interval_secs, now_ms),
        KubeEvent::Namespace(namespace) => open_resize(state, namespace, now_ms),
        KubeEvent::Workload(workload) => match state.stage {
            ResizeStage::Before => observe_resize(state, workload, now_ms),
            _ => answer_resize(state, workload, now_ms),
        },
        KubeEvent::Warnings(warnings) => {
            let patch = match &state.patch {
                Some(patch) => patch.deep_clone(),
                None => Json::Null,
            };
            let action = KubeAction::PatchWorkload(change_target(&state.spec), patch, state.dry_run);
            ResizeStep {
                state: ResizeState { warnings: warnings.deep_clone(), stage: ResizeStage::Patch, ..state },
                action,
            }
        },
        KubeEvent::Failed(error) => {
            let message = describe_resize_failure(&state, error.as_str());
            fail_resize(state, message, now_ms)
        },
        _ => fail_resize(state, String::new(), now_ms),
    }
}

// -------------------------------------------------------------------- laws

/// The trial of a change never makes it: no patch of a preview is more than tried. And a patch is
/// sent only once the policies allowed the change, the namespace was open, and the container was
/// observed.
pub proof fn lemma_preview_changes_nothing(
    state: ResizeStateView,
    event: KubeEventView,
    poll_interval_secs: u64,
    now_ms: u128,
)
    requires
        resize_awaits(state, event),
    ensures
        ({
            let step = resize_next(state, event, poll_interval_secs, now_ms);
            &&& step.state.dry_run == state.dry_run
            &&& step.state.spec == state.spec
            &&& (step.action matches KubeActionView::PatchWorkload(target, patch, dry_run) ==> dry_run
                == state.dry_run && state.stage == ResizeStage::Preflight && target == target_of(state.spec)
                && state.patch == Some(patch))
            &&& step.state.stage == ResizeStage::Preflight && state.stage != ResizeStage::Preflight ==> state.stage
                == ResizeStage::Before && step.state.observed_before is Some
            &&& step.state.stage == ResizeStage::Before ==> state.stage == ResizeStage::Namespace
                && step.state.patch == workload::resources_patch(state.spec)
            &&& step.state.stage == ResizeStage::Namespace ==> state.stage == ResizeStage::Policies
            &&& !(step.action is PatchScale)
        }),
{
}

/// Whether a step waits for what it asks for.
pub open spec fn asks_for_what_it_awaits(step: ResizeStepView) -> bool {
    match step.action {
        KubeActionView::ListPolicies => step.state.stage == ResizeStage::Policies,
        KubeActionView::GetNamespace(_) => step.state.stage == ResizeStage::Namespace,
        KubeActionView::GetWorkload(_) => step.state.stage == ResizeStage::Before && step.state.patch is Some,
        KubeActionView::Preflight(_, _) => step.state.stage == ResizeStage::Preflight && step.state.patch is Some,
        KubeActionView::PatchWorkload(_, _, _) => step.state.stage == ResizeStage::Patch,
        KubeActionView::Reply(result) => step.state.stage == ResizeStage::Done && result.command_id
            == step.state.command_id,
        _ => false,
    }
}

/// From its beginning on, a change waits for what it asked for, and keeps to its command.
pub proof fn lemma_resize_stays_on_course(
    command_id: Seq<char>,
    spec: WorkloadResourcesSpecView,
    dry_run: bool,
    state: ResizeStateView,
    event: KubeEventView,
    poll_interval_secs: u64,
    now_ms: u128,
)
    ensures
        asks_for_what_it_awaits(resize_begins(command_id, spec, dry_run)),
        resize_awaits(state, event) ==> {
            let step = resize_next(state, event, poll_interval_secs, now_ms);
            &&& asks_for_what_it_awaits(step)
            &&& step.state.command_id == state.command_id
            &&& step.state.spec == state.spec
            &&& step.state.dry_run == state.dry_run
        },
{
}

// ------------------------------------------------------------- what it is for

/// A namespace is open to actions exactly where its label for them has the value that opens it.
pub proof fn lemma_open_by_label(namespace: NamespaceView)
    ensures
        closed_reason(namespace) is None <==> (namespace.metadata.labels matches Some(labels) && pairs::gives_value(
            labels,
            "sentinella.io/action-mode"@,
            "enabled"@,
        )),
        closed_reason(namespace) matches Some(reason) ==> namespace.metadata.name matches Some(name) ==> text::contains_text(
            reason,
            name,
        ),
{
    if let Some(labels) = namespace.metadata.labels {
        pairs::lemma_value_is_the_first(labels, "sentinella.io/action-mode"@, "enabled"@);
    }
    if let Some(reason) = closed_reason(namespace) {
        if let Some(name) = namespace.metadata.name {
            let at = "namespace "@.len() as int;
            assert(reason.subrange(at, at + name.len()) =~= name);
            assert(text::occurs_at(reason, name, at));
        }
    }
}

/// A change is looked at only where a policy allows just this change, as the trial or the change
/// that it is; where the namespace is open; where a side is named; and where the workload is of a
/// kind that makes pods. Anything else is answered with an error.
pub proof fn lemma_change_only_what_may_be(
    state: ResizeStateView,
    policies: Seq<SentinellaHubActionPolicyView>,
    namespace: NamespaceView,
    error: Seq<char>,
    poll_interval_secs: u64,
    now_ms: u128,
)
    ensures
        ({
            let action = resize_next(state, KubeEventView::Policies(policies), poll_interval_secs, now_ms).action;
            let may = policy::command_refusal(
                policies,
                state.spec.namespace,
                if state.dry_run {
                    "preview_workload_resources"@
                } else {
                    "apply_workload_resources"@
                },
                Some(state.spec.workload_kind),
                Some(state.spec),
                now_ms,
                policy::stale_after(poll_interval_secs),
            ) is None;
            &&& may ==> action == KubeActionView::GetNamespace(state.spec.namespace)
            &&& !may ==> (action matches KubeActionView::Reply(result) && result.status == "error"@)
        }),
        ({
            let step = resize_next(state, KubeEventView::Namespace(namespace), poll_interval_secs, now_ms);
            let kind = state.spec.workload_kind;
            let may = closed_reason(namespace) is None && (state.spec.requests is Some || state.spec.limits is Some) && (
            kind == "Deployment"@ || kind == "StatefulSet"@ || kind == "DaemonSet"@);
            &&& may ==> step.action == KubeActionView::GetWorkload(
                WorkloadTargetRefView { kind, namespace: state.spec.namespace, name: state.spec.name },
            ) && step.state.patch == workload::resources_patch(state.spec) && step.state.patch is Some
            &&& !may ==> (step.action matches KubeActionView::Reply(result) && result.status == "error"@)
        }),
        resize_next(state, KubeEventView::Failed(error), poll_interval_secs, now_ms).action matches KubeActionView::Reply(
            result,
        ) && result.status == "error"@ && result.message is Some && text::contains_text(result.message->0, error),
{
    let message = resize_failure(state, error);
    let at = message.len() - error.len();
    assert(message.subrange(at, at + error.len()) =~= error);
    assert(text::occurs_at(message, error, at));
}

/// What was observed before, what the patch gave, the patch and the warnings are all in the answer;
/// a preview sends its patch as a trial and says that it is one.
pub proof fn lemma_change_is_answered_in_full(
    state: ResizeStateView,
    workload: WorkloadObjectView,
    warnings: Seq<Seq<char>>,
    poll_interval_secs: u64,
    now_ms: u128,
)
    ensures
        ({
            let step = resize_next(state, KubeEventView::Workload(workload), poll_interval_secs, now_ms);
            let observed = workload::observed_resources(workload, state.spec.container);
            &&& observed is Err ==> (step.action matches KubeActionView::Reply(result) && result.status == "error"@
                && result.message == Some(observed->Err_0))
            &&& state.stage == ResizeStage::Before && observed is Ok ==> step.state.observed_before == Some(
                observed->Ok_0,
            ) && step.action == KubeActionView::Preflight(state.spec, workload::pod_labels_of(workload))
            &&& state.stage == ResizeStage::Patch && observed is Ok ==> (step.action matches KubeActionView::Reply(
                result,
            ) && result.status == "ok"@ && result.observed_after == Some(observed->Ok_0) && result.observed_before
                == state.observed_before && result.applied_patch == state.patch && result.warnings == state.warnings
                && result.dry_run == Some(state.dry_run) && result.command_id == state.command_id)
        }),
        state.patch matches Some(patch) ==> {
            let step = resize_next(state, KubeEventView::Warnings(warnings), poll_interval_secs, now_ms);
            &&& step.state.warnings == warnings
            &&& step.action == KubeActionView::PatchWorkload(
                WorkloadTargetRefView {
                    kind: state.spec.workload_kind,
                    namespace: state.spec.namespace,
                    name: state.spec.name,
                },
                patch,
                state.dry_run,
            )
        },
{
}

} // verus!
