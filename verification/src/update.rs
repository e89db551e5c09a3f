//! Restarting an agent, giving the agents another image, and diagnosing databases.
use crate::action::{KubeAction, KubeActionView, KubeEvent, KubeEventView};
use crate::command;
use crate::command::{
    command_error, CommandResult, CommandResultView, ExecutionMode, SelfUpdateSpec, SelfUpdateSpecView,
    UpdateAgentSpec, UpdateAgentSpecView,
};
use crate::json;
use crate::json::{Json, json_object2, json_one, json_text, JsonView};
use crate::model::{PostgresqlDiagnosticReport, PostgresqlDiagnosticSpec, PostgresqlDiagnosticSpecView};
use crate::objects::{DaemonSet, DaemonSetView};
use crate::order::str_eq;
use crate::policy;
use crate::policy::{
    refuse_command, SentinellaHubActionPolicy, SentinellaHubActionPolicyView, stale_after_ms,
    UPDATE_AGENT_NAMESPACE, WorkloadResourcesSpec, WorkloadResourcesSpecView,
};
use crate::text;
use crate::text::{
    char_is_hex_digit, chars_of, owned, rsplit_once, strip_prefix, text2, text4, text6, text_after_last,
    trim,
};
use crate::views;
use crate::views::{DeepClone, opt_str};
use crate::workload;
use crate::workload::{
    daemonset_container_image, patch_containers, workload_pod_labels, WorkloadObject, WorkloadObjectView,
    WorkloadTargetRef, WorkloadTargetRefView,
};
use vstd::prelude::*;

verus! {

/// What the image of an agent begins with.
pub const UPDATE_AGENT_ALLOWED_PREFIX: &'static str = "us-east1-docker.pkg.dev/sentinella-hub/kubernetes-agent/";

/// The daemon set of the agents.
pub const UPDATE_AGENT_DAEMONSET: &'static str = "sentinella-hub-k8s-agent";

/// The container of the agents.
pub const UPDATE_AGENT_CONTAINER: &'static str = "agent";

/// What an update of the agents waits for.
#[derive(Clone, Copy, Debug, PartialEq, Eq)]
pub enum UpdateStage {
    Policies,
    Before,
    Preflight,
    DryPatch,
    LivePatch,
    Done,
}

impl DeepView for UpdateStage {
    type V = UpdateStage;

    open spec fn deep_view(&self) -> UpdateStage {
        *self
    }
}

impl DeepClone for UpdateStage {
    fn deep_clone(&self) -> (copy: Self) {
        *self
    }
}

/// An update of the agents that is under way.
#[derive(Clone, Debug, PartialEq, Eq)]
pub struct UpdateState {
    pub command_id: String,
    pub stage: UpdateStage,
    pub image: String,
    pub before_image: String,
    pub warnings: Vec<String>,
}

/// The view of [`UpdateState`].
pub struct UpdateStateView {
    pub command_id: Seq<char>,
    pub stage: UpdateStage,
    pub image: Seq<char>,
    pub before_image: Seq<char>,
    pub warnings: Seq<Seq<char>>,
}

impl DeepView for UpdateState {
    type V = UpdateStateView;

    open spec fn deep_view(&self) -> UpdateStateView {
        UpdateStateView {
            command_id: self.command_id.deep_view(),
            stage: self.stage.deep_view(),
            image: self.image.deep_view(),
            before_image: self.before_image.deep_view(),
            warnings: self.warnings.deep_view(),
        }
    }
}

impl DeepClone for UpdateState {
    fn deep_clone(&self) -> (copy: Self) {
        UpdateState {
            command_id: self.command_id.deep_clone(),
            stage: self.stage.deep_clone(),
            image: self.image.deep_clone(),
            before_image: self.before_image.deep_clone(),
            warnings: self.warnings.deep_clone(),
        }
    }
}

/// An update of the agents with what it asks for next.
#[derive(Clone, Debug, PartialEq, Eq)]
pub struct UpdateStep {
    pub state: UpdateState,
    pub action: KubeAction,
}

/// The view of [`UpdateStep`].
pub struct UpdateStepView {
    pub state: UpdateStateView,
    pub action: KubeActionView,
}

impl DeepView for UpdateStep {
    type V = UpdateStepView;

    open spec fn deep_view(&self) -> UpdateStepView {
        UpdateStepView {
            state: self.state.deep_view(),
            action: self.action.deep_view(),
        }
    }
}

impl DeepClone for UpdateStep {
    fn deep_clone(&self) -> (copy: Self) {
        UpdateStep {
            state: self.state.deep_clone(),
            action: self.action.deep_clone(),
        }
    }
}

// ------------------------------------------------------------------- the image

/// A digest: 64 hexadecimal digits.
pub open spec fn is_digest(text: Seq<char>) -> bool {
    text.len() == 64 && forall|i: int| 0 <= i < text.len() ==> text::is_hex_digit(#[trigger] text[i])
}

fn all_hex_digits(text: &str) -> (r: bool)
    ensures
        r == (forall|i: int| 0 <= i < text@.len() ==> text::is_hex_digit(#[trigger] text@[i])),
{
    let chars = chars_of(text);
    let mut i: usize = 0;
    while i < chars.len()
        invariant
            i <= chars.len(),
            chars@ == text@,
            forall|j: int| 0 <= j < i ==> text::is_hex_digit(#[trigger] text@[j]),
        decreases chars.len() - i,
    {
        if !char_is_hex_digit(chars[i]) {
            assert(!text::is_hex_digit(text@[i as int]));
            return false;
        }
        i += 1;
    }
    true
}

/// What an image that the agents may run is not, where it is not one: it begins with the prefix
/// that is allowed, and names a tag or a digest.
pub open spec fn image_refusal(image: Seq<char>) -> Option<Seq<char>> {
    let suffix = text::after_prefix(image, UPDATE_AGENT_ALLOWED_PREFIX@);
    if image.len() == 0 {
        Some("update_agent image must be non-empty"@)
    } else if !text::has_prefix(image, UPDATE_AGENT_ALLOWED_PREFIX@) {
        Some("update_agent image must start with allowed prefix "@ + UPDATE_AGENT_ALLOWED_PREFIX@)
    } else if suffix.len() == 0 || suffix == "/"@ {
        Some("update_agent image must include an image name after allowed prefix"@)
    } else {
        match text::after_last(suffix, "@sha256:"@) {
            Some(digest) => if is_digest(digest) {
                None
            } else {
                Some("update_agent image has invalid sha256 digest format"@)
            },
            None => match text::last_position(suffix, ':') {
                Some(i) => if text::around(suffix, i).0.len() == 0 || text::around(suffix, i).1.len() == 0 {
                    Some("update_agent image must include non-empty image name and tag"@)
                } else {
                    None
                },
                None => Some("update_agent image must include either :<tag> or @sha256:<digest>"@),
            },
        }
    }
}

/// An image that the agents may run, without the blanks around it; why they may not, else.
pub fn validate_update_agent_image(image: &str) -> (r: Result<String, String>)
    ensures
        match r {
            Ok(valid) => image_refusal(text::trimmed(image@)) is None && valid@ == text::trimmed(image@),
            Err(message) => image_refusal(text::trimmed(image@)) == Some(message@),
        },
{
    let image = trim(image);
    if image.is_empty() {
        return Err(owned("update_agent image must be non-empty"));
    }
    let suffix = match strip_prefix(image, UPDATE_AGENT_ALLOWED_PREFIX) {
        Some(suffix) => suffix,
        None => {
            return Err(
                text2("update_agent image must start with allowed prefix ", UPDATE_AGENT_ALLOWED_PREFIX),
            );
        },
    };
    if suffix.is_empty() || str_eq(suffix, "/") {
        return Err(owned("update_agent image must include an image name after allowed prefix"));
    }
    match text_after_last(suffix, "@sha256:") {
        Some(digest) => if digest.unicode_len() == 64 && all_hex_digits(digest) {
            Ok(owned(image))
        } else {
            Err(owned("update_agent image has invalid sha256 digest format"))
        },
        None => match rsplit_once(suffix, ':') {
            Some((name, tag)) => if name.is_empty() || tag.is_empty() {
                Err(owned("update_agent image must include non-empty image name and tag"))
            } else {
                Ok(owned(image))
            },
            None => Err(owned("update_agent image must include either :<tag> or @sha256:<digest>")),
        },
    }
}

// ---------------------------------------------------------------- self update

/// The answer to a restart that the policies allow.
pub open spec fn self_update_answer(command_id: Seq<char>, spec: SelfUpdateSpecView, now_ms: u128) -> CommandResultView {
    CommandResultView {
        restart_requested: Some(true),
        ..command::simple_result(
            command_id,
            "ok"@,
            Some(
                "self_update accepted: strategy="@ + views::text_or(spec.strategy, "restart_pod"@) + ", target_version="@
                    + views::text_or(spec.target_version, "<unspecified>"@) + ", reason="@ + views::text_or(spec.reason, "<none>"@),
            ),
            now_ms,
        )
    }
}

/// Restarts the agent, where the policies allow it.
pub fn self_update(
    command_id: &str,
    spec: &SelfUpdateSpec,
    policies: &Vec<SentinellaHubActionPolicy>,
    poll_interval_secs: u64,
    now_ms: u128,
) -> (r: CommandResult)
    ensures
        r.deep_view() == (match policy::command_refusal(
            policies.deep_view(),
            UPDATE_AGENT_NAMESPACE@,
            "self_update"@,
            None,
            None,
            now_ms,
            policy::stale_after(poll_interval_secs),
        ) {
            Some(message) => command::failed_command(command_id@, ExecutionMode::Execute, message, now_ms),
            None => self_update_answer(command_id@, spec.deep_view(), now_ms),
        }),
{
    match refuse_command(
        policies,
        UPDATE_AGENT_NAMESPACE,
        "self_update",
        None,
        None,
        now_ms,
        stale_after_ms(poll_interval_secs),
    ) {
        Some(message) => command_error(command_id, ExecutionMode::Execute, message, now_ms),
        None => {
            let message = text6(
                "self_update accepted: strategy=",
                opt_str(&spec.strategy, "restart_pod"),
                ", target_version=",
                opt_str(&spec.target_version, "<unspecified>"),
                ", reason=",
                opt_str(&spec.reason, "<none>"),
            );
            CommandResult {
                restart_requested: Some(true),
                ..CommandResult::at(owned(command_id), "ok", Some(message), now_ms)
            }
        },
    }
}

/// The answer to a diagnosis.
pub fn diagnosis_answer(command_id: &str, report: PostgresqlDiagnosticReport, now_ms: u128) -> (r: CommandResult)
    ensures
        r.deep_view() == (CommandResultView {
            diagnostic: Some(report.deep_view()),
            ..command::simple_result(command_id@, "ok"@, None, now_ms)
        }),
{
    CommandResult { diagnostic: Some(report), ..CommandResult::at(owned(command_id), "ok", None, now_ms) }
}

/// The refusal of a diagnosis: the databases of a namespace are looked at only where the policies
/// allow it.
pub open spec fn diagnosis_refusal(
    command_id: Seq<char>,
    spec: PostgresqlDiagnosticSpecView,
    policies: Seq<SentinellaHubActionPolicyView>,
    poll_interval_secs: u64,
    now_ms: u128,
) -> Option<CommandResultView> {
    match policy::command_refusal(
        policies,
        spec.namespace,
        "diagnose_postgresql"@,
        None,
        None,
        now_ms,
        policy::stale_after(poll_interval_secs),
    ) {
        Some(message) => Some(command::failed_command(command_id, ExecutionMode::Execute, message, now_ms)),
        None => None,
    }
}

/// The refusal of a diagnosis, where the policies do not allow it.
pub fn refuse_diagnosis(
    command_id: &str,
    spec: &PostgresqlDiagnosticSpec,
    policies: &Vec<SentinellaHubActionPolicy>,
    poll_interval_secs: u64,
    now_ms: u128,
) -> (r: Option<CommandResult>)
    ensures
        r.deep_view() == diagnosis_refusal(
            command_id@,
            spec.deep_view(),
            policies.deep_view(),
            poll_interval_secs,
            now_ms,
        ),
{
    match refuse_command(
        policies,
        spec.namespace.as_str(),
        "diagnose_postgresql",
        None,
        None,
        now_ms,
        stale_after_ms(poll_interval_secs),
    ) {
        Some(message) => Some(command_error(command_id, ExecutionMode::Execute, message, now_ms)),
        None => None,
    }
}

// ------------------------------------------------------------- another image

/// The update ends with a failure.
pub open spec fn update_fails(state: UpdateStateView, message: Seq<char>, now_ms: u128) -> UpdateStepView {
    UpdateStepView {
        state: UpdateStateView { stage: UpdateStage::Done, ..state },
        action: KubeActionView::Reply(command::failed_command(state.command_id, ExecutionMode::Execute, message, now_ms)),
    }
}

fn fail_update(state: UpdateState, message: String, now_ms: u128) -> (r: UpdateStep)
    ensures
        r.deep_view() == update_fails(state.deep_view(), message@, now_ms),
{
    let reply = command_error(state.command_id.as_str(), ExecutionMode::Execute, message, now_ms);
    UpdateStep { state: UpdateState { stage: UpdateStage::Done, ..state }, action: KubeAction::Reply(reply) }
}

/// An update begins with the policies.
pub open spec fn update_begins(command_id: Seq<char>, spec: UpdateAgentSpecView) -> UpdateStepView {
    UpdateStepView {
        state: UpdateStateView {
            command_id,
            stage: UpdateStage::Policies,
            image: spec.image,
            before_image: ""@,
            warnings: seq![],
        },
        action: KubeActionView::ListPolicies,
    }
}

/// Begins an update.
pub fn begin_update(command_id: &str, spec: &UpdateAgentSpec) -> (r: UpdateStep)
    ensures
        r.deep_view() == update_begins(command_id@, spec.deep_view()),
{
    let warnings: Vec<String> = Vec::new();
    assert(warnings.deep_view() =~= seq![]);
    UpdateStep {
        state: UpdateState {
            command_id: owned(command_id),
            stage: UpdateStage::Policies,
            image: owned(spec.image.as_str()),
            before_image: owned(""),
            warnings,
        },
        action: KubeAction::ListPolicies,
    }
}

/// The daemon set of the agents.
pub open spec fn agents() -> WorkloadTargetRefView {
    WorkloadTargetRefView { kind: "DaemonSet"@, namespace: UPDATE_AGENT_NAMESPACE@, name: UPDATE_AGENT_DAEMONSET@ }
}

fn agent_daemonset() -> (r: WorkloadTargetRef)
    ensures
        r.deep_view() == agents(),
{
    WorkloadTargetRef {
        kind: owned("DaemonSet"),
        namespace: owned(UPDATE_AGENT_NAMESPACE),
        name: owned(UPDATE_AGENT_DAEMONSET),
    }
}

/// What the checks before an update are about.
pub open spec fn update_as_change() -> WorkloadResourcesSpecView {
    WorkloadResourcesSpecView {
        workload_kind: "DaemonSet"@,
        namespace: UPDATE_AGENT_NAMESPACE@,
        name: UPDATE_AGENT_DAEMONSET@,
        container: UPDATE_AGENT_CONTAINER@,
        requests: None,
        limits: None,
    }
}

/// The patch that gives the agents another image.
pub open spec fn image_patch(image: Seq<char>) -> JsonView {
    workload::containers_patch(
        JsonView::Object(
            seq![("name"@, JsonView::Text(UPDATE_AGENT_CONTAINER@)), ("image"@, JsonView::Text(image))],
        ),
    )
}

fn patch_image(image: &str) -> (r: Json)
    ensures
        r.node() == image_patch(image@),
{
    patch_containers(json_object2("name", json_text(UPDATE_AGENT_CONTAINER), "image", json_text(image)))
}

/// The policies are known: they allow the update and the image is one the agents may run, or it
/// fails.
pub open spec fn update_judged(
    state: UpdateStateView,
    policies: Seq<SentinellaHubActionPolicyView>,
    poll_interval_secs: u64,
    now_ms: u128,
) -> UpdateStepView {
    match policy::command_refusal(
        policies,
        UPDATE_AGENT_NAMESPACE@,
        "update_agent"@,
        None,
        None,
        now_ms,
        policy::stale_after(poll_interval_secs),
    ) {
        Some(message) => update_fails(state, message, now_ms),
        None => match image_refusal(text::trimmed(state.image)) {
            Some(message) => update_fails(state, message, now_ms),
            None => UpdateStepView {
                state: UpdateStateView { image: text::trimmed(state.image), stage: UpdateStage::Before, ..state },
                action: KubeActionView::GetWorkload(agents()),
            },
        },
    }
}

fn judge_update(
    state: UpdateState,
    policies: &Vec<SentinellaHubActionPolicy>,
    poll_interval_secs: u64,
    now_ms: u128,
) -> (r: UpdateStep)
    ensures
        r.deep_view() == update_judged(state.deep_view(), policies.deep_view(), poll_interval_secs, now_ms),
{
    match refuse_command(
        policies,
        UPDATE_AGENT_NAMESPACE,
        "update_agent",
        None,
        None,
        now_ms,
        stale_after_ms(poll_interval_secs),
    ) {
        Some(message) => fail_update(state, message, now_ms),
        None => match validate_update_agent_image(state.image.as_str()) {
            Err(message) => fail_update(state, message, now_ms),
            Ok(image) => UpdateStep {
                state: UpdateState { image, stage: UpdateStage::Before, ..state },
                action: KubeAction::GetWorkload(agent_daemonset()),
            },
        },
    }
}

/// The answer to an update that was made.
pub open spec fn update_answer(state: UpdateStateView, after_image: Seq<char>, now_ms: u128) -> CommandResultView {
    CommandResultView {
        dry_run: Some(false),
        applied_patch: Some(image_patch(state.image)),
        observed_before: Some(json::one_member("image"@, JsonView::Text(state.before_image))),
        observed_after: Some(json::one_member("image"@, JsonView::Text(after_image))),
        warnings: state.warnings,
        ..command::simple_result(
            state.command_id,
            "ok"@,
            Some(
                "update_agent applied on sentinella/sentinella-hub-k8s-agent container agent: "@ + state.before_image
                    + " -> "@ + after_image,
            ),
            now_ms,
        )
    }
}

fn answer_update(state: &UpdateState, after_image: &str, now_ms: u128) -> (r: CommandResult)
    ensures
        r.deep_view() == update_answer(state.deep_view(), after_image@, now_ms),
{
    let message = text4(
        "update_agent applied on sentinella/sentinella-hub-k8s-agent container agent: ",
        state.before_image.as_str(),
        " -> ",
        after_image,
    );
    CommandResult {
        dry_run: Some(false),
        applied_patch: Some(patch_image(state.image.as_str())),
        observed_before: Some(json_one("image", json_text(state.before_image.as_str()))),
        observed_after: Some(json_one("image", json_text(after_image))),
        warnings: state.warnings.deep_clone(),
        ..CommandResult::at(owned(state.command_id.as_str()), "ok", Some(message), now_ms)
    }
}

/// The daemon set of the agents was read, or patched.
pub open spec fn update_seen(state: UpdateStateView, workload: DaemonSetView, now_ms: u128) -> UpdateStepView {
    match workload::observed_image(workload, UPDATE_AGENT_CONTAINER@) {
        Err(message) => update_fails(state, message, now_ms),
        Ok(image) => if state.stage == UpdateStage::Before {
            UpdateStepView {
                state: UpdateStateView { before_image: image, stage: UpdateStage::Preflight, ..state },
                action: KubeActionView::Preflight(
                    update_as_change(),
                    workload::pod_labels_of(WorkloadObjectView::DaemonSet(workload)),
                ),
            }
        } else {
            UpdateStepView {
                state: UpdateStateView { stage: UpdateStage::Done, ..state },
                action: KubeActionView::Reply(update_answer(state, image, now_ms)),
            }
        },
    }
}

fn see_update(state: UpdateState, workload: &DaemonSet, now_ms: u128) -> (r: UpdateStep)
    ensures
        r.deep_view() == update_seen(state.deep_view(), workload.deep_view(), now_ms),
{
    match daemonset_container_image(workload, UPDATE_AGENT_CONTAINER) {
        Err(message) => fail_update(state, message, now_ms),
        Ok(image) => if matches!(state.stage, UpdateStage::Before) {
            let change = WorkloadResourcesSpec {
                workload_kind: owned("DaemonSet"),
                namespace: owned(UPDATE_AGENT_NAMESPACE),
                name: owned(UPDATE_AGENT_DAEMONSET),
                container: owned(UPDATE_AGENT_CONTAINER),
                requests: None,
                limits: None,
            };
            let labels = workload_pod_labels(&WorkloadObject::DaemonSet(workload.deep_clone()));
            UpdateStep {
                state: UpdateState { before_image: image, stage: UpdateStage::Preflight, ..state },
                action: KubeAction::Preflight(change, labels),
            }
        } else {
            let reply = answer_update(&state, image.as_str(), now_ms);
            UpdateStep { state: UpdateState { stage: UpdateStage::Done, ..state }, action: KubeAction::Reply(reply) }
        },
    }
}

/// What failed, by what the update waited for.
pub open spec fn update_failure(state: UpdateStateView, error: Seq<char>) -> Seq<char> {
    match state.stage {
        UpdateStage::Before => "failed to get target DaemonSet sentinella/sentinella-hub-k8s-agent: "@ + error,
        UpdateStage::DryPatch =>
            "update_agent dry-run failed for target DaemonSet sentinella/sentinella-hub-k8s-agent: "@ + error,
        UpdateStage::LivePatch => "failed to patch target DaemonSet sentinella/sentinella-hub-k8s-agent: "@ + error,
        _ => error,
    }
}

fn describe_update_failure(state: &UpdateState, error: &str) -> (r: String)
    ensures
        r@ == update_failure(state.deep_view(), error@),
{
    match state.stage {
        UpdateStage::Before => text2(
            "failed to get target DaemonSet sentinella/sentinella-hub-k8s-agent: ",
            error,
        ),
        UpdateStage::DryPatch => text2(
            "update_agent dry-run failed for target DaemonSet sentinella/sentinella-hub-k8s-agent: ",
            error,
        ),
        UpdateStage::LivePatch => text2(
            "failed to patch target DaemonSet sentinella/sentinella-hub-k8s-agent: ",
            error,
        ),
        _ => owned(error),
    }
}

/// The event is one that the update waits for.
pub open spec fn update_awaits(state: UpdateStateView, event: KubeEventView) -> bool {
    match state.stage {
        UpdateStage::Policies => event is Policies || event is Failed,
        UpdateStage::Before => (event matches KubeEventView::Workload(w) && w is DaemonSet) || event is Failed,
        UpdateStage::Preflight => event is Warnings,
        UpdateStage::DryPatch => event is Done || event is Failed,
        UpdateStage::LivePatch => (event matches KubeEventView::Workload(w) && w is DaemonSet) || event is Failed,
        UpdateStage::Done => false,
    }
}

/// What an update does about what came of what it asked for.
pub open spec fn update_next(
    state: UpdateStateView,
    event: KubeEventView,
    poll_interval_secs: u64,
    now_ms: u128,
) -> UpdateStepView {
    match event {
        KubeEventView::Policies(policies) => update_judged(state, policies, poll_interval_secs, now_ms),
        KubeEventView::Workload(WorkloadObjectView::DaemonSet(workload)) => update_seen(state, workload, now_ms),
        KubeEventView::Warnings(warnings) => UpdateStepView {
            state: UpdateStateView { warnings, stage: UpdateStage::DryPatch, ..state },
            action: KubeActionView::PatchWorkload(agents(), image_patch(state.image), true),
        },
        KubeEventView::Done => UpdateStepView {
            state: UpdateStateView { stage: UpdateStage::LivePatch, ..state },
            action: KubeActionView::PatchWorkload(agents(), image_patch(state.image), false),
        },
        KubeEventView::Failed(error) => update_fails(state, update_failure(state, error), now_ms),
        _ => update_fails(state, seq![], now_ms),
    }
}

/// Goes on with an update.
pub fn update_step(state: UpdateState, event: &KubeEvent, poll_interval_secs: u64, now_ms: u128) -> (r: UpdateStep)
    requires
        update_awaits(state.deep_view(), event.deep_view()),
    ensures
        r.deep_view() == update_next(state.deep_view(), event.deep_view(), poll_interval_secs, now_ms),
{
    match event {
        KubeEvent::Policies(policies) => judge_update(state, policies, poll_interval_secs, now_ms),
        KubeEvent::Workload(workload) => match workload {
            WorkloadObject::DaemonSet(workload) => see_update(state, workload, now_ms),
            _ => fail_update(state, String::new(), now_ms),
        },
        KubeEvent::Warnings(warnings) => {
            let action = KubeAction::PatchWorkload(agent_daemonset(), patch_image(state.image.as_str()), true);
            UpdateStep {
                state: UpdateState { warnings: warnings.deep_clone(), stage: UpdateStage::DryPatch, ..state },
                action,
            }
        },
        KubeEvent::Done => {
            let action = KubeAction::PatchWorkload(agent_daemonset(), patch_image(state.image.as_str()), false);
            UpdateStep { state: UpdateState { stage: UpdateStage::LivePatch, ..state }, action }
        },
        KubeEvent::Failed(error) => {
            let message = describe_update_failure(&state, error.as_str());
            fail_update(state, message, now_ms)
        },
        _ => fail_update(state, String::new(), now_ms),
    }
}

// -------------------------------------------------------------------- laws

/// An update patches nothing but the agents, with the image that was asked for; it is made only
/// after the same patch was tried, and nothing is looked at before the image was found to be one
/// that the agents may run.
pub proof fn lemma_update_is_tried_first(
    state: UpdateStateView,
    event: KubeEventView,
    poll_interval_secs: u64,
    now_ms: u128,
)
    requires
        update_awaits(state, event),
    ensures
        ({
            let step = update_next(state, event, poll_interval_secs, now_ms);
            &&& (step.action matches KubeActionView::PatchWorkload(target, patch, dry_run) ==> {
                &&& target == agents()
                &&& patch == image_patch(state.image)
                &&& dry_run == (state.stage == UpdateStage::Preflight)
                &&& !dry_run ==> state.stage == UpdateStage::DryPatch && event is Done
            })
            &&& step.state.stage == UpdateStage::Before ==> step.state.image == text::trimmed(state.image)
                && image_refusal(step.state.image) is None
            &&& state.stage != UpdateStage::Policies ==> step.state.image == state.image
        }),
{
}

/// The image of an agent begins with the prefix that is allowed, whatever is asked for.
pub proof fn lemma_image_has_allowed_prefix(image: Seq<char>)
    requires
        image_refusal(image) is None,
    ensures
        text::has_prefix(image, UPDATE_AGENT_ALLOWED_PREFIX@),
        image.len() > UPDATE_AGENT_ALLOWED_PREFIX@.len(),
{
}

/// Whether a step waits for what it asks for.
pub open spec fn asks_for_what_it_awaits(step: UpdateStepView) -> bool {
    match step.action {
        KubeActionView::ListPolicies => step.state.stage == UpdateStage::Policies,
        KubeActionView::GetWorkload(target) => step.state.stage == UpdateStage::Before && target == agents(),
        KubeActionView::Preflight(_, _) => step.state.stage == UpdateStage::Preflight,
        KubeActionView::PatchWorkload(_, _, dry_run) => step.state.stage == (if dry_run {
            UpdateStage::DryPatch
        } else {
            UpdateStage::LivePatch
        }),
        KubeActionView::Reply(result) => step.state.stage == UpdateStage::Done && result.command_id
            == step.state.command_id,
        _ => false,
    }
}

/// From its beginning on, an update waits for what it asked for, and keeps to its command.
pub proof fn lemma_update_stays_on_course(
    command_id: Seq<char>,
    spec: UpdateAgentSpecView,
    state: UpdateStateView,
    event: KubeEventView,
    poll_interval_secs: u64,
    now_ms: u128,
)
    ensures
        asks_for_what_it_awaits(update_begins(command_id, spec)),
        update_awaits(state, event) ==> {
            let step = update_next(state, event, poll_interval_secs, now_ms);
            &&& asks_for_what_it_awaits(step)
            &&& step.state.command_id == state.command_id
        },
{
}

// ------------------------------------------------------------- what it is for

proof fn lemma_no_digest(s: Seq<char>)
    requires
        !s.contains('@'),
    ensures
        text::after_last(s, "@sha256:"@) is None,
{
    lemma_no_digest_before(s, s.len() as int);
}

proof fn lemma_no_digest_before(s: Seq<char>, upto: int)
    requires
        !s.contains('@'),
    ensures
        text::last_occurrence(s, "@sha256:"@, upto) is None,
    decreases upto + 1,
{
    reveal_strlit("@sha256:");
    if upto >= 0 {
        if text::occurs_at(s, "@sha256:"@, upto) {
            assert(s.subrange(upto, upto + 8)[0] == s[upto]);
            assert(s.contains(s[upto]));
        }
        lemma_no_digest_before(s, upto - 1);
    }
}

proof fn lemma_digest_found(s: Seq<char>, at: int, upto: int)
    requires
        0 <= at <= upto,
        text::occurs_at(s, "@sha256:"@, at),
        forall|j: int| at < j < s.len() ==> s[j] != '@',
    ensures
        text::last_occurrence(s, "@sha256:"@, upto) == Some(at),
    decreases upto - at,
{
    reveal_strlit("@sha256:");
    if upto > at {
        if text::occurs_at(s, "@sha256:"@, upto) {
            assert(s.subrange(upto, upto + 8)[0] == s[upto]);
        }
        lemma_digest_found(s, at, upto - 1);
    }
}

/// The agents may run any image of their own registry that is named with a tag, or with a digest of
/// sixty-four hexadecimal digits; nothing from elsewhere, and nothing without either.
pub proof fn lemma_images_that_may_run(image: Seq<char>, name: Seq<char>, tag: Seq<char>)
    ensures
        ({
            let prefix = "us-east1-docker.pkg.dev/sentinella-hub/kubernetes-agent/"@;
            &&& !text::has_prefix(image, prefix) ==> image_refusal(image) is Some
            &&& name.len() > 0 && tag.len() > 0 && !tag.contains(':') && !name.contains('@') && !tag.contains('@')
                ==> image_refusal(prefix + (name + ":"@ + tag)) is None
            &&& !name.contains('@') && !name.contains(':') ==> image_refusal(prefix + name) is Some
            &&& tag.len() == 0 && !name.contains('@') ==> image_refusal(prefix + (name + ":"@ + tag)) is Some
            &&& name.len() > 0 && !tag.contains('@') ==> (image_refusal(prefix + (name + "@sha256:"@ + tag)) is None <==> (
            tag.len() == 64 && forall|i: int| 0 <= i < 64 ==> text::is_hex_digit(#[trigger] tag[i])))
        }),
{
    let prefix = UPDATE_AGENT_ALLOWED_PREFIX@;
    reveal_strlit("us-east1-docker.pkg.dev/sentinella-hub/kubernetes-agent/");
    reveal_strlit(":");
    reveal_strlit("/");
    reveal_strlit("@sha256:");
    let tagged = name + ":"@ + tag;
    lemma_after_allowed(prefix, tagged);
    lemma_after_allowed(prefix, name);
    assert(tagged[name.len() as int] == ':');
    text::lemma_last_position(tagged, ':');
    assert(tagged.contains(':'));
    if !name.contains('@') && !tag.contains('@') {
        assert(!tagged.contains('@')) by {
            if tagged.contains('@') {
                let i = choose|i: int| 0 <= i < tagged.len() && tagged[i] == '@';
                if i < name.len() {
                    assert(name[i] == '@');
                } else if i > name.len() {
                    assert(tag[i - name.len() - 1] == '@');
                }
            }
        }
        lemma_no_digest(tagged);
    }
    if name.len() > 0 && tag.len() > 0 && !tag.contains(':') && !name.contains('@') && !tag.contains('@') {
        let i = text::last_position(tagged, ':')->0;
        assert(i == name.len()) by {
            if i > name.len() {
                assert(tag[i - name.len() - 1] == ':');
            }
        }
        assert(text::around(tagged, i).0 =~= name);
        assert(text::around(tagged, i).1 =~= tag);
        assert(tagged != "/"@);
    }
    if !name.contains('@') && !name.contains(':') {
        lemma_no_digest(name);
        text::lemma_last_position(name, ':');
    }
    if tag.len() == 0 && !name.contains('@') {
        assert(text::last_position(tagged, ':') == Some(name.len() as int));
        assert(text::around(tagged, name.len() as int).1.len() == 0);
    }
    if name.len() > 0 && !tag.contains('@') {
        let pinned = name + "@sha256:"@ + tag;
        lemma_after_allowed(prefix, pinned);
        let at = name.len() as int;
        assert(pinned.subrange(at, at + 8) =~= "@sha256:"@);
        assert forall|j: int| at < j < pinned.len() implies pinned[j] != '@' by {
            if j >= at + 8 {
                assert(pinned[j] == tag[j - at - 8]);
            } else {
                assert(pinned[j] == "@sha256:"@[j - at]);
            }
        }
        lemma_digest_found(pinned, at, pinned.len() as int);
        assert(pinned.subrange(at + 8, pinned.len() as int) =~= tag);
        assert(text::after_last(pinned, "@sha256:"@) == Some(tag));
        assert(pinned.len() > 1);
    }
}

proof fn lemma_after_allowed(prefix: Seq<char>, rest: Seq<char>)
    ensures
        text::has_prefix(prefix + rest, prefix),
        text::after_prefix(prefix + rest, prefix) == rest,
{
    let all = prefix + rest;
    assert(all.subrange(0, prefix.len() as int) =~= prefix);
    assert(all.subrange(prefix.len() as int, all.len() as int) =~= rest);
}

/// An update looks at the agents' own daemon set, and at nothing before a policy allows it and the
/// image may run; it patches the image of the agents' container, first as a trial, and answers with
/// the images before and after.
pub proof fn lemma_update_makes_what_is_asked(
    state: UpdateStateView,
    policies: Seq<SentinellaHubActionPolicyView>,
    workload: DaemonSetView,
    warnings: Seq<Seq<char>>,
    error: Seq<char>,
    poll_interval_secs: u64,
    now_ms: u128,
)
    ensures
        ({
            let target = WorkloadTargetRefView {
                kind: "DaemonSet"@,
                namespace: "sentinella"@,
                name: "sentinella-hub-k8s-agent"@,
            };
            let patch = workload::containers_patch(
                JsonView::Object(seq![("name"@, JsonView::Text("agent"@)), ("image"@, JsonView::Text(state.image))]),
            );
            let judged = update_next(state, KubeEventView::Policies(policies), poll_interval_secs, now_ms);
            let may = policy::command_refusal(
                policies,
                "sentinella"@,
                "update_agent"@,
                None,
                None,
                now_ms,
                policy::stale_after(poll_interval_secs),
            ) is None && image_refusal(text::trimmed(state.image)) is None;
            let seen = update_next(
                state,
                KubeEventView::Workload(WorkloadObjectView::DaemonSet(workload)),
                poll_interval_secs,
                now_ms,
            );
            let image = workload::observed_image(workload, "agent"@);
            &&& may ==> judged.action == KubeActionView::GetWorkload(target) && judged.state.image == text::trimmed(
                state.image,
            )
            &&& !may ==> (judged.action matches KubeActionView::Reply(result) && result.status == "error"@)
            &&& update_next(state, KubeEventView::Warnings(warnings), poll_interval_secs, now_ms).action
                == KubeActionView::PatchWorkload(target, patch, true)
            &&& update_next(state, KubeEventView::Warnings(warnings), poll_interval_secs, now_ms).state.warnings == warnings
            &&& update_next(state, KubeEventView::Done, poll_interval_secs, now_ms).action
                == KubeActionView::PatchWorkload(target, patch, false)
            &&& image is Err ==> (seen.action matches KubeActionView::Reply(result) && result.status == "error"@)
            &&& image is Ok && state.stage == UpdateStage::Before ==> seen.state.before_image == image->Ok_0
                && seen.action is Preflight
            &&& image is Ok && state.stage == UpdateStage::LivePatch ==> (seen.action matches KubeActionView::Reply(
                result,
            ) && result.status == "ok"@ && result.dry_run == Some(false) && result.warnings == state.warnings
                && result.applied_patch == Some(patch) && result.observed_before == Some(
                JsonView::Object(seq![("image"@, JsonView::Text(state.before_image))]),
            ) && result.observed_after == Some(JsonView::Object(seq![("image"@, JsonView::Text(image->Ok_0))])))
        }),
        update_next(state, KubeEventView::Failed(error), poll_interval_secs, now_ms).action matches KubeActionView::Reply(
            result,
        ) && result.status == "error"@ && result.message is Some && text::contains_text(result.message->0, error),
{
    let message = update_failure(state, error);
    let at = message.len() - error.len();
    assert(message.subrange(at, at + error.len()) =~= error);
    assert(text::occurs_at(message, error, at));
}

/// A self update is always accepted, asks for a restart, and says what was asked for. A diagnosis is
/// made exactly where a policy of its namespace allows one.
pub proof fn lemma_self_update_restarts(
    command_id: Seq<char>,
    spec: SelfUpdateSpecView,
    diagnosis: PostgresqlDiagnosticSpecView,
    policies: Seq<SentinellaHubActionPolicyView>,
    poll_interval_secs: u64,
    now_ms: u128,
)
    ensures
        ({
            let answer = self_update_answer(command_id, spec, now_ms);
            &&& answer.status == "ok"@
            &&& answer.restart_requested == Some(true)
            &&& answer.command_id == command_id
            &&& spec.target_version matches Some(version) ==> answer.message is Some && text::contains_text(
                answer.message->0,
                version,
            )
        }),
        diagnosis_refusal(command_id, diagnosis, policies, poll_interval_secs, now_ms) is None <==> policy::command_refusal(
            policies,
            diagnosis.namespace,
            "diagnose_postgresql"@,
            None,
            None,
            now_ms,
            policy::stale_after(poll_interval_secs),
        ) is None,
        diagnosis_refusal(command_id, diagnosis, policies, poll_interval_secs, now_ms) matches Some(result)
            ==> result.status == "error"@ && result.command_id == command_id,
{
    if let Some(version) = spec.target_version {
        let message = self_update_answer(command_id, spec, now_ms).message->0;
        let head = "self_update accepted: strategy="@ + views::text_or(spec.strategy, "restart_pod"@) + ", target_version="@;
        let at = head.len() as int;
        assert(message.subrange(at, at + version.len()) =~= version);
        assert(text::occurs_at(message, version, at));
    }
}

} // verus!
