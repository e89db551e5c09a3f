//! The commands of the hub: how they are dispatched, answered, and kept from running twice.
use crate::clock::now_ms;
use crate::config::Config;
use crate::json::{Json, JsonView};
use crate::model::{PostgresqlDiagnosticReport, PostgresqlDiagnosticReportView};
use crate::order::str_eq;
use crate::text;
use crate::text::{list_has, owned, text2, text4};
use crate::views;
use crate::views::{DeepClone, filter_cloned, find_item};
use vstd::prelude::*;

verus! {

/// A command of the hub.
#[derive(Clone, Debug, PartialEq, Eq)]
pub struct Command {
    pub id: String,
    /// Which command it is.
    pub kind: String,
    /// What the command asks for, in the shape of its kind.
    pub spec: Json,
}

/// The view of [`Command`].
pub struct CommandView {
    pub id: Seq<char>,
    pub kind: Seq<char>,
    pub spec: JsonView,
}

impl DeepView for Command {
    type V = CommandView;

    open spec fn deep_view(&self) -> CommandView {
        CommandView {
            id: self.id.deep_view(),
            kind: self.kind.deep_view(),
            spec: self.spec.deep_view(),
        }
    }
}

impl DeepClone for Command {
    fn deep_clone(&self) -> (copy: Self) {
        Command {
            id: self.id.deep_clone(),
            kind: self.kind.deep_clone(),
            spec: self.spec.deep_clone(),
        }
    }
}

/// The commands that wait for the agent.
#[derive(Clone, Debug, PartialEq, Eq)]
pub struct CommandBatch {
    pub commands: Vec<Command>,
}

/// The view of [`CommandBatch`].
pub struct CommandBatchView {
    pub commands: Seq<CommandView>,
}

impl DeepView for CommandBatch {
    type V = CommandBatchView;

    open spec fn deep_view(&self) -> CommandBatchView {
        CommandBatchView {
            commands: self.commands.deep_view(),
        }
    }
}

impl DeepClone for CommandBatch {
    fn deep_clone(&self) -> (copy: Self) {
        CommandBatch {
            commands: self.commands.deep_clone(),
        }
    }
}

/// How a change was verified.
#[derive(Clone, Debug, PartialEq, Eq)]
pub struct ActionVerification {
    pub status: String,
    pub message: Option<String>,
    pub observed_state: Option<Json>,
}

/// The view of [`ActionVerification`].
pub struct ActionVerificationView {
    pub status: Seq<char>,
    pub message: Option<Seq<char>>,
    pub observed_state: Option<JsonView>,
}

impl DeepView for ActionVerification {
    type V = ActionVerificationView;

    open spec fn deep_view(&self) -> ActionVerificationView {
        ActionVerificationView {
            status: self.status.deep_view(),
            message: self.message.deep_view(),
            observed_state: self.observed_state.deep_view(),
        }
    }
}

impl DeepClone for ActionVerification {
    fn deep_clone(&self) -> (copy: Self) {
        ActionVerification {
            status: self.status.deep_clone(),
            message: self.message.deep_clone(),
            observed_state: self.observed_state.deep_clone(),
        }
    }
}

/// The object that a manifest was read from.
#[derive(Clone, Debug, PartialEq, Eq)]
pub struct ResourceYamlMetadata {
    pub api_version: String,
    pub kind: String,
    pub namespace: Option<String>,
    pub name: String,
    pub resource_version: Option<String>,
}

/// The view of [`ResourceYamlMetadata`].
pub struct ResourceYamlMetadataView {
    pub api_version: Seq<char>,
    pub kind: Seq<char>,
    pub namespace: Option<Seq<char>>,
    pub name: Seq<char>,
    pub resource_version: Option<Seq<char>>,
}

impl DeepView for ResourceYamlMetadata {
    type V = ResourceYamlMetadataView;

    open spec fn deep_view(&self) -> ResourceYamlMetadataView {
        ResourceYamlMetadataView {
            api_version: self.api_version.deep_view(),
            kind: self.kind.deep_view(),
            namespace: self.namespace.deep_view(),
            name: self.name.deep_view(),
            resource_version: self.resource_version.deep_view(),
        }
    }
}

impl DeepClone for ResourceYamlMetadata {
    fn deep_clone(&self) -> (copy: Self) {
        ResourceYamlMetadata {
            api_version: self.api_version.deep_clone(),
            kind: self.kind.deep_clone(),
            namespace: self.namespace.deep_clone(),
            name: self.name.deep_clone(),
            resource_version: self.resource_version.deep_clone(),
        }
    }
}

/// The manifest of an object.
#[derive(Clone, Debug, PartialEq, Eq)]
pub struct ResourceYamlResult {
    pub cluster_id: String,
    pub resource: ResourceYamlMetadata,
    pub format: String,
    pub mode: String,
    pub content: String,
    pub fetched_at: String,
    pub warnings: Vec<String>,
}

/// The view of [`ResourceYamlResult`].
pub struct ResourceYamlResultView {
    pub cluster_id: Seq<char>,
    pub resource: ResourceYamlMetadataView,
    pub format: Seq<char>,
    pub mode: Seq<char>,
    pub content: Seq<char>,
    pub fetched_at: Seq<char>,
    pub warnings: Seq<Seq<char>>,
}

impl DeepView for ResourceYamlResult {
    type V = ResourceYamlResultView;

    open spec fn deep_view(&self) -> ResourceYamlResultView {
        ResourceYamlResultView {
            cluster_id: self.cluster_id.deep_view(),
            resource: self.resource.deep_view(),
            format: self.format.deep_view(),
            mode: self.mode.deep_view(),
            content: self.content.deep_view(),
            fetched_at: self.fetched_at.deep_view(),
            warnings: self.warnings.deep_view(),
        }
    }
}

impl DeepClone for ResourceYamlResult {
    fn deep_clone(&self) -> (copy: Self) {
        ResourceYamlResult {
            cluster_id: self.cluster_id.deep_clone(),
            resource: self.resource.deep_clone(),
            format: self.format.deep_clone(),
            mode: self.mode.deep_clone(),
            content: self.content.deep_clone(),
            fetched_at: self.fetched_at.deep_clone(),
            warnings: self.warnings.deep_clone(),
        }
    }
}

/// What came of a command.
#[derive(Clone, Debug, PartialEq, Eq)]
pub struct CommandResult {
    pub command_id: String,
    pub status: &'static str,
    pub message: Option<String>,
    pub finished_at_ms: u128,
    /// Whether the change was only tried.
    pub dry_run: Option<bool>,
    pub requested_state: Option<Json>,
    pub applied_patch: Option<Json>,
    pub observed_before: Option<Json>,
    pub observed_after: Option<Json>,
    pub warnings: Vec<String>,
    pub verification: Option<ActionVerification>,
    pub resource_yaml: Option<ResourceYamlResult>,
    pub diagnostic: Option<PostgresqlDiagnosticReport>,
    /// Whether the agent exits after the result was handed over.
    pub restart_requested: Option<bool>,
}

/// The view of [`CommandResult`].
pub struct CommandResultView {
    pub command_id: Seq<char>,
    pub status: Seq<char>,
    pub message: Option<Seq<char>>,
    pub finished_at_ms: u128,
    pub dry_run: Option<bool>,
    pub requested_state: Option<JsonView>,
    pub applied_patch: Option<JsonView>,
    pub observed_before: Option<JsonView>,
    pub observed_after: Option<JsonView>,
    pub warnings: Seq<Seq<char>>,
    pub verification: Option<ActionVerificationView>,
    pub resource_yaml: Option<ResourceYamlResultView>,
    pub diagnostic: Option<PostgresqlDiagnosticReportView>,
    pub restart_requested: Option<bool>,
}

impl DeepView for CommandResult {
    type V = CommandResultView;

    open spec fn deep_view(&self) -> CommandResultView {
        CommandResultView {
            command_id: self.command_id.deep_view(),
            status: self.status.deep_view(),
            message: self.message.deep_view(),
            finished_at_ms: self.finished_at_ms.deep_view(),
            dry_run: self.dry_run.deep_view(),
            requested_state: self.requested_state.deep_view(),
            applied_patch: self.applied_patch.deep_view(),
            observed_before: self.observed_before.deep_view(),
            observed_after: self.observed_after.deep_view(),
            warnings: self.warnings.deep_view(),
            verification: self.verification.deep_view(),
            resource_yaml: self.resource_yaml.deep_view(),
            diagnostic: self.diagnostic.deep_view(),
            restart_requested: self.restart_requested.deep_view(),
        }
    }
}

impl DeepClone for CommandResult {
    fn deep_clone(&self) -> (copy: Self) {
        CommandResult {
            command_id: self.command_id.deep_clone(),
            status: self.status.deep_clone(),
            message: self.message.deep_clone(),
            finished_at_ms: self.finished_at_ms.deep_clone(),
            dry_run: self.dry_run.deep_clone(),
            requested_state: self.requested_state.deep_clone(),
            applied_patch: self.applied_patch.deep_clone(),
            observed_before: self.observed_before.deep_clone(),
            observed_after: self.observed_after.deep_clone(),
            warnings: self.warnings.deep_clone(),
            verification: self.verification.deep_clone(),
            resource_yaml: self.resource_yaml.deep_clone(),
            diagnostic: self.diagnostic.deep_clone(),
            restart_requested: self.restart_requested.deep_clone(),
        }
    }
}

/// Whether a change is only tried, or made.
#[derive(Clone, Copy, Debug, PartialEq, Eq)]
pub enum ExecutionMode {
    Preview,
    Execute,
}

impl DeepView for ExecutionMode {
    type V = ExecutionMode;

    open spec fn deep_view(&self) -> ExecutionMode {
        *self
    }
}

impl DeepClone for ExecutionMode {
    fn deep_clone(&self) -> (copy: Self) {
        *self
    }
}

/// What handles a command.
#[derive(Clone, Copy, Debug, PartialEq, Eq)]
pub enum CommandRoute {
    GetResourceYaml,
    DiagnosePostgresql,
    PreviewWorkloadResources,
    ApplyWorkloadResources,
    RolloutRestart,
    Scale,
    DrainNode,
    SelfUpdate,
    UpdateAgent,
}

impl DeepView for CommandRoute {
    type V = CommandRoute;

    open spec fn deep_view(&self) -> CommandRoute {
        *self
    }
}

impl DeepClone for CommandRoute {
    fn deep_clone(&self) -> (copy: Self) {
        *self
    }
}

/// What is done about a command.
#[derive(Clone, Debug, PartialEq, Eq)]
pub enum Dispatch {
    /// It is handled.
    Run(CommandRoute),
    /// It is answered as it is.
    Reply(CommandResult),
}

/// The view of [`Dispatch`].
pub enum DispatchView {
    Run(CommandRoute),
    Reply(CommandResultView),
}

impl DeepView for Dispatch {
    type V = DispatchView;

    open spec fn deep_view(&self) -> DispatchView {
        match self {
            Dispatch::Run(a) => DispatchView::Run(a.deep_view()),
            Dispatch::Reply(a) => DispatchView::Reply(a.deep_view()),
        }
    }
}

impl DeepClone for Dispatch {
    fn deep_clone(&self) -> (copy: Self) {
        match self {
            Dispatch::Run(a) => Dispatch::Run(a.deep_clone()),
            Dispatch::Reply(a) => Dispatch::Reply(a.deep_clone()),
        }
    }
}

/// The commands that run and those that are done.
#[derive(Clone, Debug, PartialEq, Eq)]
pub struct CommandDedupState {
    pub completed: Vec<CommandResult>,
    pub running: Vec<String>,
}

/// The view of [`CommandDedupState`].
pub struct CommandDedupStateView {
    pub completed: Seq<CommandResultView>,
    pub running: Seq<Seq<char>>,
}

impl DeepView for CommandDedupState {
    type V = CommandDedupStateView;

    open spec fn deep_view(&self) -> CommandDedupStateView {
        CommandDedupStateView {
            completed: self.completed.deep_view(),
            running: self.running.deep_view(),
        }
    }
}

impl DeepClone for CommandDedupState {
    fn deep_clone(&self) -> (copy: Self) {
        CommandDedupState {
            completed: self.completed.deep_clone(),
            running: self.running.deep_clone(),
        }
    }
}

/// A restart of an agent.
#[derive(Clone, Debug, Default, PartialEq, Eq)]
pub struct SelfUpdateSpec {
    pub target_version: Option<String>,
    pub reason: Option<String>,
    pub strategy: Option<String>,
}

/// The view of [`SelfUpdateSpec`].
pub struct SelfUpdateSpecView {
    pub target_version: Option<Seq<char>>,
    pub reason: Option<Seq<char>>,
    pub strategy: Option<Seq<char>>,
}

impl DeepView for SelfUpdateSpec {
    type V = SelfUpdateSpecView;

    open spec fn deep_view(&self) -> SelfUpdateSpecView {
        SelfUpdateSpecView {
            target_version: self.target_version.deep_view(),
            reason: self.reason.deep_view(),
            strategy: self.strategy.deep_view(),
        }
    }
}

impl DeepClone for SelfUpdateSpec {
    fn deep_clone(&self) -> (copy: Self) {
        SelfUpdateSpec {
            target_version: self.target_version.deep_clone(),
            reason: self.reason.deep_clone(),
            strategy: self.strategy.deep_clone(),
        }
    }
}

/// Another image for the agents.
#[derive(Clone, Debug, PartialEq, Eq)]
pub struct UpdateAgentSpec {
    pub image: String,
}

/// The view of [`UpdateAgentSpec`].
pub struct UpdateAgentSpecView {
    pub image: Seq<char>,
}

impl DeepView for UpdateAgentSpec {
    type V = UpdateAgentSpecView;

    open spec fn deep_view(&self) -> UpdateAgentSpecView {
        UpdateAgentSpecView {
            image: self.image.deep_view(),
        }
    }
}

impl DeepClone for UpdateAgentSpec {
    fn deep_clone(&self) -> (copy: Self) {
        UpdateAgentSpec {
            image: self.image.deep_clone(),
        }
    }
}

/// A result with nothing but its outcome.
pub open spec fn simple_result(
    command_id: Seq<char>,
    status: Seq<char>,
    message: Option<Seq<char>>,
    finished_at_ms: u128,
) -> CommandResultView {
    CommandResultView {
        command_id,
        status,
        message,
        finished_at_ms,
        dry_run: None,
        requested_state: None,
        applied_patch: None,
        observed_before: None,
        observed_after: None,
        warnings: seq![],
        verification: None,
        resource_yaml: None,
        diagnostic: None,
        restart_requested: None,
    }
}

impl CommandResult {
    /// A result with nothing but its outcome.
    pub fn at(command_id: String, status: &'static str, message: Option<String>, finished_at_ms: u128) -> (r: Self)
        ensures
            r.deep_view() == simple_result(command_id.deep_view(), status.deep_view(), message.deep_view(), finished_at_ms),
    {
        let warnings: Vec<String> = Vec::new();
        assert(warnings.deep_view() =~= seq![]);
        CommandResult {
            command_id,
            status,
            message,
            finished_at_ms,
            dry_run: None,
            requested_state: None,
            applied_patch: None,
            observed_before: None,
            observed_after: None,
            warnings,
            verification: None,
            resource_yaml: None,
            diagnostic: None,
            restart_requested: None,
        }
    }

    /// A result with nothing but its outcome, as of now.
    pub fn simple(command_id: String, status: &'static str, message: Option<String>) -> (r: Self)
        ensures
            r.deep_view() == simple_result(
                command_id.deep_view(),
                status.deep_view(),
                message.deep_view(),
                r.finished_at_ms,
            ),
    {
        CommandResult::at(command_id, status, message, now_ms())
    }
}

/// A failure of a command that ran in some mode.
pub open spec fn failed_command(
    command_id: Seq<char>,
    mode: ExecutionMode,
    message: Seq<char>,
    now_ms: u128,
) -> CommandResultView {
    CommandResultView {
        dry_run: Some(mode == ExecutionMode::Preview),
        ..simple_result(command_id, "error"@, Some(message), now_ms)
    }
}

/// A failure of a command that ran in some mode.
pub fn command_error(command_id: &str, mode: ExecutionMode, message: String, now_ms: u128) -> (r: CommandResult)
    ensures
        r.deep_view() == failed_command(command_id@, mode, message@, now_ms),
{
    CommandResult {
        dry_run: Some(matches!(mode, ExecutionMode::Preview)),
        ..CommandResult::at(owned(command_id), "error", Some(message), now_ms)
    }
}

/// What is said of a spec that cannot be read.
pub fn invalid_spec(kind: &str, error: &str) -> (r: String)
    ensures
        r@ == "invalid spec for kind "@ + kind@ + ": "@ + error@,
{
    text4("invalid spec for kind ", kind, ": ", error)
}

/// The answer to a command whose spec cannot be read.
pub fn spec_error(cmd: &Command, message: String, now_ms: u128) -> (r: CommandResult)
    ensures
        r.deep_view() == simple_result(cmd.id@, "error"@, Some(message@), now_ms),
{
    CommandResult::at(owned(cmd.id.as_str()), "error", Some(message), now_ms)
}

// --------------------------------------------------------------- dispatching

/// What handles a kind of command.
pub open spec fn route_of(kind: Seq<char>) -> Option<CommandRoute> {
    if kind == "get_resource_yaml"@ {
        Some(CommandRoute::GetResourceYaml)
    } else if kind == "diagnose_postgresql"@ {
        Some(CommandRoute::DiagnosePostgresql)
    } else if kind == "preview_workload_resources"@ {
        Some(CommandRoute::PreviewWorkloadResources)
    } else if kind == "apply_workload_resources"@ {
        Some(CommandRoute::ApplyWorkloadResources)
    } else if kind == "rollout_restart"@ {
        Some(CommandRoute::RolloutRestart)
    } else if kind == "scale"@ {
        Some(CommandRoute::Scale)
    } else if kind == "drain_node"@ {
        Some(CommandRoute::DrainNode)
    } else if kind == "self_update"@ {
        Some(CommandRoute::SelfUpdate)
    } else if kind == "update_agent"@ {
        Some(CommandRoute::UpdateAgent)
    } else {
        None
    }
}

/// What handles a kind of command.
pub fn command_route(kind: &str) -> (r: Option<CommandRoute>)
    ensures
        r == route_of(kind@),
{
    if str_eq(kind, "get_resource_yaml") {
        Some(CommandRoute::GetResourceYaml)
    } else if str_eq(kind, "diagnose_postgresql") {
        Some(CommandRoute::DiagnosePostgresql)
    } else if str_eq(kind, "preview_workload_resources") {
        Some(CommandRoute::PreviewWorkloadResources)
    } else if str_eq(kind, "apply_workload_resources") {
        Some(CommandRoute::ApplyWorkloadResources)
    } else if str_eq(kind, "rollout_restart") {
        Some(CommandRoute::RolloutRestart)
    } else if str_eq(kind, "scale") {
        Some(CommandRoute::Scale)
    } else if str_eq(kind, "drain_node") {
        Some(CommandRoute::DrainNode)
    } else if str_eq(kind, "self_update") {
        Some(CommandRoute::SelfUpdate)
    } else if str_eq(kind, "update_agent") {
        Some(CommandRoute::UpdateAgent)
    } else {
        None
    }
}

/// Why a command that is known is not run: manifests can always be read, diagnoses need the
/// read-only commands to be enabled, and all else needs the actions to be enabled.
pub open spec fn skip_reason(
    route: CommandRoute,
    actions_enabled: bool,
    readonly_commands_enabled: bool,
) -> Option<Seq<char>> {
    match route {
        CommandRoute::GetResourceYaml => None,
        CommandRoute::DiagnosePostgresql => if readonly_commands_enabled {
            None
        } else {
            Some("agent read-only commands disabled (POSTGRESQL_READONLY_COMMANDS_ENABLED=false)"@)
        },
        _ => if actions_enabled {
            None
        } else {
            Some("agent in read-only mode (ACTION_OPERATOR_ENABLED=false)"@)
        },
    }
}

fn reason_to_skip(route: CommandRoute, actions_enabled: bool, readonly_commands_enabled: bool) -> (r: Option<&'static str>)
    ensures
        r.deep_view() == skip_reason(route, actions_enabled, readonly_commands_enabled),
{
    match route {
        CommandRoute::GetResourceYaml => None,
        CommandRoute::DiagnosePostgresql => if readonly_commands_enabled {
            None
        } else {
            Some("agent read-only commands disabled (POSTGRESQL_READONLY_COMMANDS_ENABLED=false)")
        },
        _ => if actions_enabled {
            None
        } else {
            Some("agent in read-only mode (ACTION_OPERATOR_ENABLED=false)")
        },
    }
}

/// What is done about a command.
pub open spec fn dispatch_of(
    command_id: Seq<char>,
    kind: Seq<char>,
    actions_enabled: bool,
    readonly_commands_enabled: bool,
    now_ms: u128,
) -> DispatchView {
    match route_of(kind) {
        None => DispatchView::Reply(
            simple_result(command_id, "unknown"@, Some("unknown command kind: "@ + kind), now_ms),
        ),
        Some(route) => match skip_reason(route, actions_enabled, readonly_commands_enabled) {
            Some(reason) => DispatchView::Reply(simple_result(command_id, "skipped"@, Some(reason), now_ms)),
            None => DispatchView::Run(route),
        },
    }
}

/// What is done about a command, before its spec is read.
pub fn dispatch_command(cfg: &Config, cmd: &Command, now_ms: u128) -> (r: Dispatch)
    ensures
        r.deep_view() == dispatch_of(
            cmd.id@,
            cmd.kind@,
            cfg.actions_enabled,
            cfg.readonly_commands_enabled,
            now_ms,
        ),
{
    match command_route(cmd.kind.as_str()) {
        None => Dispatch::Reply(
            CommandResult::at(
                owned(cmd.id.as_str()),
                "unknown",
                Some(text2("unknown command kind: ", cmd.kind.as_str())),
                now_ms,
            ),
        ),
        Some(route) => match reason_to_skip(route, cfg.actions_enabled, cfg.readonly_commands_enabled) {
            Some(reason) => Dispatch::Reply(
                CommandResult::at(owned(cmd.id.as_str()), "skipped", Some(owned(reason)), now_ms),
            ),
            None => Dispatch::Run(route),
        },
    }
}

/// While the agent is in read-only mode, no command that could change the cluster is run.
pub proof fn lemma_read_only_mode(
    command_id: Seq<char>,
    kind: Seq<char>,
    readonly_commands_enabled: bool,
    now_ms: u128,
)
    ensures
        match dispatch_of(command_id, kind, false, readonly_commands_enabled, now_ms) {
            DispatchView::Run(route) => route == CommandRoute::GetResourceYaml || route
                == CommandRoute::DiagnosePostgresql,
            DispatchView::Reply(result) => result.status == "skipped"@ || result.status == "unknown"@,
        },
{
}

// ------------------------------------------------------------ running once

/// The result of a command that is done.
pub open spec fn completed_result(completed: Seq<CommandResultView>, id: Seq<char>) -> Option<CommandResultView> {
    views::first_that(completed, |r: CommandResultView| r.command_id == id)
}

/// What is answered to a command instead of running it.
pub open spec fn known_answer(state: CommandDedupStateView, id: Seq<char>, now_ms: u128) -> Option<CommandResultView> {
    match completed_result(state.completed, id) {
        Some(result) => Some(result),
        None => if state.running.contains(id) {
            Some(simple_result(id, "skipped"@, Some("command already running"@), now_ms))
        } else {
            None
        },
    }
}

/// The commands that run once one begins.
pub open spec fn with_begun(state: CommandDedupStateView, id: Seq<char>) -> CommandDedupStateView {
    if completed_result(state.completed, id) is Some || state.running.contains(id) {
        state
    } else {
        CommandDedupStateView { running: state.running.push(id), ..state }
    }
}

/// The commands that run and those that are done once one is done.
pub open spec fn with_finished(state: CommandDedupStateView, result: CommandResultView) -> CommandDedupStateView {
    CommandDedupStateView {
        completed: state.completed.filter(|r: CommandResultView| r.command_id != result.command_id).push(result),
        running: state.running.filter(|id: Seq<char>| id != result.command_id),
    }
}

impl CommandDedupState {
    /// Nothing has been run.
    pub fn new() -> (r: Self)
        ensures
            r.deep_view() == (CommandDedupStateView { completed: seq![], running: seq![] }),
    {
        let completed: Vec<CommandResult> = Vec::new();
        let running: Vec<String> = Vec::new();
        assert(completed.deep_view() =~= seq![]);
        assert(running.deep_view() =~= seq![]);
        CommandDedupState { completed, running }
    }

    /// Begins a command, unless it runs or is done; then its answer is given.
    pub fn begin(&mut self, cmd: &Command, now_ms: u128) -> (r: Option<CommandResult>)
        ensures
            r.deep_view() == known_answer(old(self).deep_view(), cmd.id@, now_ms),
            final(self).deep_view() == with_begun(old(self).deep_view(), cmd.id@),
    {
        let same = |r: &CommandResult| -> (b: bool)
            ensures
                b == (r.deep_view().command_id == cmd.id@),
            { str_eq(r.command_id.as_str(), cmd.id.as_str()) };
        match find_item(&self.completed, same, Ghost(|r: CommandResultView| r.command_id == cmd.id@)) {
            Some(i) => Some(self.completed[i].deep_clone()),
            None => {
                if list_has(&self.running, cmd.id.as_str()) {
                    return Some(
                        CommandResult::at(
                            owned(cmd.id.as_str()),
                            "skipped",
                            Some(owned("command already running")),
                            now_ms,
                        ),
                    );
                }
                let ghost before = self.running.deep_view();
                self.running.push(owned(cmd.id.as_str()));
                assert(self.running.deep_view() =~= before.push(cmd.id@));
                None
            },
        }
    }

    /// Ends a command with its result.
    pub fn finish(&mut self, result: &CommandResult)
        ensures
            final(self).deep_view() == with_finished(old(self).deep_view(), result.deep_view()),
    {
        let other = |r: &CommandResult| -> (b: bool)
            ensures
                b == (r.deep_view().command_id != result.deep_view().command_id),
            { !str_eq(r.command_id.as_str(), result.command_id.as_str()) };
        let mut completed = filter_cloned(
            &self.completed,
            other,
            Ghost(|r: CommandResultView| r.command_id != result.deep_view().command_id),
        );
        let ghost kept = completed.deep_view();
        completed.push(result.deep_clone());
        assert(completed.deep_view() =~= kept.push(result.deep_view()));
        let another = |id: &String| -> (b: bool)
            ensures
                b == (id.deep_view() != result.deep_view().command_id),
            { !str_eq(id.as_str(), result.command_id.as_str()) };
        let running = filter_cloned(
            &self.running,
            another,
            Ghost(|id: Seq<char>| id != result.deep_view().command_id),
        );
        self.completed = completed;
        self.running = running;
    }
}

proof fn lemma_first_past(s: Seq<CommandResultView>, x: CommandResultView)
    requires
        forall|i: int| 0 <= i < s.len() ==> (#[trigger] s[i]).command_id != x.command_id,
    ensures
        completed_result(s.push(x), x.command_id) == Some(x),
    decreases s.len(),
{
    if s.len() > 0 {
        assert(s.push(x).drop_first() =~= s.drop_first().push(x));
        assert forall|i: int| 0 <= i < s.drop_first().len() implies (#[trigger] s.drop_first()[i]).command_id
            != x.command_id by {
            assert(s[i + 1].command_id != x.command_id);
        }
        lemma_first_past(s.drop_first(), x);
    } else {
        assert(s.push(x)[0] == x);
    }
}

/// A command that is done is never run again: it is answered with the result it had.
pub proof fn lemma_done_is_done(state: CommandDedupStateView, result: CommandResultView, now_ms: u128)
    ensures
        known_answer(with_finished(state, result), result.command_id, now_ms) == Some(result),
{
    let other = |r: CommandResultView| r.command_id != result.command_id;
    let kept = state.completed.filter(other);
    assert forall|i: int| 0 <= i < kept.len() implies (#[trigger] kept[i]).command_id != result.command_id by {
        state.completed.lemma_filter_pred(other, i);
    }
    lemma_first_past(kept, result);
}

proof fn lemma_first_pushed(s: Seq<CommandResultView>, x: CommandResultView, id: Seq<char>)
    ensures
        completed_result(s.push(x), id) == (match completed_result(s, id) {
            Some(result) => Some(result),
            None => if x.command_id == id {
                Some(x)
            } else {
                None
            },
        }),
    decreases s.len(),
{
    if s.len() > 0 {
        assert(s.push(x)[0] == s[0]);
        assert(s.push(x).drop_first() =~= s.drop_first().push(x));
        lemma_first_pushed(s.drop_first(), x, id);
    } else {
        assert(s.push(x)[0] == x);
        assert(s.push(x).drop_first() =~= s);
    }
}

proof fn lemma_first_kept(s: Seq<CommandResultView>, id: Seq<char>, other: Seq<char>)
    requires
        other != id,
    ensures
        completed_result(s.filter(|r: CommandResultView| r.command_id != other), id) == completed_result(s, id),
    decreases s.len(),
{
    let keep = |r: CommandResultView| r.command_id != other;
    reveal(Seq::filter);
    if s.len() > 0 {
        let rest = s.drop_last();
        assert(s =~= rest.push(s.last()));
        rest.lemma_filter_push(s.last(), keep);
        lemma_first_kept(rest, id, other);
        lemma_first_pushed(rest, s.last(), id);
        lemma_first_pushed(rest.filter(keep), s.last(), id);
    }
}

/// What a command is answered stays its answer while other commands begin and end: the result of
/// one that is done, and that one runs.
pub proof fn lemma_answer_outlives_others(
    state: CommandDedupStateView,
    id: Seq<char>,
    other: CommandResultView,
    now_ms: u128,
)
    requires
        other.command_id != id,
    ensures
        completed_result(with_begun(state, other.command_id).completed, id) == completed_result(state.completed, id),
        completed_result(with_finished(state, other).completed, id) == completed_result(state.completed, id),
        known_answer(with_begun(state, other.command_id), id, now_ms) == known_answer(state, id, now_ms),
        known_answer(with_finished(state, other), id, now_ms) == known_answer(state, id, now_ms),
{
    let keep = |r: CommandResultView| r.command_id != other.command_id;
    lemma_first_kept(state.completed, id, other.command_id);
    lemma_first_pushed(state.completed.filter(keep), other, id);
    let runs = |i: Seq<char>| i != other.command_id;
    assert(state.running.filter(runs).contains(id) == state.running.contains(id)) by {
        if state.running.contains(id) {
            let i = choose|i: int| 0 <= i < state.running.len() && state.running[i] == id;
            state.running.lemma_filter_contains(runs, i);
        }
        if state.running.filter(runs).contains(id) {
            state.running.lemma_filter_contains_rev(runs, id);
        }
    }
    let pushed = state.running.push(other.command_id);
    assert(pushed.contains(id) == state.running.contains(id)) by {
        if state.running.contains(id) {
            let i = choose|i: int| 0 <= i < state.running.len() && state.running[i] == id;
            assert(pushed[i] == id);
        }
        if pushed.contains(id) {
            let i = choose|i: int| 0 <= i < pushed.len() && pushed[i] == id;
            assert(state.running[i] == id);
        }
    }
}

/// A command that runs is not begun a second time.
pub proof fn lemma_running_is_not_begun(state: CommandDedupStateView, id: Seq<char>, now_ms: u128)
    ensures
        known_answer(with_begun(state, id), id, now_ms) is Some,
        with_begun(with_begun(state, id), id) == with_begun(state, id),
{
    let begun = with_begun(state, id);
    if completed_result(state.completed, id) is None && !state.running.contains(id) {
        assert(begun.running[state.running.len() as int] == id);
    }
}

// ------------------------------------------------------------- what it is for

/// Each kind of command is taken for what it is, and a kind that is not known for nothing.
pub proof fn lemma_commands_by_kind(kind: Seq<char>)
    ensures
        route_of(kind) == Some(CommandRoute::GetResourceYaml) <==> kind == "get_resource_yaml"@,
        route_of(kind) == Some(CommandRoute::DiagnosePostgresql) <==> kind == "diagnose_postgresql"@,
        route_of(kind) == Some(CommandRoute::PreviewWorkloadResources) <==> kind == "preview_workload_resources"@,
        route_of(kind) == Some(CommandRoute::ApplyWorkloadResources) <==> kind == "apply_workload_resources"@,
        route_of(kind) == Some(CommandRoute::RolloutRestart) <==> kind == "rollout_restart"@,
        route_of(kind) == Some(CommandRoute::Scale) <==> kind == "scale"@,
        route_of(kind) == Some(CommandRoute::DrainNode) <==> kind == "drain_node"@,
        route_of(kind) == Some(CommandRoute::SelfUpdate) <==> kind == "self_update"@,
        route_of(kind) == Some(CommandRoute::UpdateAgent) <==> kind == "update_agent"@,
{
    reveal_strlit("get_resource_yaml");
    reveal_strlit("diagnose_postgresql");
    reveal_strlit("preview_workload_resources");
    reveal_strlit("apply_workload_resources");
    reveal_strlit("rollout_restart");
    reveal_strlit("scale");
    reveal_strlit("drain_node");
    reveal_strlit("self_update");
    reveal_strlit("update_agent");
    assert("get_resource_yaml"@.len() == 17 && "diagnose_postgresql"@.len() == 19
        && "preview_workload_resources"@.len() == 26 && "apply_workload_resources"@.len() == 24
        && "rollout_restart"@.len() == 15 && "scale"@.len() == 5 && "drain_node"@.len() == 10 && "self_update"@.len()
        == 11 && "update_agent"@.len() == 12);
}

/// A command is run where it only reads a resource, where it diagnoses and reading commands are
/// switched on, or where actions are switched on; it is skipped otherwise, and answered as unknown
/// where its kind is. The answer is to the command, and as of now.
pub proof fn lemma_commands_run_where_switched_on(
    command_id: Seq<char>,
    kind: Seq<char>,
    actions_enabled: bool,
    readonly_commands_enabled: bool,
    now_ms: u128,
)
    ensures
        ({
            let dispatch = dispatch_of(command_id, kind, actions_enabled, readonly_commands_enabled, now_ms);
            match route_of(kind) {
                None => dispatch matches DispatchView::Reply(result) && result.status == "unknown"@ && result.command_id
                    == command_id && result.finished_at_ms == now_ms && result.message is Some && text::contains_text(
                    result.message->0,
                    kind,
                ),
                Some(route) => {
                    let on = route == CommandRoute::GetResourceYaml || (route == CommandRoute::DiagnosePostgresql
                        && readonly_commands_enabled) || (route != CommandRoute::DiagnosePostgresql && actions_enabled);
                    &&& on ==> dispatch == DispatchView::Run(route)
                    &&& !on ==> (dispatch matches DispatchView::Reply(result) && result.status == "skipped"@
                        && result.command_id == command_id && result.message is Some && result.finished_at_ms == now_ms
                        && result.applied_patch is None && result.dry_run is None)
                },
            }
        }),
{
    if route_of(kind) is None {
        let message = "unknown command kind: "@ + kind;
        let at = message.len() - kind.len();
        assert(message.subrange(at, at + kind.len()) =~= kind);
        assert(text::occurs_at(message, kind, at));
    }
}

/// A command that failed is answered with an error and says whether it was a preview; an answer
/// carries what it is given and nothing else.
pub proof fn lemma_answers_carry_what_they_are_given(
    command_id: Seq<char>,
    status: Seq<char>,
    message: Seq<char>,
    mode: ExecutionMode,
    now_ms: u128,
)
    ensures
        ({
            let failed = failed_command(command_id, mode, message, now_ms);
            let simple = simple_result(command_id, status, Some(message), now_ms);
            &&& failed.status == "error"@ && failed.message == Some(message) && failed.command_id == command_id
            &&& failed.dry_run == Some(mode == ExecutionMode::Preview)
            &&& failed.finished_at_ms == now_ms && failed.applied_patch is None && failed.verification is None
            &&& simple.status == status && simple.message == Some(message) && simple.command_id == command_id
            &&& simple.finished_at_ms == now_ms && simple.dry_run is None && simple.applied_patch is None
            &&& simple.restart_requested is None && simple.warnings.len() == 0 && simple.verification is None
        }),
{
}

/// A command is answered without being run exactly where it is done or runs: with the result it had,
/// or as skipped.
pub proof fn lemma_known_where_done_or_running(state: CommandDedupStateView, id: Seq<char>, now_ms: u128)
    ensures
        known_answer(state, id, now_ms) is None <==> !state.running.contains(id) && forall|i: int|
            0 <= i < state.completed.len() ==> (#[trigger] state.completed[i]).command_id != id,
        (exists|i: int| 0 <= i < state.completed.len() && (#[trigger] state.completed[i]).command_id == id)
            ==> state.completed.contains(known_answer(state, id, now_ms)->0),
        known_answer(state, id, now_ms) matches Some(result) ==> result.command_id == id,
        state.running.contains(id) && (forall|i: int|
            0 <= i < state.completed.len() ==> (#[trigger] state.completed[i]).command_id != id) ==> known_answer(
            state,
            id,
            now_ms,
        )->0.status == "skipped"@,
        known_answer(state, id, now_ms) is None ==> with_begun(state, id).running.contains(id) && with_begun(
            state,
            id,
        ).completed == state.completed,
{
    let named = |r: CommandResultView| r.command_id == id;
    views::lemma_first_that_is_there(state.completed, named);
    if exists|i: int| 0 <= i < state.completed.len() && (#[trigger] state.completed[i]).command_id == id {
        let i = choose|i: int| 0 <= i < state.completed.len() && (#[trigger] state.completed[i]).command_id == id;
        assert(named(state.completed[i]));
    }
    if completed_result(state.completed, id) is Some {
        let i = choose|i: int| 0 <= i < state.completed.len() && named(#[trigger] state.completed[i]);
        assert(state.completed[i].command_id == id);
    }
    let pushed = state.running.push(id);
    assert(pushed[state.running.len() as int] == id);
}

} // verus!
