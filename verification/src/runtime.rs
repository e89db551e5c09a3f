//! How the program runs: in which mode, with which settings, what it warns of, and what it sends.
use crate::clock;
use crate::clock::{now_instant, read_rfc3339};
use crate::command::CommandResult;
use crate::config;
use crate::config::{agent_runtime_env, Config, ConfigError, ConfigView};
use crate::dependency;
use crate::model::{
    AgentInfo, AgentInfoView, ClusterInfo, ClusterInfoView, ClusterStatus, ConfigurationInventory,
    ConfigurationInventoryView, DependencyInventory, DependencyInventoryView, EventInfo, EventInfoView,
    InventorySnapshot, InventorySnapshotView, KV, KVView, MetricsStatus, MetricsStatusView, NamespaceInfo,
    NamespaceInfoView, NetworkInventory, NetworkInventoryView, OperationalMaturityInventory,
    OperationalMaturityInventoryView, Plugins, PluginsView, PodInfo, PodInfoView,
    PostgresqlMonitoringPlugin, PostgresqlMonitoringPluginView, SecurityInventory, SecurityInventoryView,
    SnapshotApiStatus, SnapshotApiStatusView, StorageInventory, StorageInventoryView,
    WorkloadMonitoringPlugin, WorkloadMonitoringPluginView, Workloads, WorkloadsView,
};
use crate::order::str_eq;
use crate::pairs;
use crate::pairs::pair_value;
use crate::text;
use crate::text::{decimal, owned, strip_prefix, text2, text3, text5, text7, trim};
use crate::views;
use crate::views::{DeepClone, filter_cloned, opt_str};
use vstd::prelude::*;

verus! {

/// The name of the agent.
pub const AGENT_NAME: &'static str = "Sentinella Hub Kubernetes Agent";

/// For how long the same warning is held back.
pub const WARN_SUPPRESSION_WINDOW_MS: u128 = 60_000;

/// For how long the warning of the same state of an interface is held back.
pub const METRICS_WARN_SUPPRESSION_WINDOW_MS: u128 = 300_000;

/// A cluster that was seen within so many seconds is active.
pub const ACTIVE_CLUSTER_WARN_THRESHOLD_SECS: i128 = 300;

/// What the program runs as.
#[derive(Clone, Copy, Debug, PartialEq, Eq)]
pub enum RuntimeMode {
    Agent,
    Operator,
}

impl DeepView for RuntimeMode {
    type V = RuntimeMode;

    open spec fn deep_view(&self) -> RuntimeMode {
        *self
    }
}

impl DeepClone for RuntimeMode {
    fn deep_clone(&self) -> (copy: Self) {
        *self
    }
}

/// When a warning was last given, of which state, and how often it was held back since.
#[derive(Clone, Debug, PartialEq, Eq)]
pub struct SuppressionState {
    pub key: String,
    pub state: String,
    pub last_emitted_at_ms: u128,
    pub suppressed_count: u64,
}

/// The view of [`SuppressionState`].
pub struct SuppressionStateView {
    pub key: Seq<char>,
    pub state: Seq<char>,
    pub last_emitted_at_ms: u128,
    pub suppressed_count: u64,
}

impl DeepView for SuppressionState {
    type V = SuppressionStateView;

    open spec fn deep_view(&self) -> SuppressionStateView {
        SuppressionStateView {
            key: self.key.deep_view(),
            state: self.state.deep_view(),
            last_emitted_at_ms: self.last_emitted_at_ms.deep_view(),
            suppressed_count: self.suppressed_count.deep_view(),
        }
    }
}

impl DeepClone for SuppressionState {
    fn deep_clone(&self) -> (copy: Self) {
        SuppressionState {
            key: self.key.deep_clone(),
            state: self.state.deep_clone(),
            last_emitted_at_ms: self.last_emitted_at_ms.deep_clone(),
            suppressed_count: self.suppressed_count.deep_clone(),
        }
    }
}

/// The warnings that were given.
#[derive(Clone, Debug, PartialEq, Eq)]
pub struct WarnSuppression {
    pub entries: Vec<SuppressionState>,
}

/// The view of [`WarnSuppression`].
pub struct WarnSuppressionView {
    pub entries: Seq<SuppressionStateView>,
}

impl DeepView for WarnSuppression {
    type V = WarnSuppressionView;

    open spec fn deep_view(&self) -> WarnSuppressionView {
        WarnSuppressionView {
            entries: self.entries.deep_view(),
        }
    }
}

impl DeepClone for WarnSuppression {
    fn deep_clone(&self) -> (copy: Self) {
        WarnSuppression {
            entries: self.entries.deep_clone(),
        }
    }
}

/// What is done about a warning.
#[derive(Clone, Copy, Debug, PartialEq, Eq)]
pub enum WarnDecision {
    /// It is given; before that, how often it was held back, where it was.
    Emit(u64),
    Suppress,
}

impl DeepView for WarnDecision {
    type V = WarnDecision;

    open spec fn deep_view(&self) -> WarnDecision {
        *self
    }
}

impl DeepClone for WarnDecision {
    fn deep_clone(&self) -> (copy: Self) {
        *self
    }
}

/// What the status of the cluster at the hub says.
#[derive(Clone, Copy, Debug, PartialEq, Eq)]
pub enum ClusterCheck {
    Quiet,
    /// The time is none.
    Invalid,
    /// The cluster was seen so many seconds ago: something else runs under its name.
    Duplicate(i128),
}

impl DeepView for ClusterCheck {
    type V = ClusterCheck;

    open spec fn deep_view(&self) -> ClusterCheck {
        *self
    }
}

impl DeepClone for ClusterCheck {
    fn deep_clone(&self) -> (copy: Self) {
        *self
    }
}

/// What was collected of a cluster.
#[derive(Clone, Debug, PartialEq, Eq)]
pub struct CollectedInventory {
    pub k8s_uid: Option<String>,
    pub cluster: ClusterInfo,
    pub namespaces: Vec<NamespaceInfo>,
    pub workloads: Workloads,
    pub pods: Vec<PodInfo>,
    pub network: NetworkInventory,
    pub security: SecurityInventory,
    pub operational_maturity: OperationalMaturityInventory,
    pub dependencies: DependencyInventory,
    pub configuration: ConfigurationInventory,
    pub storage: StorageInventory,
    pub events: Vec<EventInfo>,
    pub metrics: MetricsStatus,
    pub snapshot_api: SnapshotApiStatus,
}

/// The view of [`CollectedInventory`].
pub struct CollectedInventoryView {
    pub k8s_uid: Option<Seq<char>>,
    pub cluster: ClusterInfoView,
    pub namespaces: Seq<NamespaceInfoView>,
    pub workloads: WorkloadsView,
    pub pods: Seq<PodInfoView>,
    pub network: NetworkInventoryView,
    pub security: SecurityInventoryView,
    pub operational_maturity: OperationalMaturityInventoryView,
    pub dependencies: DependencyInventoryView,
    pub configuration: ConfigurationInventoryView,
    pub storage: StorageInventoryView,
    pub events: Seq<EventInfoView>,
    pub metrics: MetricsStatusView,
    pub snapshot_api: SnapshotApiStatusView,
}

impl DeepView for CollectedInventory {
    type V = CollectedInventoryView;

    open spec fn deep_view(&self) -> CollectedInventoryView {
        CollectedInventoryView {
            k8s_uid: self.k8s_uid.deep_view(),
            cluster: self.cluster.deep_view(),
            namespaces: self.namespaces.deep_view(),
            workloads: self.workloads.deep_view(),
            pods: self.pods.deep_view(),
            network: self.network.deep_view(),
            security: self.security.deep_view(),
            operational_maturity: self.operational_maturity.deep_view(),
            dependencies: self.dependencies.deep_view(),
            configuration: self.configuration.deep_view(),
            storage: self.storage.deep_view(),
            events: self.events.deep_view(),
            metrics: self.metrics.deep_view(),
            snapshot_api: self.snapshot_api.deep_view(),
        }
    }
}

impl DeepClone for CollectedInventory {
    fn deep_clone(&self) -> (copy: Self) {
        CollectedInventory {
            k8s_uid: self.k8s_uid.deep_clone(),
            cluster: self.cluster.deep_clone(),
            namespaces: self.namespaces.deep_clone(),
            workloads: self.workloads.deep_clone(),
            pods: self.pods.deep_clone(),
            network: self.network.deep_clone(),
            security: self.security.deep_clone(),
            operational_maturity: self.operational_maturity.deep_clone(),
            dependencies: self.dependencies.deep_clone(),
            configuration: self.configuration.deep_clone(),
            storage: self.storage.deep_clone(),
            events: self.events.deep_clone(),
            metrics: self.metrics.deep_clone(),
            snapshot_api: self.snapshot_api.deep_clone(),
        }
    }
}

// ------------------------------------------------------------------- the mode

impl RuntimeMode {
    /// The name of the mode.
    pub open spec fn text(self) -> Seq<char> {
        match self {
            RuntimeMode::Agent => "agent"@,
            RuntimeMode::Operator => "operator"@,
        }
    }

    /// The name of the mode.
    pub fn as_str(&self) -> (r: &'static str)
        ensures
            r@ == self.text(),
    {
        match self {
            RuntimeMode::Agent => "agent",
            RuntimeMode::Operator => "operator",
        }
    }

    /// The mode of a name.
    pub fn parse(value: &str) -> (r: Result<RuntimeMode, String>)
        ensures
            match r {
                Ok(mode) => mode_named(value@) == Some(mode),
                Err(message) => mode_named(value@) is None && message@ == invalid_mode(value@),
            },
    {
        if str_eq(value, "agent") {
            Ok(RuntimeMode::Agent)
        } else if str_eq(value, "operator") {
            Ok(RuntimeMode::Operator)
        } else {
            Err(text3("invalid runtime mode: ", value, "; expected agent or operator"))
        }
    }
}

/// The mode of a name.
pub open spec fn mode_named(value: Seq<char>) -> Option<RuntimeMode> {
    if value == "agent"@ {
        Some(RuntimeMode::Agent)
    } else if value == "operator"@ {
        Some(RuntimeMode::Operator)
    } else {
        None
    }
}

/// What is said of a name that no mode has.
pub open spec fn invalid_mode(value: Seq<char>) -> Seq<char> {
    "invalid runtime mode: "@ + value + "; expected agent or operator"@
}

/// The mode that the arguments from one on ask for; the last one that they name counts.
pub open spec fn mode_from(args: Seq<Seq<char>>, from: int, mode: RuntimeMode) -> Result<RuntimeMode, Seq<char>>
    decreases args.len() - from,
{
    if from < 0 || from >= args.len() {
        Ok(mode)
    } else if args[from] == "--mode"@ {
        if from + 1 >= args.len() {
            Err("--mode requires a value: agent or operator"@)
        } else {
            match mode_named(args[from + 1]) {
                Some(named) => mode_from(args, from + 2, named),
                None => Err(invalid_mode(args[from + 1])),
            }
        }
    } else if text::has_prefix(args[from], "--mode="@) {
        match mode_named(text::after_prefix(args[from], "--mode="@)) {
            Some(named) => mode_from(args, from + 1, named),
            None => Err(invalid_mode(text::after_prefix(args[from], "--mode="@))),
        }
    } else {
        Err("unknown argument: "@ + args[from])
    }
}

/// The mode that the arguments of the program ask for; an agent where they ask for none.
pub fn parse_runtime_mode(args: &Vec<String>) -> (r: Result<RuntimeMode, String>)
    ensures
        match r {
            Ok(mode) => mode_from(args.deep_view(), 0, RuntimeMode::Agent) == Ok::<RuntimeMode, Seq<char>>(mode),
            Err(message) => mode_from(args.deep_view(), 0, RuntimeMode::Agent) == Err::<RuntimeMode, Seq<char>>(
                message@,
            ),
        },
{
    let ghost all = args.deep_view();
    let total: usize = args.len();
    let mut mode = RuntimeMode::Agent;
    let mut i: usize = 0;
    while i < total
        invariant
            i <= total,
            total == args.len(),
            all == args.deep_view(),
            mode_from(all, 0, RuntimeMode::Agent) == mode_from(all, i as int, mode),
        decreases total - i,
    {
        let arg = args[i].as_str();
        assert(all[i as int] == arg@);
        if str_eq(arg, "--mode") {
            if total - i < 2 {
                return Err(owned("--mode requires a value: agent or operator"));
            }
            let value = args[i + 1].as_str();
            assert(all[i + 1] == value@);
            match RuntimeMode::parse(value) {
                Ok(named) => {
                    mode = named;
                },
                Err(message) => {
                    return Err(message);
                },
            }
            i += 2;
        } else {
            match strip_prefix(arg, "--mode=") {
                Some(value) => match RuntimeMode::parse(value) {
                    Ok(named) => {
                        mode = named;
                    },
                    Err(message) => {
                        return Err(message);
                    },
                },
                None => {
                    return Err(text2("unknown argument: ", arg));
                },
            }
            i += 1;
        }
    }
    Ok(mode)
}

/// What an environment is taken for in a mode: the operator does without the hub.
pub open spec fn env_for_mode(mode: RuntimeMode, env: Seq<KVView>) -> Seq<KVView> {
    match mode {
        RuntimeMode::Agent => env,
        RuntimeMode::Operator => env.push(KVView { key: "HUB_URL"@, value: ""@ }).push(
            KVView { key: "CLUSTER_ID"@, value: ""@ },
        ),
    }
}

/// The settings that an environment holds for a mode. Only an agent needs the hub.
pub fn config_for_mode(mode: RuntimeMode, env: &Vec<KV>) -> (r: Result<Config, ConfigError>)
    ensures
        ({
            let settings = env_for_mode(mode, env.deep_view());
            match r {
                Ok(cfg) => pairs::value_of(settings, "HUB_URL"@) is Some && pairs::value_of(settings, "CLUSTER_ID"@) is Some
                    && cfg.deep_view() == config::settings_of(settings),
                Err(ConfigError::HubUrlNotSet) => mode == RuntimeMode::Agent && pairs::value_of(settings, "HUB_URL"@) is None,
                Err(ConfigError::ClusterIdNotSet) => mode == RuntimeMode::Agent && pairs::value_of(settings, "HUB_URL"@) is Some
                    && pairs::value_of(settings, "CLUSTER_ID"@) is None,
            }
        }),
{
    match mode {
        RuntimeMode::Agent => Config::from_env(env),
        RuntimeMode::Operator => {
            let mut settings = env.deep_clone();
            let ghost given = env.deep_view();
            settings.push(KV { key: owned("HUB_URL"), value: owned("") });
            settings.push(KV { key: owned("CLUSTER_ID"), value: owned("") });
            assert(settings.deep_view() =~= env_for_mode(mode, given));
            proof {
                let all = env_for_mode(mode, given);
                pairs::lemma_value_of(all, "HUB_URL"@);
                pairs::lemma_value_of(all, "CLUSTER_ID"@);
                assert(all[given.len() as int].key == "HUB_URL"@);
                assert(all[given.len() as int + 1].key == "CLUSTER_ID"@);
            }
            Config::from_env(&settings)
        },
    }
}

/// Which messages are logged: what `AGENT_LOG` says, or else `RUST_LOG`.
pub open spec fn log_filter_of(env: Seq<KVView>) -> Seq<char> {
    match said_by(env, "AGENT_LOG"@) {
        Some(filter) => filter,
        None => match said_by(env, "RUST_LOG"@) {
            Some(filter) => filter,
            None => "info"@,
        },
    }
}

/// What a variable says, where it is not blank.
pub open spec fn said_by(env: Seq<KVView>, key: Seq<char>) -> Option<Seq<char>> {
    match pairs::value_of(env, key) {
        Some(value) => if text::trimmed(value).len() == 0 {
            None
        } else {
            Some(value)
        },
        None => None,
    }
}

fn say<'a>(env: &'a Vec<KV>, key: &str) -> (r: Option<&'a str>)
    ensures
        r.deep_view() == said_by(env.deep_view(), key@),
{
    match pair_value(env, key) {
        Some(value) => if trim(value).is_empty() {
            None
        } else {
            Some(value)
        },
        None => None,
    }
}

/// Which messages are logged.
pub fn log_filter(env: &Vec<KV>) -> (r: String)
    ensures
        r@ == log_filter_of(env.deep_view()),
{
    match say(env, "AGENT_LOG") {
        Some(filter) => owned(filter),
        None => match say(env, "RUST_LOG") {
            Some(filter) => owned(filter),
            None => owned("info"),
        },
    }
}

// ------------------------------------------------------------------ warnings

/// The place of a warning among those that were given.
pub open spec fn warning_place(entries: Seq<SuppressionStateView>, key: Seq<char>) -> Option<int>
    decreases entries.len(),
{
    if entries.len() == 0 {
        None
    } else if entries.last().key == key {
        Some(entries.len() - 1)
    } else {
        warning_place(entries.drop_last(), key)
    }
}

proof fn lemma_warning_place(entries: Seq<SuppressionStateView>, key: Seq<char>)
    ensures
        warning_place(entries, key) matches Some(i) ==> 0 <= i < entries.len() && entries[i].key == key,
    decreases entries.len(),
{
    if entries.len() > 0 && entries.last().key != key {
        lemma_warning_place(entries.drop_last(), key);
    }
}

/// How long ago a time was.
pub open spec fn since(time_ms: u128, now_ms: u128) -> int {
    if now_ms >= time_ms {
        now_ms - time_ms
    } else {
        0
    }
}

/// A warning is given when it is new, when what it is about has changed, and when it was not given
/// for a while; otherwise it is held back and counted.
pub open spec fn warn_decision(
    entries: Seq<SuppressionStateView>,
    key: Seq<char>,
    state: Seq<char>,
    window_ms: u128,
    now_ms: u128,
) -> WarnDecision {
    match warning_place(entries, key) {
        None => WarnDecision::Emit(0),
        Some(i) => if entries[i].state != state {
            WarnDecision::Emit(0)
        } else if since(entries[i].last_emitted_at_ms, now_ms) >= window_ms {
            WarnDecision::Emit(entries[i].suppressed_count)
        } else {
            WarnDecision::Suppress
        },
    }
}

/// The warnings that were given, after one more.
pub open spec fn warned(
    entries: Seq<SuppressionStateView>,
    key: Seq<char>,
    state: Seq<char>,
    window_ms: u128,
    now_ms: u128,
) -> Seq<SuppressionStateView> {
    let given = SuppressionStateView { key, state, last_emitted_at_ms: now_ms, suppressed_count: 0 };
    match warning_place(entries, key) {
        None => entries.push(given),
        Some(i) => if warn_decision(entries, key, state, window_ms, now_ms) == WarnDecision::Suppress {
            entries.update(
                i,
                SuppressionStateView { suppressed_count: dependency::capped_sum(entries[i].suppressed_count, 1), ..entries[i] },
            )
        } else {
            entries.update(i, given)
        },
    }
}

/// The warnings that were given, without those of a key: what it is about is well again.
pub open spec fn settled(entries: Seq<SuppressionStateView>, key: Seq<char>) -> Seq<SuppressionStateView> {
    entries.filter(|e: SuppressionStateView| e.key != key)
}

impl WarnSuppression {
    /// Nothing was warned of.
    pub fn new() -> (r: Self)
        ensures
            r.deep_view() == (WarnSuppressionView { entries: seq![] }),
    {
        let entries: Vec<SuppressionState> = Vec::new();
        assert(entries.deep_view() =~= seq![]);
        WarnSuppression { entries }
    }

    fn find(&self, key: &str) -> (r: Option<usize>)
        ensures
            match r {
                Some(i) => i < self.entries.len() && warning_place(self.entries.deep_view(), key@) == Some(i as int),
                None => warning_place(self.entries.deep_view(), key@) is None,
            },
    {
        let ghost all = self.entries.deep_view();
        let mut n: usize = self.entries.len();
        assert(all.take(n as int) =~= all);
        while n > 0
            invariant
                n <= self.entries.len(),
                all == self.entries.deep_view(),
                warning_place(all, key@) == warning_place(all.take(n as int), key@),
            decreases n,
        {
            assert(all.take(n as int).last() == self.entries@[n - 1].deep_view());
            if str_eq(self.entries[n - 1].key.as_str(), key) {
                return Some(n - 1);
            }
            assert(all.take(n as int).drop_last() =~= all.take(n - 1));
            n -= 1;
        }
        None
    }

    /// What is done about a warning of a state.
    pub fn warn_of_state(&mut self, key: &str, state: &str, window_ms: u128, now_ms: u128) -> (r: WarnDecision)
        ensures
            r == warn_decision(old(self).deep_view().entries, key@, state@, window_ms, now_ms),
            final(self).deep_view().entries == warned(
                old(self).deep_view().entries,
                key@,
                state@,
                window_ms,
                now_ms,
            ),
    {
        let ghost before = self.entries.deep_view();
        proof {
            lemma_warning_place(before, key@);
        }
        let given = SuppressionState {
            key: owned(key),
            state: owned(state),
            last_emitted_at_ms: now_ms,
            suppressed_count: 0,
        };
        let ghost given_view = given.deep_view();
        match self.find(key) {
            None => {
                self.entries.push(given);
                assert(self.entries.deep_view() =~= before.push(given_view));
                WarnDecision::Emit(0)
            },
            Some(i) => {
                assert(before[i as int] == self.entries@[i as int].deep_view());
                let last: u128 = self.entries[i].last_emitted_at_ms;
                let count: u64 = self.entries[i].suppressed_count;
                let same = str_eq(self.entries[i].state.as_str(), state);
                if !same {
                    self.entries.set(i, given);
                    assert(self.entries.deep_view() =~= before.update(i as int, given_view));
                    WarnDecision::Emit(0)
                } else if now_ms.saturating_sub(last) >= window_ms {
                    self.entries.set(i, given);
                    assert(self.entries.deep_view() =~= before.update(i as int, given_view));
                    WarnDecision::Emit(count)
                } else {
                    let held = SuppressionState {
                        suppressed_count: count.saturating_add(1),
                        ..self.entries[i].deep_clone()
                    };
                    let ghost held_view = held.deep_view();
                    self.entries.set(i, held);
                    assert(self.entries.deep_view() =~= before.update(i as int, held_view));
                    WarnDecision::Suppress
                }
            },
        }
    }

    /// What is done about a warning.
    pub fn warn_with_suppression(&mut self, key: &str, now_ms: u128) -> (r: WarnDecision)
        ensures
            r == warn_decision(old(self).deep_view().entries, key@, ""@, WARN_SUPPRESSION_WINDOW_MS, now_ms),
            final(self).deep_view().entries == warned(
                old(self).deep_view().entries,
                key@,
                ""@,
                WARN_SUPPRESSION_WINDOW_MS,
                now_ms,
            ),
    {
        self.warn_of_state(key, "", WARN_SUPPRESSION_WINDOW_MS, now_ms)
    }
}

/// What is warned of where the pod metrics are not there.
pub open spec fn metrics_warning(status: MetricsStatusView) -> Option<Seq<char>> {
    if status.state == "ok"@ {
        None
    } else {
        Some(
            "pod-metrics unavailable: state="@ + status.state + (match status.reason {
                Some(reason) => " reason="@ + reason,
                None => ""@,
            }) + " source="@ + status.source + " pod_metrics_count="@ + text::decimal_of(status.pod_metrics_count as nat),
        )
    }
}

/// What is warned of where the pod metrics are not there.
pub fn describe_metrics_status(status: &MetricsStatus) -> (r: Option<String>)
    ensures
        r.deep_view() == metrics_warning(status.deep_view()),
{
    if str_eq(status.state, "ok") {
        return None;
    }
    let reason = match &status.reason {
        Some(reason) => text2(" reason=", reason.as_str()),
        None => owned(""),
    };
    Some(
        text7(
            "pod-metrics unavailable: state=",
            status.state,
            reason.as_str(),
            " source=",
            status.source,
            " pod_metrics_count=",
            decimal(status.pod_metrics_count as u128).as_str(),
        ),
    )
}

/// What is warned of where the snapshot interface is not there.
pub open spec fn snapshot_api_warning(status: SnapshotApiStatusView) -> Option<Seq<char>> {
    if status.state == "ok"@ {
        None
    } else {
        Some(
            "snapshot API unavailable: state="@ + status.state + (match status.reason {
                Some(reason) => " reason="@ + reason,
                None => ""@,
            }) + " source="@ + status.source + " classes="@ + text::decimal_of(status.volumesnapshotclasses_count as nat)
                + " snapshots="@ + text::decimal_of(status.volumesnapshots_count as nat),
        )
    }
}

/// What is warned of where the snapshot interface is not there.
pub fn describe_snapshot_api_status(status: &SnapshotApiStatus) -> (r: Option<String>)
    ensures
        r.deep_view() == snapshot_api_warning(status.deep_view()),
{
    if str_eq(status.state, "ok") {
        return None;
    }
    let reason = match &status.reason {
        Some(reason) => text2(" reason=", reason.as_str()),
        None => owned(""),
    };
    let head = text5("snapshot API unavailable: state=", status.state, reason.as_str(), " source=", status.source);
    Some(
        text5(
            head.as_str(),
            " classes=",
            decimal(status.volumesnapshotclasses_count as u128).as_str(),
            " snapshots=",
            decimal(status.volumesnapshots_count as u128).as_str(),
        ),
    )
}

impl WarnSuppression {
    /// What a key is about is well again: its next warning is new.
    fn settle(&mut self, key: &str)
        ensures
            final(self).deep_view().entries == settled(old(self).deep_view().entries, key@),
            forall|state: Seq<char>, window_ms: u128, later_ms: u128|
                #[trigger] warn_decision(final(self).deep_view().entries, key@, state, window_ms, later_ms)
                    == WarnDecision::Emit(0),
    {
        proof {
            lemma_settled(self.entries.deep_view(), key@);
        }
        let keep = |e: &SuppressionState| -> (b: bool)
            ensures
                b == (e.deep_view().key != key@),
            { !str_eq(e.key.as_str(), key) };
        self.entries = filter_cloned(&self.entries, keep, Ghost(|e: SuppressionStateView| e.key != key@));
    }

    /// What is done about the status of the pod metrics. Where they are there nothing is, and the
    /// next failure is told at once.
    pub fn warn_metrics_status_change(&mut self, status: &MetricsStatus, now_ms: u128) -> (r: Option<WarnDecision>)
        ensures
            status.state@ == "ok"@ ==> {
                &&& r is None
                &&& final(self).deep_view().entries == settled(old(self).deep_view().entries, "metrics_status"@)
                &&& forall|state: Seq<char>, window_ms: u128, later_ms: u128|
                    #[trigger] warn_decision(
                        final(self).deep_view().entries,
                        "metrics_status"@,
                        state,
                        window_ms,
                        later_ms,
                    ) == WarnDecision::Emit(0)
            },
            status.state@ != "ok"@ ==> {
                &&& r == Some(
                    warn_decision(
                        old(self).deep_view().entries,
                        "metrics_status"@,
                        status.state@,
                        METRICS_WARN_SUPPRESSION_WINDOW_MS,
                        now_ms,
                    ),
                )
                &&& final(self).deep_view().entries == warned(
                    old(self).deep_view().entries,
                    "metrics_status"@,
                    status.state@,
                    METRICS_WARN_SUPPRESSION_WINDOW_MS,
                    now_ms,
                )
            },
    {
        if str_eq(status.state, "ok") {
            self.settle("metrics_status");
            return None;
        }
        Some(self.warn_of_state("metrics_status", status.state, METRICS_WARN_SUPPRESSION_WINDOW_MS, now_ms))
    }

    /// What is done about the status of the snapshot interface. Where it is there nothing is, and
    /// the next failure is told at once.
    pub fn warn_snapshot_api_status_change(&mut self, status: &SnapshotApiStatus, now_ms: u128) -> (r: Option<
        WarnDecision,
    >)
        ensures
            status.state@ == "ok"@ ==> {
                &&& r is None
                &&& final(self).deep_view().entries == settled(old(self).deep_view().entries, "snapshot_api_status"@)
                &&& forall|state: Seq<char>, window_ms: u128, later_ms: u128|
                    #[trigger] warn_decision(
                        final(self).deep_view().entries,
                        "snapshot_api_status"@,
                        state,
                        window_ms,
                        later_ms,
                    ) == WarnDecision::Emit(0)
            },
            status.state@ != "ok"@ ==> {
                &&& r == Some(
                    warn_decision(
                        old(self).deep_view().entries,
                        "snapshot_api_status"@,
                        status.state@,
                        METRICS_WARN_SUPPRESSION_WINDOW_MS,
                        now_ms,
                    ),
                )
                &&& final(self).deep_view().entries == warned(
                    old(self).deep_view().entries,
                    "snapshot_api_status"@,
                    status.state@,
                    METRICS_WARN_SUPPRESSION_WINDOW_MS,
                    now_ms,
                )
            },
    {
        if str_eq(status.state, "ok") {
            self.settle("snapshot_api_status");
            return None;
        }
        Some(self.warn_of_state("snapshot_api_status", status.state, METRICS_WARN_SUPPRESSION_WINDOW_MS, now_ms))
    }
}

/// The first warning of a state is given at once, the next one of the same state is held back until
/// the window has passed, and a change of the state is told at once. So is the first warning after
/// what it is about was well, whatever was warned of before, and no other warning is touched by it.
pub proof fn lemma_warnings_follow_changes(
    entries: Seq<SuppressionStateView>,
    key: Seq<char>,
    state: Seq<char>,
    other: Seq<char>,
    window_ms: u128,
    first_ms: u128,
    next_ms: u128,
)
    ensures
        warn_decision(entries, key, state, window_ms, first_ms) is Emit ==> {
            let after = warned(entries, key, state, window_ms, first_ms);
            &&& warn_decision(after, key, state, window_ms, next_ms) == (if since(first_ms, next_ms) >= window_ms {
                WarnDecision::Emit(0)
            } else {
                WarnDecision::Suppress
            })
            &&& other != state ==> warn_decision(after, key, other, window_ms, next_ms) == WarnDecision::Emit(0)
        },
        warn_decision(settled(entries, key), key, state, window_ms, next_ms) == WarnDecision::Emit(0),
        other != key ==> warn_decision(settled(entries, key), other, state, window_ms, next_ms) == warn_decision(
            entries,
            other,
            state,
            window_ms,
            next_ms,
        ),
{
    let after = warned(entries, key, state, window_ms, first_ms);
    let given = SuppressionStateView { key, state, last_emitted_at_ms: first_ms, suppressed_count: 0 };
    lemma_warning_place(entries, key);
    match warning_place(entries, key) {
        None => {
            assert(after.last() == given);
        },
        Some(i) => {
            lemma_place_after_update(entries, key, i, given);
            assert(warn_decision(entries, key, state, window_ms, first_ms) is Emit ==> after[i] == given);
        },
    }
    lemma_settled(entries, key);
    if other != key {
        lemma_settled_keeps(entries, key, other);
    }
}

proof fn lemma_settled(entries: Seq<SuppressionStateView>, key: Seq<char>)
    ensures
        warning_place(settled(entries, key), key) is None,
{
    let left = settled(entries, key);
    lemma_warning_place(left, key);
    if let Some(i) = warning_place(left, key) {
        entries.lemma_filter_pred(|e: SuppressionStateView| e.key != key, i);
    }
}

proof fn lemma_settled_keeps(entries: Seq<SuppressionStateView>, key: Seq<char>, other: Seq<char>)
    requires
        other != key,
    ensures
        match (warning_place(entries, other), warning_place(settled(entries, key), other)) {
            (Some(i), Some(j)) => 0 <= i < entries.len() && 0 <= j < settled(entries, key).len() && entries[i]
                == settled(entries, key)[j],
            (None, None) => true,
            _ => false,
        },
    decreases entries.len(),
{
    reveal(Seq::filter);
    lemma_warning_place(entries, other);
    lemma_warning_place(settled(entries, key), other);
    if entries.len() > 0 {
        let rest = entries.drop_last();
        lemma_settled_keeps(rest, key, other);
        if entries.last().key != key {
            let left = settled(entries, key);
            assert(left =~= settled(rest, key).push(entries.last()));
            assert(left.drop_last() =~= settled(rest, key));
            assert(left.last() == entries.last());
        } else {
            assert(settled(entries, key) == settled(rest, key));
        }
    }
}

proof fn lemma_place_after_update(
    entries: Seq<SuppressionStateView>,
    key: Seq<char>,
    i: int,
    given: SuppressionStateView,
)
    requires
        warning_place(entries, key) == Some(i),
        given.key == key,
    ensures
        warning_place(entries.update(i, given), key) == Some(i),
    decreases entries.len(),
{
    lemma_warning_place(entries, key);
    if entries.last().key != key {
        lemma_place_after_update(entries.drop_last(), key, i, given);
        lemma_warning_place(entries.drop_last(), key);
        assert(entries.update(i, given).drop_last() =~= entries.drop_last().update(i, given));
    }
}

// ----------------------------------------------------------- the hub's view

/// Whole seconds from one time to another, without the fraction.
pub open spec fn seconds_between(from: (i64, u32), to: (i64, u32)) -> int {
    let nanos = (to.0 - from.0) * 1_000_000_000 + (to.1 - from.1);
    if nanos >= 0 {
        nanos / 1_000_000_000
    } else {
        -((-nanos) / 1_000_000_000)
    }
}

/// Whole seconds from one time to another, without the fraction. A time is its seconds since the
/// Unix epoch with the nanoseconds of the last one.
pub fn age_in_seconds(seen: (i64, u32), now: (i64, u32)) -> (r: i128)
    ensures
        r == seconds_between(seen, now),
{
    let nanos: i128 = (now.0 as i128 - seen.0 as i128) * 1_000_000_000 + (now.1 as i128 - seen.1 as i128);
    if nanos >= 0 {
        nanos / 1_000_000_000
    } else {
        -((-nanos) / 1_000_000_000)
    }
}

/// How many seconds ago a cluster was seen, as of now; nothing where the time is none.
pub fn last_seen_age_seconds(last_seen_at: &str) -> (r: Option<i128>)
    ensures
        r is Some <==> clock::rfc3339_instant(last_seen_at@) is Some,
        r matches Some(age) ==> exists|now: (i64, u32)|
            age == #[trigger] seconds_between(clock::rfc3339_instant(last_seen_at@)->0, now),
{
    match read_rfc3339(last_seen_at) {
        Some(seen) => Some(age_in_seconds(seen, now_instant())),
        None => None,
    }
}

/// What a cluster's status at the hub says: a cluster that was seen a short while ago is active.
pub open spec fn cluster_check(last_seen: bool, age: Option<i128>) -> ClusterCheck {
    if !last_seen {
        ClusterCheck::Quiet
    } else {
        match age {
            None => ClusterCheck::Invalid,
            Some(age) => if 0 <= age < ACTIVE_CLUSTER_WARN_THRESHOLD_SECS {
                ClusterCheck::Duplicate(age)
            } else {
                ClusterCheck::Quiet
            },
        }
    }
}

/// What a cluster's status says, given whether the cluster was ever seen and how long ago.
pub fn check_cluster_age(last_seen: bool, age: Option<i128>) -> (r: ClusterCheck)
    ensures
        r == cluster_check(last_seen, age),
{
    if !last_seen {
        return ClusterCheck::Quiet;
    }
    match age {
        None => ClusterCheck::Invalid,
        Some(age) => if 0 <= age && age < ACTIVE_CLUSTER_WARN_THRESHOLD_SECS {
            ClusterCheck::Duplicate(age)
        } else {
            ClusterCheck::Quiet
        },
    }
}

/// What a cluster's status says, as of now.
pub fn startup_duplicate_cluster_check(status: &ClusterStatus) -> (r: ClusterCheck)
    ensures
        match status.last_seen_at {
            None => r == ClusterCheck::Quiet,
            Some(seen) => match clock::rfc3339_instant(seen@) {
                None => r == ClusterCheck::Invalid,
                Some(at) => exists|now: (i64, u32)|
                    r == cluster_check(true, Some(#[trigger] seconds_between(at, now) as i128)),
            },
        },
{
    match &status.last_seen_at {
        Some(seen) => check_cluster_age(true, last_seen_age_seconds(seen.as_str())),
        None => ClusterCheck::Quiet,
    }
}

// ---------------------------------------------------------------- the snapshot

/// The version that the agent reports.
pub fn reported_agent_version(cfg: &Config, package_version: &str) -> (r: String)
    ensures
        r@ == views::text_or(cfg.agent_version_override.deep_view(), package_version@),
{
    owned(opt_str(&cfg.agent_version_override, package_version))
}

/// What the agent adds to a snapshot, where it adds something.
pub open spec fn plugins_of(
    workload_monitoring: Option<WorkloadMonitoringPluginView>,
    postgresql_monitoring: Option<PostgresqlMonitoringPluginView>,
) -> Option<PluginsView> {
    if workload_monitoring is Some || postgresql_monitoring is Some {
        Some(PluginsView { workload_monitoring, postgresql_monitoring })
    } else {
        None
    }
}

/// What the agent reports.
pub open spec fn snapshot_of(
    cfg: ConfigView,
    package_version: Seq<char>,
    collected: CollectedInventoryView,
    workload_monitoring: Option<WorkloadMonitoringPluginView>,
    postgresql_monitoring: Option<PostgresqlMonitoringPluginView>,
    timestamp_ms: u128,
) -> InventorySnapshotView {
    InventorySnapshotView {
        schema_version: 1,
        agent: AgentInfoView {
            name: AGENT_NAME@,
            version: views::text_or(cfg.agent_version_override, package_version),
            pod_name: cfg.pod_name,
            pod_namespace: cfg.pod_namespace,
            node_name: cfg.node_name,
            actions_enabled: cfg.actions_enabled,
            collect_dependencies_tetragon: cfg.collect_dependencies_tetragon,
        },
        cluster_id: cfg.cluster_id,
        timestamp_ms,
        k8s_uid: collected.k8s_uid,
        cluster: collected.cluster,
        namespaces: collected.namespaces,
        workloads: collected.workloads,
        pods: collected.pods,
        network: collected.network,
        security: collected.security,
        operational_maturity: collected.operational_maturity,
        dependencies: collected.dependencies,
        configuration: ConfigurationInventoryView { agent_runtime_env: config::runtime_env(cfg), ..collected.configuration },
        storage: collected.storage,
        events: collected.events,
        plugins: plugins_of(workload_monitoring, postgresql_monitoring),
        metrics: collected.metrics,
        snapshot_api: collected.snapshot_api,
    }
}

/// What the agent reports: what was collected, with what it knows of itself.
pub fn build_snapshot(
    cfg: &Config,
    package_version: &str,
    collected: CollectedInventory,
    workload_monitoring: Option<WorkloadMonitoringPlugin>,
    postgresql_monitoring: Option<PostgresqlMonitoringPlugin>,
    timestamp_ms: u128,
) -> (r: InventorySnapshot)
    ensures
        r.deep_view() == snapshot_of(
            cfg.deep_view(),
            package_version@,
            collected.deep_view(),
            workload_monitoring.deep_view(),
            postgresql_monitoring.deep_view(),
            timestamp_ms,
        ),
{
    let plugins = if workload_monitoring.is_some() || postgresql_monitoring.is_some() {
        Some(Plugins { workload_monitoring, postgresql_monitoring })
    } else {
        None
    };
    let configuration = ConfigurationInventory {
        agent_runtime_env: agent_runtime_env(cfg),
        ..collected.configuration
    };
    InventorySnapshot {
        schema_version: 1,
        agent: AgentInfo {
            name: AGENT_NAME,
            version: reported_agent_version(cfg, package_version),
            pod_name: cfg.pod_name.deep_clone(),
            pod_namespace: cfg.pod_namespace.deep_clone(),
            node_name: cfg.node_name.deep_clone(),
            actions_enabled: cfg.actions_enabled,
            collect_dependencies_tetragon: cfg.collect_dependencies_tetragon,
        },
        cluster_id: cfg.cluster_id.deep_clone(),
        timestamp_ms,
        k8s_uid: collected.k8s_uid,
        cluster: collected.cluster,
        namespaces: collected.namespaces,
        workloads: collected.workloads,
        pods: collected.pods,
        network: collected.network,
        security: collected.security,
        operational_maturity: collected.operational_maturity,
        dependencies: collected.dependencies,
        configuration,
        storage: collected.storage,
        events: collected.events,
        plugins,
        metrics: collected.metrics,
        snapshot_api: collected.snapshot_api,
    }
}

/// Whether the agent exits once the result of a command was handed over.
pub fn should_restart_after_ack(result: &CommandResult) -> (r: bool)
    ensures
        r == (result.status@ == "ok"@ && result.restart_requested == Some(true)),
{
    str_eq(result.status, "ok") && result.restart_requested.unwrap_or(false)
}

// ------------------------------------------------------------- what it is for

/// A mode is known by its name, and each name is of one mode.
pub proof fn lemma_modes_by_name(value: Seq<char>, mode: RuntimeMode)
    ensures
        mode_named(value) == Some(RuntimeMode::Agent) <==> value == "agent"@,
        mode_named(value) == Some(RuntimeMode::Operator) <==> value == "operator"@,
        mode_named(mode.text()) == Some(mode),
{
    reveal_strlit("agent");
    reveal_strlit("operator");
    assert("agent"@.len() == 5 && "operator"@.len() == 8);
}

/// The mode is the one that is named on the command line, the last where there are several, and the
/// agent's where there is none; an argument that is not known, or a mode that is not, is refused.
pub proof fn lemma_mode_is_read(args: Seq<Seq<char>>, from: int, value: Seq<char>, mode: RuntimeMode)
    requires
        0 <= from <= args.len(),
    ensures
        from == args.len() ==> mode_from(args, from, mode) == Ok::<RuntimeMode, Seq<char>>(mode),
        from + 2 == args.len() && args[from] == "--mode"@ && args[from + 1] == "operator"@ ==> mode_from(
            args,
            from,
            mode,
        ) == Ok::<RuntimeMode, Seq<char>>(RuntimeMode::Operator),
        from + 2 == args.len() && args[from] == "--mode"@ && args[from + 1] == "agent"@ ==> mode_from(args, from, mode)
            == Ok::<RuntimeMode, Seq<char>>(RuntimeMode::Agent),
        from + 1 == args.len() && args[from] == "--mode"@ ==> mode_from(args, from, mode) is Err,
        from + 1 < args.len() && args[from] == "--mode"@ && args[from + 1] != "agent"@ && args[from + 1] != "operator"@
            ==> mode_from(args, from, mode) is Err,
        from < args.len() && args[from] != "--mode"@ && !text::has_prefix(args[from], "--mode="@) ==> (mode_from(
            args,
            from,
            mode,
        ) matches Err(message) && text::contains_text(message, args[from])),
        from + 1 == args.len() && args[from] == "--mode="@ + value ==> mode_from(args, from, mode) == (if value
            == "agent"@ {
            Ok::<RuntimeMode, Seq<char>>(RuntimeMode::Agent)
        } else if value == "operator"@ {
            Ok(RuntimeMode::Operator)
        } else {
            Err(invalid_mode(value))
        }),
{
    reveal_with_fuel(mode_from, 3);
    reveal_strlit("--mode");
    reveal_strlit("--mode=");
    reveal_strlit("agent");
    reveal_strlit("operator");
    assert("--mode"@.len() == 6 && "--mode="@.len() == 7 && "agent"@.len() == 5 && "operator"@.len() == 8);
    if from < args.len() {
        let message = "unknown argument: "@ + args[from];
        let at = "unknown argument: "@.len() as int;
        assert(message.subrange(at, at + args[from].len()) =~= args[from]);
        assert(text::occurs_at(message, args[from], at));
        if args[from] == "--mode="@ + value {
            assert(args[from].subrange(0, 7) =~= "--mode="@);
            assert(args[from].subrange(7, args[from].len() as int) =~= value);
        }
    }
}

/// What is logged is what the agent's own setting says, else what the common one says, else what
/// informs; a blank setting says nothing.
pub proof fn lemma_log_filter_is_read(env: Seq<KVView>, own: Seq<char>, common: Seq<char>)
    ensures
        pairs::gives_value(env, "AGENT_LOG"@, own) && text::trimmed(own).len() > 0 ==> log_filter_of(env) == own,
        pairs::gives_value(env, "AGENT_LOG"@, own) && text::trimmed(own).len() == 0 && pairs::gives_value(env, "RUST_LOG"@, common) && text::trimmed(
            common,
        ).len() > 0 ==> log_filter_of(env) == common,
        (forall|i: int| 0 <= i < env.len() ==> (#[trigger] env[i]).key != "AGENT_LOG"@) && pairs::gives_value(
            env,
            "RUST_LOG"@,
            common,
        ) && text::trimmed(common).len() > 0 ==> log_filter_of(env) == common,
        (forall|i: int|
            0 <= i < env.len() ==> (#[trigger] env[i]).key != "AGENT_LOG"@ && env[i].key != "RUST_LOG"@) ==> log_filter_of(
            env,
        ) == "info"@,
{
    pairs::lemma_value_is_the_first(env, "AGENT_LOG"@, own);
    pairs::lemma_value_is_the_first(env, "RUST_LOG"@, common);
}

/// Held-back warnings are counted, and the count is told with the next warning that is given.
pub proof fn lemma_held_back_warnings_are_counted(
    before: Seq<SuppressionStateView>,
    key: Seq<char>,
    state: Seq<char>,
    count: u64,
    window_ms: u128,
    last_ms: u128,
    now_ms: u128,
    later_ms: u128,
)
    requires
        count < u64::MAX,
        last_ms <= now_ms,
        now_ms - last_ms < window_ms,
        last_ms <= later_ms,
        later_ms - last_ms >= window_ms,
    ensures
        ({
            let entries = before.push(
                SuppressionStateView { key, state, last_emitted_at_ms: last_ms, suppressed_count: count },
            );
            let after = warned(entries, key, state, window_ms, now_ms);
            &&& warn_decision(entries, key, state, window_ms, now_ms) == WarnDecision::Suppress
            &&& after.len() == entries.len()
            &&& warn_decision(after, key, state, window_ms, later_ms) == WarnDecision::Emit((count + 1) as u64)
        }),
{
    let entries = before.push(
        SuppressionStateView { key, state, last_emitted_at_ms: last_ms, suppressed_count: count },
    );
    let after = warned(entries, key, state, window_ms, now_ms);
    assert(entries.last().key == key);
    assert(warning_place(entries, key) == Some(entries.len() - 1));
    assert(after.last().key == key);
    assert(warning_place(after, key) == Some(after.len() - 1));
}

/// Nothing is warned of that is well, and a warning names the state and its reason.
pub proof fn lemma_only_troubles_are_warned_of(metrics: MetricsStatusView, snapshots: SnapshotApiStatusView)
    ensures
        metrics_warning(metrics) is None <==> metrics.state == "ok"@,
        snapshot_api_warning(snapshots) is None <==> snapshots.state == "ok"@,
        metrics_warning(metrics) matches Some(text) ==> text::contains_text(text, metrics.state),
        snapshot_api_warning(snapshots) matches Some(text) ==> text::contains_text(text, snapshots.state),
{
    if let Some(text) = metrics_warning(metrics) {
        let at = "pod-metrics unavailable: state="@.len() as int;
        assert(text.subrange(at, at + metrics.state.len()) =~= metrics.state);
        assert(text::occurs_at(text, metrics.state, at));
    }
    if let Some(text) = snapshot_api_warning(snapshots) {
        let at = "snapshot API unavailable: state="@.len() as int;
        assert(text.subrange(at, at + snapshots.state.len()) =~= snapshots.state);
        assert(text::occurs_at(text, snapshots.state, at));
    }
}

/// A cluster is a duplicate exactly where it was seen within the last five minutes; whole seconds
/// count, and towards nothing.
pub proof fn lemma_recently_seen_is_a_duplicate(age: i128, from: (i64, u32), to: (i64, u32))
    requires
        from.1 < 1_000_000_000,
        to.1 < 1_000_000_000,
    ensures
        cluster_check(true, Some(age)) == (if 0 <= age < 300 {
            ClusterCheck::Duplicate(age)
        } else {
            ClusterCheck::Quiet
        }),
        cluster_check(true, None) == ClusterCheck::Invalid,
        cluster_check(false, Some(age)) == ClusterCheck::Quiet,
        to.0 >= from.0 && to.1 >= from.1 ==> seconds_between(from, to) == to.0 - from.0,
        to.0 > from.0 && to.1 < from.1 ==> seconds_between(from, to) == to.0 - from.0 - 1,
        seconds_between(to, from) == -seconds_between(from, to),
{
}

/// A snapshot says what was collected, and whose it is: the parts are neither dropped nor mixed.
pub proof fn lemma_snapshot_is_whole(
    cfg: ConfigView,
    package_version: Seq<char>,
    collected: CollectedInventoryView,
    workload: Option<WorkloadMonitoringPluginView>,
    postgresql: Option<PostgresqlMonitoringPluginView>,
    timestamp_ms: u128,
)
    ensures
        ({
            let snapshot = snapshot_of(cfg, package_version, collected, workload, postgresql, timestamp_ms);
            &&& snapshot.cluster_id == cfg.cluster_id && snapshot.timestamp_ms == timestamp_ms
            &&& snapshot.k8s_uid == collected.k8s_uid && snapshot.cluster == collected.cluster
            &&& snapshot.namespaces == collected.namespaces && snapshot.workloads == collected.workloads
            &&& snapshot.pods == collected.pods && snapshot.network == collected.network
            &&& snapshot.security == collected.security && snapshot.dependencies == collected.dependencies
            &&& snapshot.operational_maturity == collected.operational_maturity
            &&& snapshot.storage == collected.storage && snapshot.events == collected.events
            &&& snapshot.metrics == collected.metrics && snapshot.snapshot_api == collected.snapshot_api
            &&& snapshot.configuration.configmaps == collected.configuration.configmaps
            &&& snapshot.configuration.secrets == collected.configuration.secrets
            &&& snapshot.plugins is None <==> workload is None && postgresql is None
            &&& snapshot.plugins matches Some(plugins) ==> plugins.workload_monitoring == workload
                && plugins.postgresql_monitoring == postgresql
            &&& cfg.agent_version_override matches Some(v) ==> snapshot.agent.version == v
            &&& cfg.agent_version_override is None ==> snapshot.agent.version == package_version
            &&& snapshot.agent.pod_name == cfg.pod_name && snapshot.agent.node_name == cfg.node_name
            &&& snapshot.agent.pod_namespace == cfg.pod_namespace
            &&& snapshot.agent.actions_enabled == cfg.actions_enabled
        }),
{
}

} // verus!
