//! Monitoring of workloads and of PostgreSQL in the namespaces that the settings name.
//!
//! Both are off by default. Workload monitoring reports the part of the inventory that lies in
//! the monitored namespaces. PostgreSQL monitoring recognises servers by names, ports and
//! images, and reports how sound the evidence is; a single clear service may be probed.
use crate::clock::now_ms;
use crate::config::{Config, ConfigView};
use crate::model::{
    AppMetricsInventory, AppMetricsInventoryView, ContainerInfo, ContainerInfoView, DependencyEdge,
    DependencyEdgeView, DependencyInventory, DependencyInventoryView, EventInfo, EventInfoView, IngressInfo,
    IngressInfoView, KV, KVView, NetworkInventory, NetworkInventoryView, PersistentVolumeClaimInfo,
    PersistentVolumeClaimInfoView, PodInfo, PodInfoView, PostgresqlDiagnosticFinding,
    PostgresqlDiagnosticFindingView, PostgresqlDiagnosticReport, PostgresqlDiagnosticReportView,
    PostgresqlDiagnosticSpec, PostgresqlDiagnosticSpecView, PostgresqlMonitoringDetailItem,
    PostgresqlMonitoringDetailItemView, PostgresqlMonitoringEvidenceItem,
    PostgresqlMonitoringEvidenceItemView, PostgresqlMonitoringMissingDataItem,
    PostgresqlMonitoringMissingDataItemView, PostgresqlMonitoringPlugin, PostgresqlMonitoringPluginView,
    ServiceInfo, ServiceInfoView, ServicePortInfo, ServicePortInfoView, StorageInventory,
    StorageInventoryView, WorkloadMonitoringLogs, WorkloadMonitoringLogsView, WorkloadMonitoringPlugin,
    WorkloadMonitoringPluginView, WorkloadMonitoringSignals, WorkloadMonitoringSignalsView, WorkloadRef,
    WorkloadRefView, Workloads, WorkloadsView,
};
use crate::order;
use crate::order::{sort_distinct, str_eq};
use crate::pairs;
use crate::pairs::pair_value;
use crate::text;
use crate::text::{
    char_is_alphanumeric, chars_of, contains, decimal, eq_ignore_ascii_case, find_from, join, list_has,
    owned, parse_unsigned, signed_decimal, text2, text3, text4, text5, text6, text7, to_ascii_lowercase,
    to_lowercase, trim,
};
use crate::views;
use crate::views::{any_item, append_cloned, DeepClone, filter_cloned, find_item, map_items, opt_str};
use vstd::prelude::*;
use vstd::string::*;

verus! {

/// The objects that look like PostgreSQL in the monitored namespaces.
#[derive(Clone, Debug, PartialEq, Eq)]
pub struct PostgresqlDiscovery {
    pub deployments: Vec<WorkloadRef>,
    pub statefulsets: Vec<WorkloadRef>,
    pub daemonsets: Vec<WorkloadRef>,
    pub pods: Vec<PodInfo>,
    pub services: Vec<ServiceInfo>,
    pub pvcs: Vec<PersistentVolumeClaimInfo>,
    pub events: Vec<EventInfo>,
}

/// The view of [`PostgresqlDiscovery`].
pub struct PostgresqlDiscoveryView {
    pub deployments: Seq<WorkloadRefView>,
    pub statefulsets: Seq<WorkloadRefView>,
    pub daemonsets: Seq<WorkloadRefView>,
    pub pods: Seq<PodInfoView>,
    pub services: Seq<ServiceInfoView>,
    pub pvcs: Seq<PersistentVolumeClaimInfoView>,
    pub events: Seq<EventInfoView>,
}

impl DeepView for PostgresqlDiscovery {
    type V = PostgresqlDiscoveryView;

    open spec fn deep_view(&self) -> PostgresqlDiscoveryView {
        PostgresqlDiscoveryView {
            deployments: self.deployments.deep_view(),
            statefulsets: self.statefulsets.deep_view(),
            daemonsets: self.daemonsets.deep_view(),
            pods: self.pods.deep_view(),
            services: self.services.deep_view(),
            pvcs: self.pvcs.deep_view(),
            events: self.events.deep_view(),
        }
    }
}

impl DeepClone for PostgresqlDiscovery {
    fn deep_clone(&self) -> (copy: Self) {
        PostgresqlDiscovery {
            deployments: self.deployments.deep_clone(),
            statefulsets: self.statefulsets.deep_clone(),
            daemonsets: self.daemonsets.deep_clone(),
            pods: self.pods.deep_clone(),
            services: self.services.deep_clone(),
            pvcs: self.pvcs.deep_clone(),
            events: self.events.deep_clone(),
        }
    }
}

/// How a PostgreSQL server is reached.
#[derive(Clone, Debug, PartialEq, Eq)]
pub struct PostgresqlProbeSettings {
    pub host: String,
    pub port: u16,
    pub user: String,
    pub password: Option<String>,
    pub database: String,
    pub sslmode: String,
    pub sslrootcert: Option<String>,
}

/// The view of [`PostgresqlProbeSettings`].
pub struct PostgresqlProbeSettingsView {
    pub host: Seq<char>,
    pub port: u16,
    pub user: Seq<char>,
    pub password: Option<Seq<char>>,
    pub database: Seq<char>,
    pub sslmode: Seq<char>,
    pub sslrootcert: Option<Seq<char>>,
}

impl DeepView for PostgresqlProbeSettings {
    type V = PostgresqlProbeSettingsView;

    open spec fn deep_view(&self) -> PostgresqlProbeSettingsView {
        PostgresqlProbeSettingsView {
            host: self.host.deep_view(),
            port: self.port.deep_view(),
            user: self.user.deep_view(),
            password: self.password.deep_view(),
            database: self.database.deep_view(),
            sslmode: self.sslmode.deep_view(),
            sslrootcert: self.sslrootcert.deep_view(),
        }
    }
}

impl DeepClone for PostgresqlProbeSettings {
    fn deep_clone(&self) -> (copy: Self) {
        PostgresqlProbeSettings {
            host: self.host.deep_clone(),
            port: self.port.deep_clone(),
            user: self.user.deep_clone(),
            password: self.password.deep_clone(),
            database: self.database.deep_clone(),
            sslmode: self.sslmode.deep_clone(),
            sslrootcert: self.sslrootcert.deep_clone(),
        }
    }
}

/// The part of the inventory that a diagnosis looks at, and what its hints did not find.
#[derive(Clone, Debug, PartialEq, Eq)]
pub struct PostgresqlDiagnosticScope {
    pub workloads: Workloads,
    pub pods: Vec<PodInfo>,
    pub network: NetworkInventory,
    pub storage: StorageInventory,
    pub events: Vec<EventInfo>,
    pub hint_missing_data: Vec<PostgresqlMonitoringMissingDataItem>,
    pub hint_findings: Vec<PostgresqlDiagnosticFinding>,
}

/// The view of [`PostgresqlDiagnosticScope`].
pub struct PostgresqlDiagnosticScopeView {
    pub workloads: WorkloadsView,
    pub pods: Seq<PodInfoView>,
    pub network: NetworkInventoryView,
    pub storage: StorageInventoryView,
    pub events: Seq<EventInfoView>,
    pub hint_missing_data: Seq<PostgresqlMonitoringMissingDataItemView>,
    pub hint_findings: Seq<PostgresqlDiagnosticFindingView>,
}

impl DeepView for PostgresqlDiagnosticScope {
    type V = PostgresqlDiagnosticScopeView;

    open spec fn deep_view(&self) -> PostgresqlDiagnosticScopeView {
        PostgresqlDiagnosticScopeView {
            workloads: self.workloads.deep_view(),
            pods: self.pods.deep_view(),
            network: self.network.deep_view(),
            storage: self.storage.deep_view(),
            events: self.events.deep_view(),
            hint_missing_data: self.hint_missing_data.deep_view(),
            hint_findings: self.hint_findings.deep_view(),
        }
    }
}

impl DeepClone for PostgresqlDiagnosticScope {
    fn deep_clone(&self) -> (copy: Self) {
        PostgresqlDiagnosticScope {
            workloads: self.workloads.deep_clone(),
            pods: self.pods.deep_clone(),
            network: self.network.deep_clone(),
            storage: self.storage.deep_clone(),
            events: self.events.deep_clone(),
            hint_missing_data: self.hint_missing_data.deep_clone(),
            hint_findings: self.hint_findings.deep_clone(),
        }
    }
}


// -------------------------------------------------------- workload monitoring

/// The workloads of a list in the given namespaces.
pub open spec fn workloads_in(items: Seq<WorkloadRefView>, allow: Seq<Seq<char>>) -> Seq<WorkloadRefView> {
    items.filter(|w: WorkloadRefView| allow.contains(w.namespace))
}

/// The workloads of a list in the given namespaces.
pub fn filter_workloads(items: &Vec<WorkloadRef>, allow: &Vec<String>) -> (r: Vec<WorkloadRef>)
    ensures
        r.deep_view() == workloads_in(items.deep_view(), allow.deep_view()),
{
    let keep = |w: &WorkloadRef| -> (b: bool)
        ensures
            b == allow.deep_view().contains(w.deep_view().namespace),
        { list_has(allow, w.namespace.as_str()) };
    filter_cloned(items, keep, Ghost(|w: WorkloadRefView| allow.deep_view().contains(w.namespace)))
}

/// Deployments, stateful sets and daemon sets in one list.
pub open spec fn merged_workloads(w: WorkloadsView) -> Seq<WorkloadRefView> {
    w.deployments + w.statefulsets + w.daemonsets
}

/// Deployments, stateful sets and daemon sets in one list.
pub fn merge_workload_refs(w: &Workloads) -> (r: Vec<WorkloadRef>)
    ensures
        r.deep_view() == merged_workloads(w.deep_view()),
{
    let mut out = w.deployments.deep_clone();
    append_cloned(&mut out, &w.statefulsets);
    append_cloned(&mut out, &w.daemonsets);
    out
}

/// An edge touches one of the namespaces.
pub open spec fn edge_in(edge: DependencyEdgeView, allow: Seq<Seq<char>>) -> bool {
    (edge.from.namespace matches Some(ns) && allow.contains(ns)) || (edge.to.namespace matches Some(ns)
        && allow.contains(ns))
}

fn edge_is_in(edge: &DependencyEdge, allow: &Vec<String>) -> (r: bool)
    ensures
        r == edge_in(edge.deep_view(), allow.deep_view()),
{
    let from = match &edge.from.namespace {
        Some(ns) => list_has(allow, ns.as_str()),
        None => false,
    };
    let to = match &edge.to.namespace {
        Some(ns) => list_has(allow, ns.as_str()),
        None => false,
    };
    from || to
}

/// The dependencies that touch one of the namespaces; the counters stay those of the cluster.
pub open spec fn dependencies_in(d: DependencyInventoryView, allow: Seq<Seq<char>>) -> DependencyInventoryView {
    DependencyInventoryView { edges: d.edges.filter(|e: DependencyEdgeView| edge_in(e, allow)), ..d }
}

/// What workload monitoring reports: nothing unless it is on and names a namespace, else the
/// part of the inventory in the namespaces that it names.
pub open spec fn workload_monitoring(
    cfg: ConfigView,
    workloads: WorkloadsView,
    pods: Seq<PodInfoView>,
    network: NetworkInventoryView,
    events: Seq<EventInfoView>,
    dependencies: DependencyInventoryView,
    app_metrics: AppMetricsInventoryView,
    logs: WorkloadMonitoringLogsView,
    generated_at_ms: u128,
) -> Option<WorkloadMonitoringPluginView> {
    let allow = cfg.workload_monitoring_namespaces;
    if !cfg.workload_monitoring_enabled || allow.len() == 0 {
        None
    } else {
        Some(
            WorkloadMonitoringPluginView {
                enabled: true,
                namespaces: allow,
                technology_targets: cfg.workload_monitoring_targets,
                schema_version: 1,
                generated_at_ms,
                signals: WorkloadMonitoringSignalsView {
                    workloads: workloads_in(workloads.deployments, allow) + workloads_in(workloads.statefulsets, allow)
                        + workloads_in(workloads.daemonsets, allow),
                    pods: pods.filter(|p: PodInfoView| allow.contains(p.namespace)),
                    services: network.services.filter(|s: ServiceInfoView| allow.contains(s.namespace)),
                    ingresses: network.ingresses.filter(|i: IngressInfoView| allow.contains(i.namespace)),
                    events: events.filter(|e: EventInfoView| allow.contains(e.namespace)),
                    dependencies: if cfg.collect_dependencies_tetragon {
                        Some(dependencies_in(dependencies, allow))
                    } else {
                        None
                    },
                    app_metrics: if cfg.app_metrics_enabled {
                        Some(app_metrics)
                    } else {
                        None
                    },
                },
                logs,
            },
        )
    }
}

fn pods_in(pods: &Vec<PodInfo>, allow: &Vec<String>) -> (r: Vec<PodInfo>)
    ensures
        r.deep_view() == pods.deep_view().filter(|p: PodInfoView| allow.deep_view().contains(p.namespace)),
{
    let keep = |p: &PodInfo| -> (b: bool)
        ensures
            b == allow.deep_view().contains(p.deep_view().namespace),
        { list_has(allow, p.namespace.as_str()) };
    filter_cloned(pods, keep, Ghost(|p: PodInfoView| allow.deep_view().contains(p.namespace)))
}

fn services_in(services: &Vec<ServiceInfo>, allow: &Vec<String>) -> (r: Vec<ServiceInfo>)
    ensures
        r.deep_view() == services.deep_view().filter(|s: ServiceInfoView| allow.deep_view().contains(s.namespace)),
{
    let keep = |s: &ServiceInfo| -> (b: bool)
        ensures
            b == allow.deep_view().contains(s.deep_view().namespace),
        { list_has(allow, s.namespace.as_str()) };
    filter_cloned(services, keep, Ghost(|s: ServiceInfoView| allow.deep_view().contains(s.namespace)))
}

fn ingresses_in(ingresses: &Vec<IngressInfo>, allow: &Vec<String>) -> (r: Vec<IngressInfo>)
    ensures
        r.deep_view() == ingresses.deep_view().filter(|i: IngressInfoView| allow.deep_view().contains(i.namespace)),
{
    let keep = |i: &IngressInfo| -> (b: bool)
        ensures
            b == allow.deep_view().contains(i.deep_view().namespace),
        { list_has(allow, i.namespace.as_str()) };
    filter_cloned(ingresses, keep, Ghost(|i: IngressInfoView| allow.deep_view().contains(i.namespace)))
}

fn events_in(events: &Vec<EventInfo>, allow: &Vec<String>) -> (r: Vec<EventInfo>)
    ensures
        r.deep_view() == events.deep_view().filter(|e: EventInfoView| allow.deep_view().contains(e.namespace)),
{
    let keep = |e: &EventInfo| -> (b: bool)
        ensures
            b == allow.deep_view().contains(e.deep_view().namespace),
        { list_has(allow, e.namespace.as_str()) };
    filter_cloned(events, keep, Ghost(|e: EventInfoView| allow.deep_view().contains(e.namespace)))
}

fn edges_in(dependencies: &DependencyInventory, allow: &Vec<String>) -> (r: DependencyInventory)
    ensures
        r.deep_view() == dependencies_in(dependencies.deep_view(), allow.deep_view()),
{
    let keep = |e: &DependencyEdge| -> (b: bool)
        ensures
            b == edge_in(e.deep_view(), allow.deep_view()),
        { edge_is_in(e, allow) };
    let edges = filter_cloned(
        &dependencies.edges,
        keep,
        Ghost(|e: DependencyEdgeView| edge_in(e, allow.deep_view())),
    );
    DependencyInventory {
        edges,
        source: dependencies.source,
        window_seconds: dependencies.window_seconds,
        truncated: dependencies.truncated,
        dropped_edges: dependencies.dropped_edges,
        observed_endpoints: dependencies.observed_endpoints,
        connected_endpoints: dependencies.connected_endpoints,
        unavailable_endpoints: dependencies.unavailable_endpoints,
    }
}

/// What workload monitoring reports at a given time.
pub fn build_workload_monitoring_at(
    cfg: &Config,
    workloads: &Workloads,
    pods: &Vec<PodInfo>,
    network: &NetworkInventory,
    events: &Vec<EventInfo>,
    dependencies: &DependencyInventory,
    app_metrics: AppMetricsInventory,
    logs: WorkloadMonitoringLogs,
    generated_at_ms: u128,
) -> (r: Option<WorkloadMonitoringPlugin>)
    ensures
        r.deep_view() == workload_monitoring(
            cfg.deep_view(),
            workloads.deep_view(),
            pods.deep_view(),
            network.deep_view(),
            events.deep_view(),
            dependencies.deep_view(),
            app_metrics.deep_view(),
            logs.deep_view(),
            generated_at_ms,
        ),
{
    let allow = &cfg.workload_monitoring_namespaces;
    if !cfg.workload_monitoring_enabled || allow.len() == 0 {
        return None;
    }
    let filtered = Workloads {
        deployments: filter_workloads(&workloads.deployments, allow),
        statefulsets: filter_workloads(&workloads.statefulsets, allow),
        daemonsets: filter_workloads(&workloads.daemonsets, allow),
    };
    let signals = WorkloadMonitoringSignals {
        workloads: merge_workload_refs(&filtered),
        pods: pods_in(pods, allow),
        services: services_in(&network.services, allow),
        ingresses: ingresses_in(&network.ingresses, allow),
        events: events_in(events, allow),
        dependencies: if cfg.collect_dependencies_tetragon {
            Some(edges_in(dependencies, allow))
        } else {
            None
        },
        app_metrics: if cfg.app_metrics_enabled {
            Some(app_metrics)
        } else {
            None
        },
    };
    Some(
        WorkloadMonitoringPlugin {
            enabled: true,
            namespaces: allow.deep_clone(),
            technology_targets: cfg.workload_monitoring_targets.deep_clone(),
            schema_version: 1,
            generated_at_ms,
            signals,
            logs,
        },
    )
}

/// What workload monitoring reports now.
pub fn build_workload_monitoring(
    cfg: &Config,
    workloads: &Workloads,
    pods: &Vec<PodInfo>,
    network: &NetworkInventory,
    events: &Vec<EventInfo>,
    dependencies: &DependencyInventory,
    app_metrics: AppMetricsInventory,
    logs: WorkloadMonitoringLogs,
) -> (r: Option<WorkloadMonitoringPlugin>)
    ensures
        exists|now: u128|
            r.deep_view() == #[trigger] workload_monitoring(
                cfg.deep_view(),
                workloads.deep_view(),
                pods.deep_view(),
                network.deep_view(),
                events.deep_view(),
                dependencies.deep_view(),
                app_metrics.deep_view(),
                logs.deep_view(),
                now,
            ),
{
    let now: u128 = now_ms();
    build_workload_monitoring_at(cfg, workloads, pods, network, events, dependencies, app_metrics, logs, now)
}

/// Workload monitoring shows nothing of a namespace that it does not name.
pub proof fn lemma_monitoring_stays_in_namespaces(
    cfg: ConfigView,
    workloads: WorkloadsView,
    pods: Seq<PodInfoView>,
    network: NetworkInventoryView,
    events: Seq<EventInfoView>,
    dependencies: DependencyInventoryView,
    app_metrics: AppMetricsInventoryView,
    logs: WorkloadMonitoringLogsView,
    now: u128,
)
    ensures
        workload_monitoring(cfg, workloads, pods, network, events, dependencies, app_metrics, logs, now) matches Some(
            plugin,
        ) ==> {
            let allow = cfg.workload_monitoring_namespaces;
            &&& forall|i: int| 0 <= i < plugin.signals.workloads.len() ==> allow.contains(
                (#[trigger] plugin.signals.workloads[i]).namespace,
            )
            &&& forall|i: int| 0 <= i < plugin.signals.pods.len() ==> allow.contains(
                (#[trigger] plugin.signals.pods[i]).namespace,
            )
            &&& forall|i: int| 0 <= i < plugin.signals.services.len() ==> allow.contains(
                (#[trigger] plugin.signals.services[i]).namespace,
            )
            &&& forall|i: int| 0 <= i < plugin.signals.ingresses.len() ==> allow.contains(
                (#[trigger] plugin.signals.ingresses[i]).namespace,
            )
            &&& forall|i: int| 0 <= i < plugin.signals.events.len() ==> allow.contains(
                (#[trigger] plugin.signals.events[i]).namespace,
            )
        },
{
    let allow = cfg.workload_monitoring_namespaces;
    let wp = |w: WorkloadRefView| allow.contains(w.namespace);
    let a = workloads_in(workloads.deployments, allow);
    let b = workloads_in(workloads.statefulsets, allow);
    let c = workloads_in(workloads.daemonsets, allow);
    assert forall|i: int| 0 <= i < (a + b + c).len() implies allow.contains((#[trigger] (a + b + c)[i]).namespace) by {
        if i < a.len() {
            workloads.deployments.lemma_filter_pred(wp, i);
        } else if i < a.len() + b.len() {
            workloads.statefulsets.lemma_filter_pred(wp, i - a.len());
        } else {
            workloads.daemonsets.lemma_filter_pred(wp, i - a.len() - b.len());
        }
    }
    let pp = |p: PodInfoView| allow.contains(p.namespace);
    assert forall|i: int| 0 <= i < pods.filter(pp).len() implies allow.contains(
        (#[trigger] pods.filter(pp)[i]).namespace,
    ) by {
        pods.lemma_filter_pred(pp, i);
    }
    let sp = |s: ServiceInfoView| allow.contains(s.namespace);
    assert forall|i: int| 0 <= i < network.services.filter(sp).len() implies allow.contains(
        (#[trigger] network.services.filter(sp)[i]).namespace,
    ) by {
        network.services.lemma_filter_pred(sp, i);
    }
    let ip = |s: IngressInfoView| allow.contains(s.namespace);
    assert forall|i: int| 0 <= i < network.ingresses.filter(ip).len() implies allow.contains(
        (#[trigger] network.ingresses.filter(ip)[i]).namespace,
    ) by {
        network.ingresses.lemma_filter_pred(ip, i);
    }
    let ep = |e: EventInfoView| allow.contains(e.namespace);
    assert forall|i: int| 0 <= i < events.filter(ep).len() implies allow.contains(
        (#[trigger] events.filter(ep)[i]).namespace,
    ) by {
        events.lemma_filter_pred(ep, i);
    }
}

// ------------------------------------------------------ PostgreSQL heuristics

/// A name that speaks of PostgreSQL.
pub open spec fn is_postgresql_name(value: Seq<char>) -> bool {
    let lower = text::ascii_lower(value);
    text::contains_text(lower, "postgres"@) || text::contains_text(lower, "postgresql"@) || text::contains_text(lower, "pgsql"@)
}

/// Whether a name speaks of PostgreSQL.
pub fn matches_postgresql_name(value: &str) -> (r: bool)
    ensures
        r == is_postgresql_name(value@),
{
    let lower = to_ascii_lowercase(value);
    contains(lower.as_str(), "postgres") || contains(lower.as_str(), "postgresql") || contains(
        lower.as_str(),
        "pgsql",
    )
}

/// No letter or digit stands directly before a position.
pub open spec fn free_before(s: Seq<char>, i: int) -> bool {
    i == 0 || !text::is_alphanumeric(s[i - 1])
}

/// No letter or digit stands at a position.
pub open spec fn free_at(s: Seq<char>, i: int) -> bool {
    i >= s.len() || !text::is_alphanumeric(s[i])
}

/// A text holds a token at or after a position: going from one occurrence to the next that
/// does not overlap it, one stands free on both sides.
pub open spec fn token_from(s: Seq<char>, needle: Seq<char>, from: int) -> bool
    decreases s.len() - from,
{
    if needle.len() == 0 || from < 0 {
        false
    } else {
        proof {
            text::lemma_occurrence_from(s, needle, from);
        }
        match text::occurrence_from(s, needle, from) {
            Some(i) => (free_before(s, i) && free_at(s, i + needle.len())) || token_from(s, needle, i + needle.len()),
            None => false,
        }
    }
}

/// A text holds a token, in whatever case.
pub open spec fn has_token(value: Seq<char>, needle: Seq<char>) -> bool {
    token_from(text::ascii_lower(value), needle, 0)
}

/// Whether a text holds a token, in whatever case.
pub fn contains_token(value: &str, needle: &str) -> (r: bool)
    requires
        needle@.len() > 0,
    ensures
        r == has_token(value@, needle@),
{
    let lower = to_ascii_lowercase(value);
    let chars = chars_of(lower.as_str());
    let n: usize = needle.unicode_len();
    let mut start: usize = 0;
    loop
        invariant
            chars@ == lower@,
            n == needle@.len(),
            n > 0,
            lower@ == text::ascii_lower(value@),
            start <= lower@.len(),
            has_token(value@, needle@) == token_from(lower@, needle@, start as int),
        decreases lower@.len() - start,
    {
        proof {
            text::lemma_occurrence_from(lower@, needle@, start as int);
        }
        match find_from(lower.as_str(), needle, start) {
            Some(i) => {
                let total: usize = chars.len();
                assert(i + n <= total);
                let before_ok = i == 0 || !char_is_alphanumeric(chars[i - 1]);
                let after_ok = i + n >= total || !char_is_alphanumeric(chars[i + n]);
                if before_ok && after_ok {
                    return true;
                }
                start = i + n;
            },
            None => {
                return false;
            },
        }
    }
}

/// A text of letters and digits is held as a token exactly where some occurrence of it stands
/// free on both sides.
pub proof fn lemma_token_stands_free(s: Seq<char>, needle: Seq<char>)
    requires
        needle.len() > 0,
        forall|k: int| 0 <= k < needle.len() ==> text::is_alphanumeric(#[trigger] needle[k]),
    ensures
        token_from(s, needle, 0) <==> exists|i: int| #[trigger]
            text::occurs_at(s, needle, i) && free_before(s, i) && free_at(s, i + needle.len()),
{
    lemma_token_stands_free_from(s, needle, 0);
}

proof fn lemma_token_stands_free_from(s: Seq<char>, needle: Seq<char>, from: int)
    requires
        needle.len() > 0,
        0 <= from,
        forall|k: int| 0 <= k < needle.len() ==> text::is_alphanumeric(#[trigger] needle[k]),
    ensures
        token_from(s, needle, from) <==> exists|i: int|
            from <= i && #[trigger] text::occurs_at(s, needle, i) && free_before(s, i) && free_at(s, i + needle.len()),
    decreases s.len() - from,
{
    text::lemma_occurrence_from(s, needle, from);
    match text::occurrence_from(s, needle, from) {
        Some(i) => {
            let next = i + needle.len();
            lemma_token_stands_free_from(s, needle, next);
            assert forall|j: int| from <= j < next && #[trigger] text::occurs_at(s, needle, j) && free_before(s, j) implies j
                == i by {
                if j > i {
                    assert(s.subrange(i, next)[j - 1 - i] == s[j - 1]);
                    assert(text::is_alphanumeric(needle[j - 1 - i]));
                }
            }
        },
        None => {},
    }
}

/// A name that holds PostgreSQL's as a token.
pub open spec fn is_clear_postgresql_name(value: Seq<char>) -> bool {
    has_token(value, "postgresql"@) || has_token(value, "postgres"@) || has_token(value, "pgsql"@)
}

/// Whether a name holds PostgreSQL's as a token.
pub fn matches_clear_postgresql_name(value: &str) -> (r: bool)
    ensures
        r == is_clear_postgresql_name(value@),
{
    proof {
        reveal_strlit("postgresql");
        reveal_strlit("postgres");
        reveal_strlit("pgsql");
    }
    contains_token(value, "postgresql") || contains_token(value, "postgres") || contains_token(value, "pgsql")
}

/// An optional name that speaks of PostgreSQL.
pub open spec fn is_postgresql_opt(value: Option<Seq<char>>) -> bool {
    value matches Some(name) && is_postgresql_name(name)
}

fn matches_postgresql_opt(value: &Option<String>) -> (r: bool)
    ensures
        r == is_postgresql_opt(value.deep_view()),
{
    match value {
        Some(name) => matches_postgresql_name(name.as_str()),
        None => false,
    }
}

/// A container whose image or recognised technology is PostgreSQL.
pub open spec fn is_postgresql_container(c: ContainerInfoView) -> bool {
    is_postgresql_name(c.image) || is_postgresql_name(views::text_or(c.technology.product, ""@)) || is_postgresql_name(
        views::text_or(c.technology.subtype, ""@),
    )
}

/// A pod that looks like PostgreSQL.
pub open spec fn is_postgresql_pod(pod: PodInfoView) -> bool {
    is_postgresql_name(pod.name) || is_postgresql_opt(pod.owner_name) || pod.containers.any(
        |c: ContainerInfoView| is_postgresql_container(c),
    )
}

/// Whether a pod looks like PostgreSQL.
pub fn matches_postgresql_pod(pod: &PodInfo) -> (r: bool)
    ensures
        r == is_postgresql_pod(pod.deep_view()),
{
    let test = |c: &ContainerInfo| -> (b: bool)
        ensures
            b == is_postgresql_container(c.deep_view()),
        {
            matches_postgresql_name(c.image.as_str()) || matches_postgresql_name(opt_str(&c.technology.product, ""))
                || matches_postgresql_name(opt_str(&c.technology.subtype, ""))
        };
    let by_container = any_item(&pod.containers, test, Ghost(|c: ContainerInfoView| is_postgresql_container(c)));
    matches_postgresql_name(pod.name.as_str()) || matches_postgresql_opt(&pod.owner_name) || by_container
}

/// PostgreSQL's port.
pub open spec fn is_postgresql_port(port: ServicePortInfoView) -> bool {
    port.port == 5432 || port.target_port == Some("5432"@)
}

fn matches_postgresql_port(port: &ServicePortInfo) -> (r: bool)
    ensures
        r == is_postgresql_port(port.deep_view()),
{
    let named = match &port.target_port {
        Some(target) => str_eq(target.as_str(), "5432"),
        None => false,
    };
    port.port == 5432 || named
}

/// One of the ports is PostgreSQL's.
pub open spec fn has_postgresql_port(service: ServiceInfoView) -> bool {
    service.ports.any(|p: ServicePortInfoView| is_postgresql_port(p))
}

fn serves_postgresql_port(service: &ServiceInfo) -> (r: bool)
    ensures
        r == has_postgresql_port(service.deep_view()),
{
    let test = |p: &ServicePortInfo| -> (b: bool)
        ensures
            b == is_postgresql_port(p.deep_view()),
        { matches_postgresql_port(p) };
    any_item(&service.ports, test, Ghost(|p: ServicePortInfoView| is_postgresql_port(p)))
}

/// A service that looks like PostgreSQL.
pub open spec fn is_postgresql_service(service: ServiceInfoView) -> bool {
    is_postgresql_name(service.name) || service.selector.any(
        |kv: KVView| is_postgresql_name(kv.key) || is_postgresql_name(kv.value),
    ) || has_postgresql_port(service)
}

/// Whether a service looks like PostgreSQL.
pub fn matches_postgresql_service(service: &ServiceInfo) -> (r: bool)
    ensures
        r == is_postgresql_service(service.deep_view()),
{
    let test = |kv: &KV| -> (b: bool)
        ensures
            b == (is_postgresql_name(kv.deep_view().key) || is_postgresql_name(kv.deep_view().value)),
        { matches_postgresql_name(kv.key.as_str()) || matches_postgresql_name(kv.value.as_str()) };
    let by_selector = any_item(
        &service.selector,
        test,
        Ghost(|kv: KVView| is_postgresql_name(kv.key) || is_postgresql_name(kv.value)),
    );
    matches_postgresql_name(service.name.as_str()) || by_selector || serves_postgresql_port(service)
}

/// A claim that looks like PostgreSQL's.
pub open spec fn is_postgresql_pvc(pvc: PersistentVolumeClaimInfoView) -> bool {
    is_postgresql_name(pvc.name) || is_postgresql_opt(pvc.volume_name) || is_postgresql_opt(pvc.storage_class)
}

/// Whether a claim looks like PostgreSQL's.
pub fn matches_postgresql_pvc(pvc: &PersistentVolumeClaimInfo) -> (r: bool)
    ensures
        r == is_postgresql_pvc(pvc.deep_view()),
{
    matches_postgresql_name(pvc.name.as_str()) || matches_postgresql_opt(&pvc.volume_name) || matches_postgresql_opt(
        &pvc.storage_class,
    )
}

/// An event that looks like PostgreSQL's.
pub open spec fn is_postgresql_event(event: EventInfoView) -> bool {
    is_postgresql_name(event.name) || is_postgresql_opt(event.reason) || is_postgresql_opt(event.message)
        || is_postgresql_opt(event.involved_object.name)
}

/// Whether an event looks like PostgreSQL's.
pub fn matches_postgresql_event(event: &EventInfo) -> (r: bool)
    ensures
        r == is_postgresql_event(event.deep_view()),
{
    matches_postgresql_name(event.name.as_str()) || matches_postgresql_opt(&event.reason) || matches_postgresql_opt(
        &event.message,
    ) || matches_postgresql_opt(&event.involved_object.name)
}

/// A service that is PostgreSQL's beyond doubt: by a token of its name or selector, and by port.
pub open spec fn is_clear_service(service: ServiceInfoView) -> bool {
    (is_clear_postgresql_name(service.name) || service.selector.any(
        |kv: KVView| is_clear_postgresql_name(kv.key) || is_clear_postgresql_name(kv.value),
    )) && has_postgresql_port(service)
}

/// Whether a service is PostgreSQL's beyond doubt.
pub fn is_clear_postgresql_service(service: &ServiceInfo) -> (r: bool)
    ensures
        r == is_clear_service(service.deep_view()),
{
    let test = |kv: &KV| -> (b: bool)
        ensures
            b == (is_clear_postgresql_name(kv.deep_view().key) || is_clear_postgresql_name(kv.deep_view().value)),
        { matches_clear_postgresql_name(kv.key.as_str()) || matches_clear_postgresql_name(kv.value.as_str()) };
    let by_selector = any_item(
        &service.selector,
        test,
        Ghost(|kv: KVView| is_clear_postgresql_name(kv.key) || is_clear_postgresql_name(kv.value)),
    );
    (matches_clear_postgresql_name(service.name.as_str()) || by_selector) && serves_postgresql_port(service)
}

/// Why a claim looks like PostgreSQL's.
pub open spec fn pvc_reasons(pvc: PersistentVolumeClaimInfoView) -> Seq<Seq<char>> {
    (if is_postgresql_name(pvc.name) {
        seq!["name"@]
    } else {
        seq![]
    }) + (if is_postgresql_opt(pvc.volume_name) {
        seq!["volume_name"@]
    } else {
        seq![]
    }) + (if is_postgresql_opt(pvc.storage_class) {
        seq!["storage_class"@]
    } else {
        seq![]
    })
}

/// Why a claim looks like PostgreSQL's, in words.
pub open spec fn pvc_reason_text(pvc: PersistentVolumeClaimInfoView) -> Seq<char> {
    if pvc_reasons(pvc).len() == 0 {
        "unknown"@
    } else {
        text::joined(pvc_reasons(pvc), ","@)
    }
}

/// Why a claim looks like PostgreSQL's, in words.
pub fn pvc_match_reason(pvc: &PersistentVolumeClaimInfo) -> (r: String)
    ensures
        r@ == pvc_reason_text(pvc.deep_view()),
{
    let mut reasons: Vec<String> = Vec::new();
    let by_name = matches_postgresql_name(pvc.name.as_str());
    let by_volume = matches_postgresql_opt(&pvc.volume_name);
    let by_class = matches_postgresql_opt(&pvc.storage_class);
    if by_name {
        reasons.push(owned("name"));
    }
    if by_volume {
        reasons.push(owned("volume_name"));
    }
    if by_class {
        reasons.push(owned("storage_class"));
    }
    assert(reasons.deep_view() =~= pvc_reasons(pvc.deep_view()));
    if reasons.len() == 0 {
        owned("unknown")
    } else {
        join(&reasons, ",")
    }
}

/// The first of a service's ports that is PostgreSQL's, cut to sixteen bits.
pub open spec fn postgresql_port(service: ServiceInfoView) -> Option<u16> {
    match views::first_that(service.ports, |p: ServicePortInfoView| is_postgresql_port(p)) {
        Some(port) => Some((port.port % 65536) as u16),
        None => None,
    }
}

/// The port on which a service offers PostgreSQL.
pub fn select_postgresql_port(service: &ServiceInfo) -> (r: Option<u16>)
    ensures
        r == postgresql_port(service.deep_view()),
{
    let test = |p: &ServicePortInfo| -> (b: bool)
        ensures
            b == is_postgresql_port(p.deep_view()),
        { matches_postgresql_port(p) };
    match find_item(&service.ports, test, Ghost(|p: ServicePortInfoView| is_postgresql_port(p))) {
        Some(i) => {
            let port: i32 = service.ports[i].port;
            assert(#[verifier::truncate] (port as u16) == port % 65536) by (bit_vector);
            Some(#[verifier::truncate] (port as u16))
        },
        None => None,
    }
}

/// The name under which a service is found in the cluster.
pub open spec fn service_host(service: ServiceInfoView) -> Seq<char> {
    service.name + "."@ + service.namespace + ".svc.cluster.local"@
}

/// The name under which a service is found in the cluster.
pub fn postgresql_service_host(service: &ServiceInfo) -> (r: String)
    ensures
        r@ == service_host(service.deep_view()),
{
    text4(service.name.as_str(), ".", service.namespace.as_str(), ".svc.cluster.local")
}

/// The class of a failed probe, by words of its message.
pub open spec fn probe_error_class(message: Seq<char>) -> Seq<char> {
    let lower = text::ascii_lower(message);
    let says = |word: Seq<char>| text::contains_text(lower, word);
    if says("timed out"@) || says("timeout"@) {
        "failed: timeout"@
    } else if says("refused"@) {
        "failed: connection refused"@
    } else if says("lookup"@) || says("resolve"@) || says("name or service not known"@) || says("no such host"@) {
        "failed: dns"@
    } else if says("authentication"@) || says("password"@) || says("permission denied"@) {
        "failed: auth"@
    } else if says("ssl"@) || says("tls"@) || says("handshake"@) {
        "failed: tls"@
    } else {
        "failed: io"@
    }
}

/// The class of a failed probe, by words of its message.
pub fn classify_postgresql_probe_error(message: &str) -> (r: String)
    ensures
        r@ == probe_error_class(message@),
{
    let lowered = to_ascii_lowercase(message);
    let lower = lowered.as_str();
    let class = if contains(lower, "timed out") || contains(lower, "timeout") {
        "failed: timeout"
    } else if contains(lower, "refused") {
        "failed: connection refused"
    } else if contains(lower, "lookup") || contains(lower, "resolve") || contains(lower, "name or service not known")
        || contains(lower, "no such host") {
        "failed: dns"
    } else if contains(lower, "authentication") || contains(lower, "password") || contains(
        lower,
        "permission denied",
    ) {
        "failed: auth"
    } else if contains(lower, "ssl") || contains(lower, "tls") || contains(lower, "handshake") {
        "failed: tls"
    } else {
        "failed: io"
    };
    owned(class)
}

// ------------------------------------------------------ PostgreSQL monitoring

/// What a probe of a PostgreSQL server gave.
#[derive(Clone, Debug, PartialEq, Eq)]
pub enum PostgresqlProbeResult {
    /// The server answered `SELECT 1`.
    Connected { host: String, port: u16, latency_ms: u128 },
    /// The server did not answer.
    Failed { host: String, port: u16, classification: String },
}

/// The view of [`PostgresqlProbeResult`].
pub enum PostgresqlProbeResultView {
    Connected { host: Seq<char>, port: u16, latency_ms: u128 },
    Failed { host: Seq<char>, port: u16, classification: Seq<char> },
}

impl DeepView for PostgresqlProbeResult {
    type V = PostgresqlProbeResultView;

    open spec fn deep_view(&self) -> PostgresqlProbeResultView {
        match self {
            PostgresqlProbeResult::Connected { host, port, latency_ms } => PostgresqlProbeResultView::Connected {
                host: host.deep_view(),
                port: *port,
                latency_ms: *latency_ms,
            },
            PostgresqlProbeResult::Failed { host, port, classification } => PostgresqlProbeResultView::Failed {
                host: host.deep_view(),
                port: *port,
                classification: classification.deep_view(),
            },
        }
    }
}

/// The workloads of a list in the given namespaces whose names speak of PostgreSQL.
pub open spec fn postgresql_workloads(items: Seq<WorkloadRefView>, allow: Seq<Seq<char>>) -> Seq<WorkloadRefView> {
    workloads_in(items, allow).filter(|w: WorkloadRefView| is_postgresql_name(w.name))
}

fn select_postgresql_workloads(items: &Vec<WorkloadRef>, allow: &Vec<String>) -> (r: Vec<WorkloadRef>)
    ensures
        r.deep_view() == postgresql_workloads(items.deep_view(), allow.deep_view()),
{
    let keep = |w: &WorkloadRef| -> (b: bool)
        ensures
            b == is_postgresql_name(w.deep_view().name),
        { matches_postgresql_name(w.name.as_str()) };
    filter_cloned(
        &filter_workloads(items, allow),
        keep,
        Ghost(|w: WorkloadRefView| is_postgresql_name(w.name)),
    )
}

/// The objects in the given namespaces that look like PostgreSQL.
pub open spec fn postgresql_found(
    allow: Seq<Seq<char>>,
    workloads: WorkloadsView,
    pods: Seq<PodInfoView>,
    network: NetworkInventoryView,
    storage: StorageInventoryView,
    events: Seq<EventInfoView>,
) -> PostgresqlDiscoveryView {
    PostgresqlDiscoveryView {
        deployments: postgresql_workloads(workloads.deployments, allow),
        statefulsets: postgresql_workloads(workloads.statefulsets, allow),
        daemonsets: postgresql_workloads(workloads.daemonsets, allow),
        pods: pods.filter(|p: PodInfoView| allow.contains(p.namespace) && is_postgresql_pod(p)),
        services: network.services.filter(
            |s: ServiceInfoView| allow.contains(s.namespace) && is_postgresql_service(s),
        ),
        pvcs: storage.persistent_volume_claims.filter(
            |c: PersistentVolumeClaimInfoView| allow.contains(c.namespace) && is_postgresql_pvc(c),
        ),
        events: events.filter(|e: EventInfoView| allow.contains(e.namespace) && is_postgresql_event(e)),
    }
}

/// The objects in the given namespaces that look like PostgreSQL.
pub fn discover_postgresql(
    allow: &Vec<String>,
    workloads: &Workloads,
    pods: &Vec<PodInfo>,
    network: &NetworkInventory,
    storage: &StorageInventory,
    events: &Vec<EventInfo>,
) -> (r: PostgresqlDiscovery)
    ensures
        r.deep_view() == postgresql_found(
            allow.deep_view(),
            workloads.deep_view(),
            pods.deep_view(),
            network.deep_view(),
            storage.deep_view(),
            events.deep_view(),
        ),
{
    let keep_pod = |p: &PodInfo| -> (b: bool)
        ensures
            b == (allow.deep_view().contains(p.deep_view().namespace) && is_postgresql_pod(p.deep_view())),
        { list_has(allow, p.namespace.as_str()) && matches_postgresql_pod(p) };
    let keep_service = |s: &ServiceInfo| -> (b: bool)
        ensures
            b == (allow.deep_view().contains(s.deep_view().namespace) && is_postgresql_service(s.deep_view())),
        { list_has(allow, s.namespace.as_str()) && matches_postgresql_service(s) };
    let keep_pvc = |c: &PersistentVolumeClaimInfo| -> (b: bool)
        ensures
            b == (allow.deep_view().contains(c.deep_view().namespace) && is_postgresql_pvc(c.deep_view())),
        { list_has(allow, c.namespace.as_str()) && matches_postgresql_pvc(c) };
    let keep_event = |e: &EventInfo| -> (b: bool)
        ensures
            b == (allow.deep_view().contains(e.deep_view().namespace) && is_postgresql_event(e.deep_view())),
        { list_has(allow, e.namespace.as_str()) && matches_postgresql_event(e) };
    PostgresqlDiscovery {
        deployments: select_postgresql_workloads(&workloads.deployments, allow),
        statefulsets: select_postgresql_workloads(&workloads.statefulsets, allow),
        daemonsets: select_postgresql_workloads(&workloads.daemonsets, allow),
        pods: filter_cloned(
            pods,
            keep_pod,
            Ghost(|p: PodInfoView| allow.deep_view().contains(p.namespace) && is_postgresql_pod(p)),
        ),
        services: filter_cloned(
            &network.services,
            keep_service,
            Ghost(|s: ServiceInfoView| allow.deep_view().contains(s.namespace) && is_postgresql_service(s)),
        ),
        pvcs: filter_cloned(
            &storage.persistent_volume_claims,
            keep_pvc,
            Ghost(
                |c: PersistentVolumeClaimInfoView| allow.deep_view().contains(c.namespace) && is_postgresql_pvc(c),
            ),
        ),
        events: filter_cloned(
            events,
            keep_event,
            Ghost(|e: EventInfoView| allow.deep_view().contains(e.namespace) && is_postgresql_event(e)),
        ),
    }
}

/// The services that are PostgreSQL's beyond doubt.
pub open spec fn clear_services(services: Seq<ServiceInfoView>) -> Seq<ServiceInfoView> {
    services.filter(|s: ServiceInfoView| is_clear_service(s))
}

/// The services that look like PostgreSQL but not beyond doubt.
pub open spec fn weak_services(services: Seq<ServiceInfoView>) -> Seq<ServiceInfoView> {
    services.filter(|s: ServiceInfoView| is_postgresql_service(s) && !is_clear_service(s))
}

fn select_clear_services(services: &Vec<ServiceInfo>) -> (r: Vec<ServiceInfo>)
    ensures
        r.deep_view() == clear_services(services.deep_view()),
{
    let keep = |s: &ServiceInfo| -> (b: bool)
        ensures
            b == is_clear_service(s.deep_view()),
        { is_clear_postgresql_service(s) };
    filter_cloned(services, keep, Ghost(|s: ServiceInfoView| is_clear_service(s)))
}

fn select_weak_services(services: &Vec<ServiceInfo>) -> (r: Vec<ServiceInfo>)
    ensures
        r.deep_view() == weak_services(services.deep_view()),
{
    let keep = |s: &ServiceInfo| -> (b: bool)
        ensures
            b == (is_postgresql_service(s.deep_view()) && !is_clear_service(s.deep_view())),
        { matches_postgresql_service(s) && !is_clear_postgresql_service(s) };
    filter_cloned(services, keep, Ghost(|s: ServiceInfoView| is_postgresql_service(s) && !is_clear_service(s)))
}

/// The workloads that look like PostgreSQL, of whatever kind.
pub open spec fn found_workloads(found: PostgresqlDiscoveryView) -> Seq<WorkloadRefView> {
    found.deployments + found.statefulsets + found.daemonsets
}

/// How many of the pods are running.
pub open spec fn running_pods(pods: Seq<PodInfoView>) -> nat {
    pods.filter(|p: PodInfoView| p.phase == Some("Running"@)).len()
}

fn count_running_pods(pods: &Vec<PodInfo>) -> (r: usize)
    ensures
        r == running_pods(pods.deep_view()),
{
    let keep = |p: &PodInfo| -> (b: bool)
        ensures
            b == (p.deep_view().phase == Some("Running"@)),
        {
            match &p.phase {
                Some(phase) => str_eq(phase.as_str(), "Running"),
                None => false,
            }
        };
    let running = filter_cloned(pods, keep, Ghost(|p: PodInfoView| p.phase == Some("Running"@)));
    running.len()
}

/// The services' ports that are PostgreSQL's, in a row.
pub open spec fn postgresql_ports(services: Seq<ServiceInfoView>) -> Seq<ServicePortInfoView>
    decreases services.len(),
{
    if services.len() == 0 {
        seq![]
    } else {
        postgresql_ports(services.drop_last()) + services.last().ports.filter(
            |p: ServicePortInfoView| is_postgresql_port(p),
        )
    }
}

fn collect_postgresql_ports(services: &Vec<ServiceInfo>) -> (r: Vec<ServicePortInfo>)
    ensures
        r.deep_view() == postgresql_ports(services.deep_view()),
{
    let ghost all = services.deep_view();
    let mut r: Vec<ServicePortInfo> = Vec::new();
    let mut i: usize = 0;
    assert(r.deep_view() =~= postgresql_ports(all.take(0)));
    while i < services.len()
        invariant
            i <= services.len(),
            all == services.deep_view(),
            r.deep_view() == postgresql_ports(all.take(i as int)),
        decreases services.len() - i,
    {
        let keep = |p: &ServicePortInfo| -> (b: bool)
            ensures
                b == is_postgresql_port(p.deep_view()),
            { matches_postgresql_port(p) };
        let ports = filter_cloned(&services[i].ports, keep, Ghost(|p: ServicePortInfoView| is_postgresql_port(p)));
        append_cloned(&mut r, &ports);
        i += 1;
        assert(all.take(i as int).drop_last() =~= all.take(i - 1));
        assert(all.take(i as int).last() == services@[i - 1].deep_view());
    }
    assert(all.take(services.len() as int) =~= all);
    r
}

/// The probe that counts: one is made only where exactly one service is clear.
pub open spec fn used_probe(
    clear: nat,
    probe: Option<PostgresqlProbeResultView>,
) -> Option<PostgresqlProbeResultView> {
    if clear == 1 {
        probe
    } else {
        None
    }
}

/// Why no probe was made, where services were found.
pub open spec fn probe_note(clear: nat, services: nat) -> Option<Seq<char>> {
    if clear == 0 && services > 0 {
        Some("Service did not clearly match PostgreSQL heuristics; live probe skipped"@)
    } else if clear > 1 {
        Some("Multiple services matched PostgreSQL heuristics; live probe skipped"@)
    } else {
        None
    }
}

/// How sound the found objects are.
pub open spec fn postgresql_status(
    found: PostgresqlDiscoveryView,
    probe: Option<PostgresqlProbeResultView>,
) -> Seq<char> {
    let clear = clear_services(found.services).len();
    if clear > 1 {
        "unknown"@
    } else if clear == 1 {
        if running_pods(found.pods) > 0 && postgresql_ports(found.services).len() > 0 && found.pvcs.len() > 0
            && probe matches Some(PostgresqlProbeResultView::Connected { .. }) {
            "healthy"@
        } else {
            "warning"@
        }
    } else if found.services.len() > 0 || found_workloads(found).len() > 0 || found.pods.len() > 0
        || found.pvcs.len() > 0 {
        "warning"@
    } else if found.events.len() == 0 {
        "critical"@
    } else {
        "unknown"@
    }
}

/// The finding in one sentence.
pub open spec fn postgresql_summary(
    namespaces: nat,
    running: nat,
    status: Seq<char>,
    probe: Option<PostgresqlProbeResultView>,
) -> Seq<char> {
    match probe {
        Some(PostgresqlProbeResultView::Connected { host, port, latency_ms }) => if status == "healthy"@ {
            "PostgreSQL workload found in "@ + text::decimal_of(namespaces) + " namespace(s) with "@ + text::decimal_of(running)
                + " running pod(s); live SELECT 1 succeeded in "@ + text::decimal_of(latency_ms as nat) + " ms"@
        } else {
            "PostgreSQL workload found, live SELECT 1 succeeded in "@ + text::decimal_of(latency_ms as nat)
                + " ms, but one or more signals are incomplete"@
        },
        Some(PostgresqlProbeResultView::Failed { host, port, classification }) =>
            "PostgreSQL workload found, but live SELECT 1 "@ + classification,
        None => if status == "healthy"@ {
            "PostgreSQL workload found in "@ + text::decimal_of(namespaces) + " namespace(s) with "@ + text::decimal_of(running)
                + " running pod(s)"@
        } else if status == "warning"@ {
            "PostgreSQL workload found, but one or more signals are incomplete"@
        } else if status == "unknown"@ {
            "PostgreSQL-related activity was seen, but the workload could not be classified confidently"@
        } else {
            "No PostgreSQL workload found in the configured namespaces"@
        },
    }
}

fn summarize_postgresql(
    namespaces: usize,
    running: usize,
    status: &str,
    probe: &Option<PostgresqlProbeResult>,
) -> (r: String)
    ensures
        r@ == postgresql_summary(namespaces as nat, running as nat, status@, probe.deep_view()),
{
    match probe {
        Some(PostgresqlProbeResult::Connected { host, port, latency_ms }) => {
            if str_eq(status, "healthy") {
                text7(
                    "PostgreSQL workload found in ",
                    decimal(namespaces as u128).as_str(),
                    " namespace(s) with ",
                    decimal(running as u128).as_str(),
                    " running pod(s); live SELECT 1 succeeded in ",
                    decimal(*latency_ms).as_str(),
                    " ms",
                )
            } else {
                text3(
                    "PostgreSQL workload found, live SELECT 1 succeeded in ",
                    decimal(*latency_ms).as_str(),
                    " ms, but one or more signals are incomplete",
                )
            }
        },
        Some(PostgresqlProbeResult::Failed { host, port, classification }) => {
            text2("PostgreSQL workload found, but live SELECT 1 ", classification.as_str())
        },
        None => {
            if str_eq(status, "healthy") {
                text5(
                    "PostgreSQL workload found in ",
                    decimal(namespaces as u128).as_str(),
                    " namespace(s) with ",
                    decimal(running as u128).as_str(),
                    " running pod(s)",
                )
            } else if str_eq(status, "warning") {
                owned("PostgreSQL workload found, but one or more signals are incomplete")
            } else if str_eq(status, "unknown") {
                owned("PostgreSQL-related activity was seen, but the workload could not be classified confidently")
            } else {
                owned("No PostgreSQL workload found in the configured namespaces")
            }
        },
    }
}

/// What a probe is reported as.
pub open spec fn probe_text(probe: PostgresqlProbeResultView) -> Seq<char> {
    match probe {
        PostgresqlProbeResultView::Connected { host, port, latency_ms } => "SELECT 1 succeeded on "@ + host + ":"@
            + text::decimal_of(port as nat) + " in "@ + text::decimal_of(latency_ms as nat) + " ms"@,
        PostgresqlProbeResultView::Failed { host, port, classification } => "SELECT 1 "@ + classification + " on "@
            + host + ":"@ + text::decimal_of(port as nat),
    }
}

fn describe_probe(probe: &PostgresqlProbeResult) -> (r: String)
    ensures
        r@ == probe_text(probe.deep_view()),
{
    match probe {
        PostgresqlProbeResult::Connected { host, port, latency_ms } => text7(
            "SELECT 1 succeeded on ",
            host.as_str(),
            ":",
            decimal(*port as u128).as_str(),
            " in ",
            decimal(*latency_ms).as_str(),
            " ms",
        ),
        PostgresqlProbeResult::Failed { host, port, classification } => text6(
            "SELECT 1 ",
            classification.as_str(),
            " on ",
            host.as_str(),
            ":",
            decimal(*port as u128).as_str(),
        ),
    }
}

/// A detail with its title.
pub open spec fn detail_item(title: Seq<char>, value: Seq<char>) -> PostgresqlMonitoringDetailItemView {
    PostgresqlMonitoringDetailItemView { title, value }
}

fn detail_of(title: &str, value: String) -> (r: PostgresqlMonitoringDetailItem)
    ensures
        r.deep_view() == detail_item(title@, value@),
{
    PostgresqlMonitoringDetailItem { title: owned(title), value }
}

/// The details of a finding: what was counted, how the probe went, and the class where nothing
/// was found.
pub open spec fn postgresql_detail(
    namespaces: Seq<Seq<char>>,
    found: PostgresqlDiscoveryView,
    probe: Option<PostgresqlProbeResultView>,
) -> Seq<PostgresqlMonitoringDetailItemView> {
    let clear = clear_services(found.services).len();
    let counted = seq![
        detail_item("namespaces"@, text::joined(namespaces, ", "@)),
        detail_item("matched workloads"@, text::decimal_of(found_workloads(found).len())),
        detail_item("matched pods"@, text::decimal_of(found.pods.len())),
        detail_item("running pods"@, text::decimal_of(running_pods(found.pods))),
        detail_item("matched services"@, text::decimal_of(found.services.len())),
        detail_item("clear services"@, text::decimal_of(clear)),
        detail_item("weak services"@, text::decimal_of(weak_services(found.services).len())),
        detail_item("service ports on 5432"@, text::decimal_of(postgresql_ports(found.services).len())),
        detail_item("matched pvcs"@, text::decimal_of(found.pvcs.len())),
    ];
    let noted = match probe_note(clear, found.services.len()) {
        Some(note) => seq![detail_item("live probe"@, note)],
        None => seq![],
    };
    let probed = match probe {
        Some(result) => seq![detail_item("live probe"@, probe_text(result))],
        None => seq![],
    };
    let classed = if found_workloads(found).len() == 0 && found.pods.len() == 0 && found.services.len() == 0
        && found.pvcs.len() == 0 {
        seq![detail_item("classification"@, postgresql_status(found, probe))]
    } else {
        seq![]
    };
    counted + noted + probed + classed
}

/// A piece of evidence with its title.
pub open spec fn evidence_item(title: Seq<char>, value: Seq<char>) -> PostgresqlMonitoringEvidenceItemView {
    PostgresqlMonitoringEvidenceItemView { title, value }
}

fn evidence_of(title: &str, value: String) -> (r: PostgresqlMonitoringEvidenceItem)
    ensures
        r.deep_view() == evidence_item(title@, value@),
{
    PostgresqlMonitoringEvidenceItem { title: owned(title), value }
}

/// A workload as evidence.
pub open spec fn workload_evidence(
    title: Seq<char>,
    kind: Seq<char>,
    w: WorkloadRefView,
) -> PostgresqlMonitoringEvidenceItemView {
    evidence_item(title, kind + " "@ + w.namespace + "/"@ + w.name + " match=name"@)
}

fn list_workload_evidence(title: &str, kind: &str, workloads: &Vec<WorkloadRef>) -> (r: Vec<
    PostgresqlMonitoringEvidenceItem,
>)
    ensures
        r.deep_view() == workloads.deep_view().map_values(|w: WorkloadRefView| workload_evidence(title@, kind@, w)),
{
    let f = |w: &WorkloadRef| -> (e: PostgresqlMonitoringEvidenceItem)
        ensures
            e.deep_view() == workload_evidence(title@, kind@, w.deep_view()),
        {
            evidence_of(
                title,
                text6(kind, " ", w.namespace.as_str(), "/", w.name.as_str(), " match=name"),
            )
        };
    map_items(workloads, f, Ghost(|w: WorkloadRefView| workload_evidence(title@, kind@, w)))
}

/// The owner of a pod in words.
pub open spec fn owner_text(pod: PodInfoView) -> Seq<char> {
    match (pod.owner_kind, pod.owner_name) {
        (Some(kind), Some(name)) => "owner="@ + kind + " name="@ + name,
        (Some(kind), None) => "owner="@ + kind,
        (None, Some(name)) => "name="@ + name,
        (None, None) => "owner=unknown"@,
    }
}

fn describe_owner(pod: &PodInfo) -> (r: String)
    ensures
        r@ == owner_text(pod.deep_view()),
{
    match (&pod.owner_kind, &pod.owner_name) {
        (Some(kind), Some(name)) => text4("owner=", kind.as_str(), " name=", name.as_str()),
        (Some(kind), None) => text2("owner=", kind.as_str()),
        (None, Some(name)) => text2("name=", name.as_str()),
        (None, None) => owned("owner=unknown"),
    }
}

/// The image of a pod's first container.
pub open spec fn first_image(pod: PodInfoView) -> Seq<char> {
    if pod.containers.len() > 0 {
        pod.containers[0].image
    } else {
        "unknown"@
    }
}

/// A pod as evidence.
pub open spec fn pod_evidence(pod: PodInfoView) -> PostgresqlMonitoringEvidenceItemView {
    evidence_item(
        "pod"@,
        (pod.namespace + "/"@ + pod.name + " "@ + owner_text(pod)) + " phase="@ + views::text_or(pod.phase, "unknown"@)
            + " image="@ + first_image(pod),
    )
}

fn pod_as_evidence(pod: &PodInfo) -> (e: PostgresqlMonitoringEvidenceItem)
    ensures
        e.deep_view() == pod_evidence(pod.deep_view()),
{
    let image = if pod.containers.len() > 0 {
        pod.containers[0].image.as_str()
    } else {
        "unknown"
    };
    let head = text5(
        pod.namespace.as_str(),
        "/",
        pod.name.as_str(),
        " ",
        describe_owner(pod).as_str(),
    );
    evidence_of("pod", text5(head.as_str(), " phase=", opt_str(&pod.phase, "unknown"), " image=", image))
}

/// The ports of a service between commas.
pub open spec fn ports_text(service: ServiceInfoView) -> Seq<char> {
    text::joined(service.ports.map_values(|p: ServicePortInfoView| text::signed_decimal_of(p.port as int)), ","@)
}

/// A service as evidence.
pub open spec fn service_evidence(word: Seq<char>, s: ServiceInfoView) -> PostgresqlMonitoringEvidenceItemView {
    evidence_item(
        "service"@,
        (word + s.namespace + "/"@ + s.name) + " ports="@ + ports_text(s) + " selector="@ + text::decimal_of(
            s.selector.len(),
        ),
    )
}

fn service_as_evidence(word: &str, s: &ServiceInfo) -> (e: PostgresqlMonitoringEvidenceItem)
    ensures
        e.deep_view() == service_evidence(word@, s.deep_view()),
{
    let f = |p: &ServicePortInfo| -> (t: String)
        ensures
            t.deep_view() == text::signed_decimal_of(p.deep_view().port as int),
        { signed_decimal(p.port as i128) };
    let ports = map_items(&s.ports, f, Ghost(|p: ServicePortInfoView| text::signed_decimal_of(p.port as int)));
    let head = text4(word, s.namespace.as_str(), "/", s.name.as_str());
    evidence_of(
        "service",
        text5(
            head.as_str(),
            " ports=",
            join(&ports, ",").as_str(),
            " selector=",
            decimal(s.selector.len() as u128).as_str(),
        ),
    )
}

fn list_service_evidence(word: &str, services: &Vec<ServiceInfo>) -> (r: Vec<PostgresqlMonitoringEvidenceItem>)
    ensures
        r.deep_view() == services.deep_view().map_values(|s: ServiceInfoView| service_evidence(word@, s)),
{
    let f = |s: &ServiceInfo| -> (e: PostgresqlMonitoringEvidenceItem)
        ensures
            e.deep_view() == service_evidence(word@, s.deep_view()),
        { service_as_evidence(word, s) };
    map_items(services, f, Ghost(|s: ServiceInfoView| service_evidence(word@, s)))
}

/// A claim as evidence.
pub open spec fn pvc_evidence(c: PersistentVolumeClaimInfoView) -> PostgresqlMonitoringEvidenceItemView {
    evidence_item(
        "pvc"@,
        (c.namespace + "/"@ + c.name) + " match="@ + pvc_reason_text(c) + " storage_class="@ + views::text_or(
            c.storage_class,
            "unknown"@,
        ) + " volume="@ + views::text_or(c.volume_name, "unknown"@),
    )
}

fn pvc_as_evidence(c: &PersistentVolumeClaimInfo) -> (e: PostgresqlMonitoringEvidenceItem)
    ensures
        e.deep_view() == pvc_evidence(c.deep_view()),
{
    let head = text3(c.namespace.as_str(), "/", c.name.as_str());
    evidence_of(
        "pvc",
        text7(
            head.as_str(),
            " match=",
            pvc_match_reason(c).as_str(),
            " storage_class=",
            opt_str(&c.storage_class, "unknown"),
            " volume=",
            opt_str(&c.volume_name, "unknown"),
        ),
    )
}

/// An event as evidence.
pub open spec fn event_evidence(e: EventInfoView) -> PostgresqlMonitoringEvidenceItemView {
    evidence_item(
        "event"@,
        (e.namespace + "/"@ + e.name) + " reason="@ + views::text_or(e.reason, "unknown"@) + " message="@ + views::text_or(
            e.message,
            "unknown"@,
        ),
    )
}

fn event_as_evidence(e: &EventInfo) -> (r: PostgresqlMonitoringEvidenceItem)
    ensures
        r.deep_view() == event_evidence(e.deep_view()),
{
    let head = text3(e.namespace.as_str(), "/", e.name.as_str());
    evidence_of(
        "event",
        text5(
            head.as_str(),
            " reason=",
            opt_str(&e.reason, "unknown"),
            " message=",
            opt_str(&e.message, "unknown"),
        ),
    )
}

/// The evidence of a finding: each object that was found, and the probe.
pub open spec fn postgresql_evidence(
    found: PostgresqlDiscoveryView,
    probe: Option<PostgresqlProbeResultView>,
) -> Seq<PostgresqlMonitoringEvidenceItemView> {
    found.deployments.map_values(|w: WorkloadRefView| workload_evidence("workload_name"@, "deployment"@, w))
        + found.statefulsets.map_values(|w: WorkloadRefView| workload_evidence("workload_owner"@, "statefulset"@, w))
        + found.daemonsets.map_values(|w: WorkloadRefView| workload_evidence("workload_name"@, "daemonset"@, w))
        + found.pods.map_values(|p: PodInfoView| pod_evidence(p)) + clear_services(found.services).map_values(
        |s: ServiceInfoView| service_evidence("clear "@, s),
    ) + weak_services(found.services).map_values(|s: ServiceInfoView| service_evidence("weak "@, s))
        + found.pvcs.map_values(|c: PersistentVolumeClaimInfoView| pvc_evidence(c)) + found.events.map_values(
        |e: EventInfoView| event_evidence(e),
    ) + (match probe {
        Some(result) => seq![evidence_item("probe"@, probe_text(result))],
        None => seq![],
    })
}

fn list_postgresql_evidence(found: &PostgresqlDiscovery, probe: &Option<PostgresqlProbeResult>) -> (r: Vec<
    PostgresqlMonitoringEvidenceItem,
>)
    ensures
        r.deep_view() == postgresql_evidence(found.deep_view(), probe.deep_view()),
{
    let pod = |p: &PodInfo| -> (e: PostgresqlMonitoringEvidenceItem)
        ensures
            e.deep_view() == pod_evidence(p.deep_view()),
        { pod_as_evidence(p) };
    let pvc = |c: &PersistentVolumeClaimInfo| -> (e: PostgresqlMonitoringEvidenceItem)
        ensures
            e.deep_view() == pvc_evidence(c.deep_view()),
        { pvc_as_evidence(c) };
    let event = |e: &EventInfo| -> (r: PostgresqlMonitoringEvidenceItem)
        ensures
            r.deep_view() == event_evidence(e.deep_view()),
        { event_as_evidence(e) };
    let mut out = list_workload_evidence("workload_name", "deployment", &found.deployments);
    append_cloned(&mut out, &list_workload_evidence("workload_owner", "statefulset", &found.statefulsets));
    append_cloned(&mut out, &list_workload_evidence("workload_name", "daemonset", &found.daemonsets));
    append_cloned(&mut out, &map_items(&found.pods, pod, Ghost(|p: PodInfoView| pod_evidence(p))));
    append_cloned(&mut out, &list_service_evidence("clear ", &select_clear_services(&found.services)));
    append_cloned(&mut out, &list_service_evidence("weak ", &select_weak_services(&found.services)));
    append_cloned(
        &mut out,
        &map_items(&found.pvcs, pvc, Ghost(|c: PersistentVolumeClaimInfoView| pvc_evidence(c))),
    );
    append_cloned(&mut out, &map_items(&found.events, event, Ghost(|e: EventInfoView| event_evidence(e))));
    let ghost before = out.deep_view();
    match probe {
        Some(result) => {
            let item = evidence_of("probe", describe_probe(result));
            let ghost view = item.deep_view();
            out.push(item);
            assert(out.deep_view() =~= before + seq![view]);
        },
        None => {
            assert(before + Seq::<PostgresqlMonitoringEvidenceItemView>::empty() =~= before);
        },
    }
    out
}

/// Something that is missing, with its title.
pub open spec fn missing_item(title: Seq<char>, value: Seq<char>) -> PostgresqlMonitoringMissingDataItemView {
    PostgresqlMonitoringMissingDataItemView { title, value }
}

fn missing_of(title: &str, value: String) -> (r: PostgresqlMonitoringMissingDataItem)
    ensures
        r.deep_view() == missing_item(title@, value@),
{
    PostgresqlMonitoringMissingDataItem { title: owned(title), value }
}

/// One item where something was not found, none where it was.
pub open spec fn missing_if(none_found: bool, title: Seq<char>, value: Seq<char>) -> Seq<
    PostgresqlMonitoringMissingDataItemView,
> {
    if none_found {
        seq![missing_item(title, value)]
    } else {
        seq![]
    }
}

fn push_missing_if(
    out: &mut Vec<PostgresqlMonitoringMissingDataItem>,
    none_found: bool,
    title: &str,
    value: &str,
)
    ensures
        final(out).deep_view() == old(out).deep_view() + missing_if(none_found, title@, value@),
{
    let ghost before = out.deep_view();
    if none_found {
        out.push(missing_of(title, owned(value)));
        assert(out.deep_view() =~= before + seq![missing_item(title@, value@)]);
    } else {
        assert(before + Seq::<PostgresqlMonitoringMissingDataItemView>::empty() =~= before);
    }
}

/// What a finding lacks: a probe that was skipped or failed, and each kind of object of which
/// none was found.
pub open spec fn postgresql_missing(
    found: PostgresqlDiscoveryView,
    probe: Option<PostgresqlProbeResultView>,
) -> Seq<PostgresqlMonitoringMissingDataItemView> {
    let noted = match probe_note(clear_services(found.services).len(), found.services.len()) {
        Some(note) => seq![missing_item("live probe"@, note)],
        None => seq![],
    };
    let failed = match probe {
        Some(PostgresqlProbeResultView::Failed { host, port, classification }) => seq![
            missing_item("live probe"@, probe_text(probe->0)),
        ],
        _ => seq![],
    };
    noted + failed + missing_if(
        found_workloads(found).len() == 0,
        "workload discovery"@,
        "No PostgreSQL-like workload name was found in the configured namespaces"@,
    ) + missing_if(found.pods.len() == 0, "pods"@, "No pod matched the PostgreSQL discovery heuristics"@)
        + missing_if(found.services.len() == 0, "service"@, "No service matched the PostgreSQL discovery heuristics"@)
        + missing_if(
        found.pvcs.len() == 0,
        "persistent volume claims"@,
        "No PVC matched the PostgreSQL discovery heuristics"@,
    ) + missing_if(
        found.events.len() == 0,
        "events"@,
        "No PostgreSQL-related warning events were observed in the configured namespaces"@,
    )
}

/// What PostgreSQL monitoring reports: nothing unless it is on and names a namespace, else what
/// was found in the namespaces that it names, judged with the probe of the one clear service.
pub open spec fn postgresql_monitoring(
    cfg: ConfigView,
    workloads: WorkloadsView,
    pods: Seq<PodInfoView>,
    network: NetworkInventoryView,
    storage: StorageInventoryView,
    events: Seq<EventInfoView>,
    probe: Option<PostgresqlProbeResultView>,
    generated_at_ms: u128,
) -> Option<PostgresqlMonitoringPluginView> {
    let allow = cfg.postgresql_monitoring_namespaces;
    if !cfg.postgresql_monitoring_enabled || allow.len() == 0 {
        None
    } else {
        let found = postgresql_found(allow, workloads, pods, network, storage, events);
        let used = used_probe(clear_services(found.services).len(), probe);
        let status = postgresql_status(found, used);
        Some(
            PostgresqlMonitoringPluginView {
                enabled: true,
                namespaces: allow,
                schema_version: 1,
                generated_at_ms,
                status,
                summary: postgresql_summary(allow.len(), running_pods(found.pods), status, used),
                detail: postgresql_detail(allow, found, used),
                evidence: postgresql_evidence(found, used),
                missing_data: postgresql_missing(found, used),
            },
        )
    }
}

/// The service to probe: the one clear service of the monitored namespaces.
pub open spec fn probe_target(cfg: ConfigView, network: NetworkInventoryView) -> Option<ServiceInfoView> {
    let allow = cfg.postgresql_monitoring_namespaces;
    let clear = clear_services(
        network.services.filter(|s: ServiceInfoView| allow.contains(s.namespace) && is_postgresql_service(s)),
    );
    if cfg.postgresql_monitoring_enabled && clear.len() == 1 {
        Some(clear[0])
    } else {
        None
    }
}

/// The one clear service of the monitored namespaces, where there is exactly one.
pub fn select_probe_target(cfg: &Config, network: &NetworkInventory) -> (r: Option<ServiceInfo>)
    ensures
        r.deep_view() == probe_target(cfg.deep_view(), network.deep_view()),
{
    let allow = &cfg.postgresql_monitoring_namespaces;
    let keep_service = |s: &ServiceInfo| -> (b: bool)
        ensures
            b == (allow.deep_view().contains(s.deep_view().namespace) && is_postgresql_service(s.deep_view())),
        { list_has(allow, s.namespace.as_str()) && matches_postgresql_service(s) };
    let services = filter_cloned(
        &network.services,
        keep_service,
        Ghost(|s: ServiceInfoView| allow.deep_view().contains(s.namespace) && is_postgresql_service(s)),
    );
    let clear = select_clear_services(&services);
    if cfg.postgresql_monitoring_enabled && clear.len() == 1 {
        Some(clear[0].deep_clone())
    } else {
        None
    }
}

fn note_probe(clear: usize, services: usize) -> (r: Option<&'static str>)
    ensures
        r.deep_view() == probe_note(clear as nat, services as nat),
{
    if clear == 0 && services > 0 {
        Some("Service did not clearly match PostgreSQL heuristics; live probe skipped")
    } else if clear > 1 {
        Some("Multiple services matched PostgreSQL heuristics; live probe skipped")
    } else {
        None
    }
}

fn has_connected(probe: &Option<PostgresqlProbeResult>) -> (r: bool)
    ensures
        r == (probe.deep_view() matches Some(PostgresqlProbeResultView::Connected { .. })),
{
    match probe {
        Some(PostgresqlProbeResult::Connected { .. }) => true,
        _ => false,
    }
}

fn judge_postgresql(found: &PostgresqlDiscovery, probe: &Option<PostgresqlProbeResult>) -> (r: &'static str)
    ensures
        r@ == postgresql_status(found.deep_view(), probe.deep_view()),
{
    let clear: usize = select_clear_services(&found.services).len();
    let running: usize = count_running_pods(&found.pods);
    let ports: usize = collect_postgresql_ports(&found.services).len();
    if clear > 1 {
        "unknown"
    } else if clear == 1 {
        if running > 0 && ports > 0 && found.pvcs.len() > 0 && has_connected(probe) {
            "healthy"
        } else {
            "warning"
        }
    } else if found.services.len() > 0 || found.deployments.len() > 0 || found.statefulsets.len() > 0
        || found.daemonsets.len() > 0 || found.pods.len() > 0 || found.pvcs.len() > 0 {
        "warning"
    } else if found.events.len() == 0 {
        "critical"
    } else {
        "unknown"
    }
}

fn count_found_workloads(found: &PostgresqlDiscovery) -> (r: u128)
    ensures
        r == found_workloads(found.deep_view()).len(),
{
    found.deployments.len() as u128 + found.statefulsets.len() as u128 + found.daemonsets.len() as u128
}

fn list_postgresql_detail(
    namespaces: &Vec<String>,
    found: &PostgresqlDiscovery,
    probe: &Option<PostgresqlProbeResult>,
) -> (r: Vec<PostgresqlMonitoringDetailItem>)
    ensures
        r.deep_view() == postgresql_detail(namespaces.deep_view(), found.deep_view(), probe.deep_view()),
{
    let ghost fv = found.deep_view();
    let clear: usize = select_clear_services(&found.services).len();
    let weak: usize = select_weak_services(&found.services).len();
    let workloads: u128 = count_found_workloads(found);
    let mut out: Vec<PostgresqlMonitoringDetailItem> = Vec::new();
    out.push(detail_of("namespaces", join(namespaces, ", ")));
    out.push(detail_of("matched workloads", decimal(workloads)));
    out.push(detail_of("matched pods", decimal(found.pods.len() as u128)));
    out.push(detail_of("running pods", decimal(count_running_pods(&found.pods) as u128)));
    out.push(detail_of("matched services", decimal(found.services.len() as u128)));
    out.push(detail_of("clear services", decimal(clear as u128)));
    out.push(detail_of("weak services", decimal(weak as u128)));
    out.push(
        detail_of("service ports on 5432", decimal(collect_postgresql_ports(&found.services).len() as u128)),
    );
    out.push(detail_of("matched pvcs", decimal(found.pvcs.len() as u128)));
    let ghost counted = seq![
        detail_item("namespaces"@, text::joined(namespaces.deep_view(), ", "@)),
        detail_item("matched workloads"@, text::decimal_of(found_workloads(fv).len())),
        detail_item("matched pods"@, text::decimal_of(fv.pods.len())),
        detail_item("running pods"@, text::decimal_of(running_pods(fv.pods))),
        detail_item("matched services"@, text::decimal_of(fv.services.len())),
        detail_item("clear services"@, text::decimal_of(clear_services(fv.services).len())),
        detail_item("weak services"@, text::decimal_of(weak_services(fv.services).len())),
        detail_item("service ports on 5432"@, text::decimal_of(postgresql_ports(fv.services).len())),
        detail_item("matched pvcs"@, text::decimal_of(fv.pvcs.len())),
    ];
    assert(out.deep_view() =~= counted);
    match note_probe(clear, found.services.len()) {
        Some(note) => {
            out.push(detail_of("live probe", owned(note)));
            assert(out.deep_view() =~= counted + seq![detail_item("live probe"@, note@)]);
        },
        None => {
            assert(counted + Seq::<PostgresqlMonitoringDetailItemView>::empty() =~= counted);
        },
    }
    let ghost noted = out.deep_view();
    match probe {
        Some(result) => {
            out.push(detail_of("live probe", describe_probe(result)));
            assert(out.deep_view() =~= noted + seq![detail_item("live probe"@, probe_text(result.deep_view()))]);
        },
        None => {
            assert(noted + Seq::<PostgresqlMonitoringDetailItemView>::empty() =~= noted);
        },
    }
    let ghost probed = out.deep_view();
    if workloads == 0 && found.pods.len() == 0 && found.services.len() == 0 && found.pvcs.len() == 0 {
        let status = judge_postgresql(found, probe);
        out.push(detail_of("classification", owned(status)));
        assert(out.deep_view() =~= probed + seq![detail_item("classification"@, status@)]);
    } else {
        assert(probed + Seq::<PostgresqlMonitoringDetailItemView>::empty() =~= probed);
    }
    out
}

fn list_postgresql_missing(found: &PostgresqlDiscovery, probe: &Option<PostgresqlProbeResult>) -> (r: Vec<
    PostgresqlMonitoringMissingDataItem,
>)
    ensures
        r.deep_view() == postgresql_missing(found.deep_view(), probe.deep_view()),
{
    let clear: usize = select_clear_services(&found.services).len();
    let mut out: Vec<PostgresqlMonitoringMissingDataItem> = Vec::new();
    match note_probe(clear, found.services.len()) {
        Some(note) => {
            out.push(missing_of("live probe", owned(note)));
            assert(out.deep_view() =~= seq![missing_item("live probe"@, note@)]);
        },
        None => {
            assert(out.deep_view() =~= seq![]);
        },
    }
    let ghost noted = out.deep_view();
    let failed = match probe {
        Some(PostgresqlProbeResult::Failed { .. }) => true,
        _ => false,
    };
    match probe {
        Some(result) => {
            if failed {
                out.push(missing_of("live probe", describe_probe(result)));
                assert(out.deep_view() =~= noted + seq![missing_item("live probe"@, probe_text(result.deep_view()))]);
            } else {
                assert(noted + Seq::<PostgresqlMonitoringMissingDataItemView>::empty() =~= noted);
            }
        },
        None => {
            assert(noted + Seq::<PostgresqlMonitoringMissingDataItemView>::empty() =~= noted);
        },
    }
    push_missing_if(
        &mut out,
        count_found_workloads(found) == 0,
        "workload discovery",
        "No PostgreSQL-like workload name was found in the configured namespaces",
    );
    push_missing_if(
        &mut out,
        found.pods.len() == 0,
        "pods",
        "No pod matched the PostgreSQL discovery heuristics",
    );
    push_missing_if(
        &mut out,
        found.services.len() == 0,
        "service",
        "No service matched the PostgreSQL discovery heuristics",
    );
    push_missing_if(
        &mut out,
        found.pvcs.len() == 0,
        "persistent volume claims",
        "No PVC matched the PostgreSQL discovery heuristics",
    );
    push_missing_if(
        &mut out,
        found.events.len() == 0,
        "events",
        "No PostgreSQL-related warning events were observed in the configured namespaces",
    );
    out
}

/// What PostgreSQL monitoring reports at a given time, given the probe of the service that
/// [`select_probe_target`] names.
pub fn build_postgresql_monitoring_with_probe(
    cfg: &Config,
    workloads: &Workloads,
    pods: &Vec<PodInfo>,
    network: &NetworkInventory,
    storage: &StorageInventory,
    events: &Vec<EventInfo>,
    probe: Option<PostgresqlProbeResult>,
    generated_at_ms: u128,
) -> (r: Option<PostgresqlMonitoringPlugin>)
    ensures
        r.deep_view() == postgresql_monitoring(
            cfg.deep_view(),
            workloads.deep_view(),
            pods.deep_view(),
            network.deep_view(),
            storage.deep_view(),
            events.deep_view(),
            probe.deep_view(),
            generated_at_ms,
        ),
{
    let allow = &cfg.postgresql_monitoring_namespaces;
    if !cfg.postgresql_monitoring_enabled || allow.len() == 0 {
        return None;
    }
    let found = discover_postgresql(allow, workloads, pods, network, storage, events);
    let clear: usize = select_clear_services(&found.services).len();
    let used = if clear == 1 {
        probe
    } else {
        None
    };
    let status = judge_postgresql(&found, &used);
    let running: usize = count_running_pods(&found.pods);
    Some(
        PostgresqlMonitoringPlugin {
            enabled: true,
            namespaces: allow.deep_clone(),
            schema_version: 1,
            generated_at_ms,
            status: owned(status),
            summary: summarize_postgresql(allow.len(), running, status, &used),
            detail: list_postgresql_detail(allow, &found, &used),
            evidence: list_postgresql_evidence(&found, &used),
            missing_data: list_postgresql_missing(&found, &used),
        },
    )
}

/// A report is healthy exactly where one clear service was found, it answered a probe, and
/// running pods, PostgreSQL's port and a claim were found with it.
pub proof fn lemma_healthy_needs_full_evidence(
    found: PostgresqlDiscoveryView,
    probe: Option<PostgresqlProbeResultView>,
)
    ensures
        postgresql_status(found, probe) == "healthy"@ <==> {
            &&& clear_services(found.services).len() == 1
            &&& probe matches Some(PostgresqlProbeResultView::Connected { .. })
            &&& running_pods(found.pods) > 0
            &&& postgresql_ports(found.services).len() > 0
            &&& found.pvcs.len() > 0
        },
        postgresql_status(found, probe) == "critical"@ <==> {
            &&& found.services.len() == 0
            &&& found_workloads(found).len() == 0
            &&& found.pods.len() == 0
            &&& found.pvcs.len() == 0
            &&& found.events.len() == 0
        },
{
    reveal_strlit("healthy");
    reveal_strlit("warning");
    reveal_strlit("unknown");
    reveal_strlit("critical");
    assert("healthy"@[0] != "warning"@[0]);
    assert("healthy"@[0] != "unknown"@[0]);
    assert("healthy"@[0] != "critical"@[0]);
    assert("critical"@[0] != "warning"@[0]);
    assert("critical"@[0] != "unknown"@[0]);
    found.services.lemma_filter_len(|s: ServiceInfoView| is_clear_service(s));
}

// ------------------------------------------------------ PostgreSQL probe

/// How a service is probed before any setting is applied.
pub open spec fn default_probe_settings(service: ServiceInfoView, port: u16) -> PostgresqlProbeSettingsView {
    PostgresqlProbeSettingsView {
        host: service_host(service),
        port,
        user: "postgres"@,
        password: None,
        database: "postgres"@,
        sslmode: "disable"@,
        sslrootcert: None,
    }
}

/// A setting that replaces a text where it is not blank.
pub open spec fn override_text(current: Seq<char>, value: Option<Seq<char>>) -> Seq<char> {
    match value {
        Some(v) => if text::trimmed(v).len() == 0 {
            current
        } else {
            text::trimmed(v)
        },
        None => current,
    }
}

/// A setting that replaces an optional text where it is not blank.
pub open spec fn override_opt(current: Option<Seq<char>>, value: Option<Seq<char>>) -> Option<Seq<char>> {
    match value {
        Some(v) => if text::trimmed(v).len() == 0 {
            current
        } else {
            Some(text::trimmed(v))
        },
        None => current,
    }
}

fn overridden(current: String, value: Option<&str>) -> (r: String)
    ensures
        r@ == override_text(current@, value.deep_view()),
{
    match value {
        Some(v) => if trim(v).is_empty() {
            current
        } else {
            owned(trim(v))
        },
        None => current,
    }
}

fn overridden_opt(current: Option<String>, value: Option<&str>) -> (r: Option<String>)
    ensures
        r.deep_view() == override_opt(current.deep_view(), value.deep_view()),
{
    match value {
        Some(v) => if trim(v).is_empty() {
            current
        } else {
            Some(owned(trim(v)))
        },
        None => current,
    }
}

/// The settings with those of a secret in place of the defaults.
pub open spec fn with_secret(s: PostgresqlProbeSettingsView, values: Seq<KVView>) -> PostgresqlProbeSettingsView {
    PostgresqlProbeSettingsView {
        host: override_text(s.host, pairs::value_of(values, "host"@)),
        port: match pairs::value_of(values, "port"@) {
            Some(v) => match text::unsigned_value(text::trimmed(v), u16::MAX as nat) {
                Some(n) => n as u16,
                None => s.port,
            },
            None => s.port,
        },
        user: override_text(s.user, pairs::value_of(values, "user"@)),
        password: override_opt(s.password, pairs::value_of(values, "password"@)),
        database: override_text(s.database, pairs::value_of(values, "database"@)),
        sslmode: override_text(s.sslmode, pairs::value_of(values, "sslmode"@)),
        sslrootcert: override_opt(s.sslrootcert, pairs::value_of(values, "sslrootcert"@)),
    }
}

/// Puts the settings of a secret in place of the defaults.
pub fn apply_postgresql_probe_overrides(settings: PostgresqlProbeSettings, values: &Vec<KV>) -> (r:
    PostgresqlProbeSettings)
    ensures
        r.deep_view() == with_secret(settings.deep_view(), values.deep_view()),
{
    let port = match pair_value(values, "port") {
        Some(v) => match parse_unsigned(trim(v), u16::MAX as u128) {
            Some(n) => n as u16,
            None => settings.port,
        },
        None => settings.port,
    };
    PostgresqlProbeSettings {
        host: overridden(settings.host, pair_value(values, "host")),
        port,
        user: overridden(settings.user, pair_value(values, "user")),
        password: overridden_opt(settings.password, pair_value(values, "password")),
        database: overridden(settings.database, pair_value(values, "database")),
        sslmode: overridden(settings.sslmode, pair_value(values, "sslmode")),
        sslrootcert: overridden_opt(settings.sslrootcert, pair_value(values, "sslrootcert")),
    }
}

/// The settings with those of the agent in place of all others.
pub open spec fn with_config(s: PostgresqlProbeSettingsView, cfg: ConfigView) -> PostgresqlProbeSettingsView {
    PostgresqlProbeSettingsView {
        host: override_text(s.host, cfg.postgresql_monitoring_host),
        port: match cfg.postgresql_monitoring_port {
            Some(port) => port,
            None => s.port,
        },
        user: override_text(s.user, cfg.postgresql_monitoring_user),
        password: override_opt(s.password, cfg.postgresql_monitoring_password),
        database: override_text(s.database, cfg.postgresql_monitoring_database),
        sslmode: override_text(s.sslmode, cfg.postgresql_monitoring_sslmode),
        sslrootcert: override_opt(s.sslrootcert, cfg.postgresql_monitoring_sslrootcert),
    }
}

fn as_opt_str<'a>(value: &'a Option<String>) -> (r: Option<&'a str>)
    ensures
        r.deep_view() == value.deep_view(),
{
    match value {
        Some(v) => Some(v.as_str()),
        None => None,
    }
}

/// Puts the settings of the agent in place of all others.
pub fn apply_postgresql_probe_overrides_from_config(settings: PostgresqlProbeSettings, cfg: &Config) -> (r:
    PostgresqlProbeSettings)
    ensures
        r.deep_view() == with_config(settings.deep_view(), cfg.deep_view()),
{
    PostgresqlProbeSettings {
        host: overridden(settings.host, as_opt_str(&cfg.postgresql_monitoring_host)),
        port: match cfg.postgresql_monitoring_port {
            Some(port) => port,
            None => settings.port,
        },
        user: overridden(settings.user, as_opt_str(&cfg.postgresql_monitoring_user)),
        password: overridden_opt(settings.password, as_opt_str(&cfg.postgresql_monitoring_password)),
        database: overridden(settings.database, as_opt_str(&cfg.postgresql_monitoring_database)),
        sslmode: overridden(settings.sslmode, as_opt_str(&cfg.postgresql_monitoring_sslmode)),
        sslrootcert: overridden_opt(settings.sslrootcert, as_opt_str(&cfg.postgresql_monitoring_sslrootcert)),
    }
}

/// How a service is probed: by a secret where it says so, else by the agent's settings, else by
/// default.
pub open spec fn probe_settings(
    cfg: ConfigView,
    service: ServiceInfoView,
    port: u16,
    secret: Option<Seq<KVView>>,
) -> PostgresqlProbeSettingsView {
    let start = with_config(default_probe_settings(service, port), cfg);
    match secret {
        Some(values) => with_secret(start, values),
        None => start,
    }
}

/// How a service is probed, given what the secret that the settings name holds.
pub fn resolve_postgresql_probe_settings(
    cfg: &Config,
    service: &ServiceInfo,
    port: u16,
    secret: &Option<Vec<KV>>,
) -> (r: PostgresqlProbeSettings)
    ensures
        r.deep_view() == probe_settings(cfg.deep_view(), service.deep_view(), port, secret.deep_view()),
{
    let defaults = PostgresqlProbeSettings {
        host: postgresql_service_host(service),
        port,
        user: owned("postgres"),
        password: None,
        database: owned("postgres"),
        sslmode: owned("disable"),
        sslrootcert: None,
    };
    let start = apply_postgresql_probe_overrides_from_config(defaults, cfg);
    match secret {
        Some(values) => apply_postgresql_probe_overrides(start, values),
        None => start,
    }
}

/// TLS is used unless the mode is `disable`, in whatever case.
pub open spec fn wants_tls(s: PostgresqlProbeSettingsView) -> bool {
    text::ascii_lower(s.sslmode) != text::ascii_lower("disable"@)
}

/// The parameters of a connection in one line.
pub open spec fn connection_text(s: PostgresqlProbeSettingsView) -> Seq<char> {
    let parts = seq![
        "host="@ + s.host,
        "port="@ + text::decimal_of(s.port as nat),
        "user="@ + s.user,
        "dbname="@ + s.database,
    ];
    text::joined(
        match s.password {
            Some(password) => parts.push("password="@ + password),
            None => parts,
        },
        " "@,
    )
}

impl PostgresqlProbeSettings {
    /// Whether TLS is used.
    pub fn uses_tls(&self) -> (r: bool)
        ensures
            r == wants_tls(self.deep_view()),
    {
        !eq_ignore_ascii_case(self.sslmode.as_str(), "disable")
    }

    /// The parameters of a connection in one line.
    pub fn connection_string(&self) -> (r: String)
        ensures
            r@ == connection_text(self.deep_view()),
    {
        let mut parts: Vec<String> = Vec::new();
        parts.push(text2("host=", self.host.as_str()));
        parts.push(text2("port=", decimal(self.port as u128).as_str()));
        parts.push(text2("user=", self.user.as_str()));
        parts.push(text2("dbname=", self.database.as_str()));
        let ghost start = seq![
            "host="@ + self.host@,
            "port="@ + text::decimal_of(self.port as nat),
            "user="@ + self.user@,
            "dbname="@ + self.database@,
        ];
        assert(parts.deep_view() =~= start);
        match &self.password {
            Some(password) => {
                parts.push(text2("password=", password.as_str()));
                assert(parts.deep_view() =~= start.push("password="@ + password@));
            },
            None => {},
        }
        join(&parts, " ")
    }
}

/// Whether a value is given and is more than blanks.
pub open spec fn says(value: Option<Seq<char>>) -> bool {
    value matches Some(v) && text::trimmed(v).len() > 0
}

/// What comes of a text that a secret, the agent's settings and a default may give.
pub open spec fn filled_gap(from_secret: Option<Seq<char>>, from_cfg: Option<Seq<char>>, default: Seq<char>) -> Seq<
    char,
> {
    if says(from_secret) {
        text::trimmed(from_secret->0)
    } else if says(from_cfg) {
        text::trimmed(from_cfg->0)
    } else {
        default
    }
}

/// A secret's values win, the agent's settings fill the gaps that it leaves, and the defaults fill
/// the rest.
pub proof fn lemma_settings_fill_gaps(cfg: ConfigView, service: ServiceInfoView, port: u16, secret: Seq<KVView>)
    ensures
        ({
            let found = probe_settings(cfg, service, port, Some(secret));
            &&& found.host == filled_gap(
                pairs::value_of(secret, "host"@),
                cfg.postgresql_monitoring_host,
                service_host(service),
            )
            &&& found.user == filled_gap(pairs::value_of(secret, "user"@), cfg.postgresql_monitoring_user, "postgres"@)
            &&& found.database == filled_gap(
                pairs::value_of(secret, "database"@),
                cfg.postgresql_monitoring_database,
                "postgres"@,
            )
            &&& found.sslmode == filled_gap(
                pairs::value_of(secret, "sslmode"@),
                cfg.postgresql_monitoring_sslmode,
                "disable"@,
            )
        }),
        ({
            let found = probe_settings(cfg, service, port, None);
            &&& found.host == filled_gap(None, cfg.postgresql_monitoring_host, service_host(service))
            &&& found.user == filled_gap(None, cfg.postgresql_monitoring_user, "postgres"@)
            &&& found.database == filled_gap(None, cfg.postgresql_monitoring_database, "postgres"@)
            &&& found.sslmode == filled_gap(None, cfg.postgresql_monitoring_sslmode, "disable"@)
            &&& found.port == cfg.postgresql_monitoring_port.unwrap_or(port)
        }),
{
}

/// The outcome of a probe of a service without a usable port.
pub fn no_usable_port(service: &ServiceInfo) -> (r: PostgresqlProbeResult)
    ensures
        r.deep_view() == (PostgresqlProbeResultView::Failed {
            host: service_host(service.deep_view()),
            port: 5432,
            classification: "failed: no usable port"@,
        }),
{
    PostgresqlProbeResult::Failed {
        host: postgresql_service_host(service),
        port: 5432,
        classification: owned("failed: no usable port"),
    }
}

// ------------------------------------------------------ PostgreSQL diagnosis

/// A hint that is not blank, trimmed.
pub open spec fn hint_of(value: Option<Seq<char>>) -> Option<Seq<char>> {
    match value {
        Some(v) => if text::trimmed(v).len() == 0 {
            None
        } else {
            Some(text::trimmed(v))
        },
        None => None,
    }
}

fn read_hint<'a>(value: &'a Option<String>) -> (r: Option<&'a str>)
    ensures
        r.deep_view() == hint_of(value.deep_view()),
{
    match value {
        Some(v) => {
            let t = trim(v.as_str());
            if t.is_empty() {
                None
            } else {
                Some(t)
            }
        },
        None => None,
    }
}

/// A text holds a hint, in whatever case.
pub open spec fn hint_in(value: Seq<char>, hint: Seq<char>) -> bool {
    text::contains_text(text::lowercase(value), text::lowercase(hint))
}

/// Whether a text holds a hint, in whatever case.
pub fn postgres_hint_matches(value: &str, hint: &str) -> (r: bool)
    ensures
        r == hint_in(value@, hint@),
{
    contains(to_lowercase(value).as_str(), to_lowercase(hint).as_str())
}

/// An optional text holds a hint.
pub open spec fn hint_in_opt(value: Option<Seq<char>>, hint: Seq<char>) -> bool {
    value matches Some(v) && hint_in(v, hint)
}

fn hint_matches_opt(value: &Option<String>, hint: &str) -> (r: bool)
    ensures
        r == hint_in_opt(value.deep_view(), hint@),
{
    match value {
        Some(v) => postgres_hint_matches(v.as_str(), hint),
        None => false,
    }
}

/// A pod, its owner or one of its containers holds a hint.
pub open spec fn hint_in_pod(pod: PodInfoView, hint: Seq<char>) -> bool {
    hint_in(pod.name, hint) || hint_in_opt(pod.owner_name, hint) || hint_in_opt(pod.owner_kind, hint)
        || pod.containers.any(|c: ContainerInfoView| hint_in(c.name, hint) || hint_in(c.image, hint))
}

/// Whether a pod, its owner or one of its containers holds a hint.
pub fn postgres_pod_matches(pod: &PodInfo, hint: &str) -> (r: bool)
    ensures
        r == hint_in_pod(pod.deep_view(), hint@),
{
    let test = |c: &ContainerInfo| -> (b: bool)
        ensures
            b == (hint_in(c.deep_view().name, hint@) || hint_in(c.deep_view().image, hint@)),
        { postgres_hint_matches(c.name.as_str(), hint) || postgres_hint_matches(c.image.as_str(), hint) };
    let by_container = any_item(
        &pod.containers,
        test,
        Ghost(|c: ContainerInfoView| hint_in(c.name, hint@) || hint_in(c.image, hint@)),
    );
    postgres_hint_matches(pod.name.as_str(), hint) || hint_matches_opt(&pod.owner_name, hint) || hint_matches_opt(
        &pod.owner_kind,
        hint,
    ) || by_container
}

/// An event or its object holds a hint.
pub open spec fn hint_in_event(event: EventInfoView, hint: Seq<char>) -> bool {
    hint_in(event.name, hint) || hint_in_opt(event.reason, hint) || hint_in_opt(event.message, hint) || hint_in_opt(
        event.involved_object.name,
        hint,
    )
}

/// Whether an event or its object holds a hint.
pub fn postgres_event_matches_hint(event: &EventInfo, hint: &str) -> (r: bool)
    ensures
        r == hint_in_event(event.deep_view(), hint@),
{
    postgres_hint_matches(event.name.as_str(), hint) || hint_matches_opt(&event.reason, hint) || hint_matches_opt(
        &event.message,
        hint,
    ) || hint_matches_opt(&event.involved_object.name, hint)
}

/// A workload is of a namespace and holds the hint, where there is one.
pub open spec fn keeps_workload(w: WorkloadRefView, namespace: Seq<char>, hint: Option<Seq<char>>) -> bool {
    w.namespace == namespace && (hint matches Some(h) ==> hint_in(w.name, h))
}

/// The workloads of a namespace that hold the hint, where there is one.
pub open spec fn workloads_hinted(
    items: Seq<WorkloadRefView>,
    namespace: Seq<char>,
    hint: Option<Seq<char>>,
) -> Seq<WorkloadRefView> {
    items.filter(|w: WorkloadRefView| keeps_workload(w, namespace, hint))
}

fn select_hinted_workloads(items: &Vec<WorkloadRef>, namespace: &str, hint: Option<&str>) -> (r: Vec<WorkloadRef>)
    ensures
        r.deep_view() == workloads_hinted(items.deep_view(), namespace@, hint.deep_view()),
{
    let keep = |w: &WorkloadRef| -> (b: bool)
        ensures
            b == keeps_workload(w.deep_view(), namespace@, hint.deep_view()),
        {
            str_eq(w.namespace.as_str(), namespace) && match hint {
                Some(h) => postgres_hint_matches(w.name.as_str(), h),
                None => true,
            }
        };
    filter_cloned(
        items,
        keep,
        Ghost(|w: WorkloadRefView| keeps_workload(w, namespace@, hint.deep_view())),
    )
}

/// A pod is of a namespace and holds the hint, where there is one.
pub open spec fn keeps_pod(p: PodInfoView, namespace: Seq<char>, hint: Option<Seq<char>>) -> bool {
    p.namespace == namespace && (hint matches Some(h) ==> hint_in_pod(p, h))
}

/// The pods of a namespace that hold the hint, where there is one.
pub open spec fn pods_hinted(
    pods: Seq<PodInfoView>,
    namespace: Seq<char>,
    hint: Option<Seq<char>>,
) -> Seq<PodInfoView> {
    pods.filter(|p: PodInfoView| keeps_pod(p, namespace, hint))
}

fn select_hinted_pods(pods: &Vec<PodInfo>, namespace: &str, hint: Option<&str>) -> (r: Vec<PodInfo>)
    ensures
        r.deep_view() == pods_hinted(pods.deep_view(), namespace@, hint.deep_view()),
{
    let keep = |p: &PodInfo| -> (b: bool)
        ensures
            b == keeps_pod(p.deep_view(), namespace@, hint.deep_view()),
        {
            str_eq(p.namespace.as_str(), namespace) && match hint {
                Some(h) => postgres_pod_matches(p, h),
                None => true,
            }
        };
    filter_cloned(
        pods,
        keep,
        Ghost(|p: PodInfoView| keeps_pod(p, namespace@, hint.deep_view())),
    )
}

/// An event is of a namespace and holds the hint, where there is one.
pub open spec fn keeps_event(e: EventInfoView, namespace: Seq<char>, hint: Option<Seq<char>>) -> bool {
    e.namespace == namespace && (hint matches Some(h) ==> hint_in_event(e, h))
}

/// The events of a namespace that hold the hint, where there is one.
pub open spec fn events_hinted(
    events: Seq<EventInfoView>,
    namespace: Seq<char>,
    hint: Option<Seq<char>>,
) -> Seq<EventInfoView> {
    events.filter(|e: EventInfoView| keeps_event(e, namespace, hint))
}

fn select_hinted_events(events: &Vec<EventInfo>, namespace: &str, hint: Option<&str>) -> (r: Vec<EventInfo>)
    ensures
        r.deep_view() == events_hinted(events.deep_view(), namespace@, hint.deep_view()),
{
    let keep = |e: &EventInfo| -> (b: bool)
        ensures
            b == keeps_event(e.deep_view(), namespace@, hint.deep_view()),
        {
            str_eq(e.namespace.as_str(), namespace) && match hint {
                Some(h) => postgres_event_matches_hint(e, h),
                None => true,
            }
        };
    filter_cloned(
        events,
        keep,
        Ghost(|e: EventInfoView| keeps_event(e, namespace@, hint.deep_view())),
    )
}

/// A finding of a diagnosis.
pub open spec fn finding(
    title: Seq<char>,
    severity: Seq<char>,
    description: Seq<char>,
    evidence: Seq<char>,
    recommendation: Seq<char>,
) -> PostgresqlDiagnosticFindingView {
    PostgresqlDiagnosticFindingView { title, severity, description, evidence, recommendation }
}

fn finding_of(title: &str, severity: &str, description: &str, evidence: &str, recommendation: &str) -> (r:
    PostgresqlDiagnosticFinding)
    ensures
        r.deep_view() == finding(title@, severity@, description@, evidence@, recommendation@),
{
    PostgresqlDiagnosticFinding {
        title: owned(title),
        severity: owned(severity),
        description: owned(description),
        evidence: owned(evidence),
        recommendation: owned(recommendation),
    }
}

/// What is said of a service hint that found nothing.
pub open spec fn service_hint_text(hint: Seq<char>, namespace: Seq<char>) -> Seq<char> {
    "no Service named `"@ + hint + "` matched namespace `"@ + namespace + "`"@
}

/// What is said of a pod hint that found nothing.
pub open spec fn pod_hint_text(hint: Seq<char>, namespace: Seq<char>) -> Seq<char> {
    "no Pod or workload name matched `"@ + hint + "` in namespace `"@ + namespace + "`"@
}

/// The claims of a namespace; the storage objects without a namespace stay.
pub open spec fn storage_of(storage: StorageInventoryView, namespace: Seq<char>) -> StorageInventoryView {
    StorageInventoryView {
        persistent_volume_claims: storage.persistent_volume_claims.filter(
            |c: PersistentVolumeClaimInfoView| c.namespace == namespace,
        ),
        ..storage
    }
}

fn select_storage(storage: StorageInventory, namespace: &str) -> (r: StorageInventory)
    ensures
        r.deep_view() == storage_of(storage.deep_view(), namespace@),
{
    let keep = |c: &PersistentVolumeClaimInfo| -> (b: bool)
        ensures
            b == (c.deep_view().namespace == namespace@),
        { str_eq(c.namespace.as_str(), namespace) };
    let claims = filter_cloned(
        &storage.persistent_volume_claims,
        keep,
        Ghost(|c: PersistentVolumeClaimInfoView| c.namespace == namespace@),
    );
    StorageInventory {
        storage_classes: storage.storage_classes,
        persistent_volumes: storage.persistent_volumes,
        persistent_volume_claims: claims,
        volume_snapshot_classes: storage.volume_snapshot_classes,
        volume_snapshots: storage.volume_snapshots,
    }
}

/// The services of a namespace, only those of the hinted name where there is a hint.
pub open spec fn services_hinted(
    services: Seq<ServiceInfoView>,
    namespace: Seq<char>,
    hint: Option<Seq<char>>,
) -> Seq<ServiceInfoView> {
    let local = services.filter(|s: ServiceInfoView| s.namespace == namespace);
    match hint {
        Some(name) => local.filter(|s: ServiceInfoView| s.name == name),
        None => local,
    }
}

fn select_hinted_services(services: &Vec<ServiceInfo>, namespace: &str, hint: Option<&str>) -> (r: Vec<ServiceInfo>)
    ensures
        r.deep_view() == services_hinted(services.deep_view(), namespace@, hint.deep_view()),
{
    let keep = |s: &ServiceInfo| -> (b: bool)
        ensures
            b == (s.deep_view().namespace == namespace@),
        { str_eq(s.namespace.as_str(), namespace) };
    let local = filter_cloned(services, keep, Ghost(|s: ServiceInfoView| s.namespace == namespace@));
    match hint {
        Some(name) => {
            let named = |s: &ServiceInfo| -> (b: bool)
                ensures
                    b == (s.deep_view().name == name@),
                { str_eq(s.name.as_str(), name) };
            filter_cloned(&local, named, Ghost(|s: ServiceInfoView| s.name == name@))
        },
        None => local,
    }
}

/// The part of the inventory that a diagnosis looks at: the namespace's objects that hold the
/// hints. A hint that finds nothing is reported as missing data and as a finding; a service
/// hint comes before a pod hint.
pub open spec fn diagnostic_scope(
    namespace: Seq<char>,
    spec: PostgresqlDiagnosticSpecView,
    workloads: WorkloadsView,
    pods: Seq<PodInfoView>,
    network: NetworkInventoryView,
    storage: StorageInventoryView,
    events: Seq<EventInfoView>,
) -> PostgresqlDiagnosticScopeView {
    let service_hint = hint_of(spec.service_name);
    let pod_hint = hint_of(spec.pod_selector);
    let kept_pods = pods_hinted(pods, namespace, pod_hint);
    let services = services_hinted(network.services, namespace, service_hint);
    let service_missed = service_hint is Some && services.len() == 0;
    let pod_missed = pod_hint is Some && kept_pods.len() == 0;
    PostgresqlDiagnosticScopeView {
        workloads: WorkloadsView {
            deployments: workloads_hinted(workloads.deployments, namespace, pod_hint),
            statefulsets: workloads_hinted(workloads.statefulsets, namespace, pod_hint),
            daemonsets: workloads_hinted(workloads.daemonsets, namespace, pod_hint),
        },
        pods: kept_pods,
        network: NetworkInventoryView {
            services,
            ingresses: network.ingresses.filter(|i: IngressInfoView| i.namespace == namespace),
        },
        storage: storage_of(storage, namespace),
        events: events_hinted(events, namespace, pod_hint),
        hint_missing_data: if service_missed {
            seq![missing_item("service hint"@, service_hint_text(service_hint->0, namespace))]
        } else if pod_missed {
            seq![missing_item("pod selector hint"@, pod_hint_text(pod_hint->0, namespace))]
        } else {
            seq![]
        },
        hint_findings: if service_missed {
            seq![
                finding(
                    "Service hint not resolved"@,
                    "unknown"@,
                    service_hint_text(service_hint->0, namespace),
                    "service hint did not match any namespace-local Service"@,
                    "double-check the service_name hint or omit it to use heuristic discovery"@,
                ),
            ]
        } else if pod_missed {
            seq![
                finding(
                    "Discovery hint not resolved"@,
                    "unknown"@,
                    pod_hint_text(pod_hint->0, namespace),
                    "discovery hint filtered out all candidate pods/workloads"@,
                    "double-check the pod_selector hint or omit it to use heuristic discovery"@,
                ),
            ]
        } else {
            seq![]
        },
    }
}

/// The part of the inventory that a diagnosis looks at.
pub fn scope_postgresql_diagnostic(
    namespace: &str,
    spec: &PostgresqlDiagnosticSpec,
    workloads: Workloads,
    pods: Vec<PodInfo>,
    network: NetworkInventory,
    storage: StorageInventory,
    events: Vec<EventInfo>,
) -> (r: PostgresqlDiagnosticScope)
    ensures
        r.deep_view() == diagnostic_scope(
            namespace@,
            spec.deep_view(),
            workloads.deep_view(),
            pods.deep_view(),
            network.deep_view(),
            storage.deep_view(),
            events.deep_view(),
        ),
{
    let service_hint = read_hint(&spec.service_name);
    let pod_hint = read_hint(&spec.pod_selector);
    let kept_workloads = Workloads {
        deployments: select_hinted_workloads(&workloads.deployments, namespace, pod_hint),
        statefulsets: select_hinted_workloads(&workloads.statefulsets, namespace, pod_hint),
        daemonsets: select_hinted_workloads(&workloads.daemonsets, namespace, pod_hint),
    };
    let kept_pods = select_hinted_pods(&pods, namespace, pod_hint);
    let services = select_hinted_services(&network.services, namespace, service_hint);
    let keep_ingress = |i: &IngressInfo| -> (b: bool)
        ensures
            b == (i.deep_view().namespace == namespace@),
        { str_eq(i.namespace.as_str(), namespace) };
    let ingresses = filter_cloned(
        &network.ingresses,
        keep_ingress,
        Ghost(|i: IngressInfoView| i.namespace == namespace@),
    );
    let mut missing: Vec<PostgresqlMonitoringMissingDataItem> = Vec::new();
    let mut findings: Vec<PostgresqlDiagnosticFinding> = Vec::new();
    let service_missed = service_hint.is_some() && services.len() == 0;
    match service_hint {
        Some(hint) => {
            if services.len() == 0 {
                let message = text5("no Service named `", hint, "` matched namespace `", namespace, "`");
                findings.push(
                    finding_of(
                        "Service hint not resolved",
                        "unknown",
                        message.as_str(),
                        "service hint did not match any namespace-local Service",
                        "double-check the service_name hint or omit it to use heuristic discovery",
                    ),
                );
                missing.push(missing_of("service hint", message));
            }
        },
        None => {},
    }
    if !service_missed {
        match pod_hint {
            Some(hint) => {
                if kept_pods.len() == 0 {
                    let message = text5(
                        "no Pod or workload name matched `",
                        hint,
                        "` in namespace `",
                        namespace,
                        "`",
                    );
                    findings.push(
                        finding_of(
                            "Discovery hint not resolved",
                            "unknown",
                            message.as_str(),
                            "discovery hint filtered out all candidate pods/workloads",
                            "double-check the pod_selector hint or omit it to use heuristic discovery",
                        ),
                    );
                    missing.push(missing_of("pod selector hint", message));
                }
            },
            None => {},
        }
    }
    let ghost want = diagnostic_scope(
        namespace@,
        spec.deep_view(),
        workloads.deep_view(),
        pods.deep_view(),
        network.deep_view(),
        storage.deep_view(),
        events.deep_view(),
    );
    assert(missing.deep_view() =~= want.hint_missing_data);
    assert(findings.deep_view() =~= want.hint_findings);
    PostgresqlDiagnosticScope {
        workloads: kept_workloads,
        pods: kept_pods,
        network: NetworkInventory { services, ingresses },
        storage: select_storage(storage, namespace),
        events: select_hinted_events(&events, namespace, pod_hint),
        hint_missing_data: missing,
        hint_findings: findings,
    }
}

/// A report on a diagnosis that could not be made.
pub open spec fn report_error(
    namespace: Seq<char>,
    message: Seq<char>,
    hint_missing_data: Seq<PostgresqlMonitoringMissingDataItemView>,
    hint_findings: Seq<PostgresqlDiagnosticFindingView>,
) -> PostgresqlDiagnosticReportView {
    PostgresqlDiagnosticReportView {
        namespace,
        status: "unknown"@,
        summary: message,
        findings: hint_findings.push(
            finding(
                "PostgreSQL diagnosis failed"@,
                "unknown"@,
                message,
                message,
                "retry after the underlying collection or configuration issue is resolved"@,
            ),
        ),
        evidence: seq![],
        missing_data: hint_missing_data,
        recommended_actions: seq!["retry after resolving the underlying collection or configuration issue"@],
    }
}

fn one_text(text: &str) -> (r: Vec<String>)
    ensures
        r.deep_view() == seq![text@],
{
    let mut r: Vec<String> = Vec::new();
    r.push(owned(text));
    assert(r.deep_view() =~= seq![text@]);
    r
}

fn no_evidence() -> (r: Vec<PostgresqlMonitoringEvidenceItem>)
    ensures
        r.deep_view() == Seq::<PostgresqlMonitoringEvidenceItemView>::empty(),
{
    let r: Vec<PostgresqlMonitoringEvidenceItem> = Vec::new();
    assert(r.deep_view() =~= Seq::<PostgresqlMonitoringEvidenceItemView>::empty());
    r
}

fn with_finding(findings: Vec<PostgresqlDiagnosticFinding>, last: PostgresqlDiagnosticFinding) -> (r: Vec<
    PostgresqlDiagnosticFinding,
>)
    ensures
        r.deep_view() == findings.deep_view().push(last.deep_view()),
{
    let ghost before = findings.deep_view();
    let ghost item = last.deep_view();
    let mut r = findings;
    r.push(last);
    assert(r.deep_view() =~= before.push(item));
    r
}

/// A report on a diagnosis that could not be made.
pub fn diagnostic_report_error(
    namespace: String,
    message: String,
    hint_missing_data: Vec<PostgresqlMonitoringMissingDataItem>,
    hint_findings: Vec<PostgresqlDiagnosticFinding>,
) -> (r: PostgresqlDiagnosticReport)
    ensures
        r.deep_view() == report_error(
            namespace@,
            message@,
            hint_missing_data.deep_view(),
            hint_findings.deep_view(),
        ),
{
    let last = finding_of(
        "PostgreSQL diagnosis failed",
        "unknown",
        message.as_str(),
        message.as_str(),
        "retry after the underlying collection or configuration issue is resolved",
    );
    PostgresqlDiagnosticReport {
        namespace,
        status: owned("unknown"),
        summary: message,
        findings: with_finding(hint_findings, last),
        evidence: no_evidence(),
        missing_data: hint_missing_data,
        recommended_actions: one_text("retry after resolving the underlying collection or configuration issue"),
    }
}

/// A report on a diagnosis that has no result.
pub open spec fn report_unknown(
    namespace: Seq<char>,
    summary: Seq<char>,
    hint_missing_data: Seq<PostgresqlMonitoringMissingDataItemView>,
    hint_findings: Seq<PostgresqlDiagnosticFindingView>,
) -> PostgresqlDiagnosticReportView {
    PostgresqlDiagnosticReportView {
        namespace,
        status: "unknown"@,
        summary,
        findings: hint_findings.push(
            finding(
                "PostgreSQL diagnosis"@,
                "unknown"@,
                summary,
                summary,
                "review the missing data and discovery hints, then retry"@,
            ),
        ),
        evidence: seq![],
        missing_data: hint_missing_data,
        recommended_actions: seq!["review the missing data and discovery hints, then retry"@],
    }
}

/// A report on a diagnosis that has no result.
pub fn diagnostic_report_unknown(
    namespace: String,
    summary: String,
    hint_missing_data: Vec<PostgresqlMonitoringMissingDataItem>,
    hint_findings: Vec<PostgresqlDiagnosticFinding>,
) -> (r: PostgresqlDiagnosticReport)
    ensures
        r.deep_view() == report_unknown(
            namespace@,
            summary@,
            hint_missing_data.deep_view(),
            hint_findings.deep_view(),
        ),
{
    let last = finding_of(
        "PostgreSQL diagnosis",
        "unknown",
        summary.as_str(),
        summary.as_str(),
        "review the missing data and discovery hints, then retry",
    );
    PostgresqlDiagnosticReport {
        namespace,
        status: owned("unknown"),
        summary,
        findings: with_finding(hint_findings, last),
        evidence: no_evidence(),
        missing_data: hint_missing_data,
        recommended_actions: one_text("review the missing data and discovery hints, then retry"),
    }
}

/// How severe a status is.
pub open spec fn severity_of(status: Seq<char>) -> Seq<char> {
    if status == "healthy"@ {
        "info"@
    } else if status == "warning"@ {
        "warning"@
    } else if status == "critical"@ {
        "critical"@
    } else {
        "unknown"@
    }
}

/// How severe a status is.
pub fn diagnostic_severity(status: &str) -> (r: &'static str)
    ensures
        r@ == severity_of(status@),
{
    if str_eq(status, "healthy") {
        "info"
    } else if str_eq(status, "warning") {
        "warning"
    } else if str_eq(status, "critical") {
        "critical"
    } else {
        "unknown"
    }
}

/// What to do about a status.
pub open spec fn recommendation_of(status: Seq<char>) -> Seq<char> {
    if status == "healthy"@ {
        "continue monitoring and re-run if symptoms change"@
    } else if status == "warning"@ {
        "review the warnings and missing data, then re-run the diagnosis"@
    } else if status == "critical"@ {
        "treat this as an active incident and inspect the identified evidence"@
    } else {
        "resolve the missing data or discovery issues, then re-run the diagnosis"@
    }
}

/// What to do about a status.
pub fn diagnostic_recommendation(status: &str) -> (r: &'static str)
    ensures
        r@ == recommendation_of(status@),
{
    if str_eq(status, "healthy") {
        "continue monitoring and re-run if symptoms change"
    } else if str_eq(status, "warning") {
        "review the warnings and missing data, then re-run the diagnosis"
    } else if str_eq(status, "critical") {
        "treat this as an active incident and inspect the identified evidence"
    } else {
        "resolve the missing data or discovery issues, then re-run the diagnosis"
    }
}

/// What to do about a status and its findings, in order, each once.
pub open spec fn recommendations_of(
    status: Seq<char>,
    findings: Seq<PostgresqlDiagnosticFindingView>,
) -> Seq<Seq<char>> {
    order::distinct_texts(
        if findings.any(|f: PostgresqlDiagnosticFindingView| f.severity == "unknown"@) {
            seq![recommendation_of(status), "double-check discovery hints and permissions"@]
        } else {
            seq![recommendation_of(status)]
        },
    )
}

/// What to do about a status and its findings, in order, each once.
pub fn diagnostic_recommendations(status: &str, findings: &Vec<PostgresqlDiagnosticFinding>) -> (r: Vec<String>)
    ensures
        r.deep_view() == recommendations_of(status@, findings.deep_view()),
{
    let test = |f: &PostgresqlDiagnosticFinding| -> (b: bool)
        ensures
            b == (f.deep_view().severity == "unknown"@),
        { str_eq(f.severity.as_str(), "unknown") };
    let mut out = one_text(diagnostic_recommendation(status));
    let ghost first = out.deep_view();
    if any_item(findings, test, Ghost(|f: PostgresqlDiagnosticFindingView| f.severity == "unknown"@)) {
        out.push(owned("double-check discovery hints and permissions"));
        assert(out.deep_view() =~= first.push("double-check discovery hints and permissions"@));
        assert(out.deep_view() =~= seq![
            recommendation_of(status@),
            "double-check discovery hints and permissions"@,
        ]);
    }
    sort_distinct(out)
}

/// The evidence of a report in one line.
pub open spec fn evidence_text(evidence: Seq<PostgresqlMonitoringEvidenceItemView>) -> Seq<char> {
    text::joined(evidence.map_values(|e: PostgresqlMonitoringEvidenceItemView| e.title + ": "@ + e.value), "; "@)
}

fn join_evidence(evidence: &Vec<PostgresqlMonitoringEvidenceItem>) -> (r: String)
    ensures
        r@ == evidence_text(evidence.deep_view()),
{
    let f = |e: &PostgresqlMonitoringEvidenceItem| -> (t: String)
        ensures
            t.deep_view() == e.deep_view().title + ": "@ + e.deep_view().value,
        { text3(e.title.as_str(), ": ", e.value.as_str()) };
    let lines = map_items(
        evidence,
        f,
        Ghost(|e: PostgresqlMonitoringEvidenceItemView| e.title + ": "@ + e.value),
    );
    join(&lines, "; ")
}

/// A report on a diagnosis, from what monitoring found. Missing data makes it uncertain.
pub open spec fn report_from_plugin(
    namespace: Seq<char>,
    plugin: PostgresqlMonitoringPluginView,
    hint_missing_data: Seq<PostgresqlMonitoringMissingDataItemView>,
    hint_findings: Seq<PostgresqlDiagnosticFindingView>,
) -> PostgresqlDiagnosticReportView {
    let missing_data = plugin.missing_data + hint_missing_data;
    let status = if missing_data.len() > 0 {
        "unknown"@
    } else {
        plugin.status
    };
    let summary = if missing_data.len() > 0 {
        plugin.summary + " Discovery hints or missing data prevented a fully resolved diagnosis."@
    } else {
        plugin.summary
    };
    let evidence = evidence_text(plugin.evidence);
    let findings = seq![
        finding("PostgreSQL diagnosis"@, severity_of(status), summary, evidence, recommendation_of(status)),
    ] + plugin.detail.map_values(
        |d: PostgresqlMonitoringDetailItemView|
            finding(d.title, severity_of(status), d.value, evidence, recommendation_of(status)),
    ) + hint_findings;
    PostgresqlDiagnosticReportView {
        namespace,
        status,
        summary,
        findings,
        evidence: plugin.evidence,
        missing_data,
        recommended_actions: recommendations_of(status, findings),
    }
}

/// A report on a diagnosis, from what monitoring found.
pub fn diagnostic_report_from_plugin(
    namespace: String,
    plugin: PostgresqlMonitoringPlugin,
    hint_missing_data: Vec<PostgresqlMonitoringMissingDataItem>,
    hint_findings: Vec<PostgresqlDiagnosticFinding>,
) -> (r: PostgresqlDiagnosticReport)
    ensures
        r.deep_view() == report_from_plugin(
            namespace@,
            plugin.deep_view(),
            hint_missing_data.deep_view(),
            hint_findings.deep_view(),
        ),
{
    let mut missing_data = plugin.missing_data.deep_clone();
    append_cloned(&mut missing_data, &hint_missing_data);
    let uncertain = missing_data.len() > 0;
    let status = if uncertain {
        owned("unknown")
    } else {
        plugin.status.clone()
    };
    let summary = if uncertain {
        text2(
            plugin.summary.as_str(),
            " Discovery hints or missing data prevented a fully resolved diagnosis.",
        )
    } else {
        plugin.summary.clone()
    };
    let evidence = join_evidence(&plugin.evidence);
    let severity = diagnostic_severity(status.as_str());
    let recommendation = diagnostic_recommendation(status.as_str());
    let mut findings: Vec<PostgresqlDiagnosticFinding> = Vec::new();
    findings.push(
        finding_of("PostgreSQL diagnosis", severity, summary.as_str(), evidence.as_str(), recommendation),
    );
    assert(findings.deep_view() =~= seq![
        finding("PostgreSQL diagnosis"@, severity@, summary@, evidence@, recommendation@),
    ]);
    let f = |d: &PostgresqlMonitoringDetailItem| -> (x: PostgresqlDiagnosticFinding)
        ensures
            x.deep_view() == finding(d.deep_view().title, severity@, d.deep_view().value, evidence@, recommendation@),
        { finding_of(d.title.as_str(), severity, d.value.as_str(), evidence.as_str(), recommendation) };
    let details = map_items(
        &plugin.detail,
        f,
        Ghost(
            |d: PostgresqlMonitoringDetailItemView|
                finding(d.title, severity@, d.value, evidence@, recommendation@),
        ),
    );
    append_cloned(&mut findings, &details);
    append_cloned(&mut findings, &hint_findings);
    let recommended_actions = diagnostic_recommendations(status.as_str(), &findings);
    PostgresqlDiagnosticReport {
        namespace,
        status,
        summary,
        findings,
        evidence: plugin.evidence,
        missing_data,
        recommended_actions,
    }
}

/// A report with missing data never claims a certain status, whatever monitoring found.
pub proof fn lemma_missing_data_means_unknown(
    namespace: Seq<char>,
    plugin: PostgresqlMonitoringPluginView,
    hint_missing_data: Seq<PostgresqlMonitoringMissingDataItemView>,
    hint_findings: Seq<PostgresqlDiagnosticFindingView>,
)
    ensures
        ({
            let report = report_from_plugin(namespace, plugin, hint_missing_data, hint_findings);
            &&& report.missing_data.len() > 0 ==> report.status == "unknown"@
            &&& report.missing_data.len() == 0 ==> report.status == plugin.status && report.summary == plugin.summary
            &&& report.findings.len() == 1 + plugin.detail.len() + hint_findings.len()
        }),
{
}

/// The settings of a diagnosis: PostgreSQL monitoring of the one namespace, with the secret that
/// was asked for in place of the configured one.
pub open spec fn diagnosis_settings(
    cfg: ConfigView,
    namespace: Seq<char>,
    spec: PostgresqlDiagnosticSpecView,
) -> ConfigView {
    ConfigView {
        postgresql_monitoring_enabled: true,
        postgresql_monitoring_namespaces: seq![namespace],
        postgresql_monitoring_secret_name: match hint_of(spec.secret_name) {
            Some(name) => Some(name),
            None => cfg.postgresql_monitoring_secret_name,
        },
        ..cfg
    }
}

/// The settings of a diagnosis.
pub fn diagnosis_config(cfg: &Config, namespace: &str, spec: &PostgresqlDiagnosticSpec) -> (r: Config)
    ensures
        r.deep_view() == diagnosis_settings(cfg.deep_view(), namespace@, spec.deep_view()),
{
    let secret_name = match read_hint(&spec.secret_name) {
        Some(name) => Some(owned(name)),
        None => cfg.postgresql_monitoring_secret_name.deep_clone(),
    };
    Config {
        postgresql_monitoring_enabled: true,
        postgresql_monitoring_namespaces: one_text(namespace),
        postgresql_monitoring_secret_name: secret_name,
        ..cfg.deep_clone()
    }
}

/// The outcome of a diagnosis of an inventory, given the probe of the service to which the
/// diagnosis was narrowed.
pub open spec fn diagnosis(
    cfg: ConfigView,
    spec: PostgresqlDiagnosticSpecView,
    scope: PostgresqlDiagnosticScopeView,
    probe: Option<PostgresqlProbeResultView>,
    now: u128,
) -> PostgresqlDiagnosticReportView {
    let namespace = text::trimmed(spec.namespace);
    let plugin = postgresql_monitoring(
        diagnosis_settings(cfg, namespace, spec),
        scope.workloads,
        scope.pods,
        scope.network,
        scope.storage,
        scope.events,
        probe,
        now,
    );
    if namespace.len() == 0 {
        report_error(namespace, "namespace is required"@, seq![], seq![])
    } else {
        report_from_plugin(namespace, plugin->0, scope.hint_missing_data, scope.hint_findings)
    }
}

/// The outcome of a diagnosis of the part of the inventory to which it was narrowed.
pub fn diagnose_scope(
    cfg: &Config,
    spec: &PostgresqlDiagnosticSpec,
    scope: PostgresqlDiagnosticScope,
    probe: Option<PostgresqlProbeResult>,
    now: u128,
) -> (r: PostgresqlDiagnosticReport)
    ensures
        r.deep_view() == diagnosis(cfg.deep_view(), spec.deep_view(), scope.deep_view(), probe.deep_view(), now),
{
    let namespace = owned(trim(spec.namespace.as_str()));
    if namespace.as_str().is_empty() {
        let no_missing: Vec<PostgresqlMonitoringMissingDataItem> = Vec::new();
        let no_findings: Vec<PostgresqlDiagnosticFinding> = Vec::new();
        assert(no_missing.deep_view() =~= seq![]);
        assert(no_findings.deep_view() =~= seq![]);
        return diagnostic_report_error(namespace, owned("namespace is required"), no_missing, no_findings);
    }
    let probe_cfg = diagnosis_config(cfg, namespace.as_str(), spec);
    let plugin = build_postgresql_monitoring_with_probe(
        &probe_cfg,
        &scope.workloads,
        &scope.pods,
        &scope.network,
        &scope.storage,
        &scope.events,
        probe,
        now,
    );
    match plugin {
        Some(plugin) => diagnostic_report_from_plugin(
            namespace,
            plugin,
            scope.hint_missing_data,
            scope.hint_findings,
        ),
        None => diagnostic_report_unknown(
            namespace,
            owned("postgresql diagnosis unavailable"),
            scope.hint_missing_data,
            scope.hint_findings,
        ),
    }
}

/// The report where the inventory itself could not be read.
pub fn diagnosis_without_inventory(spec: &PostgresqlDiagnosticSpec, error: &str) -> (r: PostgresqlDiagnosticReport)
    ensures
        r.deep_view() == report_error(
            text::trimmed(spec.deep_view().namespace),
            "failed to collect cluster inventory: "@ + error@,
            seq![],
            seq![],
        ),
{
    let no_missing: Vec<PostgresqlMonitoringMissingDataItem> = Vec::new();
    let no_findings: Vec<PostgresqlDiagnosticFinding> = Vec::new();
    assert(no_missing.deep_view() =~= seq![]);
    assert(no_findings.deep_view() =~= seq![]);
    diagnostic_report_error(
        owned(trim(spec.namespace.as_str())),
        text2("failed to collect cluster inventory: ", error),
        no_missing,
        no_findings,
    )
}

// ------------------------------------------------------------- what it is for

/// A name is of PostgreSQL where it holds one of its words, in whatever case.
pub open spec fn is_of_postgresql(name: Seq<char>) -> bool {
    text::contains_text(text::ascii_lower(name), "postgres"@) || text::contains_text(text::ascii_lower(name), "pgsql"@)
}

/// What is said of something is of PostgreSQL.
pub open spec fn says_postgresql(said: Option<Seq<char>>) -> bool {
    said is Some && is_of_postgresql(said->0)
}

proof fn lemma_long_name_holds_the_short(s: Seq<char>)
    ensures
        text::contains_text(s, "postgresql"@) ==> text::contains_text(s, "postgres"@),
{
    reveal_strlit("postgresql");
    reveal_strlit("postgres");
    if text::contains_text(s, "postgresql"@) {
        let at = choose|at: int| text::occurs_at(s, "postgresql"@, at);
        assert(s.subrange(at, at + 8) =~= s.subrange(at, at + 10).subrange(0, 8));
        assert("postgresql"@.subrange(0, 8) =~= "postgres"@);
        assert(text::occurs_at(s, "postgres"@, at));
    }
}

/// PostgreSQL is known by its words.
pub proof fn lemma_postgresql_by_name(name: Seq<char>, said: Option<Seq<char>>)
    ensures
        is_postgresql_name(name) <==> is_of_postgresql(name),
        is_postgresql_opt(said) <==> says_postgresql(said),
{
    lemma_long_name_holds_the_short(text::ascii_lower(name));
    if said is Some {
        lemma_long_name_holds_the_short(text::ascii_lower(said->0));
    }
}

/// A service is PostgreSQL's where its name or its selector says so, or where one of its ports is
/// PostgreSQL's; a claim or an event where something that is said of it is.
pub proof fn lemma_postgresql_is_found(service: ServiceInfoView, pvc: PersistentVolumeClaimInfoView, event: EventInfoView, i: int)
    ensures
        is_of_postgresql(service.name) ==> is_postgresql_service(service),
        0 <= i < service.ports.len() && (service.ports[i].port == 5432 || service.ports[i].target_port == Some("5432"@))
            ==> is_postgresql_service(service) && has_postgresql_port(service),
        0 <= i < service.selector.len() && (is_of_postgresql(service.selector[i].key) || is_of_postgresql(
            service.selector[i].value,
        )) ==> is_postgresql_service(service),
        !is_of_postgresql(service.name) && service.selector.len() == 0 && service.ports.len() == 0
            ==> !is_postgresql_service(service),
        is_postgresql_pvc(pvc) <==> is_of_postgresql(pvc.name) || says_postgresql(pvc.volume_name) || says_postgresql(
            pvc.storage_class,
        ),
        is_postgresql_event(event) <==> is_of_postgresql(event.name) || says_postgresql(event.reason) || says_postgresql(
            event.message,
        ) || says_postgresql(event.involved_object.name),
{
    let by_port = |p: ServicePortInfoView| is_postgresql_port(p);
    let by_selector = |kv: KVView| is_postgresql_name(kv.key) || is_postgresql_name(kv.value);
    lemma_postgresql_by_name(service.name, None);
    lemma_postgresql_by_name(pvc.name, pvc.volume_name);
    lemma_postgresql_by_name(pvc.name, pvc.storage_class);
    lemma_postgresql_by_name(event.name, event.reason);
    lemma_postgresql_by_name(event.name, event.message);
    lemma_postgresql_by_name(event.name, event.involved_object.name);
    if 0 <= i < service.ports.len() && is_postgresql_port(service.ports[i]) {
        assert(by_port(service.ports[i]));
    }
    if 0 <= i < service.selector.len() {
        lemma_postgresql_by_name(service.selector[i].key, None);
        lemma_postgresql_by_name(service.selector[i].value, None);
        if by_selector(service.selector[i]) {
            assert(service.selector.any(by_selector));
        }
    }
}

/// A pod is PostgreSQL's where its name, its owner's, or an image or the technology of one of its
/// containers says so, and only there.
pub proof fn lemma_postgresql_pods(pod: PodInfoView)
    ensures
        is_postgresql_pod(pod) <==> is_of_postgresql(pod.name) || says_postgresql(pod.owner_name) || exists|i: int|
            0 <= i < pod.containers.len() && (is_of_postgresql((#[trigger] pod.containers[i]).image) || is_of_postgresql(
                views::text_or(pod.containers[i].technology.product, ""@),
            ) || is_of_postgresql(views::text_or(pod.containers[i].technology.subtype, ""@))),
{
    let by_container = |c: ContainerInfoView| is_postgresql_container(c);
    lemma_postgresql_by_name(pod.name, pod.owner_name);
    assert forall|i: int| 0 <= i < pod.containers.len() implies (by_container(#[trigger] pod.containers[i]) <==> (
    is_of_postgresql(pod.containers[i].image) || is_of_postgresql(views::text_or(pod.containers[i].technology.product, ""@))
        || is_of_postgresql(views::text_or(pod.containers[i].technology.subtype, ""@)))) by {
        lemma_postgresql_by_name(pod.containers[i].image, None);
        lemma_postgresql_by_name(views::text_or(pod.containers[i].technology.product, ""@), None);
        lemma_postgresql_by_name(views::text_or(pod.containers[i].technology.subtype, ""@), None);
    }
    if pod.containers.any(by_container) {
        let i = choose|i: int| 0 <= i < pod.containers.len() && by_container(pod.containers[i]);
        assert(by_container(pod.containers[i]));
    }
}

/// What is found is all that there is of PostgreSQL in the namespaces that are watched, and nothing
/// else.
pub proof fn lemma_all_of_postgresql_is_found(
    allow: Seq<Seq<char>>,
    workloads: WorkloadsView,
    pods: Seq<PodInfoView>,
    network: NetworkInventoryView,
    storage: StorageInventoryView,
    events: Seq<EventInfoView>,
    workload: WorkloadRefView,
    pod: PodInfoView,
    service: ServiceInfoView,
    pvc: PersistentVolumeClaimInfoView,
    event: EventInfoView,
)
    ensures
        ({
            let found = postgresql_found(allow, workloads, pods, network, storage, events);
            let named = allow.contains(workload.namespace) && is_of_postgresql(workload.name);
            &&& found.deployments.contains(workload) <==> workloads.deployments.contains(workload) && named
            &&& found.statefulsets.contains(workload) <==> workloads.statefulsets.contains(workload) && named
            &&& found.daemonsets.contains(workload) <==> workloads.daemonsets.contains(workload) && named
            &&& found.pods.contains(pod) <==> pods.contains(pod) && allow.contains(pod.namespace) && is_postgresql_pod(pod)
            &&& found.services.contains(service) <==> network.services.contains(service) && allow.contains(
                service.namespace,
            ) && is_postgresql_service(service)
            &&& found.pvcs.contains(pvc) <==> storage.persistent_volume_claims.contains(pvc) && allow.contains(
                pvc.namespace,
            ) && is_postgresql_pvc(pvc)
            &&& found.events.contains(event) <==> events.contains(event) && allow.contains(event.namespace)
                && is_postgresql_event(event)
        }),
{
    let here = |w: WorkloadRefView| allow.contains(w.namespace);
    let named = |w: WorkloadRefView| is_postgresql_name(w.name);
    lemma_postgresql_by_name(workload.name, None);
    views::lemma_filter_has(workloads.deployments, here, workload);
    views::lemma_filter_has(workloads.deployments.filter(here), named, workload);
    views::lemma_filter_has(workloads.statefulsets, here, workload);
    views::lemma_filter_has(workloads.statefulsets.filter(here), named, workload);
    views::lemma_filter_has(workloads.daemonsets, here, workload);
    views::lemma_filter_has(workloads.daemonsets.filter(here), named, workload);
    views::lemma_filter_has(pods, |p: PodInfoView| allow.contains(p.namespace) && is_postgresql_pod(p), pod);
    views::lemma_filter_has(
        network.services,
        |s: ServiceInfoView| allow.contains(s.namespace) && is_postgresql_service(s),
        service,
    );
    views::lemma_filter_has(
        storage.persistent_volume_claims,
        |c: PersistentVolumeClaimInfoView| allow.contains(c.namespace) && is_postgresql_pvc(c),
        pvc,
    );
    views::lemma_filter_has(events, |e: EventInfoView| allow.contains(e.namespace) && is_postgresql_event(e), event);
}

/// A service is clear where it names PostgreSQL as a word of its own and has its port; each service
/// that was found is clear or weak, never both.
pub proof fn lemma_clear_services(services: Seq<ServiceInfoView>, service: ServiceInfoView)
    ensures
        clear_services(services).contains(service) <==> services.contains(service) && is_clear_service(service),
        weak_services(services).contains(service) <==> services.contains(service) && is_postgresql_service(service)
            && !is_clear_service(service),
        is_clear_service(service) ==> exists|i: int|
            0 <= i < service.ports.len() && ((#[trigger] service.ports[i]).port == 5432 || service.ports[i].target_port
                == Some("5432"@)),
{
    views::lemma_filter_has(services, |s: ServiceInfoView| is_clear_service(s), service);
    views::lemma_filter_has(services, |s: ServiceInfoView| is_postgresql_service(s) && !is_clear_service(s), service);
    if is_clear_service(service) {
        let by_port = |p: ServicePortInfoView| is_postgresql_port(p);
        assert(service.ports.any(by_port));
        let i = choose|i: int| 0 <= i < service.ports.len() && by_port(service.ports[i]);
        assert(service.ports[i].port == 5432 || service.ports[i].target_port == Some("5432"@));
    }
}

/// A probe is made only of a clear service in a watched namespace, where it is the only one and
/// PostgreSQL is watched; what a probe found counts only then.
pub proof fn lemma_only_one_clear_service_is_probed(
    cfg: ConfigView,
    network: NetworkInventoryView,
    clear: nat,
    probe: Option<PostgresqlProbeResultView>,
)
    ensures
        probe_target(cfg, network) matches Some(service) ==> cfg.postgresql_monitoring_enabled
            && network.services.contains(service) && cfg.postgresql_monitoring_namespaces.contains(service.namespace)
            && is_clear_service(service),
        clear == 1 ==> used_probe(clear, probe) == probe,
        clear != 1 ==> used_probe(clear, probe) is None,
        probe_note(0, 1) is Some && probe_note(2, 2) is Some && probe_note(1, 1) is None && probe_note(0, 0) is None,
{
    let allow = cfg.postgresql_monitoring_namespaces;
    let here = |s: ServiceInfoView| allow.contains(s.namespace) && is_postgresql_service(s);
    let local = network.services.filter(here);
    if let Some(service) = probe_target(cfg, network) {
        assert(clear_services(local).contains(clear_services(local)[0]));
        lemma_clear_services(local, service);
        views::lemma_filter_has(network.services, here, service);
    }
}

/// What went wrong with a probe is told by the first word that is known.
pub proof fn lemma_probe_errors_are_classed(message: Seq<char>)
    ensures
        ({
            let class = probe_error_class(message);
            let says = |word: Seq<char>| text::contains_text(text::ascii_lower(message), word);
            let late = says("timed out"@) || says("timeout"@);
            let nowhere = says("lookup"@) || says("resolve"@) || says("name or service not known"@) || says(
                "no such host"@,
            );
            let barred = says("authentication"@) || says("password"@) || says("permission denied"@);
            let sealed = says("ssl"@) || says("tls"@) || says("handshake"@);
            &&& late ==> class == "failed: timeout"@
            &&& !late && says("refused"@) ==> class == "failed: connection refused"@
            &&& !late && !says("refused"@) && nowhere ==> class == "failed: dns"@
            &&& !late && !says("refused"@) && !nowhere && barred ==> class == "failed: auth"@
            &&& !late && !says("refused"@) && !nowhere && !barred && sealed ==> class == "failed: tls"@
            &&& !late && !says("refused"@) && !nowhere && !barred && !sealed ==> class == "failed: io"@
        }),
{
}

/// A service is reached by its name in its namespace, at the first of its ports that is PostgreSQL's.
pub proof fn lemma_service_is_reached(service: ServiceInfoView, i: int)
    requires
        0 <= i < service.ports.len(),
        service.ports[i].port == 5432 || service.ports[i].target_port == Some("5432"@),
        forall|j: int|
            0 <= j < i ==> (#[trigger] service.ports[j]).port != 5432 && service.ports[j].target_port != Some("5432"@),
        0 <= service.ports[i].port < 65536,
    ensures
        postgresql_port(service) matches Some(port) && port == service.ports[i].port,
        service_host(service) == service.name + "."@ + service.namespace + ".svc.cluster.local"@,
{
    let by_port = |p: ServicePortInfoView| is_postgresql_port(p);
    views::lemma_first_that_is_there(service.ports, by_port);
    assert(by_port(service.ports[i]));
    let found = views::first_that(service.ports, by_port)->0;
    let k = choose|k: int|
        0 <= k < service.ports.len() && (#[trigger] service.ports[k]) == found && by_port(service.ports[k]) && forall|j: int|
            0 <= j < k ==> !by_port(#[trigger] service.ports[j]);
    if k < i {
        assert(service.ports[k].port != 5432);
    }
    assert(k == i);
}

/// Workload monitoring shows all that was collected of the namespaces that are watched, and nothing
/// where it is off.
pub proof fn lemma_monitoring_shows_all(
    cfg: ConfigView,
    workloads: WorkloadsView,
    pods: Seq<PodInfoView>,
    network: NetworkInventoryView,
    events: Seq<EventInfoView>,
    dependencies: DependencyInventoryView,
    app_metrics: AppMetricsInventoryView,
    logs: WorkloadMonitoringLogsView,
    now: u128,
    pod: PodInfoView,
    event: EventInfoView,
    service: ServiceInfoView,
)
    ensures
        ({
            let shown = workload_monitoring(
                cfg,
                workloads,
                pods,
                network,
                events,
                dependencies,
                app_metrics,
                logs,
                now,
            );
            let allow = cfg.workload_monitoring_namespaces;
            &&& shown is Some <==> cfg.workload_monitoring_enabled && allow.len() > 0
            &&& shown matches Some(plugin) ==> {
                &&& plugin.enabled && plugin.namespaces == allow && plugin.generated_at_ms == now
                &&& plugin.technology_targets == cfg.workload_monitoring_targets && plugin.logs == logs
                &&& plugin.signals.pods.contains(pod) <==> pods.contains(pod) && allow.contains(pod.namespace)
                &&& plugin.signals.events.contains(event) <==> events.contains(event) && allow.contains(event.namespace)
                &&& plugin.signals.services.contains(service) <==> network.services.contains(service) && allow.contains(
                    service.namespace,
                )
                &&& plugin.signals.dependencies is Some <==> cfg.collect_dependencies_tetragon
                &&& plugin.signals.app_metrics == (if cfg.app_metrics_enabled {
                    Some(app_metrics)
                } else {
                    None
                })
            }
        }),
{
    let allow = cfg.workload_monitoring_namespaces;
    views::lemma_filter_has(pods, |p: PodInfoView| allow.contains(p.namespace), pod);
    views::lemma_filter_has(events, |e: EventInfoView| allow.contains(e.namespace), event);
    views::lemma_filter_has(network.services, |s: ServiceInfoView| allow.contains(s.namespace), service);
}

/// An edge is shown where one of its ends is in a watched namespace.
pub proof fn lemma_edges_of_watched_namespaces(inventory: DependencyInventoryView, allow: Seq<Seq<char>>, edge: DependencyEdgeView)
    ensures
        dependencies_in(inventory, allow).edges.contains(edge) <==> inventory.edges.contains(edge) && ((
        edge.from.namespace is Some && allow.contains(edge.from.namespace->0)) || (edge.to.namespace is Some
            && allow.contains(edge.to.namespace->0))),
{
    views::lemma_filter_has(inventory.edges, |e: DependencyEdgeView| edge_in(e, allow), edge);
}

/// What is diagnosed is what is in the namespace, narrowed by the hints that are given: a service by
/// its name, pods by what is said of them; a hint that finds nothing is told.
pub proof fn lemma_diagnosis_looks_in_its_namespace(
    namespace: Seq<char>,
    spec: PostgresqlDiagnosticSpecView,
    workloads: WorkloadsView,
    pods: Seq<PodInfoView>,
    network: NetworkInventoryView,
    storage: StorageInventoryView,
    events: Seq<EventInfoView>,
    pod: PodInfoView,
    service: ServiceInfoView,
)
    ensures
        ({
            let scope = diagnostic_scope(namespace, spec, workloads, pods, network, storage, events);
            let by_service = spec.service_name is Some && text::trimmed(spec.service_name->0).len() > 0;
            let by_pod = spec.pod_selector is Some && text::trimmed(spec.pod_selector->0).len() > 0;
            &&& !by_service ==> (scope.network.services.contains(service) <==> network.services.contains(service)
                && service.namespace == namespace)
            &&& by_service ==> (scope.network.services.contains(service) <==> network.services.contains(service)
                && service.namespace == namespace && service.name == text::trimmed(spec.service_name->0))
            &&& !by_pod ==> (scope.pods.contains(pod) <==> pods.contains(pod) && pod.namespace == namespace)
            &&& by_pod ==> (scope.pods.contains(pod) <==> pods.contains(pod) && pod.namespace == namespace && hint_in_pod(
                pod,
                text::trimmed(spec.pod_selector->0),
            ))
            &&& scope.hint_missing_data.len() > 0 <==> (by_service && scope.network.services.len() == 0) || (by_pod
                && scope.pods.len() == 0)
            &&& scope.hint_findings.len() == scope.hint_missing_data.len()
        }),
{
    let local = |s: ServiceInfoView| s.namespace == namespace;
    let here = network.services.filter(local);
    views::lemma_filter_has(network.services, local, service);
    if let Some(name) = hint_of(spec.service_name) {
        views::lemma_filter_has(here, |s: ServiceInfoView| s.name == name, service);
    }
    let hint = hint_of(spec.pod_selector);
    views::lemma_filter_has(pods, |p: PodInfoView| keeps_pod(p, namespace, hint), pod);
}

/// A hint is in a pod where it is in its name, in what is said of its owner, or in the name or the
/// image of a container, in whatever case.
pub proof fn lemma_hints_in_pods(pod: PodInfoView, hint: Seq<char>, i: int)
    ensures
        text::contains_text(text::lowercase(pod.name), text::lowercase(hint)) ==> hint_in_pod(pod, hint),
        pod.owner_name is Some && text::contains_text(text::lowercase(pod.owner_name->0), text::lowercase(hint)) ==> hint_in_pod(pod, hint),
        0 <= i < pod.containers.len() && (text::contains_text(text::lowercase(pod.containers[i].name), text::lowercase(hint))
            || text::contains_text(text::lowercase(pod.containers[i].image), text::lowercase(hint))) ==> hint_in_pod(pod, hint),
        hint_in_pod(pod, hint) && pod.containers.len() == 0 && pod.owner_name is None && pod.owner_kind is None
            ==> text::contains_text(text::lowercase(pod.name), text::lowercase(hint)),
{
    let in_container = |c: ContainerInfoView| hint_in(c.name, hint) || hint_in(c.image, hint);
    if 0 <= i < pod.containers.len() && (text::contains_text(text::lowercase(pod.containers[i].name), text::lowercase(hint))
        || text::contains_text(text::lowercase(pod.containers[i].image), text::lowercase(hint))) {
        assert(in_container(pod.containers[i]));
    }
}

/// A report carries the evidence and what is missing, that of the hints with it; its status is the
/// plugin's exactly where nothing is missing, and each detail becomes a finding of that status.
pub proof fn lemma_report_carries_the_evidence(
    namespace: Seq<char>,
    plugin: PostgresqlMonitoringPluginView,
    hint_missing_data: Seq<PostgresqlMonitoringMissingDataItemView>,
    hint_findings: Seq<PostgresqlDiagnosticFindingView>,
)
    ensures
        ({
            let report = report_from_plugin(namespace, plugin, hint_missing_data, hint_findings);
            let missing = plugin.missing_data.len() + hint_missing_data.len() > 0;
            &&& report.namespace == namespace && report.evidence == plugin.evidence
            &&& report.missing_data == plugin.missing_data + hint_missing_data
            &&& missing ==> report.status == "unknown"@
            &&& !missing ==> report.status == plugin.status && report.summary == plugin.summary
            &&& report.findings.len() == 1 + plugin.detail.len() + hint_findings.len()
            &&& report.findings[0].severity == severity_of(report.status)
        }),
        severity_of("healthy"@) == "info"@,
        severity_of("warning"@) == "warning"@,
        severity_of("critical"@) == "critical"@,
        severity_of("unknown"@) == "unknown"@,
{
    reveal_strlit("healthy");
    reveal_strlit("warning");
    reveal_strlit("critical");
    reveal_strlit("unknown");
    assert("healthy"@[0] == 'h' && "warning"@[0] == 'w' && "critical"@[0] == 'c' && "unknown"@[0] == 'u');
}

/// A secret's port and password win over all others, the agent's over the service's own.
pub proof fn lemma_port_and_password(
    cfg: ConfigView,
    service: ServiceInfoView,
    port: u16,
    secret: Seq<KVView>,
    own: u16,
    password: Seq<char>,
)
    requires
        text::is_trimmed(password),
        password.len() > 0,
    ensures
        pairs::gives_value(secret, "port"@, text::decimal_of(own as nat)) ==> probe_settings(cfg, service, port, Some(secret)).port == own,
        pairs::gives_value(secret, "password"@, password) ==> probe_settings(cfg, service, port, Some(secret)).password == Some(
            password,
        ),
        cfg.postgresql_monitoring_port is None ==> probe_settings(cfg, service, port, None).port == port,
        cfg.postgresql_monitoring_port is Some ==> probe_settings(cfg, service, port, None).port
            == cfg.postgresql_monitoring_port->0,
        cfg.postgresql_monitoring_password == Some(password) ==> probe_settings(cfg, service, port, None).password == Some(
            password,
        ),
        cfg.postgresql_monitoring_password is None ==> probe_settings(cfg, service, port, None).password is None,
{
    pairs::lemma_value_is_the_first(secret, "port"@, text::decimal_of(own as nat));
    pairs::lemma_value_is_the_first(secret, "password"@, password);
    text::lemma_decimal_read_back(own as nat, u16::MAX as nat);
    text::lemma_decimal_is_trimmed(own as nat, u16::MAX as nat);
    text::lemma_is_trimmed(text::decimal_of(own as nat));
    text::lemma_is_trimmed(password);
}

/// What is said to the database holds its address, its user and its name, and the password where
/// there is one.
pub proof fn lemma_connection_says_it_all(s: PostgresqlProbeSettingsView)
    ensures
        text::contains_text(connection_text(s), "host="@ + s.host),
        text::contains_text(connection_text(s), "port="@ + text::decimal_of(s.port as nat)),
        text::contains_text(connection_text(s), "user="@ + s.user),
        text::contains_text(connection_text(s), "dbname="@ + s.database),
        s.password matches Some(password) ==> text::contains_text(connection_text(s), "password="@ + password),
{
    let parts = seq![
        "host="@ + s.host,
        "port="@ + text::decimal_of(s.port as nat),
        "user="@ + s.user,
        "dbname="@ + s.database,
    ];
    let all = match s.password {
        Some(password) => parts.push("password="@ + password),
        None => parts,
    };
    text::lemma_joined_holds_each(all, " "@, 0);
    text::lemma_joined_holds_each(all, " "@, 1);
    text::lemma_joined_holds_each(all, " "@, 2);
    text::lemma_joined_holds_each(all, " "@, 3);
    if s.password is Some {
        text::lemma_joined_holds_each(all, " "@, 4);
    }
}

/// A workload is shown where it is in a watched namespace, of whatever kind it is.
pub proof fn lemma_watched_workloads(items: Seq<WorkloadRefView>, allow: Seq<Seq<char>>, workload: WorkloadRefView)
    ensures
        workloads_in(items, allow).contains(workload) <==> items.contains(workload) && allow.contains(workload.namespace),
{
    views::lemma_filter_has(items, |w: WorkloadRefView| allow.contains(w.namespace), workload);
}

/// PostgreSQL is reported on where it is watched, in some namespace; the report is of what was found
/// there, and a probe counts in it only where there is one clear service.
pub proof fn lemma_postgresql_is_reported(
    cfg: ConfigView,
    workloads: WorkloadsView,
    pods: Seq<PodInfoView>,
    network: NetworkInventoryView,
    storage: StorageInventoryView,
    events: Seq<EventInfoView>,
    probe: Option<PostgresqlProbeResultView>,
    now: u128,
)
    ensures
        ({
            let report = postgresql_monitoring(cfg, workloads, pods, network, storage, events, probe, now);
            let allow = cfg.postgresql_monitoring_namespaces;
            let found = postgresql_found(allow, workloads, pods, network, storage, events);
            let one_clear = clear_services(found.services).len() == 1;
            &&& report is Some <==> cfg.postgresql_monitoring_enabled && allow.len() > 0
            &&& report matches Some(plugin) ==> {
                &&& plugin.enabled && plugin.namespaces == allow && plugin.generated_at_ms == now
                &&& !one_clear ==> plugin == postgresql_monitoring(
                    cfg,
                    workloads,
                    pods,
                    network,
                    storage,
                    events,
                    None,
                    now,
                )->0
                &&& !one_clear || probe is None ==> plugin.status != "healthy"@
                &&& found.pods.len() == 0 ==> plugin.status != "healthy"@ && plugin.missing_data.len() > 0
                &&& found.pvcs.len() == 0 ==> plugin.status != "healthy"@ && plugin.missing_data.len() > 0
                &&& found.services.len() == 0 ==> plugin.status != "healthy"@ && plugin.missing_data.len() > 0
            }
        }),
{
    let allow = cfg.postgresql_monitoring_namespaces;
    let found = postgresql_found(allow, workloads, pods, network, storage, events);
    let used = used_probe(clear_services(found.services).len(), probe);
    lemma_healthy_needs_full_evidence(found, used);
    let running = |p: PodInfoView| p.phase == Some("Running"@);
    found.pods.filter_lemma(running);
    let clear = |s: ServiceInfoView| is_clear_service(s);
    found.services.filter_lemma(clear);
}

/// A diagnosis without a namespace fails, and says so; any other is of the namespace that is asked
/// for.
pub proof fn lemma_diagnosis_is_of_its_namespace(
    cfg: ConfigView,
    spec: PostgresqlDiagnosticSpecView,
    scope: PostgresqlDiagnosticScopeView,
    probe: Option<PostgresqlProbeResultView>,
    now: u128,
)
    ensures
        diagnosis(cfg, spec, scope, probe, now).namespace == text::trimmed(spec.namespace),
        text::trimmed(spec.namespace).len() == 0 ==> diagnosis(cfg, spec, scope, probe, now).status == "unknown"@ && diagnosis(
            cfg,
            spec,
            scope,
            probe,
            now,
        ).summary == "namespace is required"@,
        text::trimmed(spec.namespace).len() > 0 && scope.hint_missing_data.len() > 0 ==> diagnosis(
            cfg,
            spec,
            scope,
            probe,
            now,
        ).status == "unknown"@,
        diagnosis_settings(cfg, text::trimmed(spec.namespace), spec).postgresql_monitoring_namespaces == seq![
            text::trimmed(spec.namespace),
        ],
        diagnosis_settings(cfg, text::trimmed(spec.namespace), spec).postgresql_monitoring_enabled,
        spec.secret_name is None ==> diagnosis_settings(
            cfg,
            text::trimmed(spec.namespace),
            spec,
        ).postgresql_monitoring_secret_name == cfg.postgresql_monitoring_secret_name,
        spec.secret_name matches Some(name) ==> text::trimmed(name).len() > 0 ==> diagnosis_settings(
            cfg,
            text::trimmed(spec.namespace),
            spec,
        ).postgresql_monitoring_secret_name == Some(text::trimmed(name)),
{
}

} // verus!
