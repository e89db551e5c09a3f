//! The agent's settings: read from the environment, and shown without secrets.
use crate::model::{KV, KVView};
use crate::order::str_eq;
use crate::pairs;
use crate::pairs::pair_value;
use crate::text;
use crate::text::{cut, decimal, join, owned, parse_unsigned, split, trim};
use crate::views;
use crate::views::DeepClone;
use vstd::prelude::*;
use vstd::string::*;

verus! {

/// Where Tetragon's gRPC server is found by default.
pub const DEFAULT_GRPC_ADDRESS: &'static str = "tetragon-grpc.tetragon.svc.cluster.local:54321";

/// The environment keys whose values may be reported, in the order of the report.
pub open spec fn allowlist() -> Seq<Seq<char>> {
    seq![
        "ACTIONS_ENABLED"@,
        "AGENT_HTTP_DEBUG"@,
        "AGENT_HTTP_DEBUG_BODIES"@,
        "AGENT_LOG"@,
        "AGENT_VERSION_OVERRIDE"@,
        "CLUSTER_ID"@,
        "COLLECT_DEPENDENCIES_TETRAGON"@,
        "COLLECT_INTERVAL_SECS"@,
        "COLLECT_SECRETS"@,
        "FULL_DEBUG"@,
        "HTTP_TIMEOUT_SECS"@,
        "HUB_URL"@,
        "LEASE_NAME"@,
        "LEASE_TTL_SECS"@,
        "POLL_WAIT_SECS"@,
        "READONLY_COMMANDS_ENABLED"@,
        "POSTGRESQL_MONITORING_DATABASE"@,
        "POSTGRESQL_MONITORING_ENABLED"@,
        "POSTGRESQL_MONITORING_HOST"@,
        "POSTGRESQL_MONITORING_PORT"@,
        "POSTGRESQL_MONITORING_SECRET_NAME"@,
        "POSTGRESQL_MONITORING_NAMESPACES"@,
        "POSTGRESQL_MONITORING_SSLMODE"@,
        "POSTGRESQL_MONITORING_USER"@,
        "TETRAGON_ENDPOINT_DISCOVERY_ENABLED"@,
        "TETRAGON_GRPC_ADDRESS"@,
        "TETRAGON_GRPC_PORT"@,
        "TETRAGON_SERVICE_NAME"@,
        "TETRAGON_SERVICE_NAMESPACE"@,
        "TECH_DETECT_PROCESS"@,
        "WORKLOAD_MONITORING_ENABLED"@,
        "WORKLOAD_MONITORING_NAMESPACES"@,
        "WORKLOAD_MONITORING_TARGETS"@,
    ]
}

/// The environment keys whose values may be reported, in the order of the report.
pub const AGENT_CONFIG_ENV_ALLOWLIST: [&'static str; 33] = [
    "ACTIONS_ENABLED",
    "AGENT_HTTP_DEBUG",
    "AGENT_HTTP_DEBUG_BODIES",
    "AGENT_LOG",
    "AGENT_VERSION_OVERRIDE",
    "CLUSTER_ID",
    "COLLECT_DEPENDENCIES_TETRAGON",
    "COLLECT_INTERVAL_SECS",
    "COLLECT_SECRETS",
    "FULL_DEBUG",
    "HTTP_TIMEOUT_SECS",
    "HUB_URL",
    "LEASE_NAME",
    "LEASE_TTL_SECS",
    "POLL_WAIT_SECS",
    "READONLY_COMMANDS_ENABLED",
    "POSTGRESQL_MONITORING_DATABASE",
    "POSTGRESQL_MONITORING_ENABLED",
    "POSTGRESQL_MONITORING_HOST",
    "POSTGRESQL_MONITORING_PORT",
    "POSTGRESQL_MONITORING_SECRET_NAME",
    "POSTGRESQL_MONITORING_NAMESPACES",
    "POSTGRESQL_MONITORING_SSLMODE",
    "POSTGRESQL_MONITORING_USER",
    "TETRAGON_ENDPOINT_DISCOVERY_ENABLED",
    "TETRAGON_GRPC_ADDRESS",
    "TETRAGON_GRPC_PORT",
    "TETRAGON_SERVICE_NAME",
    "TETRAGON_SERVICE_NAMESPACE",
    "TECH_DETECT_PROCESS",
    "WORKLOAD_MONITORING_ENABLED",
    "WORKLOAD_MONITORING_NAMESPACES",
    "WORKLOAD_MONITORING_TARGETS",
];

/// The settings of the agent. Spans of time are in whole seconds.
#[derive(Clone, Debug, PartialEq, Eq)]
pub struct Config {
    /// Base URL of the Hub, without a slash at its end.
    pub hub_url: String,
    /// Name under which this cluster is registered in the Hub.
    pub cluster_id: String,
    /// API key for the Hub; its prefix is `shub_`.
    pub api_key: Option<String>,
    /// Version to report in place of the package's own.
    pub agent_version_override: Option<String>,
    /// How often the leader collects and sends the inventory.
    pub collect_interval: u64,
    /// How long the Hub may hold a poll for commands.
    pub poll_wait: u64,
    /// Whether commands that change the cluster are executed.
    pub actions_enabled: bool,
    /// Whether the action operator runs.
    pub action_operator_enabled: bool,
    /// How often the action operator reconciles.
    pub action_operator_poll_interval: u64,
    /// Namespaces that the action operator leaves alone, besides the system's own.
    pub action_operator_excluded_namespaces: Vec<String>,
    /// Whether diagnostic commands that only read are executed.
    pub readonly_commands_enabled: bool,
    /// Whether the names of secrets' keys are collected.
    pub collect_secrets: bool,
    /// Whether dependencies are collected from Tetragon.
    pub collect_dependencies_tetragon: bool,
    /// Whether Tetragon's endpoints are discovered from endpoint slices.
    pub tetragon_endpoint_discovery_enabled: bool,
    /// Whether the agent is ready only with a Tetragon stream.
    pub tetragon_required_for_readiness: bool,
    /// Address of Tetragon's gRPC server.
    pub tetragon_grpc_address: String,
    /// Port of discovered Tetragon endpoints.
    pub tetragon_grpc_port: u16,
    /// Namespace of Tetragon's service.
    pub tetragon_service_namespace: String,
    /// Name of Tetragon's service.
    pub tetragon_service_name: String,
    /// Timeout of requests to the Hub.
    pub http_timeout: u64,
    /// Whether requests to the Hub are logged.
    pub http_debug: bool,
    /// Whether those logs hold a preview of the bodies.
    pub http_debug_bodies: bool,
    /// Whether whole bodies are logged.
    pub full_debug: bool,
    /// Filter for the log.
    pub agent_log: String,
    /// Whether technologies are recognised by container commands.
    pub tech_detect_process: bool,
    /// Name of the agent's pod.
    pub pod_name: String,
    /// Namespace of the agent's pod.
    pub pod_namespace: String,
    /// Node of the agent's pod.
    pub node_name: String,
    /// Name of the lease for leader election.
    pub lease_name: String,
    /// How long the lease holds.
    pub lease_ttl: u64,
    /// Whether workload monitoring is on.
    pub workload_monitoring_enabled: bool,
    /// Namespaces that workload monitoring looks at.
    pub workload_monitoring_namespaces: Vec<String>,
    /// Technologies that workload monitoring looks for.
    pub workload_monitoring_targets: Vec<String>,
    /// Whether application metrics are scraped.
    pub app_metrics_enabled: bool,
    /// Whether targets are discovered by service annotations.
    pub app_metrics_discovery_enabled: bool,
    /// Namespaces in which targets are discovered.
    pub app_metrics_namespaces: Vec<String>,
    /// Names of metrics that may be reported.
    pub app_metrics_allowlist: Vec<String>,
    /// Timeout of one scrape.
    pub app_metrics_timeout: u64,
    /// Most samples of one target.
    pub app_metrics_max_samples: u64,
    /// Whether PostgreSQL monitoring is on.
    pub postgresql_monitoring_enabled: bool,
    /// Namespaces that PostgreSQL monitoring looks at.
    pub postgresql_monitoring_namespaces: Vec<String>,
    /// Secret with the settings of the PostgreSQL probe.
    pub postgresql_monitoring_secret_name: Option<String>,
    /// Host for the PostgreSQL probe.
    pub postgresql_monitoring_host: Option<String>,
    /// Port for the PostgreSQL probe.
    pub postgresql_monitoring_port: Option<u16>,
    /// User for the PostgreSQL probe.
    pub postgresql_monitoring_user: Option<String>,
    /// Password for the PostgreSQL probe.
    pub postgresql_monitoring_password: Option<String>,
    /// Database for the PostgreSQL probe.
    pub postgresql_monitoring_database: Option<String>,
    /// TLS mode for the PostgreSQL probe.
    pub postgresql_monitoring_sslmode: Option<String>,
    /// Root certificate for the PostgreSQL probe, in PEM.
    pub postgresql_monitoring_sslrootcert: Option<String>,
}

/// The view of [`Config`].
pub struct ConfigView {
    pub hub_url: Seq<char>,
    pub cluster_id: Seq<char>,
    pub api_key: Option<Seq<char>>,
    pub agent_version_override: Option<Seq<char>>,
    pub collect_interval: u64,
    pub poll_wait: u64,
    pub actions_enabled: bool,
    pub action_operator_enabled: bool,
    pub action_operator_poll_interval: u64,
    pub action_operator_excluded_namespaces: Seq<Seq<char>>,
    pub readonly_commands_enabled: bool,
    pub collect_secrets: bool,
    pub collect_dependencies_tetragon: bool,
    pub tetragon_endpoint_discovery_enabled: bool,
    pub tetragon_required_for_readiness: bool,
    pub tetragon_grpc_address: Seq<char>,
    pub tetragon_grpc_port: u16,
    pub tetragon_service_namespace: Seq<char>,
    pub tetragon_service_name: Seq<char>,
    pub http_timeout: u64,
    pub http_debug: bool,
    pub http_debug_bodies: bool,
    pub full_debug: bool,
    pub agent_log: Seq<char>,
    pub tech_detect_process: bool,
    pub pod_name: Seq<char>,
    pub pod_namespace: Seq<char>,
    pub node_name: Seq<char>,
    pub lease_name: Seq<char>,
    pub lease_ttl: u64,
    pub workload_monitoring_enabled: bool,
    pub workload_monitoring_namespaces: Seq<Seq<char>>,
    pub workload_monitoring_targets: Seq<Seq<char>>,
    pub app_metrics_enabled: bool,
    pub app_metrics_discovery_enabled: bool,
    pub app_metrics_namespaces: Seq<Seq<char>>,
    pub app_metrics_allowlist: Seq<Seq<char>>,
    pub app_metrics_timeout: u64,
    pub app_metrics_max_samples: u64,
    pub postgresql_monitoring_enabled: bool,
    pub postgresql_monitoring_namespaces: Seq<Seq<char>>,
    pub postgresql_monitoring_secret_name: Option<Seq<char>>,
    pub postgresql_monitoring_host: Option<Seq<char>>,
    pub postgresql_monitoring_port: Option<u16>,
    pub postgresql_monitoring_user: Option<Seq<char>>,
    pub postgresql_monitoring_password: Option<Seq<char>>,
    pub postgresql_monitoring_database: Option<Seq<char>>,
    pub postgresql_monitoring_sslmode: Option<Seq<char>>,
    pub postgresql_monitoring_sslrootcert: Option<Seq<char>>,
}

impl DeepView for Config {
    type V = ConfigView;

    open spec fn deep_view(&self) -> ConfigView {
        ConfigView {
            hub_url: self.hub_url.deep_view(),
            cluster_id: self.cluster_id.deep_view(),
            api_key: self.api_key.deep_view(),
            agent_version_override: self.agent_version_override.deep_view(),
            collect_interval: self.collect_interval.deep_view(),
            poll_wait: self.poll_wait.deep_view(),
            actions_enabled: self.actions_enabled.deep_view(),
            action_operator_enabled: self.action_operator_enabled.deep_view(),
            action_operator_poll_interval: self.action_operator_poll_interval.deep_view(),
            action_operator_excluded_namespaces: self.action_operator_excluded_namespaces.deep_view(),
            readonly_commands_enabled: self.readonly_commands_enabled.deep_view(),
            collect_secrets: self.collect_secrets.deep_view(),
            collect_dependencies_tetragon: self.collect_dependencies_tetragon.deep_view(),
            tetragon_endpoint_discovery_enabled: self.tetragon_endpoint_discovery_enabled.deep_view(),
            tetragon_required_for_readiness: self.tetragon_required_for_readiness.deep_view(),
            tetragon_grpc_address: self.tetragon_grpc_address.deep_view(),
            tetragon_grpc_port: self.tetragon_grpc_port.deep_view(),
            tetragon_service_namespace: self.tetragon_service_namespace.deep_view(),
            tetragon_service_name: self.tetragon_service_name.deep_view(),
            http_timeout: self.http_timeout.deep_view(),
            http_debug: self.http_debug.deep_view(),
            http_debug_bodies: self.http_debug_bodies.deep_view(),
            full_debug: self.full_debug.deep_view(),
            agent_log: self.agent_log.deep_view(),
            tech_detect_process: self.tech_detect_process.deep_view(),
            pod_name: self.pod_name.deep_view(),
            pod_namespace: self.pod_namespace.deep_view(),
            node_name: self.node_name.deep_view(),
            lease_name: self.lease_name.deep_view(),
            lease_ttl: self.lease_ttl.deep_view(),
            workload_monitoring_enabled: self.workload_monitoring_enabled.deep_view(),
            workload_monitoring_namespaces: self.workload_monitoring_namespaces.deep_view(),
            workload_monitoring_targets: self.workload_monitoring_targets.deep_view(),
            app_metrics_enabled: self.app_metrics_enabled.deep_view(),
            app_metrics_discovery_enabled: self.app_metrics_discovery_enabled.deep_view(),
            app_metrics_namespaces: self.app_metrics_namespaces.deep_view(),
            app_metrics_allowlist: self.app_metrics_allowlist.deep_view(),
            app_metrics_timeout: self.app_metrics_timeout.deep_view(),
            app_metrics_max_samples: self.app_metrics_max_samples.deep_view(),
            postgresql_monitoring_enabled: self.postgresql_monitoring_enabled.deep_view(),
            postgresql_monitoring_namespaces: self.postgresql_monitoring_namespaces.deep_view(),
            postgresql_monitoring_secret_name: self.postgresql_monitoring_secret_name.deep_view(),
            postgresql_monitoring_host: self.postgresql_monitoring_host.deep_view(),
            postgresql_monitoring_port: self.postgresql_monitoring_port.deep_view(),
            postgresql_monitoring_user: self.postgresql_monitoring_user.deep_view(),
            postgresql_monitoring_password: self.postgresql_monitoring_password.deep_view(),
            postgresql_monitoring_database: self.postgresql_monitoring_database.deep_view(),
            postgresql_monitoring_sslmode: self.postgresql_monitoring_sslmode.deep_view(),
            postgresql_monitoring_sslrootcert: self.postgresql_monitoring_sslrootcert.deep_view(),
        }
    }
}

impl DeepClone for Config {
    fn deep_clone(&self) -> (copy: Self) {
        Config {
            hub_url: self.hub_url.deep_clone(),
            cluster_id: self.cluster_id.deep_clone(),
            api_key: self.api_key.deep_clone(),
            agent_version_override: self.agent_version_override.deep_clone(),
            collect_interval: self.collect_interval.deep_clone(),
            poll_wait: self.poll_wait.deep_clone(),
            actions_enabled: self.actions_enabled.deep_clone(),
            action_operator_enabled: self.action_operator_enabled.deep_clone(),
            action_operator_poll_interval: self.action_operator_poll_interval.deep_clone(),
            action_operator_excluded_namespaces: self.action_operator_excluded_namespaces.deep_clone(),
            readonly_commands_enabled: self.readonly_commands_enabled.deep_clone(),
            collect_secrets: self.collect_secrets.deep_clone(),
            collect_dependencies_tetragon: self.collect_dependencies_tetragon.deep_clone(),
            tetragon_endpoint_discovery_enabled: self.tetragon_endpoint_discovery_enabled.deep_clone(),
            tetragon_required_for_readiness: self.tetragon_required_for_readiness.deep_clone(),
            tetragon_grpc_address: self.tetragon_grpc_address.deep_clone(),
            tetragon_grpc_port: self.tetragon_grpc_port.deep_clone(),
            tetragon_service_namespace: self.tetragon_service_namespace.deep_clone(),
            tetragon_service_name: self.tetragon_service_name.deep_clone(),
            http_timeout: self.http_timeout.deep_clone(),
            http_debug: self.http_debug.deep_clone(),
            http_debug_bodies: self.http_debug_bodies.deep_clone(),
            full_debug: self.full_debug.deep_clone(),
            agent_log: self.agent_log.deep_clone(),
            tech_detect_process: self.tech_detect_process.deep_clone(),
            pod_name: self.pod_name.deep_clone(),
            pod_namespace: self.pod_namespace.deep_clone(),
            node_name: self.node_name.deep_clone(),
            lease_name: self.lease_name.deep_clone(),
            lease_ttl: self.lease_ttl.deep_clone(),
            workload_monitoring_enabled: self.workload_monitoring_enabled.deep_clone(),
            workload_monitoring_namespaces: self.workload_monitoring_namespaces.deep_clone(),
            workload_monitoring_targets: self.workload_monitoring_targets.deep_clone(),
            app_metrics_enabled: self.app_metrics_enabled.deep_clone(),
            app_metrics_discovery_enabled: self.app_metrics_discovery_enabled.deep_clone(),
            app_metrics_namespaces: self.app_metrics_namespaces.deep_clone(),
            app_metrics_allowlist: self.app_metrics_allowlist.deep_clone(),
            app_metrics_timeout: self.app_metrics_timeout.deep_clone(),
            app_metrics_max_samples: self.app_metrics_max_samples.deep_clone(),
            postgresql_monitoring_enabled: self.postgresql_monitoring_enabled.deep_clone(),
            postgresql_monitoring_namespaces: self.postgresql_monitoring_namespaces.deep_clone(),
            postgresql_monitoring_secret_name: self.postgresql_monitoring_secret_name.deep_clone(),
            postgresql_monitoring_host: self.postgresql_monitoring_host.deep_clone(),
            postgresql_monitoring_port: self.postgresql_monitoring_port.deep_clone(),
            postgresql_monitoring_user: self.postgresql_monitoring_user.deep_clone(),
            postgresql_monitoring_password: self.postgresql_monitoring_password.deep_clone(),
            postgresql_monitoring_database: self.postgresql_monitoring_database.deep_clone(),
            postgresql_monitoring_sslmode: self.postgresql_monitoring_sslmode.deep_clone(),
            postgresql_monitoring_sslrootcert: self.postgresql_monitoring_sslrootcert.deep_clone(),
        }
    }
}


/// Why the settings could not be read.
#[derive(Clone, Copy, Debug, PartialEq, Eq, Structural)]
pub enum ConfigError {
    /// `HUB_URL` is missing.
    HubUrlNotSet,
    /// `CLUSTER_ID` is missing.
    ClusterIdNotSet,
}

impl ConfigError {
    /// What the error says.
    pub open spec fn text(self) -> Seq<char> {
        match self {
            ConfigError::HubUrlNotSet => "HUB_URL not set"@,
            ConfigError::ClusterIdNotSet => "CLUSTER_ID not set"@,
        }
    }

    /// The error in words.
    pub fn message(&self) -> (r: &'static str)
        ensures
            r@ == self.text(),
    {
        match self {
            ConfigError::HubUrlNotSet => "HUB_URL not set",
            ConfigError::ClusterIdNotSet => "CLUSTER_ID not set",
        }
    }
}

// ------------------------------------------------------------ YAML lists

/// The list of texts that `serde_yaml::from_str::<Vec<String>>` reads from a text.
pub uninterp spec fn yaml_list(text: Seq<char>) -> Option<Seq<Seq<char>>>;

/// What `serde_yaml::to_string` writes for a list of texts.
pub uninterp spec fn yaml_list_text(items: Seq<Seq<char>>) -> Option<Seq<char>>;

/// `serde_yaml::from_str::<Vec<String>>`: the list of texts in a YAML document, or nothing
/// where the document is no such list. Which documents those are is left to the crate.
#[verifier::external_body]
fn read_yaml_list(text: &str) -> (r: Option<Vec<String>>)
    ensures
        r.deep_view() == yaml_list(text@),
{
    serde_yaml::from_str::<Vec<String>>(text).ok()
}

/// `serde_yaml::to_string` on a list of texts: the list as a YAML document. A list with items is
/// written with one item on a line behind a hyphen, so what is written starts with a hyphen. How
/// the crate quotes an item is left to it.
#[verifier::external_body]
fn write_yaml_list(items: &Vec<String>) -> (r: Option<String>)
    ensures
        r.deep_view() == yaml_list_text(items.deep_view()),
        r matches Some(yaml) ==> items.len() > 0 ==> yaml@.len() > 0 && yaml@[0] == '-',
{
    serde_yaml::to_string(items).ok()
}

// ------------------------------------------------------------ single values

/// A text without the slashes at its end.
pub open spec fn without_end_slashes(s: Seq<char>) -> Seq<char>
    decreases s.len(),
{
    if s.len() > 0 && s.last() == '/' {
        without_end_slashes(s.drop_last())
    } else {
        s
    }
}

/// The text without the slashes at its end.
pub fn trim_end_slashes<'a>(s: &'a str) -> (r: &'a str)
    ensures
        r@ == without_end_slashes(s@),
{
    let mut to: usize = s.unicode_len();
    assert(s@.subrange(0, to as int) =~= s@);
    while to > 0 && s.get_char(to - 1) == '/'
        invariant
            to <= s@.len(),
            without_end_slashes(s@.subrange(0, to as int)) == without_end_slashes(s@),
        decreases to,
    {
        assert(s@.subrange(0, to as int).drop_last() =~= s@.subrange(0, to - 1));
        to -= 1;
    }
    cut(s, 0, to)
}

/// A text without the white space at its end.
fn trim_end<'a>(s: &'a str) -> (r: &'a str)
    ensures
        r@ == text::trim_end_of(s@),
{
    let mut to: usize = s.unicode_len();
    assert(s@.subrange(0, to as int) =~= s@);
    while to > 0 && crate::text::char_is_space(s.get_char(to - 1))
        invariant
            to <= s@.len(),
            text::trim_end_of(s@.subrange(0, to as int)) == text::trim_end_of(s@),
        decreases to,
    {
        assert(s@.subrange(0, to as int).drop_last() =~= s@.subrange(0, to - 1));
        to -= 1;
    }
    cut(s, 0, to)
}

/// `true` or `false`.
pub open spec fn flag_text(value: bool) -> Seq<char> {
    if value {
        "true"@
    } else {
        "false"@
    }
}

/// `true` or `false`.
pub fn bool_string(value: bool) -> (r: String)
    ensures
        r@ == flag_text(value),
{
    if value {
        owned("true")
    } else {
        owned("false")
    }
}

/// The texts that switch a flag on.
pub open spec fn is_on(s: Seq<char>) -> bool {
    s == "true"@ || s == "1"@
}

fn text_is_on(s: &str) -> (r: bool)
    ensures
        r == is_on(s@),
{
    str_eq(s, "true") || str_eq(s, "1")
}

/// How many bytes a text takes in UTF-8.
pub open spec fn byte_len(s: Seq<char>) -> nat {
    vstd::utf8::encode_utf8(s).len()
}

/// The trimmed text, where it is not empty and takes at most 128 bytes.
pub open spec fn bounded_text(s: Seq<char>) -> Option<Seq<char>> {
    if text::trimmed(s).len() == 0 || byte_len(text::trimmed(s)) > 128 {
        None
    } else {
        Some(text::trimmed(s))
    }
}

/// The trimmed text, where it is not empty and takes at most 128 bytes.
pub fn parse_non_empty_value(value: &str) -> (r: Option<String>)
    ensures
        r.deep_view() == bounded_text(value@),
{
    let t = trim(value);
    if t.is_empty() || t.as_bytes().len() > 128 {
        None
    } else {
        Some(owned(t))
    }
}

/// The trimmed pieces between commas that are not empty.
pub open spec fn csv_values(raw: Seq<char>) -> Seq<Seq<char>> {
    text::pieces(raw, ',').filter_map(|p: Seq<char>| if text::trimmed(p).len() == 0 { None } else { Some(text::trimmed(p)) })
}

/// The trimmed pieces between commas that are not empty.
pub fn parse_csv_values(raw: &str) -> (r: Vec<String>)
    ensures
        r.deep_view() == csv_values(raw@),
{
    let parts = split(raw, ',');
    let ghost all = parts.deep_view();
    let ghost f = |p: Seq<char>|
        if text::trimmed(p).len() == 0 {
            None
        } else {
            Some(text::trimmed(p))
        };
    let mut r: Vec<String> = Vec::new();
    let mut i: usize = 0;
    assert(r.deep_view() =~= all.take(0).filter_map(f));
    while i < parts.len()
        invariant
            i <= parts.len(),
            all == parts.deep_view(),
            f == (|p: Seq<char>| if text::trimmed(p).len() == 0 { None } else { Some(text::trimmed(p)) }),
            r.deep_view() == all.take(i as int).filter_map(f),
        decreases parts.len() - i,
    {
        let ghost before = r.deep_view();
        proof {
            all.lemma_filter_map_take_succ(f, i as int);
        }
        let t = trim(parts[i]);
        if !t.is_empty() {
            r.push(owned(t));
            assert(r.deep_view() =~= before + seq![t@]);
        } else {
            assert(before + Seq::<Seq<char>>::empty() =~= before);
        }
        i += 1;
    }
    assert(all.take(parts.len() as int) =~= all);
    r
}

/// The list in a setting: a YAML list of texts, or else texts between commas.
pub open spec fn list_setting(raw: Option<Seq<char>>, parsed: Option<Seq<Seq<char>>>) -> Seq<Seq<char>> {
    match raw {
        None => seq![],
        Some(raw) => if text::trimmed(raw).len() == 0 {
            seq![]
        } else {
            match parsed {
                Some(items) => items,
                None => csv_values(text::trimmed(raw)),
            }
        },
    }
}

/// The list in a setting, given what its trimmed text reads as in YAML.
pub fn list_or_csv(raw: Option<&str>, parsed: Option<Vec<String>>) -> (r: Vec<String>)
    ensures
        r.deep_view() == list_setting(raw.deep_view(), parsed.deep_view()),
{
    match raw {
        None => {
            let r: Vec<String> = Vec::new();
            assert(r.deep_view() =~= seq![]);
            r
        },
        Some(raw) => {
            let t = trim(raw);
            if t.is_empty() {
                let r: Vec<String> = Vec::new();
                assert(r.deep_view() =~= seq![]);
                r
            } else {
                match parsed {
                    Some(items) => items,
                    None => parse_csv_values(t),
                }
            }
        },
    }
}

/// The list in a setting, read with `serde_yaml`.
pub open spec fn yaml_setting(raw: Option<Seq<char>>) -> Seq<Seq<char>> {
    list_setting(raw, yaml_of_setting(raw))
}

/// What `serde_yaml` reads as a list of texts from the trimmed setting.
pub open spec fn yaml_of_setting(raw: Option<Seq<char>>) -> Option<Seq<Seq<char>>> {
    match raw {
        Some(raw) => yaml_list(text::trimmed(raw)),
        None => None,
    }
}

/// The list in a setting: a YAML list of texts, or else texts between commas.
pub fn parse_yaml_list(raw: Option<&str>) -> (r: Vec<String>)
    ensures
        r.deep_view() == yaml_setting(raw.deep_view()),
{
    match raw {
        Some(text) => {
            let parsed = read_yaml_list(trim(text));
            list_or_csv(Some(text), parsed)
        },
        None => list_or_csv(None, None),
    }
}

/// A list as it is shown: nothing for an empty one, else its YAML without the end of line, or
/// else its items between commas.
pub open spec fn list_shown(items: Seq<Seq<char>>, written: Option<Seq<char>>) -> Seq<char> {
    if items.len() == 0 {
        seq![]
    } else {
        match written {
            Some(yaml) => text::trim_end_of(yaml),
            None => text::joined(items, ","@),
        }
    }
}

/// A list is shown without white space at its ends.
pub open spec fn is_shown_trimmed(items: Seq<Seq<char>>) -> bool {
    text::is_trimmed(list_shown(items, yaml_list_text(items)))
}

/// No item has white space at its ends.
pub open spec fn are_trimmed(items: Seq<Seq<char>>) -> bool {
    forall|i: int| 0 <= i < items.len() ==> text::is_trimmed(#[trigger] items[i])
}

/// A list as it is shown, given how it is written in YAML.
pub fn show_list(values: &Vec<String>, written: Option<String>) -> (r: String)
    ensures
        r@ == list_shown(values.deep_view(), written.deep_view()),
{
    if values.len() == 0 {
        let r = String::new();
        assert(r@ =~= seq![]);
        r
    } else {
        match written {
            Some(yaml) => owned(trim_end(yaml.as_str())),
            None => join(values, ","),
        }
    }
}

/// A list of texts as YAML without the end of line; nothing for an empty list.
pub fn yaml_list_string(values: &Vec<String>) -> (r: String)
    ensures
        r@ == list_shown(values.deep_view(), yaml_list_text(values.deep_view())),
        are_trimmed(values.deep_view()) ==> is_shown_trimmed(values.deep_view()),
{
    let written = write_yaml_list(values);
    proof {
        let items = values.deep_view();
        if are_trimmed(items) {
            text::lemma_joined_is_trimmed(items);
        }
        if items.len() > 0 {
            if let Some(yaml) = yaml_list_text(items) {
                text::lemma_trim_end_keeps_start(yaml);
            }
        }
    }
    show_list(values, written)
}

// ------------------------------------------------------------ the environment

/// Whether a flag is on; it is as `fallback` says where it is not set.
pub open spec fn flag_setting(value: Option<Seq<char>>, fallback: bool) -> bool {
    match value {
        Some(v) => is_on(v),
        None => fallback,
    }
}

/// A number of seconds; the fallback where it is not set or no number.
pub open spec fn secs_setting(value: Option<Seq<char>>, fallback: u64) -> u64 {
    match value {
        Some(v) => match text::unsigned_value(v, u64::MAX as nat) {
            Some(n) => n as u64,
            None => fallback,
        },
        None => fallback,
    }
}

/// A port; nothing where it is not set or no port.
pub open spec fn port_setting(value: Option<Seq<char>>) -> Option<u16> {
    match value {
        Some(v) => match text::unsigned_value(text::trimmed(v), u16::MAX as nat) {
            Some(n) => Some(n as u16),
            None => None,
        },
        None => None,
    }
}

/// A bounded text; nothing where it is not set, empty or too long.
pub open spec fn text_setting(value: Option<Seq<char>>) -> Option<Seq<char>> {
    match value {
        Some(v) => bounded_text(v),
        None => None,
    }
}

/// A list between commas; the fallback where it has no items.
pub open spec fn csv_setting(value: Option<Seq<char>>, fallback: Seq<Seq<char>>) -> Seq<Seq<char>> {
    let parsed = match value {
        Some(v) => csv_values(v),
        None => seq![],
    };
    if parsed.len() == 0 {
        fallback
    } else {
        parsed
    }
}

/// The value of a variable in an environment.
fn env_var<'a>(env: &'a Vec<KV>, var: &str) -> (r: Option<&'a str>)
    ensures
        r.deep_view() == pairs::value_of(env.deep_view(), var@),
{
    pair_value(env, var)
}

/// A flag of an environment, off where it is not set.
pub fn env_flag(env: &Vec<KV>, var: &str) -> (r: bool)
    ensures
        r == flag_setting(pairs::value_of(env.deep_view(), var@), false),
{
    env_flag_with_default(env, var, false)
}

/// A flag of an environment.
pub fn env_flag_with_default(env: &Vec<KV>, var: &str, default: bool) -> (r: bool)
    ensures
        r == flag_setting(pairs::value_of(env.deep_view(), var@), default),
{
    match env_var(env, var) {
        Some(v) => text_is_on(v),
        None => default,
    }
}

/// A number of seconds of an environment.
pub fn parse_secs(env: &Vec<KV>, var: &str, default: u64) -> (r: u64)
    ensures
        r == secs_setting(pairs::value_of(env.deep_view(), var@), default),
{
    match env_var(env, var) {
        Some(v) => match parse_unsigned(v, u64::MAX as u128) {
            Some(n) => n as u64,
            None => default,
        },
        None => default,
    }
}

/// A port of an environment.
pub fn parse_u16_env(env: &Vec<KV>, var: &str) -> (r: Option<u16>)
    ensures
        r == port_setting(pairs::value_of(env.deep_view(), var@)),
{
    match env_var(env, var) {
        Some(v) => match parse_unsigned(trim(v), u16::MAX as u128) {
            Some(n) => Some(n as u16),
            None => None,
        },
        None => None,
    }
}

/// A bounded text of an environment.
pub fn parse_non_empty_env(env: &Vec<KV>, var: &str) -> (r: Option<String>)
    ensures
        r.deep_view() == text_setting(pairs::value_of(env.deep_view(), var@)),
{
    match env_var(env, var) {
        Some(v) => parse_non_empty_value(v),
        None => None,
    }
}

/// A YAML list of an environment.
pub fn parse_yaml_list_env(env: &Vec<KV>, var: &str) -> (r: Vec<String>)
    ensures
        r.deep_view() == yaml_setting(pairs::value_of(env.deep_view(), var@)),
{
    parse_yaml_list(env_var(env, var))
}

/// A list between commas of an environment; the default where it has no items.
pub fn parse_csv_env_or(env: &Vec<KV>, var: &str, default: Vec<String>) -> (r: Vec<String>)
    ensures
        r.deep_view() == csv_setting(pairs::value_of(env.deep_view(), var@), default.deep_view()),
{
    match env_var(env, var) {
        Some(v) => {
            let parsed = parse_csv_values(v);
            if parsed.len() == 0 {
                default
            } else {
                parsed
            }
        },
        None => default,
    }
}

/// A text of an environment, or the default.
fn env_or(env: &Vec<KV>, var: &str, default: &str) -> (r: String)
    ensures
        r@ == crate::views::text_or(pairs::value_of(env.deep_view(), var@), default@),
{
    match env_var(env, var) {
        Some(v) => owned(v),
        None => owned(default),
    }
}

/// The technologies that workload monitoring looks for by default.
pub open spec fn default_targets() -> Seq<Seq<char>> {
    seq!["angular"@, "spring_boot"@, "oracle_database"@]
}

/// The settings that an environment holds, where the Hub's URL and the cluster's name are set.
pub open spec fn settings_of(env: Seq<KVView>) -> ConfigView {
    let full_debug = flag_setting(pairs::value_of(env, "FULL_DEBUG"@), false);
    ConfigView {
        hub_url: without_end_slashes(pairs::value_of(env, "HUB_URL"@)->0),
        cluster_id: pairs::value_of(env, "CLUSTER_ID"@)->0,
        api_key: match pairs::value_of(env, "HUB_API_KEY"@) {
            Some(key) => if key.len() == 0 {
                None
            } else {
                Some(key)
            },
            None => None,
        },
        agent_version_override: text_setting(pairs::value_of(env, "AGENT_VERSION_OVERRIDE"@)),
        collect_interval: secs_setting(pairs::value_of(env, "COLLECT_INTERVAL_SECS"@), 60),
        poll_wait: secs_setting(pairs::value_of(env, "POLL_WAIT_SECS"@), 30),
        actions_enabled: flag_setting(pairs::value_of(env, "ACTIONS_ENABLED"@), false),
        action_operator_enabled: flag_setting(pairs::value_of(env, "ACTION_OPERATOR_ENABLED"@), false),
        action_operator_poll_interval: secs_setting(pairs::value_of(env, "ACTION_OPERATOR_POLL_INTERVAL_SECS"@), 60),
        action_operator_excluded_namespaces: yaml_setting(pairs::value_of(env, "ACTION_OPERATOR_EXCLUDED_NAMESPACES"@)),
        readonly_commands_enabled: flag_setting(pairs::value_of(env, "READONLY_COMMANDS_ENABLED"@), false),
        collect_secrets: flag_setting(pairs::value_of(env, "COLLECT_SECRETS"@), false),
        collect_dependencies_tetragon: flag_setting(pairs::value_of(env, "COLLECT_DEPENDENCIES_TETRAGON"@), false),
        tetragon_endpoint_discovery_enabled: flag_setting(pairs::value_of(env, "TETRAGON_ENDPOINT_DISCOVERY_ENABLED"@), true),
        tetragon_required_for_readiness: flag_setting(pairs::value_of(env, "TETRAGON_REQUIRED_FOR_READINESS"@), true),
        tetragon_grpc_address: crate::views::text_or(pairs::value_of(env, "TETRAGON_GRPC_ADDRESS"@), DEFAULT_GRPC_ADDRESS@),
        tetragon_grpc_port: match port_setting(pairs::value_of(env, "TETRAGON_GRPC_PORT"@)) {
            Some(port) => port,
            None => 54321,
        },
        tetragon_service_namespace: crate::views::text_or(pairs::value_of(env, "TETRAGON_SERVICE_NAMESPACE"@), "tetragon"@),
        tetragon_service_name: crate::views::text_or(pairs::value_of(env, "TETRAGON_SERVICE_NAME"@), "tetragon-grpc"@),
        http_timeout: secs_setting(pairs::value_of(env, "HTTP_TIMEOUT_SECS"@), 20),
        http_debug: full_debug || flag_setting(pairs::value_of(env, "AGENT_HTTP_DEBUG"@), false),
        http_debug_bodies: full_debug || flag_setting(pairs::value_of(env, "AGENT_HTTP_DEBUG_BODIES"@), false),
        full_debug,
        agent_log: match pairs::value_of(env, "AGENT_LOG"@) {
            Some(filter) => if text::trimmed(filter).len() == 0 {
                "info"@
            } else {
                text::trimmed(filter)
            },
            None => "info"@,
        },
        tech_detect_process: flag_setting(pairs::value_of(env, "TECH_DETECT_PROCESS"@), false),
        pod_name: crate::views::text_or(pairs::value_of(env, "POD_NAME"@), "unknown"@),
        pod_namespace: crate::views::text_or(pairs::value_of(env, "POD_NAMESPACE"@), "default"@),
        node_name: crate::views::text_or(pairs::value_of(env, "NODE_NAME"@), "unknown-node"@),
        lease_name: crate::views::text_or(pairs::value_of(env, "LEASE_NAME"@), "sentinella-hub-k8s-agent-leader"@),
        lease_ttl: secs_setting(pairs::value_of(env, "LEASE_TTL_SECS"@), 30),
        workload_monitoring_enabled: flag_setting(pairs::value_of(env, "WORKLOAD_MONITORING_ENABLED"@), false),
        workload_monitoring_namespaces: yaml_setting(pairs::value_of(env, "WORKLOAD_MONITORING_NAMESPACES"@)),
        workload_monitoring_targets: csv_setting(pairs::value_of(env, "WORKLOAD_MONITORING_TARGETS"@), default_targets()),
        app_metrics_enabled: flag_setting(pairs::value_of(env, "APP_METRICS_ENABLED"@), false),
        app_metrics_discovery_enabled: flag_setting(pairs::value_of(env, "APP_METRICS_DISCOVERY_ENABLED"@), true),
        app_metrics_namespaces: yaml_setting(pairs::value_of(env, "APP_METRICS_NAMESPACES"@)),
        app_metrics_allowlist: csv_setting(pairs::value_of(env, "APP_METRICS_ALLOWLIST"@), seq!["process_.*"@]),
        app_metrics_timeout: secs_setting(pairs::value_of(env, "APP_METRICS_TIMEOUT_SECS"@), 3),
        app_metrics_max_samples: secs_setting(pairs::value_of(env, "APP_METRICS_MAX_SAMPLES"@), 500),
        postgresql_monitoring_enabled: flag_setting(pairs::value_of(env, "POSTGRESQL_MONITORING_ENABLED"@), false),
        postgresql_monitoring_namespaces: yaml_setting(pairs::value_of(env, "POSTGRESQL_MONITORING_NAMESPACES"@)),
        postgresql_monitoring_secret_name: text_setting(pairs::value_of(env, "POSTGRESQL_MONITORING_SECRET_NAME"@)),
        postgresql_monitoring_host: text_setting(pairs::value_of(env, "POSTGRESQL_MONITORING_HOST"@)),
        postgresql_monitoring_port: port_setting(pairs::value_of(env, "POSTGRESQL_MONITORING_PORT"@)),
        postgresql_monitoring_user: text_setting(pairs::value_of(env, "POSTGRESQL_MONITORING_USER"@)),
        postgresql_monitoring_password: text_setting(pairs::value_of(env, "POSTGRESQL_MONITORING_PASSWORD"@)),
        postgresql_monitoring_database: text_setting(pairs::value_of(env, "POSTGRESQL_MONITORING_DATABASE"@)),
        postgresql_monitoring_sslmode: text_setting(pairs::value_of(env, "POSTGRESQL_MONITORING_SSLMODE"@)),
        postgresql_monitoring_sslrootcert: text_setting(pairs::value_of(env, "POSTGRESQL_MONITORING_SSLROOTCERT"@)),
    }
}

fn default_target_list() -> (r: Vec<String>)
    ensures
        r.deep_view() == default_targets(),
{
    let mut r: Vec<String> = Vec::new();
    r.push(owned("angular"));
    r.push(owned("spring_boot"));
    r.push(owned("oracle_database"));
    assert(r.deep_view() =~= default_targets());
    r
}

fn default_metric_list() -> (r: Vec<String>)
    ensures
        r.deep_view() == seq!["process_.*"@],
{
    let mut r: Vec<String> = Vec::new();
    r.push(owned("process_.*"));
    assert(r.deep_view() =~= seq!["process_.*"@]);
    r
}

impl Config {
    /// The settings that an environment holds. The environment is given as its variables with
    /// their values; it must hold the Hub's URL and the cluster's name.
    pub fn from_env(env: &Vec<KV>) -> (r: Result<Config, ConfigError>)
        ensures
            match r {
                Ok(cfg) => pairs::value_of(env.deep_view(), "HUB_URL"@) is Some && pairs::value_of(env.deep_view(), "CLUSTER_ID"@) is Some
                    && cfg.deep_view() == settings_of(env.deep_view()),
                Err(ConfigError::HubUrlNotSet) => pairs::value_of(env.deep_view(), "HUB_URL"@) is None,
                Err(ConfigError::ClusterIdNotSet) => pairs::value_of(env.deep_view(), "HUB_URL"@) is Some && pairs::value_of(
                    env.deep_view(),
                    "CLUSTER_ID"@,
                ) is None,
            },
    {
        let hub_url = match env_var(env, "HUB_URL") {
            Some(v) => v,
            None => {
                return Err(ConfigError::HubUrlNotSet);
            },
        };
        let cluster_id = match env_var(env, "CLUSTER_ID") {
            Some(v) => v,
            None => {
                return Err(ConfigError::ClusterIdNotSet);
            },
        };
        let api_key = match env_var(env, "HUB_API_KEY") {
            Some(v) => if v.is_empty() {
                None
            } else {
                Some(owned(v))
            },
            None => None,
        };
        let full_debug = env_flag(env, "FULL_DEBUG");
        let agent_log = match env_var(env, "AGENT_LOG") {
            Some(v) => if trim(v).is_empty() {
                owned("info")
            } else {
                owned(trim(v))
            },
            None => owned("info"),
        };
        let cfg = Config {
            hub_url: owned(trim_end_slashes(hub_url)),
            cluster_id: owned(cluster_id),
            api_key,
            agent_version_override: parse_non_empty_env(env, "AGENT_VERSION_OVERRIDE"),
            collect_interval: parse_secs(env, "COLLECT_INTERVAL_SECS", 60),
            poll_wait: parse_secs(env, "POLL_WAIT_SECS", 30),
            actions_enabled: env_flag(env, "ACTIONS_ENABLED"),
            action_operator_enabled: env_flag(env, "ACTION_OPERATOR_ENABLED"),
            action_operator_poll_interval: parse_secs(env, "ACTION_OPERATOR_POLL_INTERVAL_SECS", 60),
            action_operator_excluded_namespaces: parse_yaml_list_env(env, "ACTION_OPERATOR_EXCLUDED_NAMESPACES"),
            readonly_commands_enabled: env_flag(env, "READONLY_COMMANDS_ENABLED"),
            collect_secrets: env_flag(env, "COLLECT_SECRETS"),
            collect_dependencies_tetragon: env_flag(env, "COLLECT_DEPENDENCIES_TETRAGON"),
            tetragon_endpoint_discovery_enabled: env_flag_with_default(
                env,
                "TETRAGON_ENDPOINT_DISCOVERY_ENABLED",
                true,
            ),
            tetragon_required_for_readiness: env_flag_with_default(env, "TETRAGON_REQUIRED_FOR_READINESS", true),
            tetragon_grpc_address: env_or(env, "TETRAGON_GRPC_ADDRESS", DEFAULT_GRPC_ADDRESS),
            tetragon_grpc_port: match parse_u16_env(env, "TETRAGON_GRPC_PORT") {
                Some(port) => port,
                None => 54321,
            },
            tetragon_service_namespace: env_or(env, "TETRAGON_SERVICE_NAMESPACE", "tetragon"),
            tetragon_service_name: env_or(env, "TETRAGON_SERVICE_NAME", "tetragon-grpc"),
            http_timeout: parse_secs(env, "HTTP_TIMEOUT_SECS", 20),
            http_debug: full_debug || env_flag(env, "AGENT_HTTP_DEBUG"),
            http_debug_bodies: full_debug || env_flag(env, "AGENT_HTTP_DEBUG_BODIES"),
            full_debug,
            agent_log,
            tech_detect_process: env_flag(env, "TECH_DETECT_PROCESS"),
            pod_name: env_or(env, "POD_NAME", "unknown"),
            pod_namespace: env_or(env, "POD_NAMESPACE", "default"),
            node_name: env_or(env, "NODE_NAME", "unknown-node"),
            lease_name: env_or(env, "LEASE_NAME", "sentinella-hub-k8s-agent-leader"),
            lease_ttl: parse_secs(env, "LEASE_TTL_SECS", 30),
            workload_monitoring_enabled: env_flag(env, "WORKLOAD_MONITORING_ENABLED"),
            workload_monitoring_namespaces: parse_yaml_list_env(env, "WORKLOAD_MONITORING_NAMESPACES"),
            workload_monitoring_targets: parse_csv_env_or(env, "WORKLOAD_MONITORING_TARGETS", default_target_list()),
            app_metrics_enabled: env_flag(env, "APP_METRICS_ENABLED"),
            app_metrics_discovery_enabled: env_flag_with_default(env, "APP_METRICS_DISCOVERY_ENABLED", true),
            app_metrics_namespaces: parse_yaml_list_env(env, "APP_METRICS_NAMESPACES"),
            app_metrics_allowlist: parse_csv_env_or(env, "APP_METRICS_ALLOWLIST", default_metric_list()),
            app_metrics_timeout: parse_secs(env, "APP_METRICS_TIMEOUT_SECS", 3),
            app_metrics_max_samples: parse_secs(env, "APP_METRICS_MAX_SAMPLES", 500),
            postgresql_monitoring_enabled: env_flag(env, "POSTGRESQL_MONITORING_ENABLED"),
            postgresql_monitoring_namespaces: parse_yaml_list_env(env, "POSTGRESQL_MONITORING_NAMESPACES"),
            postgresql_monitoring_secret_name: parse_non_empty_env(env, "POSTGRESQL_MONITORING_SECRET_NAME"),
            postgresql_monitoring_host: parse_non_empty_env(env, "POSTGRESQL_MONITORING_HOST"),
            postgresql_monitoring_port: parse_u16_env(env, "POSTGRESQL_MONITORING_PORT"),
            postgresql_monitoring_user: parse_non_empty_env(env, "POSTGRESQL_MONITORING_USER"),
            postgresql_monitoring_password: parse_non_empty_env(env, "POSTGRESQL_MONITORING_PASSWORD"),
            postgresql_monitoring_database: parse_non_empty_env(env, "POSTGRESQL_MONITORING_DATABASE"),
            postgresql_monitoring_sslmode: parse_non_empty_env(env, "POSTGRESQL_MONITORING_SSLMODE"),
            postgresql_monitoring_sslrootcert: parse_non_empty_env(env, "POSTGRESQL_MONITORING_SSLROOTCERT"),
        };
        Ok(cfg)
    }
}

// ------------------------------------------------------------ what is shown

/// The value that a setting is shown with, as the agent runs with it.
pub open spec fn runtime_value(cfg: ConfigView, key: Seq<char>) -> Option<Seq<char>> {
    let list = |items: Seq<Seq<char>>| Some(list_shown(items, yaml_list_text(items)));
    let number = |n: nat| Some(text::decimal_of(n));
    if key == "ACTIONS_ENABLED"@ {
        Some(flag_text(cfg.actions_enabled))
    } else if key == "READONLY_COMMANDS_ENABLED"@ {
        Some(flag_text(cfg.readonly_commands_enabled))
    } else if key == "AGENT_HTTP_DEBUG"@ {
        Some(flag_text(cfg.http_debug))
    } else if key == "AGENT_HTTP_DEBUG_BODIES"@ {
        Some(flag_text(cfg.http_debug_bodies))
    } else if key == "AGENT_LOG"@ {
        Some(cfg.agent_log)
    } else if key == "AGENT_VERSION_OVERRIDE"@ {
        cfg.agent_version_override
    } else if key == "CLUSTER_ID"@ {
        Some(cfg.cluster_id)
    } else if key == "COLLECT_DEPENDENCIES_TETRAGON"@ {
        Some(flag_text(cfg.collect_dependencies_tetragon))
    } else if key == "TETRAGON_ENDPOINT_DISCOVERY_ENABLED"@ {
        Some(flag_text(cfg.tetragon_endpoint_discovery_enabled))
    } else if key == "COLLECT_INTERVAL_SECS"@ {
        number(cfg.collect_interval as nat)
    } else if key == "COLLECT_SECRETS"@ {
        Some(flag_text(cfg.collect_secrets))
    } else if key == "FULL_DEBUG"@ {
        Some(flag_text(cfg.full_debug))
    } else if key == "HTTP_TIMEOUT_SECS"@ {
        number(cfg.http_timeout as nat)
    } else if key == "HUB_URL"@ {
        Some(cfg.hub_url)
    } else if key == "LEASE_NAME"@ {
        Some(cfg.lease_name)
    } else if key == "LEASE_TTL_SECS"@ {
        number(cfg.lease_ttl as nat)
    } else if key == "POLL_WAIT_SECS"@ {
        number(cfg.poll_wait as nat)
    } else if key == "POSTGRESQL_MONITORING_DATABASE"@ {
        cfg.postgresql_monitoring_database
    } else if key == "TETRAGON_GRPC_ADDRESS"@ {
        Some(cfg.tetragon_grpc_address)
    } else if key == "TETRAGON_GRPC_PORT"@ {
        number(cfg.tetragon_grpc_port as nat)
    } else if key == "TETRAGON_SERVICE_NAME"@ {
        Some(cfg.tetragon_service_name)
    } else if key == "TETRAGON_SERVICE_NAMESPACE"@ {
        Some(cfg.tetragon_service_namespace)
    } else if key == "TECH_DETECT_PROCESS"@ {
        Some(flag_text(cfg.tech_detect_process))
    } else if key == "POSTGRESQL_MONITORING_HOST"@ {
        cfg.postgresql_monitoring_host
    } else if key == "POSTGRESQL_MONITORING_PORT"@ {
        match cfg.postgresql_monitoring_port {
            Some(port) => number(port as nat),
            None => None,
        }
    } else if key == "POSTGRESQL_MONITORING_ENABLED"@ {
        Some(flag_text(cfg.postgresql_monitoring_enabled))
    } else if key == "POSTGRESQL_MONITORING_SECRET_NAME"@ {
        cfg.postgresql_monitoring_secret_name
    } else if key == "POSTGRESQL_MONITORING_NAMESPACES"@ {
        list(cfg.postgresql_monitoring_namespaces)
    } else if key == "POSTGRESQL_MONITORING_SSLMODE"@ {
        cfg.postgresql_monitoring_sslmode
    } else if key == "POSTGRESQL_MONITORING_USER"@ {
        cfg.postgresql_monitoring_user
    } else if key == "WORKLOAD_MONITORING_ENABLED"@ {
        Some(flag_text(cfg.workload_monitoring_enabled))
    } else if key == "WORKLOAD_MONITORING_NAMESPACES"@ {
        list(cfg.workload_monitoring_namespaces)
    } else if key == "WORKLOAD_MONITORING_TARGETS"@ {
        Some(text::joined(cfg.workload_monitoring_targets, ","@))
    } else {
        None
    }
}

/// The value that a setting is shown with, as the agent runs with it.
pub fn runtime_env_value(cfg: &Config, key: &str) -> (r: Option<String>)
    ensures
        r.deep_view() == runtime_value(cfg.deep_view(), key@),
        lists_are_trimmed(cfg.deep_view()) ==> list_stands(cfg.deep_view(), key@),
{
    proof {
        lemma_list_keys_apart(key@);
        lemma_flag_keys(key@);
        lemma_bounded_keys(key@);
        lemma_number_keys(key@);
    }
    if str_eq(key, "ACTIONS_ENABLED") {
        Some(bool_string(cfg.actions_enabled))
    } else if str_eq(key, "READONLY_COMMANDS_ENABLED") {
        Some(bool_string(cfg.readonly_commands_enabled))
    } else if str_eq(key, "AGENT_HTTP_DEBUG") {
        Some(bool_string(cfg.http_debug))
    } else if str_eq(key, "AGENT_HTTP_DEBUG_BODIES") {
        Some(bool_string(cfg.http_debug_bodies))
    } else if str_eq(key, "AGENT_LOG") {
        Some(cfg.agent_log.clone())
    } else if str_eq(key, "AGENT_VERSION_OVERRIDE") {
        cfg.agent_version_override.deep_clone()
    } else if str_eq(key, "CLUSTER_ID") {
        Some(cfg.cluster_id.clone())
    } else if str_eq(key, "COLLECT_DEPENDENCIES_TETRAGON") {
        Some(bool_string(cfg.collect_dependencies_tetragon))
    } else if str_eq(key, "TETRAGON_ENDPOINT_DISCOVERY_ENABLED") {
        Some(bool_string(cfg.tetragon_endpoint_discovery_enabled))
    } else if str_eq(key, "COLLECT_INTERVAL_SECS") {
        Some(decimal(cfg.collect_interval as u128))
    } else if str_eq(key, "COLLECT_SECRETS") {
        Some(bool_string(cfg.collect_secrets))
    } else if str_eq(key, "FULL_DEBUG") {
        Some(bool_string(cfg.full_debug))
    } else if str_eq(key, "HTTP_TIMEOUT_SECS") {
        Some(decimal(cfg.http_timeout as u128))
    } else if str_eq(key, "HUB_URL") {
        Some(cfg.hub_url.clone())
    } else if str_eq(key, "LEASE_NAME") {
        Some(cfg.lease_name.clone())
    } else if str_eq(key, "LEASE_TTL_SECS") {
        Some(decimal(cfg.lease_ttl as u128))
    } else if str_eq(key, "POLL_WAIT_SECS") {
        Some(decimal(cfg.poll_wait as u128))
    } else if str_eq(key, "POSTGRESQL_MONITORING_DATABASE") {
        cfg.postgresql_monitoring_database.deep_clone()
    } else if str_eq(key, "TETRAGON_GRPC_ADDRESS") {
        Some(cfg.tetragon_grpc_address.clone())
    } else if str_eq(key, "TETRAGON_GRPC_PORT") {
        Some(decimal(cfg.tetragon_grpc_port as u128))
    } else if str_eq(key, "TETRAGON_SERVICE_NAME") {
        Some(cfg.tetragon_service_name.clone())
    } else if str_eq(key, "TETRAGON_SERVICE_NAMESPACE") {
        Some(cfg.tetragon_service_namespace.clone())
    } else if str_eq(key, "TECH_DETECT_PROCESS") {
        Some(bool_string(cfg.tech_detect_process))
    } else if str_eq(key, "POSTGRESQL_MONITORING_HOST") {
        cfg.postgresql_monitoring_host.deep_clone()
    } else if str_eq(key, "POSTGRESQL_MONITORING_PORT") {
        match cfg.postgresql_monitoring_port {
            Some(port) => Some(decimal(port as u128)),
            None => None,
        }
    } else if str_eq(key, "POSTGRESQL_MONITORING_ENABLED") {
        Some(bool_string(cfg.postgresql_monitoring_enabled))
    } else if str_eq(key, "POSTGRESQL_MONITORING_SECRET_NAME") {
        cfg.postgresql_monitoring_secret_name.deep_clone()
    } else if str_eq(key, "POSTGRESQL_MONITORING_NAMESPACES") {
        Some(yaml_list_string(&cfg.postgresql_monitoring_namespaces))
    } else if str_eq(key, "POSTGRESQL_MONITORING_SSLMODE") {
        cfg.postgresql_monitoring_sslmode.deep_clone()
    } else if str_eq(key, "POSTGRESQL_MONITORING_USER") {
        cfg.postgresql_monitoring_user.deep_clone()
    } else if str_eq(key, "WORKLOAD_MONITORING_ENABLED") {
        Some(bool_string(cfg.workload_monitoring_enabled))
    } else if str_eq(key, "WORKLOAD_MONITORING_NAMESPACES") {
        Some(yaml_list_string(&cfg.workload_monitoring_namespaces))
    } else if str_eq(key, "WORKLOAD_MONITORING_TARGETS") {
        Some(join(&cfg.workload_monitoring_targets, ","))
    } else {
        None
    }
}

/// The settings that are shown as on or off.
pub open spec fn flag_keys() -> Seq<Seq<char>> {
    seq![
        "ACTIONS_ENABLED"@,
        "AGENT_HTTP_DEBUG"@,
        "AGENT_HTTP_DEBUG_BODIES"@,
        "COLLECT_DEPENDENCIES_TETRAGON"@,
        "TETRAGON_ENDPOINT_DISCOVERY_ENABLED"@,
        "COLLECT_SECRETS"@,
        "FULL_DEBUG"@,
        "READONLY_COMMANDS_ENABLED"@,
        "POSTGRESQL_MONITORING_ENABLED"@,
        "TECH_DETECT_PROCESS"@,
    ]
}

/// Whether a key is one of [`flag_keys`].
pub open spec fn is_flag_key(key: Seq<char>) -> bool {
    flag_keys().contains(key)
}

/// The settings that are shown as a number where they are one.
pub open spec fn number_keys() -> Seq<Seq<char>> {
    seq![
        "COLLECT_INTERVAL_SECS"@,
        "HTTP_TIMEOUT_SECS"@,
        "LEASE_TTL_SECS"@,
        "POLL_WAIT_SECS"@,
        "TETRAGON_GRPC_PORT"@,
        "POSTGRESQL_MONITORING_PORT"@,
    ]
}

/// Whether a key is one of [`number_keys`].
pub open spec fn is_number_key(key: Seq<char>) -> bool {
    number_keys().contains(key)
}

/// The settings that are shown only where they hold a bounded text.
pub open spec fn bounded_keys() -> Seq<Seq<char>> {
    seq![
        "AGENT_VERSION_OVERRIDE"@,
        "POSTGRESQL_MONITORING_DATABASE"@,
        "POSTGRESQL_MONITORING_HOST"@,
        "POSTGRESQL_MONITORING_SECRET_NAME"@,
        "POSTGRESQL_MONITORING_SSLMODE"@,
        "POSTGRESQL_MONITORING_USER"@,
    ]
}

/// Whether a key is one of [`bounded_keys`].
pub open spec fn is_bounded_key(key: Seq<char>) -> bool {
    bounded_keys().contains(key)
}

/// The value that a setting is shown with, as it is configured.
pub open spec fn configured_value(key: Seq<char>, value: Seq<char>) -> Option<Seq<char>> {
    let t = text::trimmed(value);
    if is_flag_key(key) {
        Some(flag_text(is_on(t)))
    } else if key == "AGENT_LOG"@ {
        Some(
            if t.len() == 0 {
                "info"@
            } else {
                t
            },
        )
    } else if is_bounded_key(key) {
        bounded_text(t)
    } else if is_number_key(key) {
        match text::unsigned_value(t, u16::MAX as nat) {
            Some(n) => Some(text::decimal_of(n)),
            None => Some(t),
        }
    } else if key == "HUB_URL"@ {
        Some(without_end_slashes(t))
    } else {
        Some(t)
    }
}

fn flag_key(key: &str) -> (r: bool)
    ensures
        r == is_flag_key(key@),
{
    proof {
        let names = flag_keys();
        assert(names[0] == "ACTIONS_ENABLED"@);
        assert(names[1] == "AGENT_HTTP_DEBUG"@);
        assert(names[2] == "AGENT_HTTP_DEBUG_BODIES"@);
        assert(names[3] == "COLLECT_DEPENDENCIES_TETRAGON"@);
        assert(names[4] == "TETRAGON_ENDPOINT_DISCOVERY_ENABLED"@);
        assert(names[5] == "COLLECT_SECRETS"@);
        assert(names[6] == "FULL_DEBUG"@);
        assert(names[7] == "READONLY_COMMANDS_ENABLED"@);
        assert(names[8] == "POSTGRESQL_MONITORING_ENABLED"@);
        assert(names[9] == "TECH_DETECT_PROCESS"@);
    }
    str_eq(key, "ACTIONS_ENABLED") || str_eq(key, "AGENT_HTTP_DEBUG") || str_eq(key, "AGENT_HTTP_DEBUG_BODIES") || str_eq(key, "COLLECT_DEPENDENCIES_TETRAGON") || str_eq(key, "TETRAGON_ENDPOINT_DISCOVERY_ENABLED") || str_eq(key, "COLLECT_SECRETS") || str_eq(key, "FULL_DEBUG") || str_eq(key, "READONLY_COMMANDS_ENABLED") || str_eq(key, "POSTGRESQL_MONITORING_ENABLED") || str_eq(key, "TECH_DETECT_PROCESS")
}

fn bounded_key(key: &str) -> (r: bool)
    ensures
        r == is_bounded_key(key@),
{
    proof {
        let names = bounded_keys();
        assert(names[0] == "AGENT_VERSION_OVERRIDE"@);
        assert(names[1] == "POSTGRESQL_MONITORING_DATABASE"@);
        assert(names[2] == "POSTGRESQL_MONITORING_HOST"@);
        assert(names[3] == "POSTGRESQL_MONITORING_SECRET_NAME"@);
        assert(names[4] == "POSTGRESQL_MONITORING_SSLMODE"@);
        assert(names[5] == "POSTGRESQL_MONITORING_USER"@);
    }
    str_eq(key, "AGENT_VERSION_OVERRIDE") || str_eq(key, "POSTGRESQL_MONITORING_DATABASE") || str_eq(key, "POSTGRESQL_MONITORING_HOST") || str_eq(key, "POSTGRESQL_MONITORING_SECRET_NAME") || str_eq(key, "POSTGRESQL_MONITORING_SSLMODE") || str_eq(key, "POSTGRESQL_MONITORING_USER")
}

fn number_key(key: &str) -> (r: bool)
    ensures
        r == is_number_key(key@),
{
    proof {
        let names = number_keys();
        assert(names[0] == "COLLECT_INTERVAL_SECS"@);
        assert(names[1] == "HTTP_TIMEOUT_SECS"@);
        assert(names[2] == "LEASE_TTL_SECS"@);
        assert(names[3] == "POLL_WAIT_SECS"@);
        assert(names[4] == "TETRAGON_GRPC_PORT"@);
        assert(names[5] == "POSTGRESQL_MONITORING_PORT"@);
    }
    str_eq(key, "COLLECT_INTERVAL_SECS") || str_eq(key, "HTTP_TIMEOUT_SECS") || str_eq(key, "LEASE_TTL_SECS") || str_eq(key, "POLL_WAIT_SECS") || str_eq(key, "TETRAGON_GRPC_PORT") || str_eq(key, "POSTGRESQL_MONITORING_PORT")
}

/// The settings as the agent runs with them, without secrets.
pub open spec fn runtime_env(cfg: ConfigView) -> Seq<KVView> {
    allowlist().filter_map(
        |key: Seq<char>|
            match runtime_value(cfg, key) {
                Some(value) => Some(KVView { key, value }),
                None => None,
            },
    )
}

/// The settings as they are configured, without secrets.
pub open spec fn configured_env(values: Seq<KVView>) -> Seq<KVView> {
    allowlist().filter_map(
        |key: Seq<char>|
            match pairs::value_of(values, key) {
                Some(raw) => match configured_value(key, raw) {
                    Some(value) => Some(KVView { key, value }),
                    None => None,
                },
                None => None,
            },
    )
}


/// The value that a setting is shown with, as it is configured.
pub fn configured_env_value(key: &str, value: &str) -> (r: Option<String>)
    ensures
        r.deep_view() == configured_value(key@, value@),
{
    let t = trim(value);
    if flag_key(key) {
        Some(bool_string(text_is_on(t)))
    } else if str_eq(key, "AGENT_LOG") {
        if t.is_empty() {
            Some(owned("info"))
        } else {
            Some(owned(t))
        }
    } else if bounded_key(key) {
        parse_non_empty_value(t)
    } else if number_key(key) {
        match parse_unsigned(t, u16::MAX as u128) {
            Some(n) => Some(decimal(n)),
            None => Some(owned(t)),
        }
    } else if str_eq(key, "HUB_URL") {
        Some(owned(trim_end_slashes(t)))
    } else {
        Some(owned(t))
    }
}

proof fn lemma_allowlist(i: int)
    requires
        0 <= i < 33,
    ensures
        allowlist().len() == 33,
        AGENT_CONFIG_ENV_ALLOWLIST@[i]@ == allowlist()[i],
{
}

/// The settings as the agent runs with them, without secrets.
///
/// Taken as configured they are the same, where their texts stand as they would be configured.
pub fn agent_runtime_env(cfg: &Config) -> (r: Vec<KV>)
    ensures
        r.deep_view() == runtime_env(cfg.deep_view()),
        texts_stand(cfg.deep_view()) && lists_are_trimmed(cfg.deep_view()) ==> configured_env(r.deep_view())
            == r.deep_view(),
{
    let ghost f = |key: Seq<char>|
        match runtime_value(cfg.deep_view(), key) {
            Some(value) => Some(KVView { key, value }),
            None => None,
        };
    let ghost all = allowlist();
    let mut r: Vec<KV> = Vec::new();
    let mut i: usize = 0;
    assert(r.deep_view() =~= all.take(0).filter_map(f));
    while i < 33
        invariant
            i <= 33,
            all == allowlist(),
            all.len() == 33,
            f == (|key: Seq<char>|
                match runtime_value(cfg.deep_view(), key) {
                    Some(value) => Some(KVView { key, value }),
                    None => None,
                }),
            r.deep_view() == all.take(i as int).filter_map(f),
            lists_are_trimmed(cfg.deep_view()) ==> forall|j: int|
                0 <= j < i ==> list_stands(cfg.deep_view(), #[trigger] all[j]),
        decreases 33 - i,
    {
        let ghost before = r.deep_view();
        proof {
            lemma_allowlist(i as int);
            all.lemma_filter_map_take_succ(f, i as int);
        }
        let key = AGENT_CONFIG_ENV_ALLOWLIST[i];
        match runtime_env_value(cfg, key) {
            Some(value) => {
                let kv = KV { key: owned(key), value };
                let ghost kvv = kv.deep_view();
                r.push(kv);
                assert(r.deep_view() =~= before + seq![kvv]);
            },
            None => {
                assert(before + Seq::<KVView>::empty() =~= before);
            },
        }
        i += 1;
    }
    assert(all.take(33) =~= all);
    proof {
        if texts_stand(cfg.deep_view()) && lists_are_trimmed(cfg.deep_view()) {
            assert forall|j: int| 0 <= j < all.len() implies reads_back(cfg.deep_view(), #[trigger] allowlist()[j]) by {
                lemma_reads_back(cfg.deep_view(), all[j]);
            }
            lemma_all_read_back(cfg.deep_view());
        }
    }
    r
}

/// The settings as they are configured, without secrets.
pub fn agent_configured_env(values: &Vec<KV>) -> (r: Vec<KV>)
    ensures
        r.deep_view() == configured_env(values.deep_view()),
{
    let ghost f = |key: Seq<char>|
        match pairs::value_of(values.deep_view(), key) {
            Some(raw) => match configured_value(key, raw) {
                Some(value) => Some(KVView { key, value }),
                None => None,
            },
            None => None,
        };
    let ghost all = allowlist();
    let mut r: Vec<KV> = Vec::new();
    let mut i: usize = 0;
    assert(r.deep_view() =~= all.take(0).filter_map(f));
    while i < 33
        invariant
            i <= 33,
            all == allowlist(),
            all.len() == 33,
            f == (|key: Seq<char>|
                match pairs::value_of(values.deep_view(), key) {
                    Some(raw) => match configured_value(key, raw) {
                        Some(value) => Some(KVView { key, value }),
                        None => None,
                    },
                    None => None,
                }),
            r.deep_view() == all.take(i as int).filter_map(f),
        decreases 33 - i,
    {
        let ghost before = r.deep_view();
        proof {
            lemma_allowlist(i as int);
            all.lemma_filter_map_take_succ(f, i as int);
            assert(before + Seq::<KVView>::empty() =~= before);
        }
        let key = AGENT_CONFIG_ENV_ALLOWLIST[i];
        match pair_value(values, key) {
            Some(raw) => match configured_env_value(key, raw) {
                Some(value) => {
                    let kv = KV { key: owned(key), value };
                    let ghost kvv = kv.deep_view();
                    r.push(kv);
                    assert(r.deep_view() =~= before + seq![kvv]);
                },
                None => {},
            },
            None => {},
        }
        i += 1;
    }
    assert(all.take(33) =~= all);
    r
}

/// Only keys of the allowlist are shown, whatever the settings and whatever is configured.
pub proof fn lemma_only_allowed_keys_shown(cfg: ConfigView, values: Seq<KVView>)
    ensures
        forall|i: int|
            0 <= i < runtime_env(cfg).len() ==> allowlist().contains((#[trigger] runtime_env(cfg)[i]).key),
        forall|i: int|
            0 <= i < configured_env(values).len() ==> allowlist().contains(
                (#[trigger] configured_env(values)[i]).key,
            ),
{
    let f = |key: Seq<char>|
        match runtime_value(cfg, key) {
            Some(value) => Some(KVView { key, value }),
            None => None,
        };
    let g = |key: Seq<char>|
        match pairs::value_of(values, key) {
            Some(raw) => match configured_value(key, raw) {
                Some(value) => Some(KVView { key, value }),
                None => None,
            },
            None => None,
        };
    assert forall|i: int| 0 <= i < runtime_env(cfg).len() implies allowlist().contains(
        (#[trigger] runtime_env(cfg)[i]).key,
    ) by {
        allowlist().lemma_filter_map_contains(f, runtime_env(cfg)[i]);
        assert(runtime_env(cfg).contains(runtime_env(cfg)[i]));
    }
    assert forall|i: int| 0 <= i < configured_env(values).len() implies allowlist().contains(
        (#[trigger] configured_env(values)[i]).key,
    ) by {
        allowlist().lemma_filter_map_contains(g, configured_env(values)[i]);
        assert(configured_env(values).contains(configured_env(values)[i]));
    }
}

// ------------------------------------------------------------------- comparing settings

/// A text that may be left out stands as it would be configured.
pub open spec fn is_bounded(value: Option<Seq<char>>) -> bool {
    value matches Some(v) ==> text::is_trimmed(v) && 0 < v.len() && byte_len(v) <= 128
}

/// The names, addresses and the URL have no white space at their ends.
pub open spec fn names_are_trimmed(cfg: ConfigView) -> bool {
    &&& text::is_trimmed(cfg.cluster_id)
    &&& text::is_trimmed(cfg.hub_url)
    &&& text::is_trimmed(cfg.lease_name)
    &&& text::is_trimmed(cfg.tetragon_grpc_address)
    &&& text::is_trimmed(cfg.tetragon_service_name)
    &&& text::is_trimmed(cfg.tetragon_service_namespace)
}

/// Each text stands as it would be configured: none has white space at its ends, the URL ends in
/// no slash, the log filter is not empty, and what may be left out is not empty and not too long.
pub open spec fn texts_stand(cfg: ConfigView) -> bool {
    &&& names_are_trimmed(cfg)
    &&& cfg.hub_url.len() > 0 ==> cfg.hub_url.last() != '/'
    &&& text::is_trimmed(cfg.agent_log) && cfg.agent_log.len() > 0
    &&& is_bounded(cfg.agent_version_override)
    &&& is_bounded(cfg.postgresql_monitoring_database)
    &&& is_bounded(cfg.postgresql_monitoring_host)
    &&& is_bounded(cfg.postgresql_monitoring_secret_name)
    &&& is_bounded(cfg.postgresql_monitoring_sslmode)
    &&& is_bounded(cfg.postgresql_monitoring_user)
    &&& text::is_trimmed(text::joined(cfg.workload_monitoring_targets, ","@))
}

/// No namespace in the lists of namespaces has white space at its ends.
pub open spec fn lists_are_trimmed(cfg: ConfigView) -> bool {
    are_trimmed(cfg.workload_monitoring_namespaces) && are_trimmed(cfg.postgresql_monitoring_namespaces)
}

/// Where a key is that of a list of namespaces, the list is shown without white space at its ends.
pub open spec fn list_stands(cfg: ConfigView, key: Seq<char>) -> bool {
    &&& key == "WORKLOAD_MONITORING_NAMESPACES"@ ==> is_shown_trimmed(cfg.workload_monitoring_namespaces)
    &&& key == "POSTGRESQL_MONITORING_NAMESPACES"@ ==> is_shown_trimmed(cfg.postgresql_monitoring_namespaces)
}

/// A setting, configured as it is shown, is shown as before.
pub open spec fn reads_back(cfg: ConfigView, key: Seq<char>) -> bool {
    runtime_value(cfg, key) matches Some(v) ==> configured_value(key, v) == Some(v)
}

proof fn lemma_flag_keys(key: Seq<char>)
    ensures
        is_flag_key(key) == (key == "ACTIONS_ENABLED"@ || key == "AGENT_HTTP_DEBUG"@ || key == "AGENT_HTTP_DEBUG_BODIES"@ || key == "COLLECT_DEPENDENCIES_TETRAGON"@ || key == "TETRAGON_ENDPOINT_DISCOVERY_ENABLED"@ || key == "COLLECT_SECRETS"@ || key == "FULL_DEBUG"@ || key == "READONLY_COMMANDS_ENABLED"@ || key == "POSTGRESQL_MONITORING_ENABLED"@ || key == "TECH_DETECT_PROCESS"@),
{
    let names = flag_keys();
    assert(names[0] == "ACTIONS_ENABLED"@);
    assert(names[1] == "AGENT_HTTP_DEBUG"@);
    assert(names[2] == "AGENT_HTTP_DEBUG_BODIES"@);
    assert(names[3] == "COLLECT_DEPENDENCIES_TETRAGON"@);
    assert(names[4] == "TETRAGON_ENDPOINT_DISCOVERY_ENABLED"@);
    assert(names[5] == "COLLECT_SECRETS"@);
    assert(names[6] == "FULL_DEBUG"@);
    assert(names[7] == "READONLY_COMMANDS_ENABLED"@);
    assert(names[8] == "POSTGRESQL_MONITORING_ENABLED"@);
    assert(names[9] == "TECH_DETECT_PROCESS"@);
}

proof fn lemma_bounded_keys(key: Seq<char>)
    ensures
        is_bounded_key(key) == (key == "AGENT_VERSION_OVERRIDE"@ || key == "POSTGRESQL_MONITORING_DATABASE"@ || key == "POSTGRESQL_MONITORING_HOST"@ || key == "POSTGRESQL_MONITORING_SECRET_NAME"@ || key == "POSTGRESQL_MONITORING_SSLMODE"@ || key == "POSTGRESQL_MONITORING_USER"@),
{
    let names = bounded_keys();
    assert(names[0] == "AGENT_VERSION_OVERRIDE"@);
    assert(names[1] == "POSTGRESQL_MONITORING_DATABASE"@);
    assert(names[2] == "POSTGRESQL_MONITORING_HOST"@);
    assert(names[3] == "POSTGRESQL_MONITORING_SECRET_NAME"@);
    assert(names[4] == "POSTGRESQL_MONITORING_SSLMODE"@);
    assert(names[5] == "POSTGRESQL_MONITORING_USER"@);
}

proof fn lemma_number_keys(key: Seq<char>)
    ensures
        is_number_key(key) == (key == "COLLECT_INTERVAL_SECS"@ || key == "HTTP_TIMEOUT_SECS"@ || key == "LEASE_TTL_SECS"@ || key == "POLL_WAIT_SECS"@ || key == "TETRAGON_GRPC_PORT"@ || key == "POSTGRESQL_MONITORING_PORT"@),
{
    let names = number_keys();
    assert(names[0] == "COLLECT_INTERVAL_SECS"@);
    assert(names[1] == "HTTP_TIMEOUT_SECS"@);
    assert(names[2] == "LEASE_TTL_SECS"@);
    assert(names[3] == "POLL_WAIT_SECS"@);
    assert(names[4] == "TETRAGON_GRPC_PORT"@);
    assert(names[5] == "POSTGRESQL_MONITORING_PORT"@);
}

/// A key that is shown as plain text.
pub open spec fn is_text_key(key: Seq<char>) -> bool {
    key == "CLUSTER_ID"@
        || key == "LEASE_NAME"@
        || key == "TETRAGON_GRPC_ADDRESS"@
        || key == "TETRAGON_SERVICE_NAME"@
        || key == "TETRAGON_SERVICE_NAMESPACE"@
        || key == "POSTGRESQL_MONITORING_NAMESPACES"@
        || key == "WORKLOAD_MONITORING_ENABLED"@
        || key == "WORKLOAD_MONITORING_NAMESPACES"@
        || key == "WORKLOAD_MONITORING_TARGETS"@
}

/// No bounded text is a flag, nor the log filter.
proof fn lemma_bounded_keys_apart(key: Seq<char>)
    ensures
        is_bounded_key(key) ==> !is_flag_key(key) && key != "AGENT_LOG"@,
{
    reveal_strlit("ACTIONS_ENABLED");
    reveal_strlit("AGENT_HTTP_DEBUG");
    reveal_strlit("AGENT_HTTP_DEBUG_BODIES");
    reveal_strlit("COLLECT_DEPENDENCIES_TETRAGON");
    reveal_strlit("TETRAGON_ENDPOINT_DISCOVERY_ENABLED");
    reveal_strlit("COLLECT_SECRETS");
    reveal_strlit("FULL_DEBUG");
    reveal_strlit("READONLY_COMMANDS_ENABLED");
    reveal_strlit("POSTGRESQL_MONITORING_ENABLED");
    reveal_strlit("TECH_DETECT_PROCESS");
    reveal_strlit("AGENT_VERSION_OVERRIDE");
    reveal_strlit("POSTGRESQL_MONITORING_DATABASE");
    reveal_strlit("POSTGRESQL_MONITORING_HOST");
    reveal_strlit("POSTGRESQL_MONITORING_SECRET_NAME");
    reveal_strlit("POSTGRESQL_MONITORING_SSLMODE");
    reveal_strlit("POSTGRESQL_MONITORING_USER");
    reveal_strlit("AGENT_LOG");
    assert("POSTGRESQL_MONITORING_SSLMODE"@[0] != "COLLECT_DEPENDENCIES_TETRAGON"@[0]);
    assert("POSTGRESQL_MONITORING_SSLMODE"@[22] != "POSTGRESQL_MONITORING_ENABLED"@[22]);
    lemma_flag_keys(key);
    lemma_bounded_keys(key);
    if key == "AGENT_VERSION_OVERRIDE"@ {
        assert(key.len() == 22);
    }
    if key == "POSTGRESQL_MONITORING_DATABASE"@ {
        assert(key.len() == 30);
    }
    if key == "POSTGRESQL_MONITORING_HOST"@ {
        assert(key.len() == 26);
    }
    if key == "POSTGRESQL_MONITORING_SECRET_NAME"@ {
        assert(key.len() == 33);
    }
    if key == "POSTGRESQL_MONITORING_SSLMODE"@ {
        assert(key.len() == 29);
    }
    if key == "POSTGRESQL_MONITORING_USER"@ {
        assert(key.len() == 26);
    }
}

/// No number is a flag, a bounded text or the log filter.
proof fn lemma_number_keys_apart(key: Seq<char>)
    ensures
        is_number_key(key) ==> !is_flag_key(key) && !is_bounded_key(key) && key != "AGENT_LOG"@,
{
    reveal_strlit("ACTIONS_ENABLED");
    reveal_strlit("AGENT_HTTP_DEBUG");
    reveal_strlit("AGENT_HTTP_DEBUG_BODIES");
    reveal_strlit("COLLECT_DEPENDENCIES_TETRAGON");
    reveal_strlit("TETRAGON_ENDPOINT_DISCOVERY_ENABLED");
    reveal_strlit("COLLECT_SECRETS");
    reveal_strlit("FULL_DEBUG");
    reveal_strlit("READONLY_COMMANDS_ENABLED");
    reveal_strlit("POSTGRESQL_MONITORING_ENABLED");
    reveal_strlit("TECH_DETECT_PROCESS");
    reveal_strlit("AGENT_VERSION_OVERRIDE");
    reveal_strlit("POSTGRESQL_MONITORING_DATABASE");
    reveal_strlit("POSTGRESQL_MONITORING_HOST");
    reveal_strlit("POSTGRESQL_MONITORING_SECRET_NAME");
    reveal_strlit("POSTGRESQL_MONITORING_SSLMODE");
    reveal_strlit("POSTGRESQL_MONITORING_USER");
    reveal_strlit("COLLECT_INTERVAL_SECS");
    reveal_strlit("HTTP_TIMEOUT_SECS");
    reveal_strlit("LEASE_TTL_SECS");
    reveal_strlit("POLL_WAIT_SECS");
    reveal_strlit("TETRAGON_GRPC_PORT");
    reveal_strlit("POSTGRESQL_MONITORING_PORT");
    reveal_strlit("AGENT_LOG");
    assert("POSTGRESQL_MONITORING_PORT"@[22] != "POSTGRESQL_MONITORING_HOST"@[22]);
    assert("POSTGRESQL_MONITORING_PORT"@[22] != "POSTGRESQL_MONITORING_USER"@[22]);
    lemma_flag_keys(key);
    lemma_bounded_keys(key);
    lemma_number_keys(key);
    if key == "COLLECT_INTERVAL_SECS"@ {
        assert(key.len() == 21);
    }
    if key == "HTTP_TIMEOUT_SECS"@ {
        assert(key.len() == 17);
    }
    if key == "LEASE_TTL_SECS"@ {
        assert(key.len() == 14);
    }
    if key == "POLL_WAIT_SECS"@ {
        assert(key.len() == 14);
    }
    if key == "TETRAGON_GRPC_PORT"@ {
        assert(key.len() == 18);
    }
    if key == "POSTGRESQL_MONITORING_PORT"@ {
        assert(key.len() == 26);
    }
}

/// No plain text is a flag, a bounded text, a number, the log filter or the URL.
proof fn lemma_text_keys_apart(key: Seq<char>)
    ensures
        is_text_key(key) ==> !is_flag_key(key) && !is_bounded_key(key) && !is_number_key(key) && key != "AGENT_LOG"@
            && key != "HUB_URL"@,
{
    reveal_strlit("ACTIONS_ENABLED");
    reveal_strlit("AGENT_HTTP_DEBUG");
    reveal_strlit("AGENT_HTTP_DEBUG_BODIES");
    reveal_strlit("COLLECT_DEPENDENCIES_TETRAGON");
    reveal_strlit("TETRAGON_ENDPOINT_DISCOVERY_ENABLED");
    reveal_strlit("COLLECT_SECRETS");
    reveal_strlit("FULL_DEBUG");
    reveal_strlit("READONLY_COMMANDS_ENABLED");
    reveal_strlit("POSTGRESQL_MONITORING_ENABLED");
    reveal_strlit("TECH_DETECT_PROCESS");
    reveal_strlit("AGENT_VERSION_OVERRIDE");
    reveal_strlit("POSTGRESQL_MONITORING_DATABASE");
    reveal_strlit("POSTGRESQL_MONITORING_HOST");
    reveal_strlit("POSTGRESQL_MONITORING_SECRET_NAME");
    reveal_strlit("POSTGRESQL_MONITORING_SSLMODE");
    reveal_strlit("POSTGRESQL_MONITORING_USER");
    reveal_strlit("COLLECT_INTERVAL_SECS");
    reveal_strlit("HTTP_TIMEOUT_SECS");
    reveal_strlit("LEASE_TTL_SECS");
    reveal_strlit("POLL_WAIT_SECS");
    reveal_strlit("TETRAGON_GRPC_PORT");
    reveal_strlit("POSTGRESQL_MONITORING_PORT");
    reveal_strlit("CLUSTER_ID");
    reveal_strlit("LEASE_NAME");
    reveal_strlit("TETRAGON_GRPC_ADDRESS");
    reveal_strlit("TETRAGON_SERVICE_NAME");
    reveal_strlit("TETRAGON_SERVICE_NAMESPACE");
    reveal_strlit("POSTGRESQL_MONITORING_NAMESPACES");
    reveal_strlit("WORKLOAD_MONITORING_ENABLED");
    reveal_strlit("WORKLOAD_MONITORING_NAMESPACES");
    reveal_strlit("WORKLOAD_MONITORING_TARGETS");
    reveal_strlit("AGENT_LOG");
    reveal_strlit("HUB_URL");
    assert("CLUSTER_ID"@[0] != "FULL_DEBUG"@[0]);
    assert("LEASE_NAME"@[0] != "FULL_DEBUG"@[0]);
    assert("TETRAGON_GRPC_ADDRESS"@[0] != "COLLECT_INTERVAL_SECS"@[0]);
    assert("TETRAGON_SERVICE_NAME"@[0] != "COLLECT_INTERVAL_SECS"@[0]);
    assert("TETRAGON_SERVICE_NAMESPACE"@[0] != "POSTGRESQL_MONITORING_HOST"@[0]);
    assert("TETRAGON_SERVICE_NAMESPACE"@[0] != "POSTGRESQL_MONITORING_USER"@[0]);
    assert("TETRAGON_SERVICE_NAMESPACE"@[0] != "POSTGRESQL_MONITORING_PORT"@[0]);
    assert("WORKLOAD_MONITORING_NAMESPACES"@[0] != "POSTGRESQL_MONITORING_DATABASE"@[0]);
    lemma_flag_keys(key);
    lemma_bounded_keys(key);
    lemma_number_keys(key);
    if key == "CLUSTER_ID"@ {
        assert(key.len() == 10);
    }
    if key == "LEASE_NAME"@ {
        assert(key.len() == 10);
    }
    if key == "TETRAGON_GRPC_ADDRESS"@ {
        assert(key.len() == 21);
    }
    if key == "TETRAGON_SERVICE_NAME"@ {
        assert(key.len() == 21);
    }
    if key == "TETRAGON_SERVICE_NAMESPACE"@ {
        assert(key.len() == 26);
    }
    if key == "POSTGRESQL_MONITORING_NAMESPACES"@ {
        assert(key.len() == 32);
    }
    if key == "WORKLOAD_MONITORING_ENABLED"@ {
        assert(key.len() == 27);
    }
    if key == "WORKLOAD_MONITORING_NAMESPACES"@ {
        assert(key.len() == 30);
    }
    if key == "WORKLOAD_MONITORING_TARGETS"@ {
        assert(key.len() == 27);
    }
}

/// A list of namespaces is shown under a key of its own.
proof fn lemma_list_keys_apart(key: Seq<char>)
    ensures
        key == "POSTGRESQL_MONITORING_NAMESPACES"@ || key == "WORKLOAD_MONITORING_NAMESPACES"@ ==> !is_flag_key(key)
            && !is_bounded_key(key) && !is_number_key(key) && key != "AGENT_LOG"@ && key != "HUB_URL"@ && key
            != "CLUSTER_ID"@ && key != "LEASE_NAME"@ && key != "TETRAGON_GRPC_ADDRESS"@ && key != "TETRAGON_SERVICE_NAME"@
            && key != "TETRAGON_SERVICE_NAMESPACE"@ && key != "WORKLOAD_MONITORING_ENABLED"@ && key
            != "WORKLOAD_MONITORING_TARGETS"@,
        "POSTGRESQL_MONITORING_NAMESPACES"@ != "WORKLOAD_MONITORING_NAMESPACES"@,
{
    reveal_strlit("CLUSTER_ID");
    reveal_strlit("LEASE_NAME");
    reveal_strlit("TETRAGON_GRPC_ADDRESS");
    reveal_strlit("TETRAGON_SERVICE_NAME");
    reveal_strlit("TETRAGON_SERVICE_NAMESPACE");
    reveal_strlit("WORKLOAD_MONITORING_ENABLED");
    reveal_strlit("WORKLOAD_MONITORING_TARGETS");
    reveal_strlit("POSTGRESQL_MONITORING_NAMESPACES");
    reveal_strlit("WORKLOAD_MONITORING_NAMESPACES");
    assert("POSTGRESQL_MONITORING_NAMESPACES"@.len() == 32);
    assert("WORKLOAD_MONITORING_NAMESPACES"@.len() == 30);
    lemma_text_keys_apart(key);
    lemma_flag_keys(key);
    lemma_bounded_keys(key);
    lemma_number_keys(key);
}

/// The log filter and the URL are neither flags, bounded texts nor numbers.
proof fn lemma_single_keys_apart()
    ensures
        !is_flag_key("AGENT_LOG"@),
        !is_flag_key("HUB_URL"@) && !is_bounded_key("HUB_URL"@) && !is_number_key("HUB_URL"@) && "HUB_URL"@
            != "AGENT_LOG"@,
{
    reveal_strlit("ACTIONS_ENABLED");
    reveal_strlit("AGENT_HTTP_DEBUG");
    reveal_strlit("AGENT_HTTP_DEBUG_BODIES");
    reveal_strlit("COLLECT_DEPENDENCIES_TETRAGON");
    reveal_strlit("TETRAGON_ENDPOINT_DISCOVERY_ENABLED");
    reveal_strlit("COLLECT_SECRETS");
    reveal_strlit("FULL_DEBUG");
    reveal_strlit("READONLY_COMMANDS_ENABLED");
    reveal_strlit("POSTGRESQL_MONITORING_ENABLED");
    reveal_strlit("TECH_DETECT_PROCESS");
    reveal_strlit("AGENT_VERSION_OVERRIDE");
    reveal_strlit("POSTGRESQL_MONITORING_DATABASE");
    reveal_strlit("POSTGRESQL_MONITORING_HOST");
    reveal_strlit("POSTGRESQL_MONITORING_SECRET_NAME");
    reveal_strlit("POSTGRESQL_MONITORING_SSLMODE");
    reveal_strlit("POSTGRESQL_MONITORING_USER");
    reveal_strlit("COLLECT_INTERVAL_SECS");
    reveal_strlit("HTTP_TIMEOUT_SECS");
    reveal_strlit("LEASE_TTL_SECS");
    reveal_strlit("POLL_WAIT_SECS");
    reveal_strlit("TETRAGON_GRPC_PORT");
    reveal_strlit("POSTGRESQL_MONITORING_PORT");
    reveal_strlit("AGENT_LOG");
    reveal_strlit("HUB_URL");
    assert("AGENT_LOG"@.len() == 9);
    assert("HUB_URL"@.len() == 7);
    lemma_flag_keys("AGENT_LOG"@);
    lemma_flag_keys("HUB_URL"@);
    lemma_bounded_keys("HUB_URL"@);
    lemma_number_keys("HUB_URL"@);
}

proof fn lemma_flag_reads_back(value: bool)
    ensures
        text::is_trimmed(flag_text(value)),
        flag_text(is_on(text::trimmed(flag_text(value)))) == flag_text(value),
{
    reveal_strlit("true");
    reveal_strlit("false");
    reveal_strlit("1");
    text::lemma_is_trimmed(flag_text(value));
}

proof fn lemma_bounded_reads_back(v: Seq<char>)
    ensures
        bounded_text(text::trimmed(v)) == Some(v) <==> is_bounded(Some(v)),
{
    text::lemma_is_trimmed(v);
    text::lemma_trimmed_idempotent(v);
}

proof fn lemma_url_reads_back(v: Seq<char>)
    ensures
        without_end_slashes(text::trimmed(v)) == v <==> text::is_trimmed(v) && (v.len() > 0 ==> v.last() != '/'),
{
    text::lemma_is_trimmed(v);
    text::lemma_trimmed_idempotent(v);
    lemma_without_end_slashes(text::trimmed(v));
    if without_end_slashes(text::trimmed(v)) == v {
        assert(text::trimmed(v).len() == v.len());
    }
}

proof fn lemma_without_end_slashes(s: Seq<char>)
    ensures
        without_end_slashes(s).len() <= s.len(),
        without_end_slashes(s).len() == s.len() ==> without_end_slashes(s) == s,
        without_end_slashes(s).len() > 0 ==> without_end_slashes(s).last() != '/',
    decreases s.len(),
{
    if s.len() > 0 && s.last() == '/' {
        lemma_without_end_slashes(s.drop_last());
    }
}

/// A setting that stands as it would be configured is shown as before.
proof fn lemma_reads_back(cfg: ConfigView, key: Seq<char>)
    requires
        texts_stand(cfg),
        list_stands(cfg, key),
    ensures
        reads_back(cfg, key),
{
    lemma_bounded_keys_apart(key);
    lemma_number_keys_apart(key);
    lemma_text_keys_apart(key);
    lemma_single_keys_apart();
    lemma_flag_keys(key);
    lemma_bounded_keys(key);
    lemma_number_keys(key);
    if let Some(v) = runtime_value(cfg, key) {
        text::lemma_is_trimmed(v);
        lemma_bounded_reads_back(v);
        lemma_url_reads_back(v);
        if is_flag_key(key) {
            lemma_flag_reads_back(cfg.actions_enabled);
            lemma_flag_reads_back(cfg.readonly_commands_enabled);
            lemma_flag_reads_back(cfg.http_debug);
            lemma_flag_reads_back(cfg.http_debug_bodies);
            lemma_flag_reads_back(cfg.collect_dependencies_tetragon);
            lemma_flag_reads_back(cfg.tetragon_endpoint_discovery_enabled);
            lemma_flag_reads_back(cfg.collect_secrets);
            lemma_flag_reads_back(cfg.full_debug);
            lemma_flag_reads_back(cfg.tech_detect_process);
            lemma_flag_reads_back(cfg.postgresql_monitoring_enabled);
        } else if is_number_key(key) {
            text::lemma_decimal_is_trimmed(cfg.collect_interval as nat, u16::MAX as nat);
            text::lemma_decimal_is_trimmed(cfg.http_timeout as nat, u16::MAX as nat);
            text::lemma_decimal_is_trimmed(cfg.lease_ttl as nat, u16::MAX as nat);
            text::lemma_decimal_is_trimmed(cfg.poll_wait as nat, u16::MAX as nat);
            text::lemma_decimal_is_trimmed(cfg.tetragon_grpc_port as nat, u16::MAX as nat);
            text::lemma_decimal_is_trimmed(cfg.postgresql_monitoring_port->0 as nat, u16::MAX as nat);
        } else {
            lemma_flag_reads_back(cfg.workload_monitoring_enabled);
        }
    }
}

/// The settings that the agent shows, configured as they are shown, are shown as before where each
/// of them is.
proof fn lemma_all_read_back(cfg: ConfigView)
    requires
        forall|i: int| 0 <= i < allowlist().len() ==> reads_back(cfg, #[trigger] allowlist()[i]),
    ensures
        configured_env(runtime_env(cfg)) == runtime_env(cfg),
{
    let keys = allowlist();
    let shown = runtime_env(cfg);
    let f = |key: Seq<char>|
        match runtime_value(cfg, key) {
            Some(value) => Some(KVView { key, value }),
            None => None,
        };
    let g = |key: Seq<char>|
        match pairs::value_of(shown, key) {
            Some(raw) => match configured_value(key, raw) {
                Some(value) => Some(KVView { key, value }),
                None => None,
            },
            None => None,
        };
    assert(shown == keys.filter_map(f));
    assert(configured_env(shown) == keys.filter_map(g));
    assert forall|i: int| 0 <= i < keys.len() implies g(#[trigger] keys[i]) == f(keys[i]) by {
        pairs::lemma_value_of_filter_map(keys, f, keys[i]);
        assert(keys.contains(keys[i]));
        assert(reads_back(cfg, allowlist()[i]));
    }
    pairs::lemma_same_filter_map(keys, g, f);
}

/// The settings as the agent runs with them, taken as configured, are the same settings: whoever
/// compares what the agent runs with to what is configured sees no difference where there is none.
/// This holds of settings whose texts stand as they would be configured.
pub proof fn lemma_settings_read_back(cfg: ConfigView)
    requires
        texts_stand(cfg),
        is_shown_trimmed(cfg.workload_monitoring_namespaces),
        is_shown_trimmed(cfg.postgresql_monitoring_namespaces),
    ensures
        configured_env(runtime_env(cfg)) == runtime_env(cfg),
{
    assert forall|i: int| 0 <= i < allowlist().len() implies reads_back(cfg, #[trigger] allowlist()[i]) by {
        lemma_reads_back(cfg, allowlist()[i]);
    }
    lemma_all_read_back(cfg);
}

/// Of the settings that an environment holds, the names, the addresses and the URL alone can fail
/// to stand as they would be configured, and do so only for white space at their ends.
pub proof fn lemma_environment_stands(env: Seq<KVView>)
    ensures
        texts_stand(settings_of(env)) <==> names_are_trimmed(settings_of(env)),
{
    let cfg = settings_of(env);
    reveal_strlit("info");
    lemma_without_end_slashes(pairs::value_of(env, "HUB_URL"@)->0);
    text::lemma_trimmed_idempotent(pairs::value_of(env, "AGENT_LOG"@)->0);
    lemma_text_setting(pairs::value_of(env, "AGENT_VERSION_OVERRIDE"@));
    lemma_text_setting(pairs::value_of(env, "POSTGRESQL_MONITORING_DATABASE"@));
    lemma_text_setting(pairs::value_of(env, "POSTGRESQL_MONITORING_HOST"@));
    lemma_text_setting(pairs::value_of(env, "POSTGRESQL_MONITORING_SECRET_NAME"@));
    lemma_text_setting(pairs::value_of(env, "POSTGRESQL_MONITORING_SSLMODE"@));
    lemma_text_setting(pairs::value_of(env, "POSTGRESQL_MONITORING_USER"@));
    lemma_targets_are_trimmed(pairs::value_of(env, "WORKLOAD_MONITORING_TARGETS"@));
    text::lemma_joined_is_trimmed(cfg.workload_monitoring_targets);
}

/// The settings of an environment, as the agent runs with them, are the same settings when taken
/// as configured: unless a name, an address, the URL or a list is shown with white space at its
/// ends, which a value that is configured never is.
pub proof fn lemma_environment_reads_back(env: Seq<KVView>)
    requires
        names_are_trimmed(settings_of(env)),
        is_shown_trimmed(settings_of(env).workload_monitoring_namespaces),
        is_shown_trimmed(settings_of(env).postgresql_monitoring_namespaces),
    ensures
        configured_env(runtime_env(settings_of(env))) == runtime_env(settings_of(env)),
{
    lemma_environment_stands(env);
    lemma_settings_read_back(settings_of(env));
}

proof fn lemma_text_setting(value: Option<Seq<char>>)
    ensures
        is_bounded(text_setting(value)),
{
    if let Some(v) = value {
        text::lemma_trimmed_idempotent(v);
    }
}

proof fn lemma_targets_are_trimmed(value: Option<Seq<char>>)
    ensures
        are_trimmed(csv_setting(value, default_targets())),
{
    reveal_strlit("angular");
    reveal_strlit("spring_boot");
    reveal_strlit("oracle_database");
    if let Some(v) = value {
        let f = |p: Seq<char>| if text::trimmed(p).len() == 0 { None } else { Some(text::trimmed(p)) };
        let items = csv_values(v);
        assert(items == text::pieces(v, ',').filter_map(f));
        assert forall|i: int| 0 <= i < items.len() implies text::is_trimmed(#[trigger] items[i]) by {
            assert(items.contains(items[i]));
            text::pieces(v, ',').lemma_filter_map_contains(f, items[i]);
            let p = choose|p: Seq<char>| #[trigger] text::pieces(v, ',').contains(p) && f(p) == Some(items[i]);
            text::lemma_trimmed_idempotent(p);
        }
    }
}

// ------------------------------------------------------------- what it is for

/// No pair has the key.
pub open spec fn gives_none(env: Seq<KVView>, key: Seq<char>) -> bool {
    forall|i: int| 0 <= i < env.len() ==> (#[trigger] env[i]).key != key
}

/// A switch is on where its word says so, or where it is on by itself and nothing is said.
pub open spec fn switched_on(env: Seq<KVView>, key: Seq<char>, fallback: bool) -> bool {
    pairs::gives_value(env, key, "true"@) || pairs::gives_value(env, key, "1"@) || (fallback && gives_none(env, key))
}

proof fn lemma_switch(env: Seq<KVView>, key: Seq<char>, fallback: bool)
    ensures
        flag_setting(pairs::value_of(env, key), fallback) <==> switched_on(env, key, fallback),
{
    pairs::lemma_value_is_the_first(env, key, "true"@);
    pairs::lemma_value_is_the_first(env, key, "1"@);
}

/// Each switch is thrown by its own word, and rests where it does by itself: the agent changes
/// nothing, reads no secrets and follows no flows unless it is told to.
pub proof fn lemma_switches_by_key(env: Seq<KVView>)
    ensures
        ({
            let cfg = settings_of(env);
            &&& cfg.actions_enabled <==> switched_on(env, "ACTIONS_ENABLED"@, false)
            &&& cfg.action_operator_enabled <==> switched_on(env, "ACTION_OPERATOR_ENABLED"@, false)
            &&& cfg.readonly_commands_enabled <==> switched_on(env, "READONLY_COMMANDS_ENABLED"@, false)
            &&& cfg.collect_secrets <==> switched_on(env, "COLLECT_SECRETS"@, false)
            &&& cfg.collect_dependencies_tetragon <==> switched_on(env, "COLLECT_DEPENDENCIES_TETRAGON"@, false)
            &&& cfg.tetragon_endpoint_discovery_enabled <==> switched_on(
                env,
                "TETRAGON_ENDPOINT_DISCOVERY_ENABLED"@,
                true,
            )
            &&& cfg.tetragon_required_for_readiness <==> switched_on(env, "TETRAGON_REQUIRED_FOR_READINESS"@, true)
            &&& cfg.full_debug <==> switched_on(env, "FULL_DEBUG"@, false)
            &&& cfg.http_debug <==> switched_on(env, "FULL_DEBUG"@, false) || switched_on(env, "AGENT_HTTP_DEBUG"@, false)
            &&& cfg.http_debug_bodies <==> switched_on(env, "FULL_DEBUG"@, false) || switched_on(
                env,
                "AGENT_HTTP_DEBUG_BODIES"@,
                false,
            )
            &&& cfg.tech_detect_process <==> switched_on(env, "TECH_DETECT_PROCESS"@, false)
            &&& cfg.workload_monitoring_enabled <==> switched_on(env, "WORKLOAD_MONITORING_ENABLED"@, false)
            &&& cfg.app_metrics_enabled <==> switched_on(env, "APP_METRICS_ENABLED"@, false)
            &&& cfg.app_metrics_discovery_enabled <==> switched_on(env, "APP_METRICS_DISCOVERY_ENABLED"@, true)
            &&& cfg.postgresql_monitoring_enabled <==> switched_on(env, "POSTGRESQL_MONITORING_ENABLED"@, false)
        }),
{
    lemma_switch(env, "ACTIONS_ENABLED"@, false);
    lemma_switch(env, "ACTION_OPERATOR_ENABLED"@, false);
    lemma_switch(env, "READONLY_COMMANDS_ENABLED"@, false);
    lemma_switch(env, "COLLECT_SECRETS"@, false);
    lemma_switch(env, "COLLECT_DEPENDENCIES_TETRAGON"@, false);
    lemma_switch(env, "TETRAGON_ENDPOINT_DISCOVERY_ENABLED"@, true);
    lemma_switch(env, "TETRAGON_REQUIRED_FOR_READINESS"@, true);
    lemma_switch(env, "FULL_DEBUG"@, false);
    lemma_switch(env, "AGENT_HTTP_DEBUG"@, false);
    lemma_switch(env, "AGENT_HTTP_DEBUG_BODIES"@, false);
    lemma_switch(env, "TECH_DETECT_PROCESS"@, false);
    lemma_switch(env, "WORKLOAD_MONITORING_ENABLED"@, false);
    lemma_switch(env, "APP_METRICS_ENABLED"@, false);
    lemma_switch(env, "APP_METRICS_DISCOVERY_ENABLED"@, true);
    lemma_switch(env, "POSTGRESQL_MONITORING_ENABLED"@, false);
}

/// A setting is the number that is written for it, or what it is by itself where nothing is.
pub open spec fn is_number_set(setting: u64, env: Seq<KVView>, key: Seq<char>, n: u64, fallback: u64) -> bool {
    (pairs::gives_value(env, key, text::decimal_of(n as nat)) ==> setting == n) && (gives_none(env, key) ==> setting == fallback)
}

proof fn lemma_number(env: Seq<KVView>, key: Seq<char>, n: u64, fallback: u64)
    ensures
        is_number_set(secs_setting(pairs::value_of(env, key), fallback), env, key, n, fallback),
{
    text::lemma_decimal_read_back(n as nat, u64::MAX as nat);
    pairs::lemma_value_is_the_first(env, key, text::decimal_of(n as nat));
}

/// Each number is set by its own word.
pub proof fn lemma_numbers_by_key(env: Seq<KVView>, n: u64)
    ensures
        ({
            let cfg = settings_of(env);
            &&& is_number_set(cfg.collect_interval, env, "COLLECT_INTERVAL_SECS"@, n, 60)
            &&& is_number_set(cfg.poll_wait, env, "POLL_WAIT_SECS"@, n, 30)
            &&& is_number_set(cfg.action_operator_poll_interval, env, "ACTION_OPERATOR_POLL_INTERVAL_SECS"@, n, 60)
            &&& is_number_set(cfg.http_timeout, env, "HTTP_TIMEOUT_SECS"@, n, 20)
            &&& is_number_set(cfg.lease_ttl, env, "LEASE_TTL_SECS"@, n, 30)
            &&& is_number_set(cfg.app_metrics_timeout, env, "APP_METRICS_TIMEOUT_SECS"@, n, 3)
            &&& is_number_set(cfg.app_metrics_max_samples, env, "APP_METRICS_MAX_SAMPLES"@, n, 500)
        }),
{
    lemma_number(env, "COLLECT_INTERVAL_SECS"@, n, 60);
    lemma_number(env, "POLL_WAIT_SECS"@, n, 30);
    lemma_number(env, "ACTION_OPERATOR_POLL_INTERVAL_SECS"@, n, 60);
    lemma_number(env, "HTTP_TIMEOUT_SECS"@, n, 20);
    lemma_number(env, "LEASE_TTL_SECS"@, n, 30);
    lemma_number(env, "APP_METRICS_TIMEOUT_SECS"@, n, 3);
    lemma_number(env, "APP_METRICS_MAX_SAMPLES"@, n, 500);
}

/// A setting is the text that is written for it, or what it is by itself where nothing is.
pub open spec fn is_text_set(
    setting: Seq<char>,
    env: Seq<KVView>,
    key: Seq<char>,
    text: Seq<char>,
    fallback: Seq<char>,
) -> bool {
    (pairs::gives_value(env, key, text) ==> setting == text) && (gives_none(env, key) ==> setting == fallback)
}

/// Each text is set by its own word; the key to the hub is none where it is empty.
pub proof fn lemma_texts_by_key(env: Seq<KVView>, text: Seq<char>)
    ensures
        ({
            let cfg = settings_of(env);
            &&& pairs::gives_value(env, "CLUSTER_ID"@, text) ==> cfg.cluster_id == text
            &&& pairs::gives_value(env, "HUB_API_KEY"@, text) && text.len() > 0 ==> cfg.api_key == Some(text)
            &&& pairs::gives_value(env, "HUB_API_KEY"@, text) && text.len() == 0 ==> cfg.api_key is None
            &&& gives_none(env, "HUB_API_KEY"@) ==> cfg.api_key is None
            &&& is_text_set(cfg.pod_name, env, "POD_NAME"@, text, "unknown"@)
            &&& is_text_set(cfg.pod_namespace, env, "POD_NAMESPACE"@, text, "default"@)
            &&& is_text_set(cfg.node_name, env, "NODE_NAME"@, text, "unknown-node"@)
            &&& is_text_set(cfg.lease_name, env, "LEASE_NAME"@, text, "sentinella-hub-k8s-agent-leader"@)
            &&& is_text_set(cfg.tetragon_service_namespace, env, "TETRAGON_SERVICE_NAMESPACE"@, text, "tetragon"@)
            &&& is_text_set(cfg.tetragon_service_name, env, "TETRAGON_SERVICE_NAME"@, text, "tetragon-grpc"@)
            &&& is_text_set(
                cfg.tetragon_grpc_address,
                env,
                "TETRAGON_GRPC_ADDRESS"@,
                text,
                "tetragon-grpc.tetragon.svc.cluster.local:54321"@,
            )
        }),
{
    pairs::lemma_value_is_the_first(env, "CLUSTER_ID"@, text);
    pairs::lemma_value_is_the_first(env, "HUB_API_KEY"@, text);
    pairs::lemma_value_is_the_first(env, "POD_NAME"@, text);
    pairs::lemma_value_is_the_first(env, "POD_NAMESPACE"@, text);
    pairs::lemma_value_is_the_first(env, "NODE_NAME"@, text);
    pairs::lemma_value_is_the_first(env, "LEASE_NAME"@, text);
    pairs::lemma_value_is_the_first(env, "TETRAGON_SERVICE_NAMESPACE"@, text);
    pairs::lemma_value_is_the_first(env, "TETRAGON_SERVICE_NAME"@, text);
    pairs::lemma_value_is_the_first(env, "TETRAGON_GRPC_ADDRESS"@, text);
}

/// What is told of a database is taken without white space at its ends, and not where it is blank or
/// longer than may be.
pub proof fn lemma_database_settings_by_key(env: Seq<KVView>, text: Seq<char>, port: u16)
    requires
        0 < text::trimmed(text).len(),
        vstd::utf8::encode_utf8(text::trimmed(text)).len() <= 128,
    ensures
        ({
            let cfg = settings_of(env);
            &&& pairs::gives_value(env, "POSTGRESQL_MONITORING_SECRET_NAME"@, text) ==> cfg.postgresql_monitoring_secret_name
                == Some(text::trimmed(text))
            &&& pairs::gives_value(env, "POSTGRESQL_MONITORING_HOST"@, text) ==> cfg.postgresql_monitoring_host == Some(
                text::trimmed(text),
            )
            &&& pairs::gives_value(env, "POSTGRESQL_MONITORING_USER"@, text) ==> cfg.postgresql_monitoring_user == Some(
                text::trimmed(text),
            )
            &&& pairs::gives_value(env, "POSTGRESQL_MONITORING_PASSWORD"@, text) ==> cfg.postgresql_monitoring_password == Some(
                text::trimmed(text),
            )
            &&& pairs::gives_value(env, "POSTGRESQL_MONITORING_DATABASE"@, text) ==> cfg.postgresql_monitoring_database == Some(
                text::trimmed(text),
            )
            &&& pairs::gives_value(env, "POSTGRESQL_MONITORING_SSLMODE"@, text) ==> cfg.postgresql_monitoring_sslmode == Some(
                text::trimmed(text),
            )
            &&& pairs::gives_value(env, "POSTGRESQL_MONITORING_SSLROOTCERT"@, text) ==> cfg.postgresql_monitoring_sslrootcert
                == Some(text::trimmed(text))
            &&& pairs::gives_value(env, "AGENT_VERSION_OVERRIDE"@, text) ==> cfg.agent_version_override == Some(text::trimmed(text))
            &&& pairs::gives_value(env, "AGENT_LOG"@, text) ==> cfg.agent_log == text::trimmed(text)
            &&& pairs::gives_value(env, "POSTGRESQL_MONITORING_PORT"@, text::decimal_of(port as nat)) ==> cfg.postgresql_monitoring_port
                == Some(port)
            &&& gives_none(env, "POSTGRESQL_MONITORING_PORT"@) ==> cfg.postgresql_monitoring_port is None
            &&& pairs::gives_value(env, "TETRAGON_GRPC_PORT"@, text::decimal_of(port as nat)) ==> cfg.tetragon_grpc_port == port
            &&& gives_none(env, "TETRAGON_GRPC_PORT"@) ==> cfg.tetragon_grpc_port == 54321
            &&& gives_none(env, "POSTGRESQL_MONITORING_PASSWORD"@) ==> cfg.postgresql_monitoring_password is None
            &&& gives_none(env, "AGENT_LOG"@) ==> cfg.agent_log == "info"@
        }),
{
    text::lemma_decimal_read_back(port as nat, u16::MAX as nat);
    text::lemma_decimal_is_trimmed(port as nat, u16::MAX as nat);
    text::lemma_is_trimmed(text::decimal_of(port as nat));
    pairs::lemma_value_is_the_first(env, "POSTGRESQL_MONITORING_SECRET_NAME"@, text);
    pairs::lemma_value_is_the_first(env, "POSTGRESQL_MONITORING_HOST"@, text);
    pairs::lemma_value_is_the_first(env, "POSTGRESQL_MONITORING_USER"@, text);
    pairs::lemma_value_is_the_first(env, "POSTGRESQL_MONITORING_PASSWORD"@, text);
    pairs::lemma_value_is_the_first(env, "POSTGRESQL_MONITORING_DATABASE"@, text);
    pairs::lemma_value_is_the_first(env, "POSTGRESQL_MONITORING_SSLMODE"@, text);
    pairs::lemma_value_is_the_first(env, "POSTGRESQL_MONITORING_SSLROOTCERT"@, text);
    pairs::lemma_value_is_the_first(env, "AGENT_VERSION_OVERRIDE"@, text);
    pairs::lemma_value_is_the_first(env, "AGENT_LOG"@, text);
    pairs::lemma_value_is_the_first(env, "POSTGRESQL_MONITORING_PORT"@, text::decimal_of(port as nat));
    pairs::lemma_value_is_the_first(env, "TETRAGON_GRPC_PORT"@, text::decimal_of(port as nat));
}

/// Slashes at the end of the hub's address are left away, all of them and nothing else.
pub proof fn lemma_end_slashes_go(s: Seq<char>, n: nat)
    requires
        s.len() > 0 ==> s.last() != '/',
    ensures
        without_end_slashes(s + Seq::new(n, |i: int| '/')) == s,
    decreases n,
{
    let whole = s + Seq::new(n, |i: int| '/');
    if n > 0 {
        let k = (n - 1) as nat;
        lemma_end_slashes_go(s, k);
        assert(whole.drop_last() =~= s + Seq::new(k, |i: int| '/'));
        assert(whole.last() == '/');
    } else {
        assert(whole =~= s);
    }
}

/// A list with commas holds what stands between them, without white space at its ends, and nothing
/// blank.
pub proof fn lemma_lists_by_comma(raw: Seq<char>, item: Seq<char>)
    ensures
        csv_values(raw).contains(item) <==> item.len() > 0 && exists|i: int|
            0 <= i < text::pieces(raw, ',').len() && text::trimmed(#[trigger] text::pieces(raw, ',')[i]) == item,
        csv_setting(None, seq![item]) == seq![item],
        csv_values(raw).len() > 0 ==> csv_setting(Some(raw), seq![item]) == csv_values(raw),
        csv_values(raw).len() == 0 ==> csv_setting(Some(raw), seq![item]) == seq![item],
{
    let f = |p: Seq<char>| if text::trimmed(p).len() == 0 { None } else { Some(text::trimmed(p)) };
    let parts = text::pieces(raw, ',');
    if csv_values(raw).contains(item) {
        parts.lemma_filter_map_contains(f, item);
        let p = choose|p: Seq<char>| #[trigger] parts.contains(p) && f(p) == Some(item);
        let i = choose|i: int| 0 <= i < parts.len() && parts[i] == p;
        assert(text::trimmed(parts[i]) == item);
    }
    if item.len() > 0 && exists|i: int| 0 <= i < parts.len() && text::trimmed(#[trigger] parts[i]) == item {
        let i = choose|i: int| 0 <= i < parts.len() && text::trimmed(#[trigger] parts[i]) == item;
        assert(f(parts[i]) == Some(item));
        views::lemma_filter_map_has(parts, f, i);
    }
}

/// Of what is configured only what is allowed is shown, and each as it is taken: a switch as one of
/// two words.
pub proof fn lemma_configured_is_shown(values: Seq<KVView>, key: Seq<char>, raw: Seq<char>, shown: Seq<char>)
    ensures
        pairs::gives_value(values, key, raw) ==> (configured_env(values).contains(KVView { key, value: shown }) <==> allowlist().contains(
            key,
        ) && configured_value(key, raw) == Some(shown)),
        gives_none(values, key) ==> !configured_env(values).contains(KVView { key, value: shown }),
        !allowlist().contains(key) ==> !configured_env(values).contains(KVView { key, value: shown }),
        flag_text(true) == "true"@ && flag_text(false) == "false"@,
{
    let keys = allowlist();
    let f = |key: Seq<char>|
        match pairs::value_of(values, key) {
            Some(raw) => match configured_value(key, raw) {
                Some(value) => Some(KVView { key, value }),
                None => None,
            },
            None => None,
        };
    let entry = KVView { key, value: shown };
    pairs::lemma_value_is_the_first(values, key, raw);
    assert(configured_env(values) == keys.filter_map(f));
    if keys.filter_map(f).contains(entry) {
        keys.lemma_filter_map_contains(f, entry);
        let k = choose|k: Seq<char>| #[trigger] keys.contains(k) && f(k) == Some(entry);
        assert(k == key);
    }
    if keys.contains(key) && f(key) == Some(entry) {
        let i = choose|i: int| 0 <= i < keys.len() && keys[i] == key;
        views::lemma_filter_map_has(keys, f, i);
    }
}

} // verus!
