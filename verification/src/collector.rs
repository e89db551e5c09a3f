//! What is collected of a cluster: the lists that the API server gives, put in the shape and the
//! order of a snapshot, and the logs of monitored pods.
use crate::cluster;
use crate::cluster::{build_cluster_info, find_openshift_version, map_namespace, wants_openshift_version};
use crate::config;
use crate::config::{Config, ConfigView};
use crate::configuration;
use crate::configuration::{
    collect_agent_configured_env, map_configmap, map_secret, sort_configmaps_for_snapshot,
    sort_secrets_for_snapshot,
};
use crate::dependency;
use crate::dependency::{collect_dependency_inventory, DependencyCollectionView};
use crate::events;
use crate::events::map_events;
use crate::json_value::JsonNode;
use crate::maturity;
use crate::maturity::{build_vpa_info, detect_descheduler, map_scheduled_jobs};
use crate::model::{
    ClusterInfo, ClusterInfoView, ConfigMapInfo, ConfigurationInventory, ConfigurationInventoryView,
    ContainerInfo, ContainerInfoView, IngressInfo, KV, MetricsStatus, NamespaceInfo, NamespaceInfoView,
    NetworkInventory, NetworkInventoryView, NetworkPolicyInfo, OperationalMaturityInventory,
    OperationalMaturityInventoryView, PersistentVolumeClaimInfo, PersistentVolumeInfo, PodInfo, PodInfoView,
    SecretInfo, SecretInfoView, SecurityInventory, SecurityInventoryView, ServiceInfo, SnapshotApiStatus,
    StorageClassInfo, StorageInventory, StorageInventoryView, WorkloadMonitoringContainerLogs,
    WorkloadMonitoringContainerLogsView, WorkloadMonitoringLogs, WorkloadMonitoringPodLogs,
    WorkloadMonitoringPodLogsView, WorkloadRef, WorkloadRefView, Workloads, WorkloadsView,
};
use crate::network;
use crate::network::{map_ingress, map_service, sort_ingresses_for_snapshot, sort_services_for_snapshot};
use crate::objects;
use crate::objects::{
    ClusterRoleBinding, ClusterRoleBindingView, ConfigMap, ConfigMapView, CronJob, CronJobView, DaemonSet,
    DaemonSetView, Deployment, DeploymentView, Event, Ingress, IngressView, Namespace, NamespaceView,
    NetworkPolicy, NetworkPolicyView, Node, NodeView, PersistentVolume, PersistentVolumeClaim,
    PersistentVolumeClaimView, PersistentVolumeView, Pod, PodView, Secret, SecretView, Service, ServiceView,
    StatefulSet, StatefulSetView, StorageClass, StorageClassView,
};
use crate::order;
use crate::pods;
use crate::pods::{build_pod_usage_index, map_pod};
use crate::runtime::{CollectedInventory, CollectedInventoryView};
use crate::security;
use crate::security::{
    build_pod_security_admission, map_cluster_role_bindings, map_network_policy,
    sort_network_policies_for_snapshot,
};
use crate::storage;
use crate::storage::{
    map_persistent_volume, map_persistent_volume_claim, map_storage_class, map_volume_snapshot_classes,
    map_volume_snapshots,
};
use crate::tetragon::CoverageSnapshot;
use crate::text;
use crate::text::{lines, list_has, owned};
use crate::views;
use crate::views::{DeepClone, filter_map_items, map_items, opt_str};
use vstd::prelude::*;

verus! {

/// The most lines that are read of a container's log.
pub const WORKLOAD_MONITORING_LOG_TAIL_LINES: i64 = 200;

/// The most bytes that are read of a container's log.
pub const WORKLOAD_MONITORING_LOG_LIMIT_BYTES: i64 = 65_536;

/// What was collected of a cluster, with how the dependency events fared.
#[derive(Clone, Debug, PartialEq, Eq)]
pub struct Collection {
    pub inventory: CollectedInventory,
    pub parse_failures: u64,
    pub dropped_events: u64,
    pub skipped_events: u64,
}

/// The view of [`Collection`].
pub struct CollectionView {
    pub inventory: CollectedInventoryView,
    pub parse_failures: u64,
    pub dropped_events: u64,
    pub skipped_events: u64,
}

impl DeepView for Collection {
    type V = CollectionView;

    open spec fn deep_view(&self) -> CollectionView {
        CollectionView {
            inventory: self.inventory.deep_view(),
            parse_failures: self.parse_failures.deep_view(),
            dropped_events: self.dropped_events.deep_view(),
            skipped_events: self.skipped_events.deep_view(),
        }
    }
}

impl DeepClone for Collection {
    fn deep_clone(&self) -> (copy: Self) {
        Collection {
            inventory: self.inventory.deep_clone(),
            parse_failures: self.parse_failures.deep_clone(),
            dropped_events: self.dropped_events.deep_clone(),
            skipped_events: self.skipped_events.deep_clone(),
        }
    }
}

/// The logs of a pod that are to be read.
#[derive(Clone, Debug, PartialEq, Eq)]
pub struct PodLogRequest {
    pub namespace: String,
    pub name: String,
    pub containers: Vec<String>,
}

/// The view of [`PodLogRequest`].
pub struct PodLogRequestView {
    pub namespace: Seq<char>,
    pub name: Seq<char>,
    pub containers: Seq<Seq<char>>,
}

impl DeepView for PodLogRequest {
    type V = PodLogRequestView;

    open spec fn deep_view(&self) -> PodLogRequestView {
        PodLogRequestView {
            namespace: self.namespace.deep_view(),
            name: self.name.deep_view(),
            containers: self.containers.deep_view(),
        }
    }
}

impl DeepClone for PodLogRequest {
    fn deep_clone(&self) -> (copy: Self) {
        PodLogRequest {
            namespace: self.namespace.deep_clone(),
            name: self.name.deep_clone(),
            containers: self.containers.deep_clone(),
        }
    }
}

/// The log of a container as it was read; nothing where that failed.
#[derive(Clone, Debug, PartialEq, Eq)]
pub struct ContainerLogRead {
    pub name: String,
    pub output: Option<String>,
}

/// The view of [`ContainerLogRead`].
pub struct ContainerLogReadView {
    pub name: Seq<char>,
    pub output: Option<Seq<char>>,
}

impl DeepView for ContainerLogRead {
    type V = ContainerLogReadView;

    open spec fn deep_view(&self) -> ContainerLogReadView {
        ContainerLogReadView {
            name: self.name.deep_view(),
            output: self.output.deep_view(),
        }
    }
}

impl DeepClone for ContainerLogRead {
    fn deep_clone(&self) -> (copy: Self) {
        ContainerLogRead {
            name: self.name.deep_clone(),
            output: self.output.deep_clone(),
        }
    }
}

/// The logs of a pod as they were read.
#[derive(Clone, Debug, PartialEq, Eq)]
pub struct PodLogReads {
    pub namespace: String,
    pub name: String,
    pub containers: Vec<ContainerLogRead>,
}

/// The view of [`PodLogReads`].
pub struct PodLogReadsView {
    pub namespace: Seq<char>,
    pub name: Seq<char>,
    pub containers: Seq<ContainerLogReadView>,
}

impl DeepView for PodLogReads {
    type V = PodLogReadsView;

    open spec fn deep_view(&self) -> PodLogReadsView {
        PodLogReadsView {
            namespace: self.namespace.deep_view(),
            name: self.name.deep_view(),
            containers: self.containers.deep_view(),
        }
    }
}

impl DeepClone for PodLogReads {
    fn deep_clone(&self) -> (copy: Self) {
        PodLogReads {
            namespace: self.namespace.deep_clone(),
            name: self.name.deep_clone(),
            containers: self.containers.deep_clone(),
        }
    }
}

/// The lists that the API server gave; nothing for a list that it did not give.
pub struct ClusterListing {
    pub k8s_uid: Option<String>,
    /// The version that the server tells of itself.
    pub version: Option<String>,
    pub nodes: Option<Vec<Node>>,
    pub namespaces: Option<Vec<Namespace>>,
    pub deployments: Option<Vec<Deployment>>,
    pub statefulsets: Option<Vec<StatefulSet>>,
    pub daemonsets: Option<Vec<DaemonSet>>,
    pub pods: Option<Vec<Pod>>,
    pub services: Option<Vec<Service>>,
    pub ingresses: Option<Vec<Ingress>>,
    pub network_policies: Option<Vec<NetworkPolicy>>,
    pub cluster_role_bindings: Option<Vec<ClusterRoleBinding>>,
    pub configmaps: Option<Vec<ConfigMap>>,
    pub secrets: Option<Vec<Secret>>,
    pub storage_classes: Option<Vec<StorageClass>>,
    pub persistent_volumes: Option<Vec<PersistentVolume>>,
    pub persistent_volume_claims: Option<Vec<PersistentVolumeClaim>>,
    pub cronjobs: Option<Vec<CronJob>>,
    pub events: Option<Vec<Event>>,
    /// The vertical pod autoscalers.
    pub vpa: Option<Vec<serde_json::Value>>,
    /// The cluster-version objects of OpenShift.
    pub cluster_versions: Option<Vec<serde_json::Value>>,
    pub pod_metrics: Vec<serde_json::Value>,
    pub volume_snapshot_classes: Vec<serde_json::Value>,
    pub volume_snapshots: Vec<serde_json::Value>,
}

/// The items of a list; none where the list could not be had.
pub fn soft_unwrap<T>(listed: Option<Vec<T>>) -> (r: Vec<T>)
    ensures
        match listed {
            Some(items) => r == items,
            None => r@ == Seq::<T>::empty(),
        },
{
    match listed {
        Some(items) => items,
        None => Vec::new(),
    }
}

fn unwrap_items<T: DeepView>(listed: Option<Vec<T>>) -> (r: Vec<T>)
    ensures
        r.deep_view() == views::list_or_none(listed.deep_view()),
{
    let r = soft_unwrap(listed);
    assert(r.deep_view() =~= views::list_or_none(listed.deep_view()));
    r
}

/// What the documents of a list hold; nothing where the list could not be had.
pub open spec fn contents_listed(listed: Option<Vec<serde_json::Value>>) -> Seq<Map<Seq<char>, JsonNode>> {
    match listed {
        Some(values) => cluster::contents_of(values@),
        None => seq![],
    }
}

fn unwrap_values(listed: Option<Vec<serde_json::Value>>) -> (r: Vec<serde_json::Value>)
    ensures
        cluster::contents_of(r@) == contents_listed(listed),
{
    let r = soft_unwrap(listed);
    assert(cluster::contents_of(r@) =~= contents_listed(listed));
    r
}

// ------------------------------------------------------------------- workloads

/// What a snapshot shows of a deployment.
pub open spec fn deployment_ref(deployment: DeploymentView) -> WorkloadRefView {
    WorkloadRefView {
        namespace: views::text_or(deployment.metadata.namespace, ""@),
        name: views::text_or(deployment.metadata.name, ""@),
        replicas_desired: match deployment.spec {
            Some(spec) => spec.replicas,
            None => None,
        },
        replicas_ready: match deployment.status {
            Some(status) => status.ready_replicas,
            None => None,
        },
    }
}

/// What a snapshot shows of a deployment.
pub fn map_deployment(deployment: &Deployment) -> (r: WorkloadRef)
    ensures
        r.deep_view() == deployment_ref(deployment.deep_view()),
{
    let replicas_desired = match &deployment.spec {
        Some(spec) => spec.replicas,
        None => None,
    };
    let replicas_ready = match &deployment.status {
        Some(status) => status.ready_replicas,
        None => None,
    };
    WorkloadRef {
        namespace: owned(opt_str(&deployment.metadata.namespace, "")),
        name: owned(opt_str(&deployment.metadata.name, "")),
        replicas_desired,
        replicas_ready,
    }
}

/// What a snapshot shows of a stateful set.
pub open spec fn statefulset_ref(statefulset: StatefulSetView) -> WorkloadRefView {
    WorkloadRefView {
        namespace: views::text_or(statefulset.metadata.namespace, ""@),
        name: views::text_or(statefulset.metadata.name, ""@),
        replicas_desired: match statefulset.spec {
            Some(spec) => spec.replicas,
            None => None,
        },
        replicas_ready: match statefulset.status {
            Some(status) => status.ready_replicas,
            None => None,
        },
    }
}

/// What a snapshot shows of a stateful set.
pub fn map_statefulset(statefulset: &StatefulSet) -> (r: WorkloadRef)
    ensures
        r.deep_view() == statefulset_ref(statefulset.deep_view()),
{
    let replicas_desired = match &statefulset.spec {
        Some(spec) => spec.replicas,
        None => None,
    };
    let replicas_ready = match &statefulset.status {
        Some(status) => status.ready_replicas,
        None => None,
    };
    WorkloadRef {
        namespace: owned(opt_str(&statefulset.metadata.namespace, "")),
        name: owned(opt_str(&statefulset.metadata.name, "")),
        replicas_desired,
        replicas_ready,
    }
}

/// What a snapshot shows of a daemon set.
pub open spec fn daemonset_ref(daemonset: DaemonSetView) -> WorkloadRefView {
    WorkloadRefView {
        namespace: views::text_or(daemonset.metadata.namespace, ""@),
        name: views::text_or(daemonset.metadata.name, ""@),
        replicas_desired: match daemonset.status {
            Some(status) => Some(status.desired_number_scheduled),
            None => None,
        },
        replicas_ready: match daemonset.status {
            Some(status) => Some(status.number_ready),
            None => None,
        },
    }
}

/// What a snapshot shows of a daemon set.
pub fn map_daemonset(daemonset: &DaemonSet) -> (r: WorkloadRef)
    ensures
        r.deep_view() == daemonset_ref(daemonset.deep_view()),
{
    let (replicas_desired, replicas_ready) = match &daemonset.status {
        Some(status) => (Some(status.desired_number_scheduled), Some(status.number_ready)),
        None => (None, None),
    };
    WorkloadRef {
        namespace: owned(opt_str(&daemonset.metadata.namespace, "")),
        name: owned(opt_str(&daemonset.metadata.name, "")),
        replicas_desired,
        replicas_ready,
    }
}

/// What a snapshot shows of the workloads.
pub open spec fn workloads_shown(
    deployments: Seq<DeploymentView>,
    statefulsets: Seq<StatefulSetView>,
    daemonsets: Seq<DaemonSetView>,
) -> WorkloadsView {
    WorkloadsView {
        deployments: deployments.map_values(|d: DeploymentView| deployment_ref(d)),
        statefulsets: statefulsets.map_values(|s: StatefulSetView| statefulset_ref(s)),
        daemonsets: daemonsets.map_values(|d: DaemonSetView| daemonset_ref(d)),
    }
}

fn map_workloads(
    deployments: &Vec<Deployment>,
    statefulsets: &Vec<StatefulSet>,
    daemonsets: &Vec<DaemonSet>,
) -> (r: Workloads)
    ensures
        r.deep_view() == workloads_shown(deployments.deep_view(), statefulsets.deep_view(), daemonsets.deep_view()),
{
    let deployment = |d: &Deployment| -> (r: WorkloadRef)
        ensures
            r.deep_view() == deployment_ref(d.deep_view()),
        { map_deployment(d) };
    let statefulset = |s: &StatefulSet| -> (r: WorkloadRef)
        ensures
            r.deep_view() == statefulset_ref(s.deep_view()),
        { map_statefulset(s) };
    let daemonset = |d: &DaemonSet| -> (r: WorkloadRef)
        ensures
            r.deep_view() == daemonset_ref(d.deep_view()),
        { map_daemonset(d) };
    Workloads {
        deployments: map_items(deployments, deployment, Ghost(|d: DeploymentView| deployment_ref(d))),
        statefulsets: map_items(statefulsets, statefulset, Ghost(|s: StatefulSetView| statefulset_ref(s))),
        daemonsets: map_items(daemonsets, daemonset, Ghost(|d: DaemonSetView| daemonset_ref(d))),
    }
}

// --------------------------------------------------------- parts of a snapshot

/// What a snapshot shows of services and ingresses.
pub open spec fn network_shown(services: Seq<ServiceView>, ingresses: Seq<IngressView>) -> NetworkInventoryView {
    NetworkInventoryView {
        services: order::in_order(services, objects::by_place(|s: ServiceView| s.metadata)).map_values(
            |s: ServiceView| network::service_info(s),
        ),
        ingresses: order::in_order(ingresses, objects::by_place(|i: IngressView| i.metadata)).map_values(
            |i: IngressView| network::ingress_info(i),
        ),
    }
}

fn map_network(sorted_services: &Vec<Service>, ingresses: Vec<Ingress>) -> (r: NetworkInventory)
    ensures
        r.deep_view().services == sorted_services.deep_view().map_values(|s: ServiceView| network::service_info(s)),
        r.deep_view().ingresses == order::in_order(
            ingresses.deep_view(),
            objects::by_place(|i: IngressView| i.metadata),
        ).map_values(|i: IngressView| network::ingress_info(i)),
{
    let mut ingresses = ingresses;
    sort_ingresses_for_snapshot(&mut ingresses);
    let service = |s: &Service| -> (r: ServiceInfo)
        ensures
            r.deep_view() == network::service_info(s.deep_view()),
        { map_service(s) };
    let ingress = |i: &Ingress| -> (r: IngressInfo)
        ensures
            r.deep_view() == network::ingress_info(i.deep_view()),
        { map_ingress(i) };
    NetworkInventory {
        services: map_items(sorted_services, service, Ghost(|s: ServiceView| network::service_info(s))),
        ingresses: map_items(&ingresses, ingress, Ghost(|i: IngressView| network::ingress_info(i))),
    }
}

/// What a snapshot shows of the security objects.
pub open spec fn security_shown(
    policies: Seq<NetworkPolicyView>,
    bindings: Seq<ClusterRoleBindingView>,
    namespaces: Seq<NamespaceInfoView>,
) -> SecurityInventoryView {
    SecurityInventoryView {
        network_policies: order::in_order(policies, objects::by_place(|p: NetworkPolicyView| p.metadata)).map_values(
            |p: NetworkPolicyView| security::network_policy_info(p),
        ),
        cluster_role_bindings: security::binding_infos(bindings),
        pod_security_admission: security::admission_info(namespaces),
    }
}

fn map_security(
    policies: Vec<NetworkPolicy>,
    bindings: &Vec<ClusterRoleBinding>,
    namespaces: &Vec<NamespaceInfo>,
) -> (r: SecurityInventory)
    ensures
        r.deep_view() == security_shown(policies.deep_view(), bindings.deep_view(), namespaces.deep_view()),
{
    let mut policies = policies;
    sort_network_policies_for_snapshot(&mut policies);
    let policy = |p: &NetworkPolicy| -> (r: NetworkPolicyInfo)
        ensures
            r.deep_view() == security::network_policy_info(p.deep_view()),
        { map_network_policy(p) };
    SecurityInventory {
        network_policies: map_items(&policies, policy, Ghost(|p: NetworkPolicyView| security::network_policy_info(p))),
        cluster_role_bindings: map_cluster_role_bindings(bindings),
        pod_security_admission: build_pod_security_admission(namespaces),
    }
}

/// What a snapshot shows of the configuration. The settings that the agent runs with are added
/// apart.
pub open spec fn configuration_shown(
    configmaps: Seq<ConfigMapView>,
    secrets: Seq<SecretView>,
) -> ConfigurationInventoryView {
    let in_place = order::in_order(configmaps, objects::by_place(|c: ConfigMapView| c.metadata));
    ConfigurationInventoryView {
        configmaps: in_place.map_values(|c: ConfigMapView| configuration::configmap_info(c)),
        secrets: order::in_order(secrets, objects::by_place(|s: SecretView| s.metadata)).map_values(|s: SecretView| configuration::secret_info(s)),
        agent_runtime_env: seq![],
        agent_configured_env: configuration::configured_env_in(in_place),
    }
}

fn map_configuration(configmaps: Vec<ConfigMap>, secrets: Vec<Secret>) -> (r: ConfigurationInventory)
    ensures
        r.deep_view() == configuration_shown(configmaps.deep_view(), secrets.deep_view()),
{
    let mut configmaps = configmaps;
    let mut secrets = secrets;
    sort_configmaps_for_snapshot(&mut configmaps);
    sort_secrets_for_snapshot(&mut secrets);
    let configmap = |c: &ConfigMap| -> (r: ConfigMapInfo)
        ensures
            r.deep_view() == configuration::configmap_info(c.deep_view()),
        { map_configmap(c) };
    let secret = |s: &Secret| -> (r: SecretInfo)
        ensures
            r.deep_view() == configuration::secret_info(s.deep_view()),
        { map_secret(s) };
    let none: Vec<KV> = Vec::new();
    assert(none.deep_view() =~= seq![]);
    ConfigurationInventory {
        configmaps: map_items(&configmaps, configmap, Ghost(|c: ConfigMapView| configuration::configmap_info(c))),
        secrets: map_items(&secrets, secret, Ghost(|s: SecretView| configuration::secret_info(s))),
        agent_runtime_env: none,
        agent_configured_env: collect_agent_configured_env(&configmaps),
    }
}

/// What a snapshot shows of the storage objects.
pub open spec fn storage_shown(
    classes: Seq<StorageClassView>,
    volumes: Seq<PersistentVolumeView>,
    claims: Seq<PersistentVolumeClaimView>,
    snapshot_classes: Seq<Map<Seq<char>, JsonNode>>,
    snapshots: Seq<Map<Seq<char>, JsonNode>>,
) -> StorageInventoryView {
    StorageInventoryView {
        storage_classes: classes.map_values(|c: StorageClassView| storage::storage_class_info(c)),
        persistent_volumes: volumes.map_values(|v: PersistentVolumeView| storage::volume_info(v)),
        persistent_volume_claims: claims.map_values(|c: PersistentVolumeClaimView| storage::claim_info(c)),
        volume_snapshot_classes: snapshot_classes.map_values(
            |c: Map<Seq<char>, JsonNode>| storage::snapshot_class_info(c),
        ),
        volume_snapshots: snapshots.map_values(|c: Map<Seq<char>, JsonNode>| storage::volume_snapshot_info(c)),
    }
}

fn map_storage(
    classes: &Vec<StorageClass>,
    volumes: &Vec<PersistentVolume>,
    claims: &Vec<PersistentVolumeClaim>,
    snapshot_classes: &Vec<serde_json::Value>,
    snapshots: &Vec<serde_json::Value>,
) -> (r: StorageInventory)
    ensures
        r.deep_view() == storage_shown(
            classes.deep_view(),
            volumes.deep_view(),
            claims.deep_view(),
            cluster::contents_of(snapshot_classes@),
            cluster::contents_of(snapshots@),
        ),
{
    let class = |c: &StorageClass| -> (r: StorageClassInfo)
        ensures
            r.deep_view() == storage::storage_class_info(c.deep_view()),
        { map_storage_class(c) };
    let volume = |v: &PersistentVolume| -> (r: PersistentVolumeInfo)
        ensures
            r.deep_view() == storage::volume_info(v.deep_view()),
        { map_persistent_volume(v) };
    let claim = |c: &PersistentVolumeClaim| -> (r: PersistentVolumeClaimInfo)
        ensures
            r.deep_view() == storage::claim_info(c.deep_view()),
        { map_persistent_volume_claim(c) };
    StorageInventory {
        storage_classes: map_items(classes, class, Ghost(|c: StorageClassView| storage::storage_class_info(c))),
        persistent_volumes: map_items(volumes, volume, Ghost(|v: PersistentVolumeView| storage::volume_info(v))),
        persistent_volume_claims: map_items(claims, claim, Ghost(|c: PersistentVolumeClaimView| storage::claim_info(c))),
        volume_snapshot_classes: map_volume_snapshot_classes(snapshot_classes),
        volume_snapshots: map_volume_snapshots(snapshots),
    }
}

/// What a snapshot shows of the signs of operational maturity.
pub open spec fn maturity_shown(
    deployments: Seq<DeploymentView>,
    autoscalers: Seq<Map<Seq<char>, JsonNode>>,
    jobs: Seq<CronJobView>,
) -> OperationalMaturityInventoryView {
    OperationalMaturityInventoryView {
        descheduler: maturity::descheduler_info(deployments),
        vpa: maturity::autoscaler_info(autoscalers),
        scheduled_jobs: maturity::scheduled_job_infos(jobs),
        truncated_jobs: false,
    }
}

/// What a snapshot shows of the cluster, with the version of OpenShift where the cluster is one.
pub open spec fn cluster_shown(
    version: Option<Seq<char>>,
    nodes: Seq<NodeView>,
    cluster_versions: Seq<Map<Seq<char>, JsonNode>>,
) -> ClusterInfoView {
    let cluster = cluster::cluster_info(version, nodes);
    if cluster.platform == Some("openshift"@) {
        ClusterInfoView { openshift_version: cluster::first_openshift_version(cluster_versions, 0), ..cluster }
    } else {
        cluster
    }
}

fn map_cluster(version: Option<&str>, nodes: &Vec<Node>, cluster_versions: &Vec<serde_json::Value>) -> (r: ClusterInfo)
    ensures
        r.deep_view() == cluster_shown(version.deep_view(), nodes.deep_view(), cluster::contents_of(cluster_versions@)),
{
    let cluster = build_cluster_info(version, nodes);
    if wants_openshift_version(&cluster) {
        ClusterInfo { openshift_version: find_openshift_version(cluster_versions), ..cluster }
    } else {
        cluster
    }
}

fn map_namespaces(namespaces: &Vec<Namespace>) -> (r: Vec<NamespaceInfo>)
    ensures
        r.deep_view() == namespaces.deep_view().map_values(|n: NamespaceView| cluster::namespace_info(n)),
{
    let image = |n: &Namespace| -> (r: NamespaceInfo)
        ensures
            r.deep_view() == cluster::namespace_info(n.deep_view()),
        { map_namespace(n) };
    map_items(namespaces, image, Ghost(|n: NamespaceView| cluster::namespace_info(n)))
}

/// What a snapshot shows of the pods.
pub open spec fn pods_shown(
    pods: Seq<PodView>,
    metrics: Seq<Map<Seq<char>, JsonNode>>,
    by_process: bool,
    now_secs: i64,
) -> Seq<PodInfoView> {
    let usage = pods::usage_index(metrics);
    pods.map_values(|p: PodView| pods::pod_info(p, usage, by_process, now_secs))
}

fn map_pods(
    pods: &Vec<Pod>,
    pod_metrics: &Vec<serde_json::Value>,
    tech_detect_process: bool,
    now_secs: i64,
) -> (r: Vec<PodInfo>)
    ensures
        r.deep_view() == pods_shown(pods.deep_view(), cluster::contents_of(pod_metrics@), tech_detect_process, now_secs),
{
    let usage = build_pod_usage_index(pod_metrics);
    let ghost index = usage.deep_view();
    let image = |p: &Pod| -> (r: PodInfo)
        ensures
            r.deep_view() == pods::pod_info(p.deep_view(), usage.deep_view(), tech_detect_process, now_secs),
        { map_pod(p, &usage, tech_detect_process, now_secs) };
    map_items(pods, image, Ghost(|p: PodView| pods::pod_info(p, index, tech_detect_process, now_secs)))
}

/// A time in whole seconds.
pub open spec fn seconds_at(now_ms: u128) -> i64 {
    if now_ms / 1000 <= i64::MAX {
        (now_ms / 1000) as i64
    } else {
        i64::MAX
    }
}

fn seconds_of(now_ms: u128) -> (r: i64)
    ensures
        r == seconds_at(now_ms),
{
    if now_ms / 1000 <= i64::MAX as u128 {
        (now_ms / 1000) as i64
    } else {
        i64::MAX
    }
}

/// The secrets that may be shown: none, unless collecting them is switched on.
pub open spec fn secrets_listed(collect_secrets: bool, secrets: Option<Seq<SecretView>>) -> Seq<SecretView> {
    if collect_secrets {
        views::list_or_none(secrets)
    } else {
        seq![]
    }
}

fn unwrap_secrets(collect_secrets: bool, secrets: Option<Vec<Secret>>) -> (r: Vec<Secret>)
    ensures
        r.deep_view() == secrets_listed(collect_secrets, secrets.deep_view()),
{
    if collect_secrets {
        unwrap_items(secrets)
    } else {
        let none: Vec<Secret> = Vec::new();
        assert(none.deep_view() =~= seq![]);
        none
    }
}

/// What was collected of a cluster: each list that could be had, in the shape and order of a
/// snapshot, and nothing in place of a list that could not. Secrets are shown only where that is
/// switched on.
///
/// `dependency_events` are the buffered dependency events, one document on each line, and
/// `coverage` is how many of their sources were heard.
pub fn collect(
    listing: ClusterListing,
    collect_secrets: bool,
    collect_dependencies_tetragon: bool,
    tech_detect_process: bool,
    dependency_events: &str,
    coverage: CoverageSnapshot,
    metrics: MetricsStatus,
    snapshot_api: SnapshotApiStatus,
    now_ms: u128,
) -> (r: Collection)
    ensures
        r.inventory.k8s_uid.deep_view() == listing.k8s_uid.deep_view(),
        r.inventory.cluster.deep_view() == cluster_shown(
            listing.version.deep_view(),
            views::list_or_none(listing.nodes.deep_view()),
            contents_listed(listing.cluster_versions),
        ),
        r.inventory.namespaces.deep_view() == views::list_or_none(listing.namespaces.deep_view()).map_values(
            |n: NamespaceView| cluster::namespace_info(n),
        ),
        r.inventory.workloads.deep_view() == workloads_shown(
            views::list_or_none(listing.deployments.deep_view()),
            views::list_or_none(listing.statefulsets.deep_view()),
            views::list_or_none(listing.daemonsets.deep_view()),
        ),
        r.inventory.pods.deep_view() == pods_shown(
            views::list_or_none(listing.pods.deep_view()),
            cluster::contents_of(listing.pod_metrics@),
            tech_detect_process,
            seconds_at(now_ms),
        ),
        r.inventory.network.deep_view() == network_shown(
            views::list_or_none(listing.services.deep_view()),
            views::list_or_none(listing.ingresses.deep_view()),
        ),
        r.inventory.security.deep_view() == security_shown(
            views::list_or_none(listing.network_policies.deep_view()),
            views::list_or_none(listing.cluster_role_bindings.deep_view()),
            views::list_or_none(listing.namespaces.deep_view()).map_values(|n: NamespaceView| cluster::namespace_info(n)),
        ),
        r.inventory.operational_maturity.deep_view() == maturity_shown(
            views::list_or_none(listing.deployments.deep_view()),
            contents_listed(listing.vpa),
            views::list_or_none(listing.cronjobs.deep_view()),
        ),
        r.inventory.configuration.deep_view() == configuration_shown(
            views::list_or_none(listing.configmaps.deep_view()),
            secrets_listed(collect_secrets, listing.secrets.deep_view()),
        ),
        r.inventory.storage.deep_view() == storage_shown(
            views::list_or_none(listing.storage_classes.deep_view()),
            views::list_or_none(listing.persistent_volumes.deep_view()),
            views::list_or_none(listing.persistent_volume_claims.deep_view()),
            cluster::contents_of(listing.volume_snapshot_classes@),
            cluster::contents_of(listing.volume_snapshots@),
        ),
        r.inventory.events.deep_view() == events::event_infos(views::list_or_none(listing.events.deep_view())),
        r.inventory.metrics == metrics,
        r.inventory.snapshot_api == snapshot_api,
        dependencies_of(r) == dependencies_shown(
            collect_dependencies_tetragon,
            dependency_events@,
            views::list_or_none(listing.pods.deep_view()),
            order::in_order(views::list_or_none(listing.services.deep_view()), objects::by_place(|s: ServiceView| s.metadata)),
            coverage,
            now_ms,
        ),
{
    let nodes = unwrap_items(listing.nodes);
    let namespaces = unwrap_items(listing.namespaces);
    let deployments = unwrap_items(listing.deployments);
    let statefulsets = unwrap_items(listing.statefulsets);
    let daemonsets = unwrap_items(listing.daemonsets);
    let pods = unwrap_items(listing.pods);
    let mut services = unwrap_items(listing.services);
    let ingresses = unwrap_items(listing.ingresses);
    let network_policies = unwrap_items(listing.network_policies);
    let cluster_role_bindings = unwrap_items(listing.cluster_role_bindings);
    let configmaps = unwrap_items(listing.configmaps);
    let secrets = unwrap_secrets(collect_secrets, listing.secrets);
    let storage_classes = unwrap_items(listing.storage_classes);
    let volumes = unwrap_items(listing.persistent_volumes);
    let claims = unwrap_items(listing.persistent_volume_claims);
    let cronjobs = unwrap_items(listing.cronjobs);
    let events = unwrap_items(listing.events);
    let vpa = unwrap_values(listing.vpa);
    let cluster_versions = unwrap_values(listing.cluster_versions);

    let version = match &listing.version {
        Some(version) => Some(version.as_str()),
        None => None,
    };
    let cluster = map_cluster(version, &nodes, &cluster_versions);
    let namespace_infos = map_namespaces(&namespaces);
    sort_services_for_snapshot(&mut services);
    let found = collect_dependency_inventory(
        collect_dependencies_tetragon,
        dependency_events,
        &pods,
        &services,
        coverage,
        now_ms,
    );
    let security = map_security(network_policies, &cluster_role_bindings, &namespace_infos);
    let operational_maturity = OperationalMaturityInventory {
        descheduler: detect_descheduler(&deployments),
        vpa: build_vpa_info(&vpa),
        scheduled_jobs: map_scheduled_jobs(cronjobs),
        truncated_jobs: false,
    };
    let inventory = CollectedInventory {
        k8s_uid: listing.k8s_uid,
        cluster,
        namespaces: namespace_infos,
        workloads: map_workloads(&deployments, &statefulsets, &daemonsets),
        pods: map_pods(&pods, &listing.pod_metrics, tech_detect_process, seconds_of(now_ms)),
        network: map_network(&services, ingresses),
        security,
        operational_maturity,
        dependencies: found.inventory,
        configuration: map_configuration(configmaps, secrets),
        storage: map_storage(
            &storage_classes,
            &volumes,
            &claims,
            &listing.volume_snapshot_classes,
            &listing.volume_snapshots,
        ),
        events: map_events(events),
        metrics,
        snapshot_api,
    };
    Collection {
        inventory,
        parse_failures: found.parse_failures,
        dropped_events: found.dropped_events,
        skipped_events: found.skipped_events,
    }
}

/// What was collected of the dependencies.
pub open spec fn dependencies_of(collection: Collection) -> DependencyCollectionView {
    DependencyCollectionView {
        inventory: collection.inventory.dependencies.deep_view(),
        parse_failures: collection.parse_failures,
        dropped_events: collection.dropped_events,
        skipped_events: collection.skipped_events,
    }
}

/// What a snapshot shows of the dependencies, where they are collected.
pub open spec fn dependencies_shown(
    enabled: bool,
    events: Seq<char>,
    pods: Seq<PodView>,
    services: Seq<ServiceView>,
    coverage: CoverageSnapshot,
    now_ms: u128,
) -> DependencyCollectionView {
    if enabled {
        dependency::collection_of(
            dependency::aggregate_of(
                dependency::outcomes_of(text::lines_of(events), now_ms),
                pods.filter_map(|p: PodView| dependency::pod_address(p)),
                services.filter_map(|s: ServiceView| dependency::service_address(s)),
            ),
            coverage,
        )
    } else {
        dependency::no_dependencies()
    }
}

/// No secret is shown of a cluster where collecting them is switched off.
pub proof fn lemma_secrets_only_when_asked(configmaps: Seq<ConfigMapView>, secrets: Option<Seq<SecretView>>)
    ensures
        configuration_shown(configmaps, secrets_listed(false, secrets)).secrets == Seq::<SecretInfoView>::empty(),
{
    assert(configuration_shown(configmaps, secrets_listed(false, secrets)).secrets =~= Seq::<SecretInfoView>::empty());
}

// ------------------------------------------------------------------------ logs

/// The logs of a pod that are to be read: those of its containers, where its namespace is watched.
pub open spec fn log_request(allow: Seq<Seq<char>>, pod: PodInfoView) -> Option<PodLogRequestView> {
    if allow.contains(pod.namespace) && pod.containers.len() > 0 {
        Some(
            PodLogRequestView {
                namespace: pod.namespace,
                name: pod.name,
                containers: pod.containers.map_values(|c: ContainerInfoView| c.name),
            },
        )
    } else {
        None
    }
}

/// The logs that are to be read, where workload monitoring is switched on for some namespace.
pub open spec fn log_requests(cfg: ConfigView, pods: Seq<PodInfoView>) -> Seq<PodLogRequestView> {
    if cfg.workload_monitoring_enabled && cfg.workload_monitoring_namespaces.len() > 0 {
        pods.filter_map(|p: PodInfoView| log_request(cfg.workload_monitoring_namespaces, p))
    } else {
        seq![]
    }
}

fn request_logs(allow: &Vec<String>, pod: &PodInfo) -> (r: Option<PodLogRequest>)
    ensures
        r.deep_view() == log_request(allow.deep_view(), pod.deep_view()),
{
    if !list_has(allow, pod.namespace.as_str()) || pod.containers.len() == 0 {
        return None;
    }
    let name = |c: &ContainerInfo| -> (r: String)
        ensures
            r.deep_view() == c.deep_view().name,
        { c.name.clone() };
    Some(
        PodLogRequest {
            namespace: pod.namespace.clone(),
            name: pod.name.clone(),
            containers: map_items(&pod.containers, name, Ghost(|c: ContainerInfoView| c.name)),
        },
    )
}

/// The logs that are to be read.
pub fn plan_log_reads(cfg: &Config, pods: &Vec<PodInfo>) -> (r: Vec<PodLogRequest>)
    ensures
        r.deep_view() == log_requests(cfg.deep_view(), pods.deep_view()),
{
    if !cfg.workload_monitoring_enabled || cfg.workload_monitoring_namespaces.len() == 0 {
        let none: Vec<PodLogRequest> = Vec::new();
        assert(none.deep_view() =~= seq![]);
        return none;
    }
    let ghost allow = cfg.deep_view().workload_monitoring_namespaces;
    let image = |p: &PodInfo| -> (r: Option<PodLogRequest>)
        ensures
            r.deep_view() == log_request(cfg.deep_view().workload_monitoring_namespaces, p.deep_view()),
        { request_logs(&cfg.workload_monitoring_namespaces, p) };
    filter_map_items(pods, image, Ghost(|p: PodInfoView| log_request(allow, p)))
}

/// A log is as long as what is read at most, so it may be cut.
pub open spec fn may_be_cut(output: Seq<char>) -> bool {
    config::byte_len(output) >= 65_536 || text::lines_of(output).len() >= 200
}

/// The lines of a log, and whether it may be cut.
pub fn split_log_output(output: &str) -> (r: (Vec<String>, bool))
    ensures
        r.0.deep_view() == text::lines_of(output@),
        r.1 == may_be_cut(output@),
{
    let parts = lines(output);
    let image = |line: &&str| -> (r: String)
        ensures
            r.deep_view() == line.deep_view(),
        { owned(*line) };
    let kept = map_items(&parts, image, Ghost(|line: Seq<char>| line));
    assert(kept.deep_view() =~= text::lines_of(output@));
    let truncated = output.as_bytes().len() >= WORKLOAD_MONITORING_LOG_LIMIT_BYTES as usize || kept.len()
        >= WORKLOAD_MONITORING_LOG_TAIL_LINES as usize;
    (kept, truncated)
}

/// The tail of a container's log, where it was read.
pub open spec fn container_tail(read: ContainerLogReadView) -> Option<WorkloadMonitoringContainerLogsView> {
    match read.output {
        Some(output) => Some(
            WorkloadMonitoringContainerLogsView {
                name: read.name,
                truncated: may_be_cut(output),
                lines: text::lines_of(output),
            },
        ),
        None => None,
    }
}

/// The tails of a pod's logs, where some were read.
pub open spec fn pod_tails(reads: PodLogReadsView) -> Option<WorkloadMonitoringPodLogsView> {
    let tails = reads.containers.filter_map(|c: ContainerLogReadView| container_tail(c));
    if tails.len() == 0 {
        None
    } else {
        Some(WorkloadMonitoringPodLogsView { namespace: reads.namespace, name: reads.name, containers: tails })
    }
}

fn tail_container(read: &ContainerLogRead) -> (r: Option<WorkloadMonitoringContainerLogs>)
    ensures
        r.deep_view() == container_tail(read.deep_view()),
{
    match &read.output {
        Some(output) => {
            let (lines, truncated) = split_log_output(output.as_str());
            Some(WorkloadMonitoringContainerLogs { name: read.name.clone(), truncated, lines })
        },
        None => None,
    }
}

fn tail_pod(reads: &PodLogReads) -> (r: Option<WorkloadMonitoringPodLogs>)
    ensures
        r.deep_view() == pod_tails(reads.deep_view()),
{
    let image = |c: &ContainerLogRead| -> (r: Option<WorkloadMonitoringContainerLogs>)
        ensures
            r.deep_view() == container_tail(c.deep_view()),
        { tail_container(c) };
    let tails = filter_map_items(&reads.containers, image, Ghost(|c: ContainerLogReadView| container_tail(c)));
    assert(tails.deep_view().len() == tails.len());
    if tails.len() == 0 {
        None
    } else {
        Some(
            WorkloadMonitoringPodLogs {
                namespace: reads.namespace.clone(),
                name: reads.name.clone(),
                containers: tails,
            },
        )
    }
}

/// The logs of the monitored pods: a container whose log could not be read is left out, and so is
/// a pod none of whose logs could.
pub fn collect_workload_monitoring_logs(reads: &Vec<PodLogReads>) -> (r: WorkloadMonitoringLogs)
    ensures
        r.deep_view().pods == reads.deep_view().filter_map(|p: PodLogReadsView| pod_tails(p)),
{
    let image = |p: &PodLogReads| -> (r: Option<WorkloadMonitoringPodLogs>)
        ensures
            r.deep_view() == pod_tails(p.deep_view()),
        { tail_pod(p) };
    WorkloadMonitoringLogs { pods: filter_map_items(reads, image, Ghost(|p: PodLogReadsView| pod_tails(p))) }
}

/// Logs are read of watched namespaces alone.
pub proof fn lemma_logs_of_watched_namespaces(cfg: ConfigView, pods: Seq<PodInfoView>, i: int)
    requires
        0 <= i < log_requests(cfg, pods).len(),
    ensures
        cfg.workload_monitoring_enabled,
        cfg.workload_monitoring_namespaces.contains(log_requests(cfg, pods)[i].namespace),
{
    let all = log_requests(cfg, pods);
    assert(all.contains(all[i]));
    pods.lemma_filter_map_contains(
        |p: PodInfoView| log_request(cfg.workload_monitoring_namespaces, p),
        all[i],
    );
}

// ------------------------------------------------------------- what it is for

/// A workload is shown under its own name, with what is wanted of it and what is ready.
pub proof fn lemma_workloads_are_shown(deployment: DeploymentView, statefulset: StatefulSetView, daemonset: DaemonSetView)
    ensures
        deployment.metadata.name matches Some(n) ==> deployment_ref(deployment).name == n,
        deployment.metadata.namespace matches Some(n) ==> deployment_ref(deployment).namespace == n,
        deployment.spec matches Some(s) ==> deployment_ref(deployment).replicas_desired == s.replicas,
        deployment.status matches Some(s) ==> deployment_ref(deployment).replicas_ready == s.ready_replicas,
        statefulset.metadata.name matches Some(n) ==> statefulset_ref(statefulset).name == n,
        statefulset.metadata.namespace matches Some(n) ==> statefulset_ref(statefulset).namespace == n,
        statefulset.spec matches Some(s) ==> statefulset_ref(statefulset).replicas_desired == s.replicas,
        statefulset.status matches Some(s) ==> statefulset_ref(statefulset).replicas_ready == s.ready_replicas,
        daemonset.metadata.name matches Some(n) ==> daemonset_ref(daemonset).name == n,
        daemonset.metadata.namespace matches Some(n) ==> daemonset_ref(daemonset).namespace == n,
        daemonset.status matches Some(s) ==> daemonset_ref(daemonset).replicas_desired == Some(s.desired_number_scheduled)
            && daemonset_ref(daemonset).replicas_ready == Some(s.number_ready),
{
}

/// Nothing that was listed is lost: every service, ingress and policy is shown.
pub proof fn lemma_all_that_is_listed_is_shown(
    services: Seq<ServiceView>,
    ingresses: Seq<IngressView>,
    policies: Seq<NetworkPolicyView>,
    bindings: Seq<ClusterRoleBindingView>,
    namespaces: Seq<NamespaceInfoView>,
    i: int,
)
    ensures
        network_shown(services, ingresses).services.len() == services.len(),
        0 <= i < services.len() ==> network_shown(services, ingresses).services.contains(network::service_info(services[i])),
        network_shown(services, ingresses).ingresses.len() == ingresses.len(),
        0 <= i < ingresses.len() ==> network_shown(services, ingresses).ingresses.contains(network::ingress_info(ingresses[i])),
        security_shown(policies, bindings, namespaces).network_policies.len() == policies.len(),
        0 <= i < policies.len() ==> security_shown(policies, bindings, namespaces).network_policies.contains(
            security::network_policy_info(policies[i]),
        ),
{
    let service_le = objects::by_place(|s: ServiceView| s.metadata);
    let ingress_le = objects::by_place(|i: IngressView| i.metadata);
    let policy_le = objects::by_place(|p: NetworkPolicyView| p.metadata);
    let a = order::in_order(services, service_le);
    let b = order::in_order(ingresses, ingress_le);
    let c = order::in_order(policies, policy_le);
    order::lemma_in_order_has(services, service_le, services[i]);
    order::lemma_in_order_has(ingresses, ingress_le, ingresses[i]);
    order::lemma_in_order_has(policies, policy_le, policies[i]);
    if 0 <= i < services.len() {
        assert(services.contains(services[i]));
        let k = choose|k: int| 0 <= k < a.len() && a[k] == services[i];
        assert(network_shown(services, ingresses).services[k] == network::service_info(services[i]));
    }
    if 0 <= i < ingresses.len() {
        assert(ingresses.contains(ingresses[i]));
        let k = choose|k: int| 0 <= k < b.len() && b[k] == ingresses[i];
        assert(network_shown(services, ingresses).ingresses[k] == network::ingress_info(ingresses[i]));
    }
    if 0 <= i < policies.len() {
        assert(policies.contains(policies[i]));
        let k = choose|k: int| 0 <= k < c.len() && c[k] == policies[i];
        assert(security_shown(policies, bindings, namespaces).network_policies[k] == security::network_policy_info(policies[i]));
    }
}

/// Every config map is shown, and every secret that was listed; secrets are listed only where they
/// are to be collected.
pub proof fn lemma_secrets_where_wanted(configmaps: Seq<ConfigMapView>, secrets: Seq<SecretView>, collect_secrets: bool, i: int)
    ensures
        configuration_shown(configmaps, secrets).configmaps.len() == configmaps.len(),
        0 <= i < configmaps.len() ==> configuration_shown(configmaps, secrets).configmaps.contains(
            configuration::configmap_info(configmaps[i]),
        ),
        configuration_shown(configmaps, secrets).secrets.len() == secrets.len(),
        0 <= i < secrets.len() ==> configuration_shown(configmaps, secrets).secrets.contains(configuration::secret_info(secrets[i])),
        collect_secrets ==> secrets_listed(collect_secrets, Some(secrets)) == secrets,
        !collect_secrets ==> secrets_listed(collect_secrets, Some(secrets)).len() == 0,
{
    let map_le = objects::by_place(|c: ConfigMapView| c.metadata);
    let secret_le = objects::by_place(|s: SecretView| s.metadata);
    let a = order::in_order(configmaps, map_le);
    let b = order::in_order(secrets, secret_le);
    order::lemma_in_order_has(configmaps, map_le, configmaps[i]);
    order::lemma_in_order_has(secrets, secret_le, secrets[i]);
    if 0 <= i < configmaps.len() {
        assert(configmaps.contains(configmaps[i]));
        let k = choose|k: int| 0 <= k < a.len() && a[k] == configmaps[i];
        assert(configuration_shown(configmaps, secrets).configmaps[k] == configuration::configmap_info(configmaps[i]));
    }
    if 0 <= i < secrets.len() {
        assert(secrets.contains(secrets[i]));
        let k = choose|k: int| 0 <= k < b.len() && b[k] == secrets[i];
        assert(configuration_shown(configmaps, secrets).secrets[k] == configuration::secret_info(secrets[i]));
    }
}

/// Logs are read of every pod with containers in a watched namespace, and of each of its containers;
/// of no pod elsewhere.
pub proof fn lemma_logs_of_each_watched_pod(cfg: ConfigView, pods: Seq<PodInfoView>, i: int)
    requires
        0 <= i < pods.len(),
    ensures
        log_request(cfg.workload_monitoring_namespaces, pods[i]) is Some <==> pods[i].containers.len() > 0
            && cfg.workload_monitoring_namespaces.contains(pods[i].namespace),
        log_request(cfg.workload_monitoring_namespaces, pods[i]) matches Some(request) ==> request.name == pods[i].name
            && request.namespace == pods[i].namespace && request.containers.len() == pods[i].containers.len() && forall|k: int|
            0 <= k < pods[i].containers.len() ==> request.containers[k] == (#[trigger] pods[i].containers[k]).name,
        cfg.workload_monitoring_enabled && cfg.workload_monitoring_namespaces.contains(pods[i].namespace)
            && pods[i].containers.len() > 0 ==> log_requests(cfg, pods).contains(
            log_request(cfg.workload_monitoring_namespaces, pods[i])->0,
        ),
        !cfg.workload_monitoring_enabled ==> log_requests(cfg, pods).len() == 0,
{
    let f = |p: PodInfoView| log_request(cfg.workload_monitoring_namespaces, p);
    if f(pods[i]) is Some {
        views::lemma_filter_map_has(pods, f, i);
    }
}

/// A tail that was read is shown line by line, and marked where it may be cut; one that was not read
/// is not shown, nor is a pod of which none was.
pub proof fn lemma_tails_are_shown(read: ContainerLogReadView, reads: PodLogReadsView, i: int)
    ensures
        read.output is None ==> container_tail(read) is None,
        read.output matches Some(output) ==> (container_tail(read) matches Some(tail) && tail.name == read.name
            && tail.lines == text::lines_of(output) && (tail.truncated <==> vstd::utf8::encode_utf8(output).len() >= 65_536
            || text::lines_of(output).len() >= 200)),
        0 <= i < reads.containers.len() && reads.containers[i].output is Some ==> (pod_tails(reads) matches Some(tails)
            && tails.namespace == reads.namespace && tails.name == reads.name && tails.containers.contains(
            container_tail(reads.containers[i])->0,
        )),
{
    let f = |c: ContainerLogReadView| container_tail(c);
    if 0 <= i < reads.containers.len() && reads.containers[i].output is Some {
        views::lemma_filter_map_has(reads.containers, f, i);
        assert(reads.containers.filter_map(f).contains(container_tail(reads.containers[i])->0));
    }
}

/// The version of OpenShift is shown of an OpenShift cluster alone; time is counted in whole
/// seconds; and flows are shown only where they are followed.
pub proof fn lemma_cluster_version_is_shown(
    version: Option<Seq<char>>,
    nodes: Seq<NodeView>,
    cluster_versions: Seq<Map<Seq<char>, JsonNode>>,
    now_ms: u128,
)
    ensures
        cluster_shown(version, nodes, cluster_versions).openshift_version is Some ==> cluster_shown(
            version,
            nodes,
            cluster_versions,
        ).platform == Some("openshift"@),
        cluster_shown(version, nodes, cluster_versions).nodes.len() == nodes.len(),
        cluster_shown(version, nodes, cluster_versions).kubernetes_version == version,
        now_ms <= u64::MAX ==> 1000 * seconds_at(now_ms) <= now_ms < 1000 * seconds_at(now_ms) + 1000,
{
}

} // verus!
