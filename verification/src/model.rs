//! The records of an inventory snapshot.
use crate::views::DeepClone;
use vstd::prelude::*;

verus! {

/// A key with its value.
#[derive(Clone, Debug, Default, PartialEq, Eq)]
pub struct KV {
    pub key: String,
    pub value: String,
}

/// The view of [`KV`].
pub struct KVView {
    pub key: Seq<char>,
    pub value: Seq<char>,
}

impl DeepView for KV {
    type V = KVView;

    open spec fn deep_view(&self) -> KVView {
        KVView {
            key: self.key.deep_view(),
            value: self.value.deep_view(),
        }
    }
}

impl DeepClone for KV {
    fn deep_clone(&self) -> (copy: Self) {
        KV {
            key: self.key.deep_clone(),
            value: self.value.deep_clone(),
        }
    }
}

/// What was found out about the software in a container.
#[derive(Clone, Debug, Default, PartialEq, Eq)]
pub struct Technology {
    pub vendor: Option<String>,
    pub product: Option<String>,
    pub version: Option<String>,
    pub language: Option<String>,
    /// Where the finding comes from: "image", "process" or "labels".
    pub source: &'static str,
    /// The application stack, where one was recognised.
    pub subtype: Option<String>,
}

/// The view of [`Technology`].
pub struct TechnologyView {
    pub vendor: Option<Seq<char>>,
    pub product: Option<Seq<char>>,
    pub version: Option<Seq<char>>,
    pub language: Option<Seq<char>>,
    pub source: Seq<char>,
    pub subtype: Option<Seq<char>>,
}

impl DeepView for Technology {
    type V = TechnologyView;

    open spec fn deep_view(&self) -> TechnologyView {
        TechnologyView {
            vendor: self.vendor.deep_view(),
            product: self.product.deep_view(),
            version: self.version.deep_view(),
            language: self.language.deep_view(),
            source: self.source.deep_view(),
            subtype: self.subtype.deep_view(),
        }
    }
}

impl DeepClone for Technology {
    fn deep_clone(&self) -> (copy: Self) {
        Technology {
            vendor: self.vendor.deep_clone(),
            product: self.product.deep_clone(),
            version: self.version.deep_clone(),
            language: self.language.deep_clone(),
            source: self.source.deep_clone(),
            subtype: self.subtype.deep_clone(),
        }
    }
}

/// Requested and limited resources of a container.
#[derive(Clone, Debug, Default, PartialEq, Eq)]
pub struct ResourceSpec {
    pub requests_cpu: Option<String>,
    pub requests_memory: Option<String>,
    pub limits_cpu: Option<String>,
    pub limits_memory: Option<String>,
}

/// The view of [`ResourceSpec`].
pub struct ResourceSpecView {
    pub requests_cpu: Option<Seq<char>>,
    pub requests_memory: Option<Seq<char>>,
    pub limits_cpu: Option<Seq<char>>,
    pub limits_memory: Option<Seq<char>>,
}

impl DeepView for ResourceSpec {
    type V = ResourceSpecView;

    open spec fn deep_view(&self) -> ResourceSpecView {
        ResourceSpecView {
            requests_cpu: self.requests_cpu.deep_view(),
            requests_memory: self.requests_memory.deep_view(),
            limits_cpu: self.limits_cpu.deep_view(),
            limits_memory: self.limits_memory.deep_view(),
        }
    }
}

impl DeepClone for ResourceSpec {
    fn deep_clone(&self) -> (copy: Self) {
        ResourceSpec {
            requests_cpu: self.requests_cpu.deep_clone(),
            requests_memory: self.requests_memory.deep_clone(),
            limits_cpu: self.limits_cpu.deep_clone(),
            limits_memory: self.limits_memory.deep_clone(),
        }
    }
}

/// A container of a pod.
#[derive(Clone, Debug, PartialEq, Eq)]
pub struct ContainerInfo {
    pub name: String,
    pub image: String,
    pub image_pull_policy: Option<String>,
    pub technology: Technology,
    pub resources: ResourceSpec,
}

/// The view of [`ContainerInfo`].
pub struct ContainerInfoView {
    pub name: Seq<char>,
    pub image: Seq<char>,
    pub image_pull_policy: Option<Seq<char>>,
    pub technology: TechnologyView,
    pub resources: ResourceSpecView,
}

impl DeepView for ContainerInfo {
    type V = ContainerInfoView;

    open spec fn deep_view(&self) -> ContainerInfoView {
        ContainerInfoView {
            name: self.name.deep_view(),
            image: self.image.deep_view(),
            image_pull_policy: self.image_pull_policy.deep_view(),
            technology: self.technology.deep_view(),
            resources: self.resources.deep_view(),
        }
    }
}

impl DeepClone for ContainerInfo {
    fn deep_clone(&self) -> (copy: Self) {
        ContainerInfo {
            name: self.name.deep_clone(),
            image: self.image.deep_clone(),
            image_pull_policy: self.image_pull_policy.deep_clone(),
            technology: self.technology.deep_clone(),
            resources: self.resources.deep_clone(),
        }
    }
}

/// A pod.
#[derive(Clone, Debug, PartialEq, Eq)]
pub struct PodInfo {
    pub namespace: String,
    pub name: String,
    pub age_seconds: Option<u64>,
    pub node: Option<String>,
    pub phase: Option<String>,
    pub usage_cpu: Option<String>,
    pub usage_memory: Option<String>,
    pub owner_kind: Option<String>,
    pub owner_name: Option<String>,
    pub containers: Vec<ContainerInfo>,
}

/// The view of [`PodInfo`].
pub struct PodInfoView {
    pub namespace: Seq<char>,
    pub name: Seq<char>,
    pub age_seconds: Option<u64>,
    pub node: Option<Seq<char>>,
    pub phase: Option<Seq<char>>,
    pub usage_cpu: Option<Seq<char>>,
    pub usage_memory: Option<Seq<char>>,
    pub owner_kind: Option<Seq<char>>,
    pub owner_name: Option<Seq<char>>,
    pub containers: Seq<ContainerInfoView>,
}

impl DeepView for PodInfo {
    type V = PodInfoView;

    open spec fn deep_view(&self) -> PodInfoView {
        PodInfoView {
            namespace: self.namespace.deep_view(),
            name: self.name.deep_view(),
            age_seconds: self.age_seconds.deep_view(),
            node: self.node.deep_view(),
            phase: self.phase.deep_view(),
            usage_cpu: self.usage_cpu.deep_view(),
            usage_memory: self.usage_memory.deep_view(),
            owner_kind: self.owner_kind.deep_view(),
            owner_name: self.owner_name.deep_view(),
            containers: self.containers.deep_view(),
        }
    }
}

impl DeepClone for PodInfo {
    fn deep_clone(&self) -> (copy: Self) {
        PodInfo {
            namespace: self.namespace.deep_clone(),
            name: self.name.deep_clone(),
            age_seconds: self.age_seconds.deep_clone(),
            node: self.node.deep_clone(),
            phase: self.phase.deep_clone(),
            usage_cpu: self.usage_cpu.deep_clone(),
            usage_memory: self.usage_memory.deep_clone(),
            owner_kind: self.owner_kind.deep_clone(),
            owner_name: self.owner_name.deep_clone(),
            containers: self.containers.deep_clone(),
        }
    }
}

/// A workload and its replicas.
#[derive(Clone, Debug, PartialEq, Eq)]
pub struct WorkloadRef {
    pub namespace: String,
    pub name: String,
    pub replicas_desired: Option<i32>,
    pub replicas_ready: Option<i32>,
}

/// The view of [`WorkloadRef`].
pub struct WorkloadRefView {
    pub namespace: Seq<char>,
    pub name: Seq<char>,
    pub replicas_desired: Option<i32>,
    pub replicas_ready: Option<i32>,
}

impl DeepView for WorkloadRef {
    type V = WorkloadRefView;

    open spec fn deep_view(&self) -> WorkloadRefView {
        WorkloadRefView {
            namespace: self.namespace.deep_view(),
            name: self.name.deep_view(),
            replicas_desired: self.replicas_desired.deep_view(),
            replicas_ready: self.replicas_ready.deep_view(),
        }
    }
}

impl DeepClone for WorkloadRef {
    fn deep_clone(&self) -> (copy: Self) {
        WorkloadRef {
            namespace: self.namespace.deep_clone(),
            name: self.name.deep_clone(),
            replicas_desired: self.replicas_desired.deep_clone(),
            replicas_ready: self.replicas_ready.deep_clone(),
        }
    }
}

/// The workloads of a cluster by kind.
#[derive(Clone, Debug, Default, PartialEq, Eq)]
pub struct Workloads {
    pub deployments: Vec<WorkloadRef>,
    pub statefulsets: Vec<WorkloadRef>,
    pub daemonsets: Vec<WorkloadRef>,
}

/// The view of [`Workloads`].
pub struct WorkloadsView {
    pub deployments: Seq<WorkloadRefView>,
    pub statefulsets: Seq<WorkloadRefView>,
    pub daemonsets: Seq<WorkloadRefView>,
}

impl DeepView for Workloads {
    type V = WorkloadsView;

    open spec fn deep_view(&self) -> WorkloadsView {
        WorkloadsView {
            deployments: self.deployments.deep_view(),
            statefulsets: self.statefulsets.deep_view(),
            daemonsets: self.daemonsets.deep_view(),
        }
    }
}

impl DeepClone for Workloads {
    fn deep_clone(&self) -> (copy: Self) {
        Workloads {
            deployments: self.deployments.deep_clone(),
            statefulsets: self.statefulsets.deep_clone(),
            daemonsets: self.daemonsets.deep_clone(),
        }
    }
}

/// The object that an event is about.
#[derive(Clone, Debug, Default, PartialEq, Eq)]
pub struct InvolvedObjectInfo {
    pub kind: Option<String>,
    pub name: Option<String>,
    pub namespace: Option<String>,
    pub uid: Option<String>,
}

/// The view of [`InvolvedObjectInfo`].
pub struct InvolvedObjectInfoView {
    pub kind: Option<Seq<char>>,
    pub name: Option<Seq<char>>,
    pub namespace: Option<Seq<char>>,
    pub uid: Option<Seq<char>>,
}

impl DeepView for InvolvedObjectInfo {
    type V = InvolvedObjectInfoView;

    open spec fn deep_view(&self) -> InvolvedObjectInfoView {
        InvolvedObjectInfoView {
            kind: self.kind.deep_view(),
            name: self.name.deep_view(),
            namespace: self.namespace.deep_view(),
            uid: self.uid.deep_view(),
        }
    }
}

impl DeepClone for InvolvedObjectInfo {
    fn deep_clone(&self) -> (copy: Self) {
        InvolvedObjectInfo {
            kind: self.kind.deep_clone(),
            name: self.name.deep_clone(),
            namespace: self.namespace.deep_clone(),
            uid: self.uid.deep_clone(),
        }
    }
}

/// An event of the cluster.
#[derive(Clone, Debug, PartialEq, Eq)]
pub struct EventInfo {
    pub namespace: String,
    pub name: String,
    pub type_: Option<String>,
    pub reason: Option<String>,
    pub message: Option<String>,
    pub count: Option<i32>,
    pub first_timestamp: Option<String>,
    pub last_timestamp: Option<String>,
    pub reporting_controller: Option<String>,
    pub reporting_instance: Option<String>,
    pub involved_object: InvolvedObjectInfo,
}

/// The view of [`EventInfo`].
pub struct EventInfoView {
    pub namespace: Seq<char>,
    pub name: Seq<char>,
    pub type_: Option<Seq<char>>,
    pub reason: Option<Seq<char>>,
    pub message: Option<Seq<char>>,
    pub count: Option<i32>,
    pub first_timestamp: Option<Seq<char>>,
    pub last_timestamp: Option<Seq<char>>,
    pub reporting_controller: Option<Seq<char>>,
    pub reporting_instance: Option<Seq<char>>,
    pub involved_object: InvolvedObjectInfoView,
}

impl DeepView for EventInfo {
    type V = EventInfoView;

    open spec fn deep_view(&self) -> EventInfoView {
        EventInfoView {
            namespace: self.namespace.deep_view(),
            name: self.name.deep_view(),
            type_: self.type_.deep_view(),
            reason: self.reason.deep_view(),
            message: self.message.deep_view(),
            count: self.count.deep_view(),
            first_timestamp: self.first_timestamp.deep_view(),
            last_timestamp: self.last_timestamp.deep_view(),
            reporting_controller: self.reporting_controller.deep_view(),
            reporting_instance: self.reporting_instance.deep_view(),
            involved_object: self.involved_object.deep_view(),
        }
    }
}

impl DeepClone for EventInfo {
    fn deep_clone(&self) -> (copy: Self) {
        EventInfo {
            namespace: self.namespace.deep_clone(),
            name: self.name.deep_clone(),
            type_: self.type_.deep_clone(),
            reason: self.reason.deep_clone(),
            message: self.message.deep_clone(),
            count: self.count.deep_clone(),
            first_timestamp: self.first_timestamp.deep_clone(),
            last_timestamp: self.last_timestamp.deep_clone(),
            reporting_controller: self.reporting_controller.deep_clone(),
            reporting_instance: self.reporting_instance.deep_clone(),
            involved_object: self.involved_object.deep_clone(),
        }
    }
}

/// A port of a service.
#[derive(Clone, Debug, PartialEq, Eq)]
pub struct ServicePortInfo {
    pub name: Option<String>,
    pub protocol: Option<String>,
    pub port: i32,
    pub target_port: Option<String>,
    pub node_port: Option<i32>,
}

/// The view of [`ServicePortInfo`].
pub struct ServicePortInfoView {
    pub name: Option<Seq<char>>,
    pub protocol: Option<Seq<char>>,
    pub port: i32,
    pub target_port: Option<Seq<char>>,
    pub node_port: Option<i32>,
}

impl DeepView for ServicePortInfo {
    type V = ServicePortInfoView;

    open spec fn deep_view(&self) -> ServicePortInfoView {
        ServicePortInfoView {
            name: self.name.deep_view(),
            protocol: self.protocol.deep_view(),
            port: self.port.deep_view(),
            target_port: self.target_port.deep_view(),
            node_port: self.node_port.deep_view(),
        }
    }
}

impl DeepClone for ServicePortInfo {
    fn deep_clone(&self) -> (copy: Self) {
        ServicePortInfo {
            name: self.name.deep_clone(),
            protocol: self.protocol.deep_clone(),
            port: self.port.deep_clone(),
            target_port: self.target_port.deep_clone(),
            node_port: self.node_port.deep_clone(),
        }
    }
}

/// A service.
#[derive(Clone, Debug, PartialEq, Eq)]
pub struct ServiceInfo {
    pub namespace: String,
    pub name: String,
    pub type_: String,
    pub cluster_ip: Option<String>,
    pub external_ips: Vec<String>,
    pub selector: Vec<KV>,
    pub ports: Vec<ServicePortInfo>,
    pub load_balancer_ingress: Vec<String>,
}

/// The view of [`ServiceInfo`].
pub struct ServiceInfoView {
    pub namespace: Seq<char>,
    pub name: Seq<char>,
    pub type_: Seq<char>,
    pub cluster_ip: Option<Seq<char>>,
    pub external_ips: Seq<Seq<char>>,
    pub selector: Seq<KVView>,
    pub ports: Seq<ServicePortInfoView>,
    pub load_balancer_ingress: Seq<Seq<char>>,
}

impl DeepView for ServiceInfo {
    type V = ServiceInfoView;

    open spec fn deep_view(&self) -> ServiceInfoView {
        ServiceInfoView {
            namespace: self.namespace.deep_view(),
            name: self.name.deep_view(),
            type_: self.type_.deep_view(),
            cluster_ip: self.cluster_ip.deep_view(),
            external_ips: self.external_ips.deep_view(),
            selector: self.selector.deep_view(),
            ports: self.ports.deep_view(),
            load_balancer_ingress: self.load_balancer_ingress.deep_view(),
        }
    }
}

impl DeepClone for ServiceInfo {
    fn deep_clone(&self) -> (copy: Self) {
        ServiceInfo {
            namespace: self.namespace.deep_clone(),
            name: self.name.deep_clone(),
            type_: self.type_.deep_clone(),
            cluster_ip: self.cluster_ip.deep_clone(),
            external_ips: self.external_ips.deep_clone(),
            selector: self.selector.deep_clone(),
            ports: self.ports.deep_clone(),
            load_balancer_ingress: self.load_balancer_ingress.deep_clone(),
        }
    }
}

/// A rule of an ingress, one per path.
#[derive(Clone, Debug, PartialEq, Eq)]
pub struct IngressRuleInfo {
    pub host: Option<String>,
    pub path: Option<String>,
    pub path_type: Option<String>,
    pub backend_service: Option<String>,
    pub backend_port: Option<String>,
}

/// The view of [`IngressRuleInfo`].
pub struct IngressRuleInfoView {
    pub host: Option<Seq<char>>,
    pub path: Option<Seq<char>>,
    pub path_type: Option<Seq<char>>,
    pub backend_service: Option<Seq<char>>,
    pub backend_port: Option<Seq<char>>,
}

impl DeepView for IngressRuleInfo {
    type V = IngressRuleInfoView;

    open spec fn deep_view(&self) -> IngressRuleInfoView {
        IngressRuleInfoView {
            host: self.host.deep_view(),
            path: self.path.deep_view(),
            path_type: self.path_type.deep_view(),
            backend_service: self.backend_service.deep_view(),
            backend_port: self.backend_port.deep_view(),
        }
    }
}

impl DeepClone for IngressRuleInfo {
    fn deep_clone(&self) -> (copy: Self) {
        IngressRuleInfo {
            host: self.host.deep_clone(),
            path: self.path.deep_clone(),
            path_type: self.path_type.deep_clone(),
            backend_service: self.backend_service.deep_clone(),
            backend_port: self.backend_port.deep_clone(),
        }
    }
}

/// A TLS entry of an ingress.
#[derive(Clone, Debug, PartialEq, Eq)]
pub struct IngressTlsInfo {
    pub hosts: Vec<String>,
    pub secret_name: Option<String>,
}

/// The view of [`IngressTlsInfo`].
pub struct IngressTlsInfoView {
    pub hosts: Seq<Seq<char>>,
    pub secret_name: Option<Seq<char>>,
}

impl DeepView for IngressTlsInfo {
    type V = IngressTlsInfoView;

    open spec fn deep_view(&self) -> IngressTlsInfoView {
        IngressTlsInfoView {
            hosts: self.hosts.deep_view(),
            secret_name: self.secret_name.deep_view(),
        }
    }
}

impl DeepClone for IngressTlsInfo {
    fn deep_clone(&self) -> (copy: Self) {
        IngressTlsInfo {
            hosts: self.hosts.deep_clone(),
            secret_name: self.secret_name.deep_clone(),
        }
    }
}

/// An ingress.
#[derive(Clone, Debug, PartialEq, Eq)]
pub struct IngressInfo {
    pub namespace: String,
    pub name: String,
    pub class_name: Option<String>,
    pub hosts: Vec<String>,
    pub rules: Vec<IngressRuleInfo>,
    pub tls: Vec<IngressTlsInfo>,
    pub load_balancer_ingress: Vec<String>,
}

/// The view of [`IngressInfo`].
pub struct IngressInfoView {
    pub namespace: Seq<char>,
    pub name: Seq<char>,
    pub class_name: Option<Seq<char>>,
    pub hosts: Seq<Seq<char>>,
    pub rules: Seq<IngressRuleInfoView>,
    pub tls: Seq<IngressTlsInfoView>,
    pub load_balancer_ingress: Seq<Seq<char>>,
}

impl DeepView for IngressInfo {
    type V = IngressInfoView;

    open spec fn deep_view(&self) -> IngressInfoView {
        IngressInfoView {
            namespace: self.namespace.deep_view(),
            name: self.name.deep_view(),
            class_name: self.class_name.deep_view(),
            hosts: self.hosts.deep_view(),
            rules: self.rules.deep_view(),
            tls: self.tls.deep_view(),
            load_balancer_ingress: self.load_balancer_ingress.deep_view(),
        }
    }
}

impl DeepClone for IngressInfo {
    fn deep_clone(&self) -> (copy: Self) {
        IngressInfo {
            namespace: self.namespace.deep_clone(),
            name: self.name.deep_clone(),
            class_name: self.class_name.deep_clone(),
            hosts: self.hosts.deep_clone(),
            rules: self.rules.deep_clone(),
            tls: self.tls.deep_clone(),
            load_balancer_ingress: self.load_balancer_ingress.deep_clone(),
        }
    }
}

/// Services and ingresses.
#[derive(Clone, Debug, Default, PartialEq, Eq)]
pub struct NetworkInventory {
    pub services: Vec<ServiceInfo>,
    pub ingresses: Vec<IngressInfo>,
}

/// The view of [`NetworkInventory`].
pub struct NetworkInventoryView {
    pub services: Seq<ServiceInfoView>,
    pub ingresses: Seq<IngressInfoView>,
}

impl DeepView for NetworkInventory {
    type V = NetworkInventoryView;

    open spec fn deep_view(&self) -> NetworkInventoryView {
        NetworkInventoryView {
            services: self.services.deep_view(),
            ingresses: self.ingresses.deep_view(),
        }
    }
}

impl DeepClone for NetworkInventory {
    fn deep_clone(&self) -> (copy: Self) {
        NetworkInventory {
            services: self.services.deep_clone(),
            ingresses: self.ingresses.deep_clone(),
        }
    }
}

/// One end of an observed connection.
#[derive(Clone, Debug, PartialEq, Eq)]
pub struct DependencyEndpoint {
    pub kind: String,
    pub namespace: Option<String>,
    pub name: Option<String>,
    pub workload_kind: Option<String>,
    pub workload_name: Option<String>,
    pub ip: Option<String>,
}

/// The view of [`DependencyEndpoint`].
pub struct DependencyEndpointView {
    pub kind: Seq<char>,
    pub namespace: Option<Seq<char>>,
    pub name: Option<Seq<char>>,
    pub workload_kind: Option<Seq<char>>,
    pub workload_name: Option<Seq<char>>,
    pub ip: Option<Seq<char>>,
}

impl DeepView for DependencyEndpoint {
    type V = DependencyEndpointView;

    open spec fn deep_view(&self) -> DependencyEndpointView {
        DependencyEndpointView {
            kind: self.kind.deep_view(),
            namespace: self.namespace.deep_view(),
            name: self.name.deep_view(),
            workload_kind: self.workload_kind.deep_view(),
            workload_name: self.workload_name.deep_view(),
            ip: self.ip.deep_view(),
        }
    }
}

impl DeepClone for DependencyEndpoint {
    fn deep_clone(&self) -> (copy: Self) {
        DependencyEndpoint {
            kind: self.kind.deep_clone(),
            namespace: self.namespace.deep_clone(),
            name: self.name.deep_clone(),
            workload_kind: self.workload_kind.deep_clone(),
            workload_name: self.workload_name.deep_clone(),
            ip: self.ip.deep_clone(),
        }
    }
}

/// The traffic observed between two endpoints.
#[derive(Clone, Debug, PartialEq, Eq)]
pub struct DependencyEdge {
    pub from: DependencyEndpoint,
    pub to: DependencyEndpoint,
    pub protocol: String,
    pub destination_port: u16,
    pub direction: String,
    pub bytes: u64,
    pub packets: u64,
    pub connections: u64,
    pub first_seen_unix_ms: u128,
    pub last_seen_unix_ms: u128,
}

/// The view of [`DependencyEdge`].
pub struct DependencyEdgeView {
    pub from: DependencyEndpointView,
    pub to: DependencyEndpointView,
    pub protocol: Seq<char>,
    pub destination_port: u16,
    pub direction: Seq<char>,
    pub bytes: u64,
    pub packets: u64,
    pub connections: u64,
    pub first_seen_unix_ms: u128,
    pub last_seen_unix_ms: u128,
}

impl DeepView for DependencyEdge {
    type V = DependencyEdgeView;

    open spec fn deep_view(&self) -> DependencyEdgeView {
        DependencyEdgeView {
            from: self.from.deep_view(),
            to: self.to.deep_view(),
            protocol: self.protocol.deep_view(),
            destination_port: self.destination_port.deep_view(),
            direction: self.direction.deep_view(),
            bytes: self.bytes.deep_view(),
            packets: self.packets.deep_view(),
            connections: self.connections.deep_view(),
            first_seen_unix_ms: self.first_seen_unix_ms.deep_view(),
            last_seen_unix_ms: self.last_seen_unix_ms.deep_view(),
        }
    }
}

impl DeepClone for DependencyEdge {
    fn deep_clone(&self) -> (copy: Self) {
        DependencyEdge {
            from: self.from.deep_clone(),
            to: self.to.deep_clone(),
            protocol: self.protocol.deep_clone(),
            destination_port: self.destination_port.deep_clone(),
            direction: self.direction.deep_clone(),
            bytes: self.bytes.deep_clone(),
            packets: self.packets.deep_clone(),
            connections: self.connections.deep_clone(),
            first_seen_unix_ms: self.first_seen_unix_ms.deep_clone(),
            last_seen_unix_ms: self.last_seen_unix_ms.deep_clone(),
        }
    }
}

/// The traffic observed in the last window.
#[derive(Clone, Debug, Default, PartialEq, Eq)]
pub struct DependencyInventory {
    pub edges: Vec<DependencyEdge>,
    pub source: &'static str,
    pub window_seconds: u64,
    pub truncated: bool,
    pub dropped_edges: u64,
    pub observed_endpoints: usize,
    pub connected_endpoints: usize,
    pub unavailable_endpoints: usize,
}

/// The view of [`DependencyInventory`].
pub struct DependencyInventoryView {
    pub edges: Seq<DependencyEdgeView>,
    pub source: Seq<char>,
    pub window_seconds: u64,
    pub truncated: bool,
    pub dropped_edges: u64,
    pub observed_endpoints: usize,
    pub connected_endpoints: usize,
    pub unavailable_endpoints: usize,
}

impl DeepView for DependencyInventory {
    type V = DependencyInventoryView;

    open spec fn deep_view(&self) -> DependencyInventoryView {
        DependencyInventoryView {
            edges: self.edges.deep_view(),
            source: self.source.deep_view(),
            window_seconds: self.window_seconds.deep_view(),
            truncated: self.truncated.deep_view(),
            dropped_edges: self.dropped_edges.deep_view(),
            observed_endpoints: self.observed_endpoints.deep_view(),
            connected_endpoints: self.connected_endpoints.deep_view(),
            unavailable_endpoints: self.unavailable_endpoints.deep_view(),
        }
    }
}

impl DeepClone for DependencyInventory {
    fn deep_clone(&self) -> (copy: Self) {
        DependencyInventory {
            edges: self.edges.deep_clone(),
            source: self.source.deep_clone(),
            window_seconds: self.window_seconds.deep_clone(),
            truncated: self.truncated.deep_clone(),
            dropped_edges: self.dropped_edges.deep_clone(),
            observed_endpoints: self.observed_endpoints.deep_clone(),
            connected_endpoints: self.connected_endpoints.deep_clone(),
            unavailable_endpoints: self.unavailable_endpoints.deep_clone(),
        }
    }
}

/// A storage class with the parameters that may be shown.
#[derive(Clone, Debug, PartialEq, Eq)]
pub struct StorageClassInfo {
    pub name: String,
    pub provisioner: String,
    pub parameters: Vec<KV>,
}

/// The view of [`StorageClassInfo`].
pub struct StorageClassInfoView {
    pub name: Seq<char>,
    pub provisioner: Seq<char>,
    pub parameters: Seq<KVView>,
}

impl DeepView for StorageClassInfo {
    type V = StorageClassInfoView;

    open spec fn deep_view(&self) -> StorageClassInfoView {
        StorageClassInfoView {
            name: self.name.deep_view(),
            provisioner: self.provisioner.deep_view(),
            parameters: self.parameters.deep_view(),
        }
    }
}

impl DeepClone for StorageClassInfo {
    fn deep_clone(&self) -> (copy: Self) {
        StorageClassInfo {
            name: self.name.deep_clone(),
            provisioner: self.provisioner.deep_clone(),
            parameters: self.parameters.deep_clone(),
        }
    }
}

/// A persistent volume.
#[derive(Clone, Debug, PartialEq, Eq)]
pub struct PersistentVolumeInfo {
    pub name: String,
    pub storage_class: Option<String>,
}

/// The view of [`PersistentVolumeInfo`].
pub struct PersistentVolumeInfoView {
    pub name: Seq<char>,
    pub storage_class: Option<Seq<char>>,
}

impl DeepView for PersistentVolumeInfo {
    type V = PersistentVolumeInfoView;

    open spec fn deep_view(&self) -> PersistentVolumeInfoView {
        PersistentVolumeInfoView {
            name: self.name.deep_view(),
            storage_class: self.storage_class.deep_view(),
        }
    }
}

impl DeepClone for PersistentVolumeInfo {
    fn deep_clone(&self) -> (copy: Self) {
        PersistentVolumeInfo {
            name: self.name.deep_clone(),
            storage_class: self.storage_class.deep_clone(),
        }
    }
}

/// A claim on a persistent volume.
#[derive(Clone, Debug, PartialEq, Eq)]
pub struct PersistentVolumeClaimInfo {
    pub namespace: String,
    pub name: String,
    pub storage_class: Option<String>,
    pub volume_name: Option<String>,
}

/// The view of [`PersistentVolumeClaimInfo`].
pub struct PersistentVolumeClaimInfoView {
    pub namespace: Seq<char>,
    pub name: Seq<char>,
    pub storage_class: Option<Seq<char>>,
    pub volume_name: Option<Seq<char>>,
}

impl DeepView for PersistentVolumeClaimInfo {
    type V = PersistentVolumeClaimInfoView;

    open spec fn deep_view(&self) -> PersistentVolumeClaimInfoView {
        PersistentVolumeClaimInfoView {
            namespace: self.namespace.deep_view(),
            name: self.name.deep_view(),
            storage_class: self.storage_class.deep_view(),
            volume_name: self.volume_name.deep_view(),
        }
    }
}

impl DeepClone for PersistentVolumeClaimInfo {
    fn deep_clone(&self) -> (copy: Self) {
        PersistentVolumeClaimInfo {
            namespace: self.namespace.deep_clone(),
            name: self.name.deep_clone(),
            storage_class: self.storage_class.deep_clone(),
            volume_name: self.volume_name.deep_clone(),
        }
    }
}

/// A class of volume snapshots.
#[derive(Clone, Debug, PartialEq, Eq)]
pub struct VolumeSnapshotClassInfo {
    pub name: String,
    pub driver: String,
}

/// The view of [`VolumeSnapshotClassInfo`].
pub struct VolumeSnapshotClassInfoView {
    pub name: Seq<char>,
    pub driver: Seq<char>,
}

impl DeepView for VolumeSnapshotClassInfo {
    type V = VolumeSnapshotClassInfoView;

    open spec fn deep_view(&self) -> VolumeSnapshotClassInfoView {
        VolumeSnapshotClassInfoView {
            name: self.name.deep_view(),
            driver: self.driver.deep_view(),
        }
    }
}

impl DeepClone for VolumeSnapshotClassInfo {
    fn deep_clone(&self) -> (copy: Self) {
        VolumeSnapshotClassInfo {
            name: self.name.deep_clone(),
            driver: self.driver.deep_clone(),
        }
    }
}

/// A volume snapshot.
#[derive(Clone, Debug, PartialEq, Eq)]
pub struct VolumeSnapshotInfo {
    pub namespace: String,
    pub name: String,
    pub snapshot_class: Option<String>,
    pub bound_content_name: Option<String>,
}

/// The view of [`VolumeSnapshotInfo`].
pub struct VolumeSnapshotInfoView {
    pub namespace: Seq<char>,
    pub name: Seq<char>,
    pub snapshot_class: Option<Seq<char>>,
    pub bound_content_name: Option<Seq<char>>,
}

impl DeepView for VolumeSnapshotInfo {
    type V = VolumeSnapshotInfoView;

    open spec fn deep_view(&self) -> VolumeSnapshotInfoView {
        VolumeSnapshotInfoView {
            namespace: self.namespace.deep_view(),
            name: self.name.deep_view(),
            snapshot_class: self.snapshot_class.deep_view(),
            bound_content_name: self.bound_content_name.deep_view(),
        }
    }
}

impl DeepClone for VolumeSnapshotInfo {
    fn deep_clone(&self) -> (copy: Self) {
        VolumeSnapshotInfo {
            namespace: self.namespace.deep_clone(),
            name: self.name.deep_clone(),
            snapshot_class: self.snapshot_class.deep_clone(),
            bound_content_name: self.bound_content_name.deep_clone(),
        }
    }
}

/// Storage objects.
#[derive(Clone, Debug, Default, PartialEq, Eq)]
pub struct StorageInventory {
    pub storage_classes: Vec<StorageClassInfo>,
    pub persistent_volumes: Vec<PersistentVolumeInfo>,
    pub persistent_volume_claims: Vec<PersistentVolumeClaimInfo>,
    pub volume_snapshot_classes: Vec<VolumeSnapshotClassInfo>,
    pub volume_snapshots: Vec<VolumeSnapshotInfo>,
}

/// The view of [`StorageInventory`].
pub struct StorageInventoryView {
    pub storage_classes: Seq<StorageClassInfoView>,
    pub persistent_volumes: Seq<PersistentVolumeInfoView>,
    pub persistent_volume_claims: Seq<PersistentVolumeClaimInfoView>,
    pub volume_snapshot_classes: Seq<VolumeSnapshotClassInfoView>,
    pub volume_snapshots: Seq<VolumeSnapshotInfoView>,
}

impl DeepView for StorageInventory {
    type V = StorageInventoryView;

    open spec fn deep_view(&self) -> StorageInventoryView {
        StorageInventoryView {
            storage_classes: self.storage_classes.deep_view(),
            persistent_volumes: self.persistent_volumes.deep_view(),
            persistent_volume_claims: self.persistent_volume_claims.deep_view(),
            volume_snapshot_classes: self.volume_snapshot_classes.deep_view(),
            volume_snapshots: self.volume_snapshots.deep_view(),
        }
    }
}

impl DeepClone for StorageInventory {
    fn deep_clone(&self) -> (copy: Self) {
        StorageInventory {
            storage_classes: self.storage_classes.deep_clone(),
            persistent_volumes: self.persistent_volumes.deep_clone(),
            persistent_volume_claims: self.persistent_volume_claims.deep_clone(),
            volume_snapshot_classes: self.volume_snapshot_classes.deep_clone(),
            volume_snapshots: self.volume_snapshots.deep_clone(),
        }
    }
}

/// A node.
#[derive(Clone, Debug, PartialEq, Eq)]
pub struct NodeInfo {
    pub name: String,
    pub kubelet_version: Option<String>,
    pub os_image: Option<String>,
    pub container_runtime: Option<String>,
    pub architecture: Option<String>,
    pub capacity_cpu: Option<String>,
    pub capacity_memory: Option<String>,
    pub allocatable_cpu: Option<String>,
    pub allocatable_memory: Option<String>,
    pub ready: bool,
    pub roles: Vec<String>,
}

/// The view of [`NodeInfo`].
pub struct NodeInfoView {
    pub name: Seq<char>,
    pub kubelet_version: Option<Seq<char>>,
    pub os_image: Option<Seq<char>>,
    pub container_runtime: Option<Seq<char>>,
    pub architecture: Option<Seq<char>>,
    pub capacity_cpu: Option<Seq<char>>,
    pub capacity_memory: Option<Seq<char>>,
    pub allocatable_cpu: Option<Seq<char>>,
    pub allocatable_memory: Option<Seq<char>>,
    pub ready: bool,
    pub roles: Seq<Seq<char>>,
}

impl DeepView for NodeInfo {
    type V = NodeInfoView;

    open spec fn deep_view(&self) -> NodeInfoView {
        NodeInfoView {
            name: self.name.deep_view(),
            kubelet_version: self.kubelet_version.deep_view(),
            os_image: self.os_image.deep_view(),
            container_runtime: self.container_runtime.deep_view(),
            architecture: self.architecture.deep_view(),
            capacity_cpu: self.capacity_cpu.deep_view(),
            capacity_memory: self.capacity_memory.deep_view(),
            allocatable_cpu: self.allocatable_cpu.deep_view(),
            allocatable_memory: self.allocatable_memory.deep_view(),
            ready: self.ready.deep_view(),
            roles: self.roles.deep_view(),
        }
    }
}

impl DeepClone for NodeInfo {
    fn deep_clone(&self) -> (copy: Self) {
        NodeInfo {
            name: self.name.deep_clone(),
            kubelet_version: self.kubelet_version.deep_clone(),
            os_image: self.os_image.deep_clone(),
            container_runtime: self.container_runtime.deep_clone(),
            architecture: self.architecture.deep_clone(),
            capacity_cpu: self.capacity_cpu.deep_clone(),
            capacity_memory: self.capacity_memory.deep_clone(),
            allocatable_cpu: self.allocatable_cpu.deep_clone(),
            allocatable_memory: self.allocatable_memory.deep_clone(),
            ready: self.ready.deep_clone(),
            roles: self.roles.deep_clone(),
        }
    }
}

/// The cluster and its nodes.
#[derive(Clone, Debug, Default, PartialEq, Eq)]
pub struct ClusterInfo {
    pub kubernetes_version: Option<String>,
    /// "openshift", "vanilla", "eks", "gke" or "aks".
    pub platform: Option<String>,
    pub openshift_version: Option<String>,
    pub node_count: usize,
    pub nodes: Vec<NodeInfo>,
}

/// The view of [`ClusterInfo`].
pub struct ClusterInfoView {
    pub kubernetes_version: Option<Seq<char>>,
    pub platform: Option<Seq<char>>,
    pub openshift_version: Option<Seq<char>>,
    pub node_count: usize,
    pub nodes: Seq<NodeInfoView>,
}

impl DeepView for ClusterInfo {
    type V = ClusterInfoView;

    open spec fn deep_view(&self) -> ClusterInfoView {
        ClusterInfoView {
            kubernetes_version: self.kubernetes_version.deep_view(),
            platform: self.platform.deep_view(),
            openshift_version: self.openshift_version.deep_view(),
            node_count: self.node_count.deep_view(),
            nodes: self.nodes.deep_view(),
        }
    }
}

impl DeepClone for ClusterInfo {
    fn deep_clone(&self) -> (copy: Self) {
        ClusterInfo {
            kubernetes_version: self.kubernetes_version.deep_clone(),
            platform: self.platform.deep_clone(),
            openshift_version: self.openshift_version.deep_clone(),
            node_count: self.node_count.deep_clone(),
            nodes: self.nodes.deep_clone(),
        }
    }
}

/// A namespace.
#[derive(Clone, Debug, PartialEq, Eq)]
pub struct NamespaceInfo {
    pub name: String,
    pub phase: Option<String>,
    pub labels: Vec<KV>,
}

/// The view of [`NamespaceInfo`].
pub struct NamespaceInfoView {
    pub name: Seq<char>,
    pub phase: Option<Seq<char>>,
    pub labels: Seq<KVView>,
}

impl DeepView for NamespaceInfo {
    type V = NamespaceInfoView;

    open spec fn deep_view(&self) -> NamespaceInfoView {
        NamespaceInfoView {
            name: self.name.deep_view(),
            phase: self.phase.deep_view(),
            labels: self.labels.deep_view(),
        }
    }
}

impl DeepClone for NamespaceInfo {
    fn deep_clone(&self) -> (copy: Self) {
        NamespaceInfo {
            name: self.name.deep_clone(),
            phase: self.phase.deep_clone(),
            labels: self.labels.deep_clone(),
        }
    }
}

/// What was found out about a descheduler.
#[derive(Clone, Debug, Default, PartialEq, Eq)]
pub struct DeschedulerInfo {
    pub installed: bool,
    pub detected_by: Option<String>,
    pub namespace: Option<String>,
    pub strategy: Option<String>,
    pub schedule: Option<String>,
}

/// The view of [`DeschedulerInfo`].
pub struct DeschedulerInfoView {
    pub installed: bool,
    pub detected_by: Option<Seq<char>>,
    pub namespace: Option<Seq<char>>,
    pub strategy: Option<Seq<char>>,
    pub schedule: Option<Seq<char>>,
}

impl DeepView for DeschedulerInfo {
    type V = DeschedulerInfoView;

    open spec fn deep_view(&self) -> DeschedulerInfoView {
        DeschedulerInfoView {
            installed: self.installed.deep_view(),
            detected_by: self.detected_by.deep_view(),
            namespace: self.namespace.deep_view(),
            strategy: self.strategy.deep_view(),
            schedule: self.schedule.deep_view(),
        }
    }
}

impl DeepClone for DeschedulerInfo {
    fn deep_clone(&self) -> (copy: Self) {
        DeschedulerInfo {
            installed: self.installed.deep_clone(),
            detected_by: self.detected_by.deep_clone(),
            namespace: self.namespace.deep_clone(),
            strategy: self.strategy.deep_clone(),
            schedule: self.schedule.deep_clone(),
        }
    }
}

/// What was found out about vertical pod autoscalers.
#[derive(Clone, Debug, Default, PartialEq, Eq)]
pub struct VpaInfo {
    pub installed: bool,
    pub objects_count: usize,
    pub update_modes: Vec<String>,
}

/// The view of [`VpaInfo`].
pub struct VpaInfoView {
    pub installed: bool,
    pub objects_count: usize,
    pub update_modes: Seq<Seq<char>>,
}

impl DeepView for VpaInfo {
    type V = VpaInfoView;

    open spec fn deep_view(&self) -> VpaInfoView {
        VpaInfoView {
            installed: self.installed.deep_view(),
            objects_count: self.objects_count.deep_view(),
            update_modes: self.update_modes.deep_view(),
        }
    }
}

impl DeepClone for VpaInfo {
    fn deep_clone(&self) -> (copy: Self) {
        VpaInfo {
            installed: self.installed.deep_clone(),
            objects_count: self.objects_count.deep_clone(),
            update_modes: self.update_modes.deep_clone(),
        }
    }
}

/// A scheduled job.
#[derive(Clone, Debug, PartialEq, Eq)]
pub struct ScheduledJobInfo {
    pub namespace: String,
    pub name: String,
    pub schedule: String,
    pub suspend: bool,
    pub last_schedule_time: Option<String>,
    pub last_successful_time: Option<String>,
}

/// The view of [`ScheduledJobInfo`].
pub struct ScheduledJobInfoView {
    pub namespace: Seq<char>,
    pub name: Seq<char>,
    pub schedule: Seq<char>,
    pub suspend: bool,
    pub last_schedule_time: Option<Seq<char>>,
    pub last_successful_time: Option<Seq<char>>,
}

impl DeepView for ScheduledJobInfo {
    type V = ScheduledJobInfoView;

    open spec fn deep_view(&self) -> ScheduledJobInfoView {
        ScheduledJobInfoView {
            namespace: self.namespace.deep_view(),
            name: self.name.deep_view(),
            schedule: self.schedule.deep_view(),
            suspend: self.suspend.deep_view(),
            last_schedule_time: self.last_schedule_time.deep_view(),
            last_successful_time: self.last_successful_time.deep_view(),
        }
    }
}

impl DeepClone for ScheduledJobInfo {
    fn deep_clone(&self) -> (copy: Self) {
        ScheduledJobInfo {
            namespace: self.namespace.deep_clone(),
            name: self.name.deep_clone(),
            schedule: self.schedule.deep_clone(),
            suspend: self.suspend.deep_clone(),
            last_schedule_time: self.last_schedule_time.deep_clone(),
            last_successful_time: self.last_successful_time.deep_clone(),
        }
    }
}

/// Signs of operational maturity.
#[derive(Clone, Debug, Default, PartialEq, Eq)]
pub struct OperationalMaturityInventory {
    pub descheduler: DeschedulerInfo,
    pub vpa: VpaInfo,
    pub scheduled_jobs: Vec<ScheduledJobInfo>,
    pub truncated_jobs: bool,
}

/// The view of [`OperationalMaturityInventory`].
pub struct OperationalMaturityInventoryView {
    pub descheduler: DeschedulerInfoView,
    pub vpa: VpaInfoView,
    pub scheduled_jobs: Seq<ScheduledJobInfoView>,
    pub truncated_jobs: bool,
}

impl DeepView for OperationalMaturityInventory {
    type V = OperationalMaturityInventoryView;

    open spec fn deep_view(&self) -> OperationalMaturityInventoryView {
        OperationalMaturityInventoryView {
            descheduler: self.descheduler.deep_view(),
            vpa: self.vpa.deep_view(),
            scheduled_jobs: self.scheduled_jobs.deep_view(),
            truncated_jobs: self.truncated_jobs.deep_view(),
        }
    }
}

impl DeepClone for OperationalMaturityInventory {
    fn deep_clone(&self) -> (copy: Self) {
        OperationalMaturityInventory {
            descheduler: self.descheduler.deep_clone(),
            vpa: self.vpa.deep_clone(),
            scheduled_jobs: self.scheduled_jobs.deep_clone(),
            truncated_jobs: self.truncated_jobs.deep_clone(),
        }
    }
}

/// A network policy.
#[derive(Clone, Debug, PartialEq, Eq)]
pub struct NetworkPolicyInfo {
    pub namespace: String,
    pub name: String,
    pub policy_types: Vec<String>,
    pub pod_selector: Vec<KV>,
    pub ingress_rules_count: usize,
    pub egress_rules_count: usize,
}

/// The view of [`NetworkPolicyInfo`].
pub struct NetworkPolicyInfoView {
    pub namespace: Seq<char>,
    pub name: Seq<char>,
    pub policy_types: Seq<Seq<char>>,
    pub pod_selector: Seq<KVView>,
    pub ingress_rules_count: usize,
    pub egress_rules_count: usize,
}

impl DeepView for NetworkPolicyInfo {
    type V = NetworkPolicyInfoView;

    open spec fn deep_view(&self) -> NetworkPolicyInfoView {
        NetworkPolicyInfoView {
            namespace: self.namespace.deep_view(),
            name: self.name.deep_view(),
            policy_types: self.policy_types.deep_view(),
            pod_selector: self.pod_selector.deep_view(),
            ingress_rules_count: self.ingress_rules_count.deep_view(),
            egress_rules_count: self.egress_rules_count.deep_view(),
        }
    }
}

impl DeepClone for NetworkPolicyInfo {
    fn deep_clone(&self) -> (copy: Self) {
        NetworkPolicyInfo {
            namespace: self.namespace.deep_clone(),
            name: self.name.deep_clone(),
            policy_types: self.policy_types.deep_clone(),
            pod_selector: self.pod_selector.deep_clone(),
            ingress_rules_count: self.ingress_rules_count.deep_clone(),
            egress_rules_count: self.egress_rules_count.deep_clone(),
        }
    }
}

/// A subject of a binding.
#[derive(Clone, Debug, PartialEq, Eq)]
pub struct SecuritySubjectInfo {
    pub kind: String,
    pub name: String,
    pub namespace: Option<String>,
}

/// The view of [`SecuritySubjectInfo`].
pub struct SecuritySubjectInfoView {
    pub kind: Seq<char>,
    pub name: Seq<char>,
    pub namespace: Option<Seq<char>>,
}

impl DeepView for SecuritySubjectInfo {
    type V = SecuritySubjectInfoView;

    open spec fn deep_view(&self) -> SecuritySubjectInfoView {
        SecuritySubjectInfoView {
            kind: self.kind.deep_view(),
            name: self.name.deep_view(),
            namespace: self.namespace.deep_view(),
        }
    }
}

impl DeepClone for SecuritySubjectInfo {
    fn deep_clone(&self) -> (copy: Self) {
        SecuritySubjectInfo {
            kind: self.kind.deep_clone(),
            name: self.name.deep_clone(),
            namespace: self.namespace.deep_clone(),
        }
    }
}

/// A cluster role binding that is worth a look.
#[derive(Clone, Debug, PartialEq, Eq)]
pub struct ClusterRoleBindingInfo {
    pub name: String,
    pub role_ref_name: String,
    pub role_ref_kind: String,
    pub risk_level: String,
    pub subjects: Vec<SecuritySubjectInfo>,
}

/// The view of [`ClusterRoleBindingInfo`].
pub struct ClusterRoleBindingInfoView {
    pub name: Seq<char>,
    pub role_ref_name: Seq<char>,
    pub role_ref_kind: Seq<char>,
    pub risk_level: Seq<char>,
    pub subjects: Seq<SecuritySubjectInfoView>,
}

impl DeepView for ClusterRoleBindingInfo {
    type V = ClusterRoleBindingInfoView;

    open spec fn deep_view(&self) -> ClusterRoleBindingInfoView {
        ClusterRoleBindingInfoView {
            name: self.name.deep_view(),
            role_ref_name: self.role_ref_name.deep_view(),
            role_ref_kind: self.role_ref_kind.deep_view(),
            risk_level: self.risk_level.deep_view(),
            subjects: self.subjects.deep_view(),
        }
    }
}

impl DeepClone for ClusterRoleBindingInfo {
    fn deep_clone(&self) -> (copy: Self) {
        ClusterRoleBindingInfo {
            name: self.name.deep_clone(),
            role_ref_name: self.role_ref_name.deep_clone(),
            role_ref_kind: self.role_ref_kind.deep_clone(),
            risk_level: self.risk_level.deep_clone(),
            subjects: self.subjects.deep_clone(),
        }
    }
}

/// The pod security levels of a namespace.
#[derive(Clone, Debug, PartialEq, Eq)]
pub struct PodSecurityNamespaceInfo {
    pub namespace: String,
    pub enforce: Option<String>,
    pub audit: Option<String>,
    pub warn: Option<String>,
}

/// The view of [`PodSecurityNamespaceInfo`].
pub struct PodSecurityNamespaceInfoView {
    pub namespace: Seq<char>,
    pub enforce: Option<Seq<char>>,
    pub audit: Option<Seq<char>>,
    pub warn: Option<Seq<char>>,
}

impl DeepView for PodSecurityNamespaceInfo {
    type V = PodSecurityNamespaceInfoView;

    open spec fn deep_view(&self) -> PodSecurityNamespaceInfoView {
        PodSecurityNamespaceInfoView {
            namespace: self.namespace.deep_view(),
            enforce: self.enforce.deep_view(),
            audit: self.audit.deep_view(),
            warn: self.warn.deep_view(),
        }
    }
}

impl DeepClone for PodSecurityNamespaceInfo {
    fn deep_clone(&self) -> (copy: Self) {
        PodSecurityNamespaceInfo {
            namespace: self.namespace.deep_clone(),
            enforce: self.enforce.deep_clone(),
            audit: self.audit.deep_clone(),
            warn: self.warn.deep_clone(),
        }
    }
}

/// The pod security levels of each namespace.
#[derive(Clone, Debug, Default, PartialEq, Eq)]
pub struct PodSecurityAdmissionInfo {
    pub namespaces: Vec<PodSecurityNamespaceInfo>,
}

/// The view of [`PodSecurityAdmissionInfo`].
pub struct PodSecurityAdmissionInfoView {
    pub namespaces: Seq<PodSecurityNamespaceInfoView>,
}

impl DeepView for PodSecurityAdmissionInfo {
    type V = PodSecurityAdmissionInfoView;

    open spec fn deep_view(&self) -> PodSecurityAdmissionInfoView {
        PodSecurityAdmissionInfoView {
            namespaces: self.namespaces.deep_view(),
        }
    }
}

impl DeepClone for PodSecurityAdmissionInfo {
    fn deep_clone(&self) -> (copy: Self) {
        PodSecurityAdmissionInfo {
            namespaces: self.namespaces.deep_clone(),
        }
    }
}

/// Security objects.
#[derive(Clone, Debug, Default, PartialEq, Eq)]
pub struct SecurityInventory {
    pub network_policies: Vec<NetworkPolicyInfo>,
    pub cluster_role_bindings: Vec<ClusterRoleBindingInfo>,
    pub pod_security_admission: PodSecurityAdmissionInfo,
}

/// The view of [`SecurityInventory`].
pub struct SecurityInventoryView {
    pub network_policies: Seq<NetworkPolicyInfoView>,
    pub cluster_role_bindings: Seq<ClusterRoleBindingInfoView>,
    pub pod_security_admission: PodSecurityAdmissionInfoView,
}

impl DeepView for SecurityInventory {
    type V = SecurityInventoryView;

    open spec fn deep_view(&self) -> SecurityInventoryView {
        SecurityInventoryView {
            network_policies: self.network_policies.deep_view(),
            cluster_role_bindings: self.cluster_role_bindings.deep_view(),
            pod_security_admission: self.pod_security_admission.deep_view(),
        }
    }
}

impl DeepClone for SecurityInventory {
    fn deep_clone(&self) -> (copy: Self) {
        SecurityInventory {
            network_policies: self.network_policies.deep_clone(),
            cluster_role_bindings: self.cluster_role_bindings.deep_clone(),
            pod_security_admission: self.pod_security_admission.deep_clone(),
        }
    }
}

/// A config map: names of its keys, no values.
#[derive(Clone, Debug, PartialEq, Eq)]
pub struct ConfigMapInfo {
    pub namespace: String,
    pub name: String,
    pub immutable: Option<bool>,
    pub labels: Vec<KV>,
    pub annotations: Vec<KV>,
    pub data_keys: Vec<String>,
    pub binary_data_keys: Vec<String>,
}

/// The view of [`ConfigMapInfo`].
pub struct ConfigMapInfoView {
    pub namespace: Seq<char>,
    pub name: Seq<char>,
    pub immutable: Option<bool>,
    pub labels: Seq<KVView>,
    pub annotations: Seq<KVView>,
    pub data_keys: Seq<Seq<char>>,
    pub binary_data_keys: Seq<Seq<char>>,
}

impl DeepView for ConfigMapInfo {
    type V = ConfigMapInfoView;

    open spec fn deep_view(&self) -> ConfigMapInfoView {
        ConfigMapInfoView {
            namespace: self.namespace.deep_view(),
            name: self.name.deep_view(),
            immutable: self.immutable.deep_view(),
            labels: self.labels.deep_view(),
            annotations: self.annotations.deep_view(),
            data_keys: self.data_keys.deep_view(),
            binary_data_keys: self.binary_data_keys.deep_view(),
        }
    }
}

impl DeepClone for ConfigMapInfo {
    fn deep_clone(&self) -> (copy: Self) {
        ConfigMapInfo {
            namespace: self.namespace.deep_clone(),
            name: self.name.deep_clone(),
            immutable: self.immutable.deep_clone(),
            labels: self.labels.deep_clone(),
            annotations: self.annotations.deep_clone(),
            data_keys: self.data_keys.deep_clone(),
            binary_data_keys: self.binary_data_keys.deep_clone(),
        }
    }
}

/// A secret: names of its keys, no values.
#[derive(Clone, Debug, PartialEq, Eq)]
pub struct SecretInfo {
    pub namespace: String,
    pub name: String,
    pub type_: Option<String>,
    pub immutable: Option<bool>,
    pub labels: Vec<KV>,
    pub annotations: Vec<KV>,
    pub data_keys: Vec<String>,
}

/// The view of [`SecretInfo`].
pub struct SecretInfoView {
    pub namespace: Seq<char>,
    pub name: Seq<char>,
    pub type_: Option<Seq<char>>,
    pub immutable: Option<bool>,
    pub labels: Seq<KVView>,
    pub annotations: Seq<KVView>,
    pub data_keys: Seq<Seq<char>>,
}

impl DeepView for SecretInfo {
    type V = SecretInfoView;

    open spec fn deep_view(&self) -> SecretInfoView {
        SecretInfoView {
            namespace: self.namespace.deep_view(),
            name: self.name.deep_view(),
            type_: self.type_.deep_view(),
            immutable: self.immutable.deep_view(),
            labels: self.labels.deep_view(),
            annotations: self.annotations.deep_view(),
            data_keys: self.data_keys.deep_view(),
        }
    }
}

impl DeepClone for SecretInfo {
    fn deep_clone(&self) -> (copy: Self) {
        SecretInfo {
            namespace: self.namespace.deep_clone(),
            name: self.name.deep_clone(),
            type_: self.type_.deep_clone(),
            immutable: self.immutable.deep_clone(),
            labels: self.labels.deep_clone(),
            annotations: self.annotations.deep_clone(),
            data_keys: self.data_keys.deep_clone(),
        }
    }
}

/// Configuration objects.
#[derive(Clone, Debug, Default, PartialEq, Eq)]
pub struct ConfigurationInventory {
    pub configmaps: Vec<ConfigMapInfo>,
    pub secrets: Vec<SecretInfo>,
    pub agent_runtime_env: Vec<KV>,
    pub agent_configured_env: Vec<KV>,
}

/// The view of [`ConfigurationInventory`].
pub struct ConfigurationInventoryView {
    pub configmaps: Seq<ConfigMapInfoView>,
    pub secrets: Seq<SecretInfoView>,
    pub agent_runtime_env: Seq<KVView>,
    pub agent_configured_env: Seq<KVView>,
}

impl DeepView for ConfigurationInventory {
    type V = ConfigurationInventoryView;

    open spec fn deep_view(&self) -> ConfigurationInventoryView {
        ConfigurationInventoryView {
            configmaps: self.configmaps.deep_view(),
            secrets: self.secrets.deep_view(),
            agent_runtime_env: self.agent_runtime_env.deep_view(),
            agent_configured_env: self.agent_configured_env.deep_view(),
        }
    }
}

impl DeepClone for ConfigurationInventory {
    fn deep_clone(&self) -> (copy: Self) {
        ConfigurationInventory {
            configmaps: self.configmaps.deep_clone(),
            secrets: self.secrets.deep_clone(),
            agent_runtime_env: self.agent_runtime_env.deep_clone(),
            agent_configured_env: self.agent_configured_env.deep_clone(),
        }
    }
}

/// The agent that took a snapshot.
#[derive(Clone, Debug, PartialEq, Eq)]
pub struct AgentInfo {
    pub name: &'static str,
    pub version: String,
    pub pod_name: String,
    pub pod_namespace: String,
    pub node_name: String,
    pub actions_enabled: bool,
    pub collect_dependencies_tetragon: bool,
}

/// The view of [`AgentInfo`].
pub struct AgentInfoView {
    pub name: Seq<char>,
    pub version: Seq<char>,
    pub pod_name: Seq<char>,
    pub pod_namespace: Seq<char>,
    pub node_name: Seq<char>,
    pub actions_enabled: bool,
    pub collect_dependencies_tetragon: bool,
}

impl DeepView for AgentInfo {
    type V = AgentInfoView;

    open spec fn deep_view(&self) -> AgentInfoView {
        AgentInfoView {
            name: self.name.deep_view(),
            version: self.version.deep_view(),
            pod_name: self.pod_name.deep_view(),
            pod_namespace: self.pod_namespace.deep_view(),
            node_name: self.node_name.deep_view(),
            actions_enabled: self.actions_enabled.deep_view(),
            collect_dependencies_tetragon: self.collect_dependencies_tetragon.deep_view(),
        }
    }
}

impl DeepClone for AgentInfo {
    fn deep_clone(&self) -> (copy: Self) {
        AgentInfo {
            name: self.name.deep_clone(),
            version: self.version.deep_clone(),
            pod_name: self.pod_name.deep_clone(),
            pod_namespace: self.pod_namespace.deep_clone(),
            node_name: self.node_name.deep_clone(),
            actions_enabled: self.actions_enabled.deep_clone(),
            collect_dependencies_tetragon: self.collect_dependencies_tetragon.deep_clone(),
        }
    }
}

/// How the pod metrics API answered.
#[derive(Clone, Debug, PartialEq, Eq)]
pub struct MetricsStatus {
    pub state: &'static str,
    pub reason: Option<String>,
    pub source: &'static str,
    pub pod_metrics_count: usize,
    pub last_attempt_at_ms: u128,
}

/// The view of [`MetricsStatus`].
pub struct MetricsStatusView {
    pub state: Seq<char>,
    pub reason: Option<Seq<char>>,
    pub source: Seq<char>,
    pub pod_metrics_count: usize,
    pub last_attempt_at_ms: u128,
}

impl DeepView for MetricsStatus {
    type V = MetricsStatusView;

    open spec fn deep_view(&self) -> MetricsStatusView {
        MetricsStatusView {
            state: self.state.deep_view(),
            reason: self.reason.deep_view(),
            source: self.source.deep_view(),
            pod_metrics_count: self.pod_metrics_count.deep_view(),
            last_attempt_at_ms: self.last_attempt_at_ms.deep_view(),
        }
    }
}

impl DeepClone for MetricsStatus {
    fn deep_clone(&self) -> (copy: Self) {
        MetricsStatus {
            state: self.state.deep_clone(),
            reason: self.reason.deep_clone(),
            source: self.source.deep_clone(),
            pod_metrics_count: self.pod_metrics_count.deep_clone(),
            last_attempt_at_ms: self.last_attempt_at_ms.deep_clone(),
        }
    }
}

/// How the volume snapshot API answered.
#[derive(Clone, Debug, PartialEq, Eq)]
pub struct SnapshotApiStatus {
    pub state: &'static str,
    pub reason: Option<String>,
    pub source: &'static str,
    pub volumesnapshotclasses_count: usize,
    pub volumesnapshots_count: usize,
    pub last_attempt_at_ms: u128,
}

/// The view of [`SnapshotApiStatus`].
pub struct SnapshotApiStatusView {
    pub state: Seq<char>,
    pub reason: Option<Seq<char>>,
    pub source: Seq<char>,
    pub volumesnapshotclasses_count: usize,
    pub volumesnapshots_count: usize,
    pub last_attempt_at_ms: u128,
}

impl DeepView for SnapshotApiStatus {
    type V = SnapshotApiStatusView;

    open spec fn deep_view(&self) -> SnapshotApiStatusView {
        SnapshotApiStatusView {
            state: self.state.deep_view(),
            reason: self.reason.deep_view(),
            source: self.source.deep_view(),
            volumesnapshotclasses_count: self.volumesnapshotclasses_count.deep_view(),
            volumesnapshots_count: self.volumesnapshots_count.deep_view(),
            last_attempt_at_ms: self.last_attempt_at_ms.deep_view(),
        }
    }
}

impl DeepClone for SnapshotApiStatus {
    fn deep_clone(&self) -> (copy: Self) {
        SnapshotApiStatus {
            state: self.state.deep_clone(),
            reason: self.reason.deep_clone(),
            source: self.source.deep_clone(),
            volumesnapshotclasses_count: self.volumesnapshotclasses_count.deep_clone(),
            volumesnapshots_count: self.volumesnapshots_count.deep_clone(),
            last_attempt_at_ms: self.last_attempt_at_ms.deep_clone(),
        }
    }
}

/// The Hub's answer to a snapshot.
#[derive(Clone, Debug, Default, PartialEq, Eq)]
pub struct SnapshotCreated {
    pub already_existed: bool,
}

/// The view of [`SnapshotCreated`].
pub struct SnapshotCreatedView {
    pub already_existed: bool,
}

impl DeepView for SnapshotCreated {
    type V = SnapshotCreatedView;

    open spec fn deep_view(&self) -> SnapshotCreatedView {
        SnapshotCreatedView {
            already_existed: self.already_existed.deep_view(),
        }
    }
}

impl DeepClone for SnapshotCreated {
    fn deep_clone(&self) -> (copy: Self) {
        SnapshotCreated {
            already_existed: self.already_existed.deep_clone(),
        }
    }
}

/// What the Hub knows of a cluster.
#[derive(Clone, Debug, Default, PartialEq, Eq)]
pub struct ClusterStatus {
    pub last_seen_at: Option<String>,
    pub k8s_uid: Option<String>,
}

/// The view of [`ClusterStatus`].
pub struct ClusterStatusView {
    pub last_seen_at: Option<Seq<char>>,
    pub k8s_uid: Option<Seq<char>>,
}

impl DeepView for ClusterStatus {
    type V = ClusterStatusView;

    open spec fn deep_view(&self) -> ClusterStatusView {
        ClusterStatusView {
            last_seen_at: self.last_seen_at.deep_view(),
            k8s_uid: self.k8s_uid.deep_view(),
        }
    }
}

impl DeepClone for ClusterStatus {
    fn deep_clone(&self) -> (copy: Self) {
        ClusterStatus {
            last_seen_at: self.last_seen_at.deep_clone(),
            k8s_uid: self.k8s_uid.deep_clone(),
        }
    }
}

/// One scraped metric.
#[derive(Clone, Debug, PartialEq, Eq)]
pub struct AppMetricSample {
    pub name: String,
    pub value: String,
}

/// The view of [`AppMetricSample`].
pub struct AppMetricSampleView {
    pub name: Seq<char>,
    pub value: Seq<char>,
}

impl DeepView for AppMetricSample {
    type V = AppMetricSampleView;

    open spec fn deep_view(&self) -> AppMetricSampleView {
        AppMetricSampleView {
            name: self.name.deep_view(),
            value: self.value.deep_view(),
        }
    }
}

impl DeepClone for AppMetricSample {
    fn deep_clone(&self) -> (copy: Self) {
        AppMetricSample {
            name: self.name.deep_clone(),
            value: self.value.deep_clone(),
        }
    }
}

/// The metrics scraped from one service.
#[derive(Clone, Debug, PartialEq, Eq)]
pub struct AppMetricsTarget {
    pub namespace: String,
    pub name: String,
    pub path: String,
    pub port: u16,
    pub status: String,
    pub samples: Vec<AppMetricSample>,
}

/// The view of [`AppMetricsTarget`].
pub struct AppMetricsTargetView {
    pub namespace: Seq<char>,
    pub name: Seq<char>,
    pub path: Seq<char>,
    pub port: u16,
    pub status: Seq<char>,
    pub samples: Seq<AppMetricSampleView>,
}

impl DeepView for AppMetricsTarget {
    type V = AppMetricsTargetView;

    open spec fn deep_view(&self) -> AppMetricsTargetView {
        AppMetricsTargetView {
            namespace: self.namespace.deep_view(),
            name: self.name.deep_view(),
            path: self.path.deep_view(),
            port: self.port.deep_view(),
            status: self.status.deep_view(),
            samples: self.samples.deep_view(),
        }
    }
}

impl DeepClone for AppMetricsTarget {
    fn deep_clone(&self) -> (copy: Self) {
        AppMetricsTarget {
            namespace: self.namespace.deep_clone(),
            name: self.name.deep_clone(),
            path: self.path.deep_clone(),
            port: self.port.deep_clone(),
            status: self.status.deep_clone(),
            samples: self.samples.deep_clone(),
        }
    }
}

/// The metrics scraped from annotated services.
#[derive(Clone, Debug, Default, PartialEq, Eq)]
pub struct AppMetricsInventory {
    pub targets: Vec<AppMetricsTarget>,
}

/// The view of [`AppMetricsInventory`].
pub struct AppMetricsInventoryView {
    pub targets: Seq<AppMetricsTargetView>,
}

impl DeepView for AppMetricsInventory {
    type V = AppMetricsInventoryView;

    open spec fn deep_view(&self) -> AppMetricsInventoryView {
        AppMetricsInventoryView {
            targets: self.targets.deep_view(),
        }
    }
}

impl DeepClone for AppMetricsInventory {
    fn deep_clone(&self) -> (copy: Self) {
        AppMetricsInventory {
            targets: self.targets.deep_clone(),
        }
    }
}

/// The tail of a container's log.
#[derive(Clone, Debug, PartialEq, Eq)]
pub struct WorkloadMonitoringContainerLogs {
    pub name: String,
    pub truncated: bool,
    pub lines: Vec<String>,
}

/// The view of [`WorkloadMonitoringContainerLogs`].
pub struct WorkloadMonitoringContainerLogsView {
    pub name: Seq<char>,
    pub truncated: bool,
    pub lines: Seq<Seq<char>>,
}

impl DeepView for WorkloadMonitoringContainerLogs {
    type V = WorkloadMonitoringContainerLogsView;

    open spec fn deep_view(&self) -> WorkloadMonitoringContainerLogsView {
        WorkloadMonitoringContainerLogsView {
            name: self.name.deep_view(),
            truncated: self.truncated.deep_view(),
            lines: self.lines.deep_view(),
        }
    }
}

impl DeepClone for WorkloadMonitoringContainerLogs {
    fn deep_clone(&self) -> (copy: Self) {
        WorkloadMonitoringContainerLogs {
            name: self.name.deep_clone(),
            truncated: self.truncated.deep_clone(),
            lines: self.lines.deep_clone(),
        }
    }
}

/// The log tails of a pod.
#[derive(Clone, Debug, PartialEq, Eq)]
pub struct WorkloadMonitoringPodLogs {
    pub namespace: String,
    pub name: String,
    pub containers: Vec<WorkloadMonitoringContainerLogs>,
}

/// The view of [`WorkloadMonitoringPodLogs`].
pub struct WorkloadMonitoringPodLogsView {
    pub namespace: Seq<char>,
    pub name: Seq<char>,
    pub containers: Seq<WorkloadMonitoringContainerLogsView>,
}

impl DeepView for WorkloadMonitoringPodLogs {
    type V = WorkloadMonitoringPodLogsView;

    open spec fn deep_view(&self) -> WorkloadMonitoringPodLogsView {
        WorkloadMonitoringPodLogsView {
            namespace: self.namespace.deep_view(),
            name: self.name.deep_view(),
            containers: self.containers.deep_view(),
        }
    }
}

impl DeepClone for WorkloadMonitoringPodLogs {
    fn deep_clone(&self) -> (copy: Self) {
        WorkloadMonitoringPodLogs {
            namespace: self.namespace.deep_clone(),
            name: self.name.deep_clone(),
            containers: self.containers.deep_clone(),
        }
    }
}

/// The log tails of the monitored pods.
#[derive(Clone, Debug, Default, PartialEq, Eq)]
pub struct WorkloadMonitoringLogs {
    pub pods: Vec<WorkloadMonitoringPodLogs>,
}

/// The view of [`WorkloadMonitoringLogs`].
pub struct WorkloadMonitoringLogsView {
    pub pods: Seq<WorkloadMonitoringPodLogsView>,
}

impl DeepView for WorkloadMonitoringLogs {
    type V = WorkloadMonitoringLogsView;

    open spec fn deep_view(&self) -> WorkloadMonitoringLogsView {
        WorkloadMonitoringLogsView {
            pods: self.pods.deep_view(),
        }
    }
}

impl DeepClone for WorkloadMonitoringLogs {
    fn deep_clone(&self) -> (copy: Self) {
        WorkloadMonitoringLogs {
            pods: self.pods.deep_clone(),
        }
    }
}

/// What the monitored namespaces hold.
#[derive(Clone, Debug, PartialEq, Eq)]
pub struct WorkloadMonitoringSignals {
    pub workloads: Vec<WorkloadRef>,
    pub pods: Vec<PodInfo>,
    pub services: Vec<ServiceInfo>,
    pub ingresses: Vec<IngressInfo>,
    pub events: Vec<EventInfo>,
    pub dependencies: Option<DependencyInventory>,
    pub app_metrics: Option<AppMetricsInventory>,
}

/// The view of [`WorkloadMonitoringSignals`].
pub struct WorkloadMonitoringSignalsView {
    pub workloads: Seq<WorkloadRefView>,
    pub pods: Seq<PodInfoView>,
    pub services: Seq<ServiceInfoView>,
    pub ingresses: Seq<IngressInfoView>,
    pub events: Seq<EventInfoView>,
    pub dependencies: Option<DependencyInventoryView>,
    pub app_metrics: Option<AppMetricsInventoryView>,
}

impl DeepView for WorkloadMonitoringSignals {
    type V = WorkloadMonitoringSignalsView;

    open spec fn deep_view(&self) -> WorkloadMonitoringSignalsView {
        WorkloadMonitoringSignalsView {
            workloads: self.workloads.deep_view(),
            pods: self.pods.deep_view(),
            services: self.services.deep_view(),
            ingresses: self.ingresses.deep_view(),
            events: self.events.deep_view(),
            dependencies: self.dependencies.deep_view(),
            app_metrics: self.app_metrics.deep_view(),
        }
    }
}

impl DeepClone for WorkloadMonitoringSignals {
    fn deep_clone(&self) -> (copy: Self) {
        WorkloadMonitoringSignals {
            workloads: self.workloads.deep_clone(),
            pods: self.pods.deep_clone(),
            services: self.services.deep_clone(),
            ingresses: self.ingresses.deep_clone(),
            events: self.events.deep_clone(),
            dependencies: self.dependencies.deep_clone(),
            app_metrics: self.app_metrics.deep_clone(),
        }
    }
}

/// The block that workload monitoring adds to a snapshot.
#[derive(Clone, Debug, PartialEq, Eq)]
pub struct WorkloadMonitoringPlugin {
    pub enabled: bool,
    pub namespaces: Vec<String>,
    pub technology_targets: Vec<String>,
    pub schema_version: u32,
    pub generated_at_ms: u128,
    pub signals: WorkloadMonitoringSignals,
    pub logs: WorkloadMonitoringLogs,
}

/// The view of [`WorkloadMonitoringPlugin`].
pub struct WorkloadMonitoringPluginView {
    pub enabled: bool,
    pub namespaces: Seq<Seq<char>>,
    pub technology_targets: Seq<Seq<char>>,
    pub schema_version: u32,
    pub generated_at_ms: u128,
    pub signals: WorkloadMonitoringSignalsView,
    pub logs: WorkloadMonitoringLogsView,
}

impl DeepView for WorkloadMonitoringPlugin {
    type V = WorkloadMonitoringPluginView;

    open spec fn deep_view(&self) -> WorkloadMonitoringPluginView {
        WorkloadMonitoringPluginView {
            enabled: self.enabled.deep_view(),
            namespaces: self.namespaces.deep_view(),
            technology_targets: self.technology_targets.deep_view(),
            schema_version: self.schema_version.deep_view(),
            generated_at_ms: self.generated_at_ms.deep_view(),
            signals: self.signals.deep_view(),
            logs: self.logs.deep_view(),
        }
    }
}

impl DeepClone for WorkloadMonitoringPlugin {
    fn deep_clone(&self) -> (copy: Self) {
        WorkloadMonitoringPlugin {
            enabled: self.enabled.deep_clone(),
            namespaces: self.namespaces.deep_clone(),
            technology_targets: self.technology_targets.deep_clone(),
            schema_version: self.schema_version.deep_clone(),
            generated_at_ms: self.generated_at_ms.deep_clone(),
            signals: self.signals.deep_clone(),
            logs: self.logs.deep_clone(),
        }
    }
}

/// A detail of a PostgreSQL finding.
#[derive(Clone, Debug, PartialEq, Eq)]
pub struct PostgresqlMonitoringDetailItem {
    pub title: String,
    pub value: String,
}

/// The view of [`PostgresqlMonitoringDetailItem`].
pub struct PostgresqlMonitoringDetailItemView {
    pub title: Seq<char>,
    pub value: Seq<char>,
}

impl DeepView for PostgresqlMonitoringDetailItem {
    type V = PostgresqlMonitoringDetailItemView;

    open spec fn deep_view(&self) -> PostgresqlMonitoringDetailItemView {
        PostgresqlMonitoringDetailItemView {
            title: self.title.deep_view(),
            value: self.value.deep_view(),
        }
    }
}

impl DeepClone for PostgresqlMonitoringDetailItem {
    fn deep_clone(&self) -> (copy: Self) {
        PostgresqlMonitoringDetailItem {
            title: self.title.deep_clone(),
            value: self.value.deep_clone(),
        }
    }
}

/// Something that a PostgreSQL finding rests on.
#[derive(Clone, Debug, PartialEq, Eq)]
pub struct PostgresqlMonitoringEvidenceItem {
    pub title: String,
    pub value: String,
}

/// The view of [`PostgresqlMonitoringEvidenceItem`].
pub struct PostgresqlMonitoringEvidenceItemView {
    pub title: Seq<char>,
    pub value: Seq<char>,
}

impl DeepView for PostgresqlMonitoringEvidenceItem {
    type V = PostgresqlMonitoringEvidenceItemView;

    open spec fn deep_view(&self) -> PostgresqlMonitoringEvidenceItemView {
        PostgresqlMonitoringEvidenceItemView {
            title: self.title.deep_view(),
            value: self.value.deep_view(),
        }
    }
}

impl DeepClone for PostgresqlMonitoringEvidenceItem {
    fn deep_clone(&self) -> (copy: Self) {
        PostgresqlMonitoringEvidenceItem {
            title: self.title.deep_clone(),
            value: self.value.deep_clone(),
        }
    }
}

/// Something that a PostgreSQL finding lacks.
#[derive(Clone, Debug, PartialEq, Eq)]
pub struct PostgresqlMonitoringMissingDataItem {
    pub title: String,
    pub value: String,
}

/// The view of [`PostgresqlMonitoringMissingDataItem`].
pub struct PostgresqlMonitoringMissingDataItemView {
    pub title: Seq<char>,
    pub value: Seq<char>,
}

impl DeepView for PostgresqlMonitoringMissingDataItem {
    type V = PostgresqlMonitoringMissingDataItemView;

    open spec fn deep_view(&self) -> PostgresqlMonitoringMissingDataItemView {
        PostgresqlMonitoringMissingDataItemView {
            title: self.title.deep_view(),
            value: self.value.deep_view(),
        }
    }
}

impl DeepClone for PostgresqlMonitoringMissingDataItem {
    fn deep_clone(&self) -> (copy: Self) {
        PostgresqlMonitoringMissingDataItem {
            title: self.title.deep_clone(),
            value: self.value.deep_clone(),
        }
    }
}

/// The block that PostgreSQL monitoring adds to a snapshot.
#[derive(Clone, Debug, PartialEq, Eq)]
pub struct PostgresqlMonitoringPlugin {
    pub enabled: bool,
    pub namespaces: Vec<String>,
    pub schema_version: u32,
    pub generated_at_ms: u128,
    pub status: String,
    pub summary: String,
    pub detail: Vec<PostgresqlMonitoringDetailItem>,
    pub evidence: Vec<PostgresqlMonitoringEvidenceItem>,
    pub missing_data: Vec<PostgresqlMonitoringMissingDataItem>,
}

/// The view of [`PostgresqlMonitoringPlugin`].
pub struct PostgresqlMonitoringPluginView {
    pub enabled: bool,
    pub namespaces: Seq<Seq<char>>,
    pub schema_version: u32,
    pub generated_at_ms: u128,
    pub status: Seq<char>,
    pub summary: Seq<char>,
    pub detail: Seq<PostgresqlMonitoringDetailItemView>,
    pub evidence: Seq<PostgresqlMonitoringEvidenceItemView>,
    pub missing_data: Seq<PostgresqlMonitoringMissingDataItemView>,
}

impl DeepView for PostgresqlMonitoringPlugin {
    type V = PostgresqlMonitoringPluginView;

    open spec fn deep_view(&self) -> PostgresqlMonitoringPluginView {
        PostgresqlMonitoringPluginView {
            enabled: self.enabled.deep_view(),
            namespaces: self.namespaces.deep_view(),
            schema_version: self.schema_version.deep_view(),
            generated_at_ms: self.generated_at_ms.deep_view(),
            status: self.status.deep_view(),
            summary: self.summary.deep_view(),
            detail: self.detail.deep_view(),
            evidence: self.evidence.deep_view(),
            missing_data: self.missing_data.deep_view(),
        }
    }
}

impl DeepClone for PostgresqlMonitoringPlugin {
    fn deep_clone(&self) -> (copy: Self) {
        PostgresqlMonitoringPlugin {
            enabled: self.enabled.deep_clone(),
            namespaces: self.namespaces.deep_clone(),
            schema_version: self.schema_version.deep_clone(),
            generated_at_ms: self.generated_at_ms.deep_clone(),
            status: self.status.deep_clone(),
            summary: self.summary.deep_clone(),
            detail: self.detail.deep_clone(),
            evidence: self.evidence.deep_clone(),
            missing_data: self.missing_data.deep_clone(),
        }
    }
}

/// What a PostgreSQL diagnosis is asked to look at.
#[derive(Clone, Debug, Default, PartialEq, Eq)]
pub struct PostgresqlDiagnosticSpec {
    pub namespace: String,
    pub service_name: Option<String>,
    pub pod_selector: Option<String>,
    pub secret_name: Option<String>,
}

/// The view of [`PostgresqlDiagnosticSpec`].
pub struct PostgresqlDiagnosticSpecView {
    pub namespace: Seq<char>,
    pub service_name: Option<Seq<char>>,
    pub pod_selector: Option<Seq<char>>,
    pub secret_name: Option<Seq<char>>,
}

impl DeepView for PostgresqlDiagnosticSpec {
    type V = PostgresqlDiagnosticSpecView;

    open spec fn deep_view(&self) -> PostgresqlDiagnosticSpecView {
        PostgresqlDiagnosticSpecView {
            namespace: self.namespace.deep_view(),
            service_name: self.service_name.deep_view(),
            pod_selector: self.pod_selector.deep_view(),
            secret_name: self.secret_name.deep_view(),
        }
    }
}

impl DeepClone for PostgresqlDiagnosticSpec {
    fn deep_clone(&self) -> (copy: Self) {
        PostgresqlDiagnosticSpec {
            namespace: self.namespace.deep_clone(),
            service_name: self.service_name.deep_clone(),
            pod_selector: self.pod_selector.deep_clone(),
            secret_name: self.secret_name.deep_clone(),
        }
    }
}

/// One finding of a PostgreSQL diagnosis.
#[derive(Clone, Debug, PartialEq, Eq)]
pub struct PostgresqlDiagnosticFinding {
    pub title: String,
    pub severity: String,
    pub description: String,
    pub evidence: String,
    pub recommendation: String,
}

/// The view of [`PostgresqlDiagnosticFinding`].
pub struct PostgresqlDiagnosticFindingView {
    pub title: Seq<char>,
    pub severity: Seq<char>,
    pub description: Seq<char>,
    pub evidence: Seq<char>,
    pub recommendation: Seq<char>,
}

impl DeepView for PostgresqlDiagnosticFinding {
    type V = PostgresqlDiagnosticFindingView;

    open spec fn deep_view(&self) -> PostgresqlDiagnosticFindingView {
        PostgresqlDiagnosticFindingView {
            title: self.title.deep_view(),
            severity: self.severity.deep_view(),
            description: self.description.deep_view(),
            evidence: self.evidence.deep_view(),
            recommendation: self.recommendation.deep_view(),
        }
    }
}

impl DeepClone for PostgresqlDiagnosticFinding {
    fn deep_clone(&self) -> (copy: Self) {
        PostgresqlDiagnosticFinding {
            title: self.title.deep_clone(),
            severity: self.severity.deep_clone(),
            description: self.description.deep_clone(),
            evidence: self.evidence.deep_clone(),
            recommendation: self.recommendation.deep_clone(),
        }
    }
}

/// The outcome of a PostgreSQL diagnosis.
#[derive(Clone, Debug, PartialEq, Eq)]
pub struct PostgresqlDiagnosticReport {
    pub namespace: String,
    pub status: String,
    pub summary: String,
    pub findings: Vec<PostgresqlDiagnosticFinding>,
    pub evidence: Vec<PostgresqlMonitoringEvidenceItem>,
    pub missing_data: Vec<PostgresqlMonitoringMissingDataItem>,
    pub recommended_actions: Vec<String>,
}

/// The view of [`PostgresqlDiagnosticReport`].
pub struct PostgresqlDiagnosticReportView {
    pub namespace: Seq<char>,
    pub status: Seq<char>,
    pub summary: Seq<char>,
    pub findings: Seq<PostgresqlDiagnosticFindingView>,
    pub evidence: Seq<PostgresqlMonitoringEvidenceItemView>,
    pub missing_data: Seq<PostgresqlMonitoringMissingDataItemView>,
    pub recommended_actions: Seq<Seq<char>>,
}

impl DeepView for PostgresqlDiagnosticReport {
    type V = PostgresqlDiagnosticReportView;

    open spec fn deep_view(&self) -> PostgresqlDiagnosticReportView {
        PostgresqlDiagnosticReportView {
            namespace: self.namespace.deep_view(),
            status: self.status.deep_view(),
            summary: self.summary.deep_view(),
            findings: self.findings.deep_view(),
            evidence: self.evidence.deep_view(),
            missing_data: self.missing_data.deep_view(),
            recommended_actions: self.recommended_actions.deep_view(),
        }
    }
}

impl DeepClone for PostgresqlDiagnosticReport {
    fn deep_clone(&self) -> (copy: Self) {
        PostgresqlDiagnosticReport {
            namespace: self.namespace.deep_clone(),
            status: self.status.deep_clone(),
            summary: self.summary.deep_clone(),
            findings: self.findings.deep_clone(),
            evidence: self.evidence.deep_clone(),
            missing_data: self.missing_data.deep_clone(),
            recommended_actions: self.recommended_actions.deep_clone(),
        }
    }
}

/// The blocks that plugins add to a snapshot.
#[derive(Clone, Debug, PartialEq, Eq)]
pub struct Plugins {
    pub workload_monitoring: Option<WorkloadMonitoringPlugin>,
    pub postgresql_monitoring: Option<PostgresqlMonitoringPlugin>,
}

/// The view of [`Plugins`].
pub struct PluginsView {
    pub workload_monitoring: Option<WorkloadMonitoringPluginView>,
    pub postgresql_monitoring: Option<PostgresqlMonitoringPluginView>,
}

impl DeepView for Plugins {
    type V = PluginsView;

    open spec fn deep_view(&self) -> PluginsView {
        PluginsView {
            workload_monitoring: self.workload_monitoring.deep_view(),
            postgresql_monitoring: self.postgresql_monitoring.deep_view(),
        }
    }
}

impl DeepClone for Plugins {
    fn deep_clone(&self) -> (copy: Self) {
        Plugins {
            workload_monitoring: self.workload_monitoring.deep_clone(),
            postgresql_monitoring: self.postgresql_monitoring.deep_clone(),
        }
    }
}

/// Everything that the agent reports of a cluster at one time.
#[derive(Clone, Debug, PartialEq, Eq)]
pub struct InventorySnapshot {
    pub schema_version: u32,
    pub agent: AgentInfo,
    pub cluster_id: String,
    pub timestamp_ms: u128,
    pub k8s_uid: Option<String>,
    pub cluster: ClusterInfo,
    pub namespaces: Vec<NamespaceInfo>,
    pub workloads: Workloads,
    pub pods: Vec<PodInfo>,
    pub network: NetworkInventory,
    pub security: SecurityInventory,
    pub operational_maturity: OperationalMaturityInventory,
    pub dependencies: DependencyInventory,
    pub configuration: ConfigurationInventory,
    pub storage: StorageInventory,
    pub events: Vec<EventInfo>,
    pub plugins: Option<Plugins>,
    pub metrics: MetricsStatus,
    pub snapshot_api: SnapshotApiStatus,
}

/// The view of [`InventorySnapshot`].
pub struct InventorySnapshotView {
    pub schema_version: u32,
    pub agent: AgentInfoView,
    pub cluster_id: Seq<char>,
    pub timestamp_ms: u128,
    pub k8s_uid: Option<Seq<char>>,
    pub cluster: ClusterInfoView,
    pub namespaces: Seq<NamespaceInfoView>,
    pub workloads: WorkloadsView,
    pub pods: Seq<PodInfoView>,
    pub network: NetworkInventoryView,
    pub security: SecurityInventoryView,
    pub operational_maturity: OperationalMaturityInventoryView,
    pub dependencies: DependencyInventoryView,
    pub configuration: ConfigurationInventoryView,
    pub storage: StorageInventoryView,
    pub events: Seq<EventInfoView>,
    pub plugins: Option<PluginsView>,
    pub metrics: MetricsStatusView,
    pub snapshot_api: SnapshotApiStatusView,
}

impl DeepView for InventorySnapshot {
    type V = InventorySnapshotView;

    open spec fn deep_view(&self) -> InventorySnapshotView {
        InventorySnapshotView {
            schema_version: self.schema_version.deep_view(),
            agent: self.agent.deep_view(),
            cluster_id: self.cluster_id.deep_view(),
            timestamp_ms: self.timestamp_ms.deep_view(),
            k8s_uid: self.k8s_uid.deep_view(),
            cluster: self.cluster.deep_view(),
            namespaces: self.namespaces.deep_view(),
            workloads: self.workloads.deep_view(),
            pods: self.pods.deep_view(),
            network: self.network.deep_view(),
            security: self.security.deep_view(),
            operational_maturity: self.operational_maturity.deep_view(),
            dependencies: self.dependencies.deep_view(),
            configuration: self.configuration.deep_view(),
            storage: self.storage.deep_view(),
            events: self.events.deep_view(),
            plugins: self.plugins.deep_view(),
            metrics: self.metrics.deep_view(),
            snapshot_api: self.snapshot_api.deep_view(),
        }
    }
}

impl DeepClone for InventorySnapshot {
    fn deep_clone(&self) -> (copy: Self) {
        InventorySnapshot {
            schema_version: self.schema_version.deep_clone(),
            agent: self.agent.deep_clone(),
            cluster_id: self.cluster_id.deep_clone(),
            timestamp_ms: self.timestamp_ms.deep_clone(),
            k8s_uid: self.k8s_uid.deep_clone(),
            cluster: self.cluster.deep_clone(),
            namespaces: self.namespaces.deep_clone(),
            workloads: self.workloads.deep_clone(),
            pods: self.pods.deep_clone(),
            network: self.network.deep_clone(),
            security: self.security.deep_clone(),
            operational_maturity: self.operational_maturity.deep_clone(),
            dependencies: self.dependencies.deep_clone(),
            configuration: self.configuration.deep_clone(),
            storage: self.storage.deep_clone(),
            events: self.events.deep_clone(),
            plugins: self.plugins.deep_clone(),
            metrics: self.metrics.deep_clone(),
            snapshot_api: self.snapshot_api.deep_clone(),
        }
    }
}

} // verus!
