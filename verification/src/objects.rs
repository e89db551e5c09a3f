//! The objects of a Kubernetes cluster, with the parts that the agent reads.
use crate::model::{InvolvedObjectInfo, InvolvedObjectInfoView, KV, KVView};
use crate::order;
use crate::order::{str_eq, str_le};
use crate::pairs;
use crate::pairs::pair_value;
use crate::text::list_has;
use crate::views;
use crate::views::{all_items, DeepClone, opt_list, opt_str};
use vstd::prelude::*;

verus! {

/// A number or a name.
#[derive(Clone, Debug, PartialEq, Eq)]
pub enum IntOrString {
    Int(i32),
    String(String),
}

/// The view of [`IntOrString`].
pub enum IntOrStringView {
    Int(i32),
    String(Seq<char>),
}

impl DeepView for IntOrString {
    type V = IntOrStringView;

    open spec fn deep_view(&self) -> IntOrStringView {
        match self {
            IntOrString::Int(n) => IntOrStringView::Int(*n),
            IntOrString::String(s) => IntOrStringView::String(s.deep_view()),
        }
    }
}

impl DeepClone for IntOrString {
    fn deep_clone(&self) -> (copy: Self) {
        match self {
            IntOrString::Int(n) => IntOrString::Int(*n),
            IntOrString::String(s) => IntOrString::String(s.clone()),
        }
    }
}

/// The owner of an object.
#[derive(Clone, Debug, PartialEq, Eq)]
pub struct OwnerReference {
    pub kind: String,
    pub name: String,
}

/// The view of [`OwnerReference`].
pub struct OwnerReferenceView {
    pub kind: Seq<char>,
    pub name: Seq<char>,
}

impl DeepView for OwnerReference {
    type V = OwnerReferenceView;

    open spec fn deep_view(&self) -> OwnerReferenceView {
        OwnerReferenceView {
            kind: self.kind.deep_view(),
            name: self.name.deep_view(),
        }
    }
}

impl DeepClone for OwnerReference {
    fn deep_clone(&self) -> (copy: Self) {
        OwnerReference {
            kind: self.kind.deep_clone(),
            name: self.name.deep_clone(),
        }
    }
}

/// What every object carries.
#[derive(Clone, Debug, Default, PartialEq, Eq)]
pub struct ObjectMeta {
    pub name: Option<String>,
    pub namespace: Option<String>,
    pub labels: Option<Vec<KV>>,
    pub annotations: Option<Vec<KV>>,
    pub owner_references: Option<Vec<OwnerReference>>,
    pub generation: Option<i64>,
    /// When the object was made, in seconds since the Unix epoch.
    pub creation_timestamp: Option<i64>,
}

/// The view of [`ObjectMeta`].
pub struct ObjectMetaView {
    pub name: Option<Seq<char>>,
    pub namespace: Option<Seq<char>>,
    pub labels: Option<Seq<KVView>>,
    pub annotations: Option<Seq<KVView>>,
    pub owner_references: Option<Seq<OwnerReferenceView>>,
    pub generation: Option<i64>,
    pub creation_timestamp: Option<i64>,
}

impl DeepView for ObjectMeta {
    type V = ObjectMetaView;

    open spec fn deep_view(&self) -> ObjectMetaView {
        ObjectMetaView {
            name: self.name.deep_view(),
            namespace: self.namespace.deep_view(),
            labels: self.labels.deep_view(),
            annotations: self.annotations.deep_view(),
            owner_references: self.owner_references.deep_view(),
            generation: self.generation.deep_view(),
            creation_timestamp: self.creation_timestamp.deep_view(),
        }
    }
}

impl DeepClone for ObjectMeta {
    fn deep_clone(&self) -> (copy: Self) {
        ObjectMeta {
            name: self.name.deep_clone(),
            namespace: self.namespace.deep_clone(),
            labels: self.labels.deep_clone(),
            annotations: self.annotations.deep_clone(),
            owner_references: self.owner_references.deep_clone(),
            generation: self.generation.deep_clone(),
            creation_timestamp: self.creation_timestamp.deep_clone(),
        }
    }
}

/// A namespace of the cluster.
#[derive(Clone, Debug, Default, PartialEq, Eq)]
pub struct Namespace {
    pub metadata: ObjectMeta,
    pub phase: Option<String>,
}

/// The view of [`Namespace`].
pub struct NamespaceView {
    pub metadata: ObjectMetaView,
    pub phase: Option<Seq<char>>,
}

impl DeepView for Namespace {
    type V = NamespaceView;

    open spec fn deep_view(&self) -> NamespaceView {
        NamespaceView {
            metadata: self.metadata.deep_view(),
            phase: self.phase.deep_view(),
        }
    }
}

impl DeepClone for Namespace {
    fn deep_clone(&self) -> (copy: Self) {
        Namespace {
            metadata: self.metadata.deep_clone(),
            phase: self.phase.deep_clone(),
        }
    }
}

/// A requirement on a label.
#[derive(Clone, Debug, PartialEq, Eq)]
pub struct LabelSelectorRequirement {
    pub key: String,
    pub operator: String,
    pub values: Option<Vec<String>>,
}

/// The view of [`LabelSelectorRequirement`].
pub struct LabelSelectorRequirementView {
    pub key: Seq<char>,
    pub operator: Seq<char>,
    pub values: Option<Seq<Seq<char>>>,
}

impl DeepView for LabelSelectorRequirement {
    type V = LabelSelectorRequirementView;

    open spec fn deep_view(&self) -> LabelSelectorRequirementView {
        LabelSelectorRequirementView {
            key: self.key.deep_view(),
            operator: self.operator.deep_view(),
            values: self.values.deep_view(),
        }
    }
}

impl DeepClone for LabelSelectorRequirement {
    fn deep_clone(&self) -> (copy: Self) {
        LabelSelectorRequirement {
            key: self.key.deep_clone(),
            operator: self.operator.deep_clone(),
            values: self.values.deep_clone(),
        }
    }
}

/// A selection by labels.
#[derive(Clone, Debug, Default, PartialEq, Eq)]
pub struct LabelSelector {
    pub match_labels: Option<Vec<KV>>,
    pub match_expressions: Option<Vec<LabelSelectorRequirement>>,
}

/// The view of [`LabelSelector`].
pub struct LabelSelectorView {
    pub match_labels: Option<Seq<KVView>>,
    pub match_expressions: Option<Seq<LabelSelectorRequirementView>>,
}

impl DeepView for LabelSelector {
    type V = LabelSelectorView;

    open spec fn deep_view(&self) -> LabelSelectorView {
        LabelSelectorView {
            match_labels: self.match_labels.deep_view(),
            match_expressions: self.match_expressions.deep_view(),
        }
    }
}

impl DeepClone for LabelSelector {
    fn deep_clone(&self) -> (copy: Self) {
        LabelSelector {
            match_labels: self.match_labels.deep_clone(),
            match_expressions: self.match_expressions.deep_clone(),
        }
    }
}

/// Requested and limited resources by name.
#[derive(Clone, Debug, Default, PartialEq, Eq)]
pub struct ResourceRequirements {
    pub requests: Option<Vec<KV>>,
    pub limits: Option<Vec<KV>>,
}

/// The view of [`ResourceRequirements`].
pub struct ResourceRequirementsView {
    pub requests: Option<Seq<KVView>>,
    pub limits: Option<Seq<KVView>>,
}

impl DeepView for ResourceRequirements {
    type V = ResourceRequirementsView;

    open spec fn deep_view(&self) -> ResourceRequirementsView {
        ResourceRequirementsView {
            requests: self.requests.deep_view(),
            limits: self.limits.deep_view(),
        }
    }
}

impl DeepClone for ResourceRequirements {
    fn deep_clone(&self) -> (copy: Self) {
        ResourceRequirements {
            requests: self.requests.deep_clone(),
            limits: self.limits.deep_clone(),
        }
    }
}

/// A container of a pod or of a pod template.
#[derive(Clone, Debug, PartialEq, Eq)]
pub struct Container {
    pub name: String,
    pub image: Option<String>,
    pub image_pull_policy: Option<String>,
    pub command: Option<Vec<String>>,
    pub args: Option<Vec<String>>,
    pub resources: Option<ResourceRequirements>,
}

/// The view of [`Container`].
pub struct ContainerView {
    pub name: Seq<char>,
    pub image: Option<Seq<char>>,
    pub image_pull_policy: Option<Seq<char>>,
    pub command: Option<Seq<Seq<char>>>,
    pub args: Option<Seq<Seq<char>>>,
    pub resources: Option<ResourceRequirementsView>,
}

impl DeepView for Container {
    type V = ContainerView;

    open spec fn deep_view(&self) -> ContainerView {
        ContainerView {
            name: self.name.deep_view(),
            image: self.image.deep_view(),
            image_pull_policy: self.image_pull_policy.deep_view(),
            command: self.command.deep_view(),
            args: self.args.deep_view(),
            resources: self.resources.deep_view(),
        }
    }
}

impl DeepClone for Container {
    fn deep_clone(&self) -> (copy: Self) {
        Container {
            name: self.name.deep_clone(),
            image: self.image.deep_clone(),
            image_pull_policy: self.image_pull_policy.deep_clone(),
            command: self.command.deep_clone(),
            args: self.args.deep_clone(),
            resources: self.resources.deep_clone(),
        }
    }
}

/// The pods that a workload makes.
#[derive(Clone, Debug, Default, PartialEq, Eq)]
pub struct PodTemplate {
    pub labels: Option<Vec<KV>>,
    pub annotations: Option<Vec<KV>>,
    /// The containers, where the template has a pod specification.
    pub containers: Option<Vec<Container>>,
}

/// The view of [`PodTemplate`].
pub struct PodTemplateView {
    pub labels: Option<Seq<KVView>>,
    pub annotations: Option<Seq<KVView>>,
    pub containers: Option<Seq<ContainerView>>,
}

impl DeepView for PodTemplate {
    type V = PodTemplateView;

    open spec fn deep_view(&self) -> PodTemplateView {
        PodTemplateView {
            labels: self.labels.deep_view(),
            annotations: self.annotations.deep_view(),
            containers: self.containers.deep_view(),
        }
    }
}

impl DeepClone for PodTemplate {
    fn deep_clone(&self) -> (copy: Self) {
        PodTemplate {
            labels: self.labels.deep_clone(),
            annotations: self.annotations.deep_clone(),
            containers: self.containers.deep_clone(),
        }
    }
}

/// What a deployment is meant to be.
#[derive(Clone, Debug, PartialEq, Eq)]
pub struct DeploymentSpec {
    pub replicas: Option<i32>,
    pub selector: LabelSelector,
    pub template: PodTemplate,
}

/// The view of [`DeploymentSpec`].
pub struct DeploymentSpecView {
    pub replicas: Option<i32>,
    pub selector: LabelSelectorView,
    pub template: PodTemplateView,
}

impl DeepView for DeploymentSpec {
    type V = DeploymentSpecView;

    open spec fn deep_view(&self) -> DeploymentSpecView {
        DeploymentSpecView {
            replicas: self.replicas.deep_view(),
            selector: self.selector.deep_view(),
            template: self.template.deep_view(),
        }
    }
}

impl DeepClone for DeploymentSpec {
    fn deep_clone(&self) -> (copy: Self) {
        DeploymentSpec {
            replicas: self.replicas.deep_clone(),
            selector: self.selector.deep_clone(),
            template: self.template.deep_clone(),
        }
    }
}

/// What a deployment is.
#[derive(Clone, Debug, Default, PartialEq, Eq)]
pub struct DeploymentStatus {
    pub replicas: Option<i32>,
    pub updated_replicas: Option<i32>,
    pub available_replicas: Option<i32>,
    pub ready_replicas: Option<i32>,
    pub observed_generation: Option<i64>,
}

/// The view of [`DeploymentStatus`].
pub struct DeploymentStatusView {
    pub replicas: Option<i32>,
    pub updated_replicas: Option<i32>,
    pub available_replicas: Option<i32>,
    pub ready_replicas: Option<i32>,
    pub observed_generation: Option<i64>,
}

impl DeepView for DeploymentStatus {
    type V = DeploymentStatusView;

    open spec fn deep_view(&self) -> DeploymentStatusView {
        DeploymentStatusView {
            replicas: self.replicas.deep_view(),
            updated_replicas: self.updated_replicas.deep_view(),
            available_replicas: self.available_replicas.deep_view(),
            ready_replicas: self.ready_replicas.deep_view(),
            observed_generation: self.observed_generation.deep_view(),
        }
    }
}

impl DeepClone for DeploymentStatus {
    fn deep_clone(&self) -> (copy: Self) {
        DeploymentStatus {
            replicas: self.replicas.deep_clone(),
            updated_replicas: self.updated_replicas.deep_clone(),
            available_replicas: self.available_replicas.deep_clone(),
            ready_replicas: self.ready_replicas.deep_clone(),
            observed_generation: self.observed_generation.deep_clone(),
        }
    }
}

/// A deployment.
#[derive(Clone, Debug, PartialEq, Eq)]
pub struct Deployment {
    pub metadata: ObjectMeta,
    pub spec: Option<DeploymentSpec>,
    pub status: Option<DeploymentStatus>,
}

/// The view of [`Deployment`].
pub struct DeploymentView {
    pub metadata: ObjectMetaView,
    pub spec: Option<DeploymentSpecView>,
    pub status: Option<DeploymentStatusView>,
}

impl DeepView for Deployment {
    type V = DeploymentView;

    open spec fn deep_view(&self) -> DeploymentView {
        DeploymentView {
            metadata: self.metadata.deep_view(),
            spec: self.spec.deep_view(),
            status: self.status.deep_view(),
        }
    }
}

impl DeepClone for Deployment {
    fn deep_clone(&self) -> (copy: Self) {
        Deployment {
            metadata: self.metadata.deep_clone(),
            spec: self.spec.deep_clone(),
            status: self.status.deep_clone(),
        }
    }
}

/// What a stateful set is meant to be.
#[derive(Clone, Debug, PartialEq, Eq)]
pub struct StatefulSetSpec {
    pub replicas: Option<i32>,
    pub template: PodTemplate,
}

/// The view of [`StatefulSetSpec`].
pub struct StatefulSetSpecView {
    pub replicas: Option<i32>,
    pub template: PodTemplateView,
}

impl DeepView for StatefulSetSpec {
    type V = StatefulSetSpecView;

    open spec fn deep_view(&self) -> StatefulSetSpecView {
        StatefulSetSpecView {
            replicas: self.replicas.deep_view(),
            template: self.template.deep_view(),
        }
    }
}

impl DeepClone for StatefulSetSpec {
    fn deep_clone(&self) -> (copy: Self) {
        StatefulSetSpec {
            replicas: self.replicas.deep_clone(),
            template: self.template.deep_clone(),
        }
    }
}

/// What a stateful set is.
#[derive(Clone, Debug, Default, PartialEq, Eq)]
pub struct StatefulSetStatus {
    pub replicas: i32,
    pub updated_replicas: Option<i32>,
    pub ready_replicas: Option<i32>,
    pub current_replicas: Option<i32>,
    pub observed_generation: Option<i64>,
}

/// The view of [`StatefulSetStatus`].
pub struct StatefulSetStatusView {
    pub replicas: i32,
    pub updated_replicas: Option<i32>,
    pub ready_replicas: Option<i32>,
    pub current_replicas: Option<i32>,
    pub observed_generation: Option<i64>,
}

impl DeepView for StatefulSetStatus {
    type V = StatefulSetStatusView;

    open spec fn deep_view(&self) -> StatefulSetStatusView {
        StatefulSetStatusView {
            replicas: self.replicas.deep_view(),
            updated_replicas: self.updated_replicas.deep_view(),
            ready_replicas: self.ready_replicas.deep_view(),
            current_replicas: self.current_replicas.deep_view(),
            observed_generation: self.observed_generation.deep_view(),
        }
    }
}

impl DeepClone for StatefulSetStatus {
    fn deep_clone(&self) -> (copy: Self) {
        StatefulSetStatus {
            replicas: self.replicas.deep_clone(),
            updated_replicas: self.updated_replicas.deep_clone(),
            ready_replicas: self.ready_replicas.deep_clone(),
            current_replicas: self.current_replicas.deep_clone(),
            observed_generation: self.observed_generation.deep_clone(),
        }
    }
}

/// A stateful set.
#[derive(Clone, Debug, PartialEq, Eq)]
pub struct StatefulSet {
    pub metadata: ObjectMeta,
    pub spec: Option<StatefulSetSpec>,
    pub status: Option<StatefulSetStatus>,
}

/// The view of [`StatefulSet`].
pub struct StatefulSetView {
    pub metadata: ObjectMetaView,
    pub spec: Option<StatefulSetSpecView>,
    pub status: Option<StatefulSetStatusView>,
}

impl DeepView for StatefulSet {
    type V = StatefulSetView;

    open spec fn deep_view(&self) -> StatefulSetView {
        StatefulSetView {
            metadata: self.metadata.deep_view(),
            spec: self.spec.deep_view(),
            status: self.status.deep_view(),
        }
    }
}

impl DeepClone for StatefulSet {
    fn deep_clone(&self) -> (copy: Self) {
        StatefulSet {
            metadata: self.metadata.deep_clone(),
            spec: self.spec.deep_clone(),
            status: self.status.deep_clone(),
        }
    }
}

/// What a daemon set is meant to be.
#[derive(Clone, Debug, PartialEq, Eq)]
pub struct DaemonSetSpec {
    pub template: PodTemplate,
}

/// The view of [`DaemonSetSpec`].
pub struct DaemonSetSpecView {
    pub template: PodTemplateView,
}

impl DeepView for DaemonSetSpec {
    type V = DaemonSetSpecView;

    open spec fn deep_view(&self) -> DaemonSetSpecView {
        DaemonSetSpecView {
            template: self.template.deep_view(),
        }
    }
}

impl DeepClone for DaemonSetSpec {
    fn deep_clone(&self) -> (copy: Self) {
        DaemonSetSpec {
            template: self.template.deep_clone(),
        }
    }
}

/// What a daemon set is.
#[derive(Clone, Debug, Default, PartialEq, Eq)]
pub struct DaemonSetStatus {
    pub desired_number_scheduled: i32,
    pub current_number_scheduled: i32,
    pub number_ready: i32,
    pub updated_number_scheduled: Option<i32>,
    pub number_available: Option<i32>,
    pub observed_generation: Option<i64>,
}

/// The view of [`DaemonSetStatus`].
pub struct DaemonSetStatusView {
    pub desired_number_scheduled: i32,
    pub current_number_scheduled: i32,
    pub number_ready: i32,
    pub updated_number_scheduled: Option<i32>,
    pub number_available: Option<i32>,
    pub observed_generation: Option<i64>,
}

impl DeepView for DaemonSetStatus {
    type V = DaemonSetStatusView;

    open spec fn deep_view(&self) -> DaemonSetStatusView {
        DaemonSetStatusView {
            desired_number_scheduled: self.desired_number_scheduled.deep_view(),
            current_number_scheduled: self.current_number_scheduled.deep_view(),
            number_ready: self.number_ready.deep_view(),
            updated_number_scheduled: self.updated_number_scheduled.deep_view(),
            number_available: self.number_available.deep_view(),
            observed_generation: self.observed_generation.deep_view(),
        }
    }
}

impl DeepClone for DaemonSetStatus {
    fn deep_clone(&self) -> (copy: Self) {
        DaemonSetStatus {
            desired_number_scheduled: self.desired_number_scheduled.deep_clone(),
            current_number_scheduled: self.current_number_scheduled.deep_clone(),
            number_ready: self.number_ready.deep_clone(),
            updated_number_scheduled: self.updated_number_scheduled.deep_clone(),
            number_available: self.number_available.deep_clone(),
            observed_generation: self.observed_generation.deep_clone(),
        }
    }
}

/// A daemon set.
#[derive(Clone, Debug, PartialEq, Eq)]
pub struct DaemonSet {
    pub metadata: ObjectMeta,
    pub spec: Option<DaemonSetSpec>,
    pub status: Option<DaemonSetStatus>,
}

/// The view of [`DaemonSet`].
pub struct DaemonSetView {
    pub metadata: ObjectMetaView,
    pub spec: Option<DaemonSetSpecView>,
    pub status: Option<DaemonSetStatusView>,
}

impl DeepView for DaemonSet {
    type V = DaemonSetView;

    open spec fn deep_view(&self) -> DaemonSetView {
        DaemonSetView {
            metadata: self.metadata.deep_view(),
            spec: self.spec.deep_view(),
            status: self.status.deep_view(),
        }
    }
}

impl DeepClone for DaemonSet {
    fn deep_clone(&self) -> (copy: Self) {
        DaemonSet {
            metadata: self.metadata.deep_clone(),
            spec: self.spec.deep_clone(),
            status: self.status.deep_clone(),
        }
    }
}

/// What a pod is meant to be.
#[derive(Clone, Debug, Default, PartialEq, Eq)]
pub struct PodSpec {
    pub node_name: Option<String>,
    pub containers: Vec<Container>,
}

/// The view of [`PodSpec`].
pub struct PodSpecView {
    pub node_name: Option<Seq<char>>,
    pub containers: Seq<ContainerView>,
}

impl DeepView for PodSpec {
    type V = PodSpecView;

    open spec fn deep_view(&self) -> PodSpecView {
        PodSpecView {
            node_name: self.node_name.deep_view(),
            containers: self.containers.deep_view(),
        }
    }
}

impl DeepClone for PodSpec {
    fn deep_clone(&self) -> (copy: Self) {
        PodSpec {
            node_name: self.node_name.deep_clone(),
            containers: self.containers.deep_clone(),
        }
    }
}

/// What a pod is.
#[derive(Clone, Debug, Default, PartialEq, Eq)]
pub struct PodStatus {
    pub phase: Option<String>,
    pub pod_ip: Option<String>,
}

/// The view of [`PodStatus`].
pub struct PodStatusView {
    pub phase: Option<Seq<char>>,
    pub pod_ip: Option<Seq<char>>,
}

impl DeepView for PodStatus {
    type V = PodStatusView;

    open spec fn deep_view(&self) -> PodStatusView {
        PodStatusView {
            phase: self.phase.deep_view(),
            pod_ip: self.pod_ip.deep_view(),
        }
    }
}

impl DeepClone for PodStatus {
    fn deep_clone(&self) -> (copy: Self) {
        PodStatus {
            phase: self.phase.deep_clone(),
            pod_ip: self.pod_ip.deep_clone(),
        }
    }
}

/// A pod.
#[derive(Clone, Debug, Default, PartialEq, Eq)]
pub struct Pod {
    pub metadata: ObjectMeta,
    pub spec: Option<PodSpec>,
    pub status: Option<PodStatus>,
}

/// The view of [`Pod`].
pub struct PodView {
    pub metadata: ObjectMetaView,
    pub spec: Option<PodSpecView>,
    pub status: Option<PodStatusView>,
}

impl DeepView for Pod {
    type V = PodView;

    open spec fn deep_view(&self) -> PodView {
        PodView {
            metadata: self.metadata.deep_view(),
            spec: self.spec.deep_view(),
            status: self.status.deep_view(),
        }
    }
}

impl DeepClone for Pod {
    fn deep_clone(&self) -> (copy: Self) {
        Pod {
            metadata: self.metadata.deep_clone(),
            spec: self.spec.deep_clone(),
            status: self.status.deep_clone(),
        }
    }
}

/// The software of a node.
#[derive(Clone, Debug, PartialEq, Eq)]
pub struct NodeSystemInfo {
    pub kubelet_version: String,
    pub os_image: String,
    pub container_runtime_version: String,
    pub architecture: String,
}

/// The view of [`NodeSystemInfo`].
pub struct NodeSystemInfoView {
    pub kubelet_version: Seq<char>,
    pub os_image: Seq<char>,
    pub container_runtime_version: Seq<char>,
    pub architecture: Seq<char>,
}

impl DeepView for NodeSystemInfo {
    type V = NodeSystemInfoView;

    open spec fn deep_view(&self) -> NodeSystemInfoView {
        NodeSystemInfoView {
            kubelet_version: self.kubelet_version.deep_view(),
            os_image: self.os_image.deep_view(),
            container_runtime_version: self.container_runtime_version.deep_view(),
            architecture: self.architecture.deep_view(),
        }
    }
}

impl DeepClone for NodeSystemInfo {
    fn deep_clone(&self) -> (copy: Self) {
        NodeSystemInfo {
            kubelet_version: self.kubelet_version.deep_clone(),
            os_image: self.os_image.deep_clone(),
            container_runtime_version: self.container_runtime_version.deep_clone(),
            architecture: self.architecture.deep_clone(),
        }
    }
}

/// A condition of a node.
#[derive(Clone, Debug, PartialEq, Eq)]
pub struct NodeCondition {
    pub type_: String,
    pub status: String,
}

/// The view of [`NodeCondition`].
pub struct NodeConditionView {
    pub type_: Seq<char>,
    pub status: Seq<char>,
}

impl DeepView for NodeCondition {
    type V = NodeConditionView;

    open spec fn deep_view(&self) -> NodeConditionView {
        NodeConditionView {
            type_: self.type_.deep_view(),
            status: self.status.deep_view(),
        }
    }
}

impl DeepClone for NodeCondition {
    fn deep_clone(&self) -> (copy: Self) {
        NodeCondition {
            type_: self.type_.deep_clone(),
            status: self.status.deep_clone(),
        }
    }
}

/// What a node is.
#[derive(Clone, Debug, Default, PartialEq, Eq)]
pub struct NodeStatus {
    pub node_info: Option<NodeSystemInfo>,
    pub capacity: Option<Vec<KV>>,
    pub allocatable: Option<Vec<KV>>,
    pub conditions: Option<Vec<NodeCondition>>,
}

/// The view of [`NodeStatus`].
pub struct NodeStatusView {
    pub node_info: Option<NodeSystemInfoView>,
    pub capacity: Option<Seq<KVView>>,
    pub allocatable: Option<Seq<KVView>>,
    pub conditions: Option<Seq<NodeConditionView>>,
}

impl DeepView for NodeStatus {
    type V = NodeStatusView;

    open spec fn deep_view(&self) -> NodeStatusView {
        NodeStatusView {
            node_info: self.node_info.deep_view(),
            capacity: self.capacity.deep_view(),
            allocatable: self.allocatable.deep_view(),
            conditions: self.conditions.deep_view(),
        }
    }
}

impl DeepClone for NodeStatus {
    fn deep_clone(&self) -> (copy: Self) {
        NodeStatus {
            node_info: self.node_info.deep_clone(),
            capacity: self.capacity.deep_clone(),
            allocatable: self.allocatable.deep_clone(),
            conditions: self.conditions.deep_clone(),
        }
    }
}

/// A node.
#[derive(Clone, Debug, Default, PartialEq, Eq)]
pub struct Node {
    pub metadata: ObjectMeta,
    pub unschedulable: Option<bool>,
    pub status: Option<NodeStatus>,
}

/// The view of [`Node`].
pub struct NodeView {
    pub metadata: ObjectMetaView,
    pub unschedulable: Option<bool>,
    pub status: Option<NodeStatusView>,
}

impl DeepView for Node {
    type V = NodeView;

    open spec fn deep_view(&self) -> NodeView {
        NodeView {
            metadata: self.metadata.deep_view(),
            unschedulable: self.unschedulable.deep_view(),
            status: self.status.deep_view(),
        }
    }
}

impl DeepClone for Node {
    fn deep_clone(&self) -> (copy: Self) {
        Node {
            metadata: self.metadata.deep_clone(),
            unschedulable: self.unschedulable.deep_clone(),
            status: self.status.deep_clone(),
        }
    }
}

/// A port of a service.
#[derive(Clone, Debug, PartialEq, Eq)]
pub struct ServicePort {
    pub name: Option<String>,
    pub protocol: Option<String>,
    pub port: i32,
    pub target_port: Option<IntOrString>,
    pub node_port: Option<i32>,
}

/// The view of [`ServicePort`].
pub struct ServicePortView {
    pub name: Option<Seq<char>>,
    pub protocol: Option<Seq<char>>,
    pub port: i32,
    pub target_port: Option<IntOrStringView>,
    pub node_port: Option<i32>,
}

impl DeepView for ServicePort {
    type V = ServicePortView;

    open spec fn deep_view(&self) -> ServicePortView {
        ServicePortView {
            name: self.name.deep_view(),
            protocol: self.protocol.deep_view(),
            port: self.port.deep_view(),
            target_port: self.target_port.deep_view(),
            node_port: self.node_port.deep_view(),
        }
    }
}

impl DeepClone for ServicePort {
    fn deep_clone(&self) -> (copy: Self) {
        ServicePort {
            name: self.name.deep_clone(),
            protocol: self.protocol.deep_clone(),
            port: self.port.deep_clone(),
            target_port: self.target_port.deep_clone(),
            node_port: self.node_port.deep_clone(),
        }
    }
}

/// What a service is meant to be.
#[derive(Clone, Debug, Default, PartialEq, Eq)]
pub struct ServiceSpec {
    pub type_: Option<String>,
    pub cluster_ip: Option<String>,
    pub external_ips: Option<Vec<String>>,
    pub selector: Option<Vec<KV>>,
    pub ports: Option<Vec<ServicePort>>,
}

/// The view of [`ServiceSpec`].
pub struct ServiceSpecView {
    pub type_: Option<Seq<char>>,
    pub cluster_ip: Option<Seq<char>>,
    pub external_ips: Option<Seq<Seq<char>>>,
    pub selector: Option<Seq<KVView>>,
    pub ports: Option<Seq<ServicePortView>>,
}

impl DeepView for ServiceSpec {
    type V = ServiceSpecView;

    open spec fn deep_view(&self) -> ServiceSpecView {
        ServiceSpecView {
            type_: self.type_.deep_view(),
            cluster_ip: self.cluster_ip.deep_view(),
            external_ips: self.external_ips.deep_view(),
            selector: self.selector.deep_view(),
            ports: self.ports.deep_view(),
        }
    }
}

impl DeepClone for ServiceSpec {
    fn deep_clone(&self) -> (copy: Self) {
        ServiceSpec {
            type_: self.type_.deep_clone(),
            cluster_ip: self.cluster_ip.deep_clone(),
            external_ips: self.external_ips.deep_clone(),
            selector: self.selector.deep_clone(),
            ports: self.ports.deep_clone(),
        }
    }
}

/// A way in through a load balancer.
#[derive(Clone, Debug, Default, PartialEq, Eq)]
pub struct LoadBalancerIngress {
    pub hostname: Option<String>,
    pub ip: Option<String>,
    pub ip_mode: Option<String>,
}

/// The view of [`LoadBalancerIngress`].
pub struct LoadBalancerIngressView {
    pub hostname: Option<Seq<char>>,
    pub ip: Option<Seq<char>>,
    pub ip_mode: Option<Seq<char>>,
}

impl DeepView for LoadBalancerIngress {
    type V = LoadBalancerIngressView;

    open spec fn deep_view(&self) -> LoadBalancerIngressView {
        LoadBalancerIngressView {
            hostname: self.hostname.deep_view(),
            ip: self.ip.deep_view(),
            ip_mode: self.ip_mode.deep_view(),
        }
    }
}

impl DeepClone for LoadBalancerIngress {
    fn deep_clone(&self) -> (copy: Self) {
        LoadBalancerIngress {
            hostname: self.hostname.deep_clone(),
            ip: self.ip.deep_clone(),
            ip_mode: self.ip_mode.deep_clone(),
        }
    }
}

/// A service.
#[derive(Clone, Debug, Default, PartialEq, Eq)]
pub struct Service {
    pub metadata: ObjectMeta,
    pub spec: Option<ServiceSpec>,
    pub load_balancer: Option<Vec<LoadBalancerIngress>>,
}

/// The view of [`Service`].
pub struct ServiceView {
    pub metadata: ObjectMetaView,
    pub spec: Option<ServiceSpecView>,
    pub load_balancer: Option<Seq<LoadBalancerIngressView>>,
}

impl DeepView for Service {
    type V = ServiceView;

    open spec fn deep_view(&self) -> ServiceView {
        ServiceView {
            metadata: self.metadata.deep_view(),
            spec: self.spec.deep_view(),
            load_balancer: self.load_balancer.deep_view(),
        }
    }
}

impl DeepClone for Service {
    fn deep_clone(&self) -> (copy: Self) {
        Service {
            metadata: self.metadata.deep_clone(),
            spec: self.spec.deep_clone(),
            load_balancer: self.load_balancer.deep_clone(),
        }
    }
}

/// The port of an ingress backend.
#[derive(Clone, Debug, Default, PartialEq, Eq)]
pub struct ServiceBackendPort {
    pub name: Option<String>,
    pub number: Option<i32>,
}

/// The view of [`ServiceBackendPort`].
pub struct ServiceBackendPortView {
    pub name: Option<Seq<char>>,
    pub number: Option<i32>,
}

impl DeepView for ServiceBackendPort {
    type V = ServiceBackendPortView;

    open spec fn deep_view(&self) -> ServiceBackendPortView {
        ServiceBackendPortView {
            name: self.name.deep_view(),
            number: self.number.deep_view(),
        }
    }
}

impl DeepClone for ServiceBackendPort {
    fn deep_clone(&self) -> (copy: Self) {
        ServiceBackendPort {
            name: self.name.deep_clone(),
            number: self.number.deep_clone(),
        }
    }
}

/// The service behind an ingress path.
#[derive(Clone, Debug, PartialEq, Eq)]
pub struct IngressServiceBackend {
    pub name: String,
    pub port: Option<ServiceBackendPort>,
}

/// The view of [`IngressServiceBackend`].
pub struct IngressServiceBackendView {
    pub name: Seq<char>,
    pub port: Option<ServiceBackendPortView>,
}

impl DeepView for IngressServiceBackend {
    type V = IngressServiceBackendView;

    open spec fn deep_view(&self) -> IngressServiceBackendView {
        IngressServiceBackendView {
            name: self.name.deep_view(),
            port: self.port.deep_view(),
        }
    }
}

impl DeepClone for IngressServiceBackend {
    fn deep_clone(&self) -> (copy: Self) {
        IngressServiceBackend {
            name: self.name.deep_clone(),
            port: self.port.deep_clone(),
        }
    }
}

/// A path of an ingress rule.
#[derive(Clone, Debug, PartialEq, Eq)]
pub struct HttpIngressPath {
    pub path: Option<String>,
    pub path_type: String,
    pub service: Option<IngressServiceBackend>,
}

/// The view of [`HttpIngressPath`].
pub struct HttpIngressPathView {
    pub path: Option<Seq<char>>,
    pub path_type: Seq<char>,
    pub service: Option<IngressServiceBackendView>,
}

impl DeepView for HttpIngressPath {
    type V = HttpIngressPathView;

    open spec fn deep_view(&self) -> HttpIngressPathView {
        HttpIngressPathView {
            path: self.path.deep_view(),
            path_type: self.path_type.deep_view(),
            service: self.service.deep_view(),
        }
    }
}

impl DeepClone for HttpIngressPath {
    fn deep_clone(&self) -> (copy: Self) {
        HttpIngressPath {
            path: self.path.deep_clone(),
            path_type: self.path_type.deep_clone(),
            service: self.service.deep_clone(),
        }
    }
}

/// A rule of an ingress.
#[derive(Clone, Debug, Default, PartialEq, Eq)]
pub struct IngressRule {
    pub host: Option<String>,
    /// The paths, where the rule has any.
    pub paths: Option<Vec<HttpIngressPath>>,
}

/// The view of [`IngressRule`].
pub struct IngressRuleView {
    pub host: Option<Seq<char>>,
    pub paths: Option<Seq<HttpIngressPathView>>,
}

impl DeepView for IngressRule {
    type V = IngressRuleView;

    open spec fn deep_view(&self) -> IngressRuleView {
        IngressRuleView {
            host: self.host.deep_view(),
            paths: self.paths.deep_view(),
        }
    }
}

impl DeepClone for IngressRule {
    fn deep_clone(&self) -> (copy: Self) {
        IngressRule {
            host: self.host.deep_clone(),
            paths: self.paths.deep_clone(),
        }
    }
}

/// A TLS entry of an ingress.
#[derive(Clone, Debug, Default, PartialEq, Eq)]
pub struct IngressTls {
    pub hosts: Option<Vec<String>>,
    pub secret_name: Option<String>,
}

/// The view of [`IngressTls`].
pub struct IngressTlsView {
    pub hosts: Option<Seq<Seq<char>>>,
    pub secret_name: Option<Seq<char>>,
}

impl DeepView for IngressTls {
    type V = IngressTlsView;

    open spec fn deep_view(&self) -> IngressTlsView {
        IngressTlsView {
            hosts: self.hosts.deep_view(),
            secret_name: self.secret_name.deep_view(),
        }
    }
}

impl DeepClone for IngressTls {
    fn deep_clone(&self) -> (copy: Self) {
        IngressTls {
            hosts: self.hosts.deep_clone(),
            secret_name: self.secret_name.deep_clone(),
        }
    }
}

/// What an ingress is meant to be.
#[derive(Clone, Debug, Default, PartialEq, Eq)]
pub struct IngressSpec {
    pub ingress_class_name: Option<String>,
    pub rules: Option<Vec<IngressRule>>,
    pub tls: Option<Vec<IngressTls>>,
}

/// The view of [`IngressSpec`].
pub struct IngressSpecView {
    pub ingress_class_name: Option<Seq<char>>,
    pub rules: Option<Seq<IngressRuleView>>,
    pub tls: Option<Seq<IngressTlsView>>,
}

impl DeepView for IngressSpec {
    type V = IngressSpecView;

    open spec fn deep_view(&self) -> IngressSpecView {
        IngressSpecView {
            ingress_class_name: self.ingress_class_name.deep_view(),
            rules: self.rules.deep_view(),
            tls: self.tls.deep_view(),
        }
    }
}

impl DeepClone for IngressSpec {
    fn deep_clone(&self) -> (copy: Self) {
        IngressSpec {
            ingress_class_name: self.ingress_class_name.deep_clone(),
            rules: self.rules.deep_clone(),
            tls: self.tls.deep_clone(),
        }
    }
}

/// An ingress.
#[derive(Clone, Debug, Default, PartialEq, Eq)]
pub struct Ingress {
    pub metadata: ObjectMeta,
    pub spec: Option<IngressSpec>,
    pub load_balancer: Option<Vec<LoadBalancerIngress>>,
}

/// The view of [`Ingress`].
pub struct IngressView {
    pub metadata: ObjectMetaView,
    pub spec: Option<IngressSpecView>,
    pub load_balancer: Option<Seq<LoadBalancerIngressView>>,
}

impl DeepView for Ingress {
    type V = IngressView;

    open spec fn deep_view(&self) -> IngressView {
        IngressView {
            metadata: self.metadata.deep_view(),
            spec: self.spec.deep_view(),
            load_balancer: self.load_balancer.deep_view(),
        }
    }
}

impl DeepClone for Ingress {
    fn deep_clone(&self) -> (copy: Self) {
        Ingress {
            metadata: self.metadata.deep_clone(),
            spec: self.spec.deep_clone(),
            load_balancer: self.load_balancer.deep_clone(),
        }
    }
}

/// What a network policy is meant to be.
#[derive(Clone, Debug, Default, PartialEq, Eq)]
pub struct NetworkPolicySpec {
    pub pod_selector: Option<LabelSelector>,
    pub policy_types: Option<Vec<String>>,
    /// How many ingress rules there are.
    pub ingress_rules: Option<usize>,
    /// How many egress rules there are.
    pub egress_rules: Option<usize>,
}

/// The view of [`NetworkPolicySpec`].
pub struct NetworkPolicySpecView {
    pub pod_selector: Option<LabelSelectorView>,
    pub policy_types: Option<Seq<Seq<char>>>,
    pub ingress_rules: Option<usize>,
    pub egress_rules: Option<usize>,
}

impl DeepView for NetworkPolicySpec {
    type V = NetworkPolicySpecView;

    open spec fn deep_view(&self) -> NetworkPolicySpecView {
        NetworkPolicySpecView {
            pod_selector: self.pod_selector.deep_view(),
            policy_types: self.policy_types.deep_view(),
            ingress_rules: self.ingress_rules.deep_view(),
            egress_rules: self.egress_rules.deep_view(),
        }
    }
}

impl DeepClone for NetworkPolicySpec {
    fn deep_clone(&self) -> (copy: Self) {
        NetworkPolicySpec {
            pod_selector: self.pod_selector.deep_clone(),
            policy_types: self.policy_types.deep_clone(),
            ingress_rules: self.ingress_rules.deep_clone(),
            egress_rules: self.egress_rules.deep_clone(),
        }
    }
}

/// A network policy.
#[derive(Clone, Debug, Default, PartialEq, Eq)]
pub struct NetworkPolicy {
    pub metadata: ObjectMeta,
    pub spec: Option<NetworkPolicySpec>,
}

/// The view of [`NetworkPolicy`].
pub struct NetworkPolicyView {
    pub metadata: ObjectMetaView,
    pub spec: Option<NetworkPolicySpecView>,
}

impl DeepView for NetworkPolicy {
    type V = NetworkPolicyView;

    open spec fn deep_view(&self) -> NetworkPolicyView {
        NetworkPolicyView {
            metadata: self.metadata.deep_view(),
            spec: self.spec.deep_view(),
        }
    }
}

impl DeepClone for NetworkPolicy {
    fn deep_clone(&self) -> (copy: Self) {
        NetworkPolicy {
            metadata: self.metadata.deep_clone(),
            spec: self.spec.deep_clone(),
        }
    }
}

/// A subject of a binding.
#[derive(Clone, Debug, PartialEq, Eq)]
pub struct Subject {
    pub kind: String,
    pub name: String,
    pub namespace: Option<String>,
}

/// The view of [`Subject`].
pub struct SubjectView {
    pub kind: Seq<char>,
    pub name: Seq<char>,
    pub namespace: Option<Seq<char>>,
}

impl DeepView for Subject {
    type V = SubjectView;

    open spec fn deep_view(&self) -> SubjectView {
        SubjectView {
            kind: self.kind.deep_view(),
            name: self.name.deep_view(),
            namespace: self.namespace.deep_view(),
        }
    }
}

impl DeepClone for Subject {
    fn deep_clone(&self) -> (copy: Self) {
        Subject {
            kind: self.kind.deep_clone(),
            name: self.name.deep_clone(),
            namespace: self.namespace.deep_clone(),
        }
    }
}

/// A cluster role binding.
#[derive(Clone, Debug, PartialEq, Eq)]
pub struct ClusterRoleBinding {
    pub metadata: ObjectMeta,
    pub role_ref_kind: String,
    pub role_ref_name: String,
    pub subjects: Option<Vec<Subject>>,
}

/// The view of [`ClusterRoleBinding`].
pub struct ClusterRoleBindingView {
    pub metadata: ObjectMetaView,
    pub role_ref_kind: Seq<char>,
    pub role_ref_name: Seq<char>,
    pub subjects: Option<Seq<SubjectView>>,
}

impl DeepView for ClusterRoleBinding {
    type V = ClusterRoleBindingView;

    open spec fn deep_view(&self) -> ClusterRoleBindingView {
        ClusterRoleBindingView {
            metadata: self.metadata.deep_view(),
            role_ref_kind: self.role_ref_kind.deep_view(),
            role_ref_name: self.role_ref_name.deep_view(),
            subjects: self.subjects.deep_view(),
        }
    }
}

impl DeepClone for ClusterRoleBinding {
    fn deep_clone(&self) -> (copy: Self) {
        ClusterRoleBinding {
            metadata: self.metadata.deep_clone(),
            role_ref_kind: self.role_ref_kind.deep_clone(),
            role_ref_name: self.role_ref_name.deep_clone(),
            subjects: self.subjects.deep_clone(),
        }
    }
}

/// A config map, with the names of its binary entries.
#[derive(Clone, Debug, Default, PartialEq, Eq)]
pub struct ConfigMap {
    pub metadata: ObjectMeta,
    pub immutable: Option<bool>,
    pub data: Option<Vec<KV>>,
    pub binary_data_keys: Option<Vec<String>>,
}

/// The view of [`ConfigMap`].
pub struct ConfigMapView {
    pub metadata: ObjectMetaView,
    pub immutable: Option<bool>,
    pub data: Option<Seq<KVView>>,
    pub binary_data_keys: Option<Seq<Seq<char>>>,
}

impl DeepView for ConfigMap {
    type V = ConfigMapView;

    open spec fn deep_view(&self) -> ConfigMapView {
        ConfigMapView {
            metadata: self.metadata.deep_view(),
            immutable: self.immutable.deep_view(),
            data: self.data.deep_view(),
            binary_data_keys: self.binary_data_keys.deep_view(),
        }
    }
}

impl DeepClone for ConfigMap {
    fn deep_clone(&self) -> (copy: Self) {
        ConfigMap {
            metadata: self.metadata.deep_clone(),
            immutable: self.immutable.deep_clone(),
            data: self.data.deep_clone(),
            binary_data_keys: self.binary_data_keys.deep_clone(),
        }
    }
}

/// A secret: the names of its entries, no values.
#[derive(Clone, Debug, Default, PartialEq, Eq)]
pub struct Secret {
    pub metadata: ObjectMeta,
    pub type_: Option<String>,
    pub immutable: Option<bool>,
    pub data_keys: Option<Vec<String>>,
}

/// The view of [`Secret`].
pub struct SecretView {
    pub metadata: ObjectMetaView,
    pub type_: Option<Seq<char>>,
    pub immutable: Option<bool>,
    pub data_keys: Option<Seq<Seq<char>>>,
}

impl DeepView for Secret {
    type V = SecretView;

    open spec fn deep_view(&self) -> SecretView {
        SecretView {
            metadata: self.metadata.deep_view(),
            type_: self.type_.deep_view(),
            immutable: self.immutable.deep_view(),
            data_keys: self.data_keys.deep_view(),
        }
    }
}

impl DeepClone for Secret {
    fn deep_clone(&self) -> (copy: Self) {
        Secret {
            metadata: self.metadata.deep_clone(),
            type_: self.type_.deep_clone(),
            immutable: self.immutable.deep_clone(),
            data_keys: self.data_keys.deep_clone(),
        }
    }
}

/// A storage class.
#[derive(Clone, Debug, PartialEq, Eq)]
pub struct StorageClass {
    pub metadata: ObjectMeta,
    pub provisioner: String,
    pub parameters: Option<Vec<KV>>,
}

/// The view of [`StorageClass`].
pub struct StorageClassView {
    pub metadata: ObjectMetaView,
    pub provisioner: Seq<char>,
    pub parameters: Option<Seq<KVView>>,
}

impl DeepView for StorageClass {
    type V = StorageClassView;

    open spec fn deep_view(&self) -> StorageClassView {
        StorageClassView {
            metadata: self.metadata.deep_view(),
            provisioner: self.provisioner.deep_view(),
            parameters: self.parameters.deep_view(),
        }
    }
}

impl DeepClone for StorageClass {
    fn deep_clone(&self) -> (copy: Self) {
        StorageClass {
            metadata: self.metadata.deep_clone(),
            provisioner: self.provisioner.deep_clone(),
            parameters: self.parameters.deep_clone(),
        }
    }
}

/// A persistent volume.
#[derive(Clone, Debug, PartialEq, Eq)]
pub struct PersistentVolume {
    pub metadata: ObjectMeta,
    pub storage_class_name: Option<String>,
}

/// The view of [`PersistentVolume`].
pub struct PersistentVolumeView {
    pub metadata: ObjectMetaView,
    pub storage_class_name: Option<Seq<char>>,
}

impl DeepView for PersistentVolume {
    type V = PersistentVolumeView;

    open spec fn deep_view(&self) -> PersistentVolumeView {
        PersistentVolumeView {
            metadata: self.metadata.deep_view(),
            storage_class_name: self.storage_class_name.deep_view(),
        }
    }
}

impl DeepClone for PersistentVolume {
    fn deep_clone(&self) -> (copy: Self) {
        PersistentVolume {
            metadata: self.metadata.deep_clone(),
            storage_class_name: self.storage_class_name.deep_clone(),
        }
    }
}

/// A claim on a persistent volume.
#[derive(Clone, Debug, PartialEq, Eq)]
pub struct PersistentVolumeClaim {
    pub metadata: ObjectMeta,
    pub storage_class_name: Option<String>,
    pub volume_name: Option<String>,
}

/// The view of [`PersistentVolumeClaim`].
pub struct PersistentVolumeClaimView {
    pub metadata: ObjectMetaView,
    pub storage_class_name: Option<Seq<char>>,
    pub volume_name: Option<Seq<char>>,
}

impl DeepView for PersistentVolumeClaim {
    type V = PersistentVolumeClaimView;

    open spec fn deep_view(&self) -> PersistentVolumeClaimView {
        PersistentVolumeClaimView {
            metadata: self.metadata.deep_view(),
            storage_class_name: self.storage_class_name.deep_view(),
            volume_name: self.volume_name.deep_view(),
        }
    }
}

impl DeepClone for PersistentVolumeClaim {
    fn deep_clone(&self) -> (copy: Self) {
        PersistentVolumeClaim {
            metadata: self.metadata.deep_clone(),
            storage_class_name: self.storage_class_name.deep_clone(),
            volume_name: self.volume_name.deep_clone(),
        }
    }
}

/// What a scheduled job is meant to be.
#[derive(Clone, Debug, PartialEq, Eq)]
pub struct CronJobSpec {
    pub schedule: String,
    pub suspend: Option<bool>,
}

/// The view of [`CronJobSpec`].
pub struct CronJobSpecView {
    pub schedule: Seq<char>,
    pub suspend: Option<bool>,
}

impl DeepView for CronJobSpec {
    type V = CronJobSpecView;

    open spec fn deep_view(&self) -> CronJobSpecView {
        CronJobSpecView {
            schedule: self.schedule.deep_view(),
            suspend: self.suspend.deep_view(),
        }
    }
}

impl DeepClone for CronJobSpec {
    fn deep_clone(&self) -> (copy: Self) {
        CronJobSpec {
            schedule: self.schedule.deep_clone(),
            suspend: self.suspend.deep_clone(),
        }
    }
}

/// A scheduled job.
#[derive(Clone, Debug, PartialEq, Eq)]
pub struct CronJob {
    pub metadata: ObjectMeta,
    pub spec: Option<CronJobSpec>,
    pub last_schedule_time: Option<String>,
    pub last_successful_time: Option<String>,
}

/// The view of [`CronJob`].
pub struct CronJobView {
    pub metadata: ObjectMetaView,
    pub spec: Option<CronJobSpecView>,
    pub last_schedule_time: Option<Seq<char>>,
    pub last_successful_time: Option<Seq<char>>,
}

impl DeepView for CronJob {
    type V = CronJobView;

    open spec fn deep_view(&self) -> CronJobView {
        CronJobView {
            metadata: self.metadata.deep_view(),
            spec: self.spec.deep_view(),
            last_schedule_time: self.last_schedule_time.deep_view(),
            last_successful_time: self.last_successful_time.deep_view(),
        }
    }
}

impl DeepClone for CronJob {
    fn deep_clone(&self) -> (copy: Self) {
        CronJob {
            metadata: self.metadata.deep_clone(),
            spec: self.spec.deep_clone(),
            last_schedule_time: self.last_schedule_time.deep_clone(),
            last_successful_time: self.last_successful_time.deep_clone(),
        }
    }
}

/// A moment: in seconds since the Unix epoch, and as it is shown.
#[derive(Clone, Debug, PartialEq, Eq)]
pub struct Timestamp {
    pub seconds: i64,
    pub text: String,
}

/// The view of [`Timestamp`].
pub struct TimestampView {
    pub seconds: i64,
    pub text: Seq<char>,
}

impl DeepView for Timestamp {
    type V = TimestampView;

    open spec fn deep_view(&self) -> TimestampView {
        TimestampView {
            seconds: self.seconds.deep_view(),
            text: self.text.deep_view(),
        }
    }
}

impl DeepClone for Timestamp {
    fn deep_clone(&self) -> (copy: Self) {
        Timestamp {
            seconds: self.seconds.deep_clone(),
            text: self.text.deep_clone(),
        }
    }
}

/// An event.
#[derive(Clone, Debug, Default, PartialEq, Eq)]
pub struct Event {
    pub metadata: ObjectMeta,
    pub type_: Option<String>,
    pub reason: Option<String>,
    pub message: Option<String>,
    pub count: Option<i32>,
    pub first_timestamp: Option<Timestamp>,
    pub last_timestamp: Option<Timestamp>,
    pub event_time: Option<Timestamp>,
    pub reporting_component: Option<String>,
    pub reporting_instance: Option<String>,
    pub involved_object: InvolvedObjectInfo,
}

/// The view of [`Event`].
pub struct EventView {
    pub metadata: ObjectMetaView,
    pub type_: Option<Seq<char>>,
    pub reason: Option<Seq<char>>,
    pub message: Option<Seq<char>>,
    pub count: Option<i32>,
    pub first_timestamp: Option<TimestampView>,
    pub last_timestamp: Option<TimestampView>,
    pub event_time: Option<TimestampView>,
    pub reporting_component: Option<Seq<char>>,
    pub reporting_instance: Option<Seq<char>>,
    pub involved_object: InvolvedObjectInfoView,
}

impl DeepView for Event {
    type V = EventView;

    open spec fn deep_view(&self) -> EventView {
        EventView {
            metadata: self.metadata.deep_view(),
            type_: self.type_.deep_view(),
            reason: self.reason.deep_view(),
            message: self.message.deep_view(),
            count: self.count.deep_view(),
            first_timestamp: self.first_timestamp.deep_view(),
            last_timestamp: self.last_timestamp.deep_view(),
            event_time: self.event_time.deep_view(),
            reporting_component: self.reporting_component.deep_view(),
            reporting_instance: self.reporting_instance.deep_view(),
            involved_object: self.involved_object.deep_view(),
        }
    }
}

impl DeepClone for Event {
    fn deep_clone(&self) -> (copy: Self) {
        Event {
            metadata: self.metadata.deep_clone(),
            type_: self.type_.deep_clone(),
            reason: self.reason.deep_clone(),
            message: self.message.deep_clone(),
            count: self.count.deep_clone(),
            first_timestamp: self.first_timestamp.deep_clone(),
            last_timestamp: self.last_timestamp.deep_clone(),
            event_time: self.event_time.deep_clone(),
            reporting_component: self.reporting_component.deep_clone(),
            reporting_instance: self.reporting_instance.deep_clone(),
            involved_object: self.involved_object.deep_clone(),
        }
    }
}

/// The labels of an object that has any.
pub open spec fn labels_of(meta: ObjectMetaView) -> Seq<KVView> {
    match meta.labels {
        Some(labels) => labels,
        None => seq![],
    }
}

/// A label satisfies a requirement.
pub open spec fn requirement_holds(requirement: LabelSelectorRequirementView, labels: Seq<KVView>) -> bool {
    let value = pairs::value_of(labels, requirement.key);
    let values = match requirement.values {
        Some(values) => values,
        None => seq![],
    };
    if requirement.operator == "In"@ {
        value matches Some(v) && values.contains(v)
    } else if requirement.operator == "NotIn"@ {
        value matches Some(v) ==> !values.contains(v)
    } else if requirement.operator == "Exists"@ {
        value is Some
    } else if requirement.operator == "DoesNotExist"@ {
        value is None
    } else {
        false
    }
}

/// Labels satisfy a selection: all its pairs and all its requirements. Where there is no
/// selection, any labels do.
pub open spec fn selector_matches(selector: Option<LabelSelectorView>, labels: Seq<KVView>) -> bool {
    match selector {
        None => true,
        Some(s) => {
            &&& s.match_labels matches Some(pairs) ==> pairs.all(
                |kv: KVView| pairs::value_of(labels, kv.key) == Some(kv.value),
            )
            &&& s.match_expressions matches Some(requirements) ==> requirements.all(
                |r: LabelSelectorRequirementView| requirement_holds(r, labels),
            )
        },
    }
}

fn requirement_is_met(requirement: &LabelSelectorRequirement, labels: &Vec<KV>) -> (r: bool)
    ensures
        r == requirement_holds(requirement.deep_view(), labels.deep_view()),
{
    let operator = requirement.operator.as_str();
    let value = pair_value(labels, requirement.key.as_str());
    if str_eq(operator, "In") {
        match value {
            Some(v) => match &requirement.values {
                Some(values) => list_has(values, v),
                None => false,
            },
            None => false,
        }
    } else if str_eq(operator, "NotIn") {
        match value {
            Some(v) => match &requirement.values {
                Some(values) => !list_has(values, v),
                None => true,
            },
            None => true,
        }
    } else if str_eq(operator, "Exists") {
        value.is_some()
    } else if str_eq(operator, "DoesNotExist") {
        value.is_none()
    } else {
        false
    }
}

/// Whether labels satisfy a selection.
pub fn label_selector_matches(selector: Option<&LabelSelector>, labels: &Vec<KV>) -> (r: bool)
    ensures
        r == selector_matches(selector.deep_view(), labels.deep_view()),
{
    match selector {
        None => true,
        Some(s) => {
            let pairs_ok = match &s.match_labels {
                Some(pairs) => {
                    let test = |kv: &KV| -> (b: bool)
                        ensures
                            b == (pairs::value_of(labels.deep_view(), kv.deep_view().key) == Some(kv.deep_view().value)),
                        {
                            match pair_value(labels, kv.key.as_str()) {
                                Some(v) => str_eq(v, kv.value.as_str()),
                                None => false,
                            }
                        };
                    all_items(
                        pairs,
                        test,
                        Ghost(|kv: KVView| pairs::value_of(labels.deep_view(), kv.key) == Some(kv.value)),
                    )
                },
                None => true,
            };
            let requirements_ok = match &s.match_expressions {
                Some(requirements) => {
                    let test = |r: &LabelSelectorRequirement| -> (b: bool)
                        ensures
                            b == requirement_holds(r.deep_view(), labels.deep_view()),
                        { requirement_is_met(r, labels) };
                    all_items(
                        requirements,
                        test,
                        Ghost(|r: LabelSelectorRequirementView| requirement_holds(r, labels.deep_view())),
                    )
                },
                None => true,
            };
            pairs_ok && requirements_ok
        },
    }
}

/// One object may precede another in a snapshot: by its namespace, then by its name.
pub open spec fn meta_le(a: ObjectMetaView, b: ObjectMetaView) -> bool {
    let a_namespace = views::text_or(a.namespace, ""@);
    let b_namespace = views::text_or(b.namespace, ""@);
    if a_namespace == b_namespace {
        order::text_le(views::text_or(a.name, ""@), views::text_or(b.name, ""@))
    } else {
        order::text_le(a_namespace, b_namespace)
    }
}

/// The order of a snapshot for things that carry what every object carries.
pub open spec fn by_place<A>(meta: spec_fn(A) -> ObjectMetaView) -> spec_fn(A, A) -> bool {
    |a: A, b: A| meta_le(meta(a), meta(b))
}

pub(crate) fn meta_precedes(a: &ObjectMeta, b: &ObjectMeta) -> (r: bool)
    ensures
        r == meta_le(a.deep_view(), b.deep_view()),
{
    let a_namespace = opt_str(&a.namespace, "");
    let b_namespace = opt_str(&b.namespace, "");
    if str_eq(a_namespace, b_namespace) {
        str_le(opt_str(&a.name, ""), opt_str(&b.name, ""))
    } else {
        str_le(a_namespace, b_namespace)
    }
}

/// The order of a snapshot puts any two things one way or the other, and is transitive.
pub proof fn lemma_place_ordering<A>(meta: spec_fn(A) -> ObjectMetaView)
    ensures
        order::is_ordering(by_place(meta)),
{
    let le = by_place(meta);
    assert forall|a: A, b: A| #[trigger] le(a, b) || le(b, a) by {
        let (x, y) = (meta(a), meta(b));
        order::lemma_text_le(views::text_or(x.namespace, ""@), views::text_or(y.namespace, ""@), ""@);
        order::lemma_text_le(views::text_or(x.name, ""@), views::text_or(y.name, ""@), ""@);
    }
    assert forall|a: A, b: A, c: A| #[trigger] le(a, b) && #[trigger] le(b, c) implies le(a, c) by {
        let (x, y, z) = (meta(a), meta(b), meta(c));
        order::lemma_text_le(views::text_or(x.namespace, ""@), views::text_or(y.namespace, ""@), views::text_or(z.namespace, ""@));
        order::lemma_text_le(views::text_or(y.namespace, ""@), views::text_or(x.namespace, ""@), ""@);
        order::lemma_text_le(views::text_or(y.namespace, ""@), views::text_or(z.namespace, ""@), ""@);
        order::lemma_text_le(views::text_or(x.name, ""@), views::text_or(y.name, ""@), views::text_or(z.name, ""@));
    }
}

/// Things that a snapshot lists stand by namespace and name, and none is lost or added.
pub proof fn lemma_listed_by_place<A>(items: Seq<A>, meta: spec_fn(A) -> ObjectMetaView)
    ensures
        order::is_sorted(order::in_order(items, by_place(meta)), by_place(meta)),
        order::in_order(items, by_place(meta)).to_multiset() == items.to_multiset(),
{
    lemma_place_ordering(meta);
    order::lemma_in_order_sorted(items, by_place(meta));
    order::lemma_in_order_keeps_items(items, by_place(meta));
}

/// The labels and annotations of an object, as a snapshot shows them.
pub fn map_metadata_pairs(pairs: &Option<Vec<KV>>) -> (r: Vec<KV>)
    ensures
        r.deep_view() == views::list_or_none(pairs.deep_view()),
{
    opt_list(pairs)
}

// ------------------------------------------------------------- what it is for

/// A requirement on labels holds by its operator: `In` where the key's label has a value that is
/// listed, `NotIn` where it has none that is listed, `Exists` where there is such a label, and
/// `DoesNotExist` where there is none. No other operator ever holds.
pub proof fn lemma_requirement_by_operator(requirement: LabelSelectorRequirementView, labels: Seq<KVView>)
    ensures
        requirement.operator == "In"@ ==> (requirement_holds(requirement, labels) <==> exists|v: Seq<char>|
            #[trigger] pairs::gives_value(labels, requirement.key, v) && (requirement.values matches Some(values)
                && values.contains(v))),
        requirement.operator == "NotIn"@ ==> (requirement_holds(requirement, labels) <==> !exists|v: Seq<char>|
            #[trigger] pairs::gives_value(labels, requirement.key, v) && (requirement.values matches Some(values)
                && values.contains(v))),
        requirement.operator == "Exists"@ ==> (requirement_holds(requirement, labels) <==> exists|i: int|
            0 <= i < labels.len() && (#[trigger] labels[i]).key == requirement.key),
        requirement.operator == "DoesNotExist"@ ==> (requirement_holds(requirement, labels) <==> forall|i: int|
            0 <= i < labels.len() ==> (#[trigger] labels[i]).key != requirement.key),
        requirement_holds(requirement, labels) ==> requirement.operator == "In"@ || requirement.operator == "NotIn"@
            || requirement.operator == "Exists"@ || requirement.operator == "DoesNotExist"@,
{
    reveal_strlit("In");
    reveal_strlit("NotIn");
    reveal_strlit("Exists");
    reveal_strlit("DoesNotExist");
    assert("In"@.len() == 2 && "NotIn"@.len() == 5 && "Exists"@.len() == 6 && "DoesNotExist"@.len() == 12);
    let key = requirement.key;
    pairs::lemma_value_is_the_first(labels, key, pairs::value_of(labels, key)->0);
    assert forall|v: Seq<char>| #[trigger] pairs::gives_value(labels, key, v) implies pairs::value_of(labels, key) == Some(v) by {
        pairs::lemma_value_is_the_first(labels, key, v);
    }
}

/// A selector takes labels exactly where each label that it names has the value it names and each
/// of its requirements holds; without a selector all labels are taken.
pub proof fn lemma_selector_takes(selector: LabelSelectorView, labels: Seq<KVView>)
    ensures
        selector_matches(None, labels),
        selector_matches(Some(selector), labels) <==> {
            &&& selector.match_labels matches Some(pairs) ==> forall|i: int|
                0 <= i < pairs.len() ==> pairs::gives_value(labels, (#[trigger] pairs[i]).key, pairs[i].value)
            &&& selector.match_expressions matches Some(requirements) ==> forall|i: int|
                0 <= i < requirements.len() ==> requirement_holds(#[trigger] requirements[i], labels)
        },
{
    if let Some(pairs) = selector.match_labels {
        let named = |kv: KVView| pairs::value_of(labels, kv.key) == Some(kv.value);
        assert forall|i: int| 0 <= i < pairs.len() implies named(#[trigger] pairs[i]) == pairs::gives_value(
            labels,
            pairs[i].key,
            pairs[i].value,
        ) by {
            pairs::lemma_value_is_the_first(labels, pairs[i].key, pairs[i].value);
        }
        if pairs.all(named) {
            assert forall|i: int| 0 <= i < pairs.len() implies pairs::gives_value(
                labels,
                (#[trigger] pairs[i]).key,
                pairs[i].value,
            ) by {
                assert(named(pairs[i]));
            }
        }
    }
    if let Some(requirements) = selector.match_expressions {
        let held = |r: LabelSelectorRequirementView| requirement_holds(r, labels);
        if requirements.all(held) {
            assert forall|i: int| 0 <= i < requirements.len() implies requirement_holds(
                #[trigger] requirements[i],
                labels,
            ) by {
                assert(held(requirements[i]));
            }
        }
    }
}

} // verus!
