//! What is read of workloads, and the patches that change them.
use crate::json;
use crate::json::{
    Json, json_object2, json_one, json_one_item, json_opt_text, json_text, JsonView, ObjectBuilder,
};
use crate::model::{KV, KVView};
use crate::objects::{
    Container, ContainerView, DaemonSet, DaemonSetView, Deployment, DeploymentView, LabelSelector,
    LabelSelectorView, PodTemplate, PodTemplateView, ResourceRequirements, ResourceRequirementsView,
    StatefulSet, StatefulSetView,
};
use crate::order::str_eq;
use crate::pairs;
use crate::pairs::pair_value;
use crate::policy::{ResourceMap, ResourceMapView, WorkloadResourcesSpec, WorkloadResourcesSpecView};
use crate::text;
use crate::text::{owned, text2, text3};
use crate::views;
use crate::views::{DeepClone, find_item};
use vstd::prelude::*;

verus! {

/// The workload that a command is about.
#[derive(Clone, Debug, PartialEq, Eq)]
pub struct WorkloadTargetRef {
    pub kind: String,
    pub namespace: String,
    pub name: String,
}

/// The view of [`WorkloadTargetRef`].
pub struct WorkloadTargetRefView {
    pub kind: Seq<char>,
    pub namespace: Seq<char>,
    pub name: Seq<char>,
}

impl DeepView for WorkloadTargetRef {
    type V = WorkloadTargetRefView;

    open spec fn deep_view(&self) -> WorkloadTargetRefView {
        WorkloadTargetRefView {
            kind: self.kind.deep_view(),
            namespace: self.namespace.deep_view(),
            name: self.name.deep_view(),
        }
    }
}

impl DeepClone for WorkloadTargetRef {
    fn deep_clone(&self) -> (copy: Self) {
        WorkloadTargetRef {
            kind: self.kind.deep_clone(),
            namespace: self.namespace.deep_clone(),
            name: self.name.deep_clone(),
        }
    }
}

/// A workload as it is in the cluster.
#[derive(Clone, Debug, PartialEq, Eq)]
pub enum WorkloadObject {
    Deployment(Deployment),
    StatefulSet(StatefulSet),
    DaemonSet(DaemonSet),
}

/// The view of [`WorkloadObject`].
pub enum WorkloadObjectView {
    Deployment(DeploymentView),
    StatefulSet(StatefulSetView),
    DaemonSet(DaemonSetView),
}

impl DeepView for WorkloadObject {
    type V = WorkloadObjectView;

    open spec fn deep_view(&self) -> WorkloadObjectView {
        match self {
            WorkloadObject::Deployment(a) => WorkloadObjectView::Deployment(a.deep_view()),
            WorkloadObject::StatefulSet(a) => WorkloadObjectView::StatefulSet(a.deep_view()),
            WorkloadObject::DaemonSet(a) => WorkloadObjectView::DaemonSet(a.deep_view()),
        }
    }
}

impl DeepClone for WorkloadObject {
    fn deep_clone(&self) -> (copy: Self) {
        match self {
            WorkloadObject::Deployment(a) => WorkloadObject::Deployment(a.deep_clone()),
            WorkloadObject::StatefulSet(a) => WorkloadObject::StatefulSet(a.deep_clone()),
            WorkloadObject::DaemonSet(a) => WorkloadObject::DaemonSet(a.deep_clone()),
        }
    }
}

/// An autoscaler and what it scales.
#[derive(Clone, Debug, PartialEq, Eq)]
pub struct HorizontalPodAutoscaler {
    pub name: Option<String>,
    pub target: Option<ScaleTarget>,
}

/// The view of [`HorizontalPodAutoscaler`].
pub struct HorizontalPodAutoscalerView {
    pub name: Option<Seq<char>>,
    pub target: Option<ScaleTargetView>,
}

impl DeepView for HorizontalPodAutoscaler {
    type V = HorizontalPodAutoscalerView;

    open spec fn deep_view(&self) -> HorizontalPodAutoscalerView {
        HorizontalPodAutoscalerView {
            name: self.name.deep_view(),
            target: self.target.deep_view(),
        }
    }
}

impl DeepClone for HorizontalPodAutoscaler {
    fn deep_clone(&self) -> (copy: Self) {
        HorizontalPodAutoscaler {
            name: self.name.deep_clone(),
            target: self.target.deep_clone(),
        }
    }
}

/// What an autoscaler scales.
#[derive(Clone, Debug, PartialEq, Eq)]
pub struct ScaleTarget {
    pub kind: String,
    pub name: String,
}

/// The view of [`ScaleTarget`].
pub struct ScaleTargetView {
    pub kind: Seq<char>,
    pub name: Seq<char>,
}

impl DeepView for ScaleTarget {
    type V = ScaleTargetView;

    open spec fn deep_view(&self) -> ScaleTargetView {
        ScaleTargetView {
            kind: self.kind.deep_view(),
            name: self.name.deep_view(),
        }
    }
}

impl DeepClone for ScaleTarget {
    fn deep_clone(&self) -> (copy: Self) {
        ScaleTarget {
            kind: self.kind.deep_clone(),
            name: self.name.deep_clone(),
        }
    }
}

/// A vertical autoscaler, what it sizes and how.
#[derive(Clone, Debug, PartialEq, Eq)]
pub struct VerticalPodAutoscaler {
    pub name: Option<String>,
    pub target_kind: Option<String>,
    pub target_name: Option<String>,
    pub update_mode: Option<String>,
}

/// The view of [`VerticalPodAutoscaler`].
pub struct VerticalPodAutoscalerView {
    pub name: Option<Seq<char>>,
    pub target_kind: Option<Seq<char>>,
    pub target_name: Option<Seq<char>>,
    pub update_mode: Option<Seq<char>>,
}

impl DeepView for VerticalPodAutoscaler {
    type V = VerticalPodAutoscalerView;

    open spec fn deep_view(&self) -> VerticalPodAutoscalerView {
        VerticalPodAutoscalerView {
            name: self.name.deep_view(),
            target_kind: self.target_kind.deep_view(),
            target_name: self.target_name.deep_view(),
            update_mode: self.update_mode.deep_view(),
        }
    }
}

impl DeepClone for VerticalPodAutoscaler {
    fn deep_clone(&self) -> (copy: Self) {
        VerticalPodAutoscaler {
            name: self.name.deep_clone(),
            target_kind: self.target_kind.deep_clone(),
            target_name: self.target_name.deep_clone(),
            update_mode: self.update_mode.deep_clone(),
        }
    }
}

/// A budget for disruptions of pods.
#[derive(Clone, Debug, PartialEq, Eq)]
pub struct PodDisruptionBudget {
    pub name: Option<String>,
    pub selector: Option<LabelSelector>,
}

/// The view of [`PodDisruptionBudget`].
pub struct PodDisruptionBudgetView {
    pub name: Option<Seq<char>>,
    pub selector: Option<LabelSelectorView>,
}

impl DeepView for PodDisruptionBudget {
    type V = PodDisruptionBudgetView;

    open spec fn deep_view(&self) -> PodDisruptionBudgetView {
        PodDisruptionBudgetView {
            name: self.name.deep_view(),
            selector: self.selector.deep_view(),
        }
    }
}

impl DeepClone for PodDisruptionBudget {
    fn deep_clone(&self) -> (copy: Self) {
        PodDisruptionBudget {
            name: self.name.deep_clone(),
            selector: self.selector.deep_clone(),
        }
    }
}

// ------------------------------------------------------------------ numbers

/// A number, or null where there is none.
pub open spec fn opt_number_node(n: Option<int>) -> JsonView {
    match n {
        Some(k) => JsonView::Number(k),
        None => JsonView::Null,
    }
}

pub(crate) fn json_opt_i32(n: Option<i32>) -> (r: Json)
    ensures
        r.node() == opt_number_node(opt_int32(n)),
{
    match n {
        Some(k) => Json::Number(k as i128),
        None => Json::Null,
    }
}

pub(crate) fn json_opt_i64(n: Option<i64>) -> (r: Json)
    ensures
        r.node() == opt_number_node(opt_int64(n)),
{
    match n {
        Some(k) => Json::Number(k as i128),
        None => Json::Null,
    }
}

/// An optional number as an integer.
pub open spec fn opt_int32(n: Option<i32>) -> Option<int> {
    match n {
        Some(k) => Some(k as int),
        None => None,
    }
}

/// An optional number as an integer.
pub open spec fn opt_int64(n: Option<i64>) -> Option<int> {
    match n {
        Some(k) => Some(k as int),
        None => None,
    }
}

// ------------------------------------------------------------- resource patches

/// The resources of one side; null where all are to be cleared.
pub open spec fn resource_side(resources: ResourceMapView) -> JsonView {
    match (resources.cpu, resources.memory) {
        (None, None) => JsonView::Null,
        (Some(cpu), None) => JsonView::Object(seq![("cpu"@, JsonView::Text(cpu))]),
        (None, Some(memory)) => JsonView::Object(seq![("memory"@, JsonView::Text(memory))]),
        (Some(cpu), Some(memory)) => JsonView::Object(
            seq![("cpu"@, JsonView::Text(cpu)), ("memory"@, JsonView::Text(memory))],
        ),
    }
}

/// The resources of one side; null where all are to be cleared.
pub fn resource_map_to_value(resources: &ResourceMap) -> (r: Json)
    ensures
        r.node() == resource_side(resources.deep_view()),
{
    match (&resources.cpu, &resources.memory) {
        (None, None) => Json::Null,
        (Some(cpu), None) => json_one("cpu", json_text(cpu.as_str())),
        (None, Some(memory)) => json_one("memory", json_text(memory.as_str())),
        (Some(cpu), Some(memory)) => json_object2(
            "cpu",
            json_text(cpu.as_str()),
            "memory",
            json_text(memory.as_str()),
        ),
    }
}

/// The sides that a change is about.
pub open spec fn changed_sides(requests: Option<ResourceMapView>, limits: Option<ResourceMapView>) -> JsonView {
    match (requests, limits) {
        (None, None) => JsonView::Object(seq![]),
        (Some(requests), None) => JsonView::Object(seq![("requests"@, resource_side(requests))]),
        (None, Some(limits)) => JsonView::Object(seq![("limits"@, resource_side(limits))]),
        (Some(requests), Some(limits)) => JsonView::Object(
            seq![("requests"@, resource_side(requests)), ("limits"@, resource_side(limits))],
        ),
    }
}

/// A patch of the containers of a workload's pods.
pub open spec fn containers_patch(container: JsonView) -> JsonView {
    json::one_member(
        "spec"@,
        json::one_member("template"@, json::one_member("spec"@, json::one_member("containers"@, json::one_item(container)))),
    )
}

pub(crate) fn patch_containers(container: Json) -> (r: Json)
    ensures
        r.node() == containers_patch(container.node()),
{
    json_one("spec", json_one("template", json_one("spec", json_one("containers", json_one_item(container)))))
}

/// The patch that a change to a container's resources amounts to; nothing where the change is
/// about neither side.
pub open spec fn resources_patch(spec: WorkloadResourcesSpecView) -> Option<JsonView> {
    if spec.requests is None && spec.limits is None {
        None
    } else {
        Some(
            containers_patch(
                JsonView::Object(
                    seq![
                        ("name"@, JsonView::Text(spec.container)),
                        ("resources"@, changed_sides(spec.requests, spec.limits)),
                    ],
                ),
            ),
        )
    }
}

/// The patch that a change to a container's resources amounts to.
pub fn build_workload_resources_patch(spec: &WorkloadResourcesSpec) -> (r: Result<Json, String>)
    ensures
        match r {
            Ok(patch) => resources_patch(spec.deep_view()) == Some(patch.node()),
            Err(message) => resources_patch(spec.deep_view()) is None && message@
                == "at least one of requests or limits must be provided"@,
        },
{
    let sides = match (&spec.requests, &spec.limits) {
        (None, None) => {
            return Err(owned("at least one of requests or limits must be provided"));
        },
        (Some(requests), None) => json_one("requests", resource_map_to_value(requests)),
        (None, Some(limits)) => json_one("limits", resource_map_to_value(limits)),
        (Some(requests), Some(limits)) => json_object2(
            "requests",
            resource_map_to_value(requests),
            "limits",
            resource_map_to_value(limits),
        ),
    };
    Ok(patch_containers(json_object2("name", json_text(spec.container.as_str()), "resources", sides)))
}

/// An object has a member of a name.
pub open spec fn has_member(object: JsonView, name: Seq<char>) -> bool {
    object matches JsonView::Object(members) && exists|i: int|
        0 <= i < members.len() && (#[trigger] members[i]).0 == name
}

/// A side that a change does not name is left as it is, and one that it names is in the patch.
pub proof fn lemma_untouched_sides(requests: Option<ResourceMapView>, limits: Option<ResourceMapView>)
    ensures
        has_member(changed_sides(requests, limits), "requests"@) <==> requests is Some,
        has_member(changed_sides(requests, limits), "limits"@) <==> limits is Some,
{
    reveal_strlit("requests");
    reveal_strlit("limits");
    assert("requests"@.len() != "limits"@.len());
    let members = changed_sides(requests, limits)->Object_0;
    if requests is Some {
        assert(members[0].0 == "requests"@);
    }
    if limits is Some {
        assert(members[members.len() - 1].0 == "limits"@);
    }
}

// ------------------------------------------------------------ what is observed

/// Quantities by name.
pub open spec fn quantities_node(quantities: Seq<KVView>) -> JsonView {
    JsonView::Object(quantities.map_values(|q: KVView| (q.key, JsonView::Text(q.value))))
}

/// Quantities by name.
pub fn quantity_map_to_value(quantities: &Vec<KV>) -> (r: Json)
    ensures
        r.node() == quantities_node(quantities.deep_view()),
{
    let mut b = ObjectBuilder::new();
    let ghost all = quantities.deep_view();
    let ghost f = |q: KVView| (q.key, JsonView::Text(q.value));
    let mut i: usize = 0;
    assert(b.members() =~= all.take(0).map_values(f));
    while i < quantities.len()
        invariant
            i <= quantities.len(),
            all == quantities.deep_view(),
            f == (|q: KVView| (q.key, JsonView::Text(q.value))),
            b.members() == all.take(i as int).map_values(f),
        decreases quantities.len() - i,
    {
        let ghost before = b.members();
        b = b.with(quantities[i].key.as_str(), json_text(quantities[i].value.as_str()));
        assert(all[i as int] == quantities@[i as int].deep_view());
        assert(all.take(i + 1).map_values(f) =~= before.push(f(all[i as int])));
        i += 1;
    }
    assert(all.take(quantities.len() as int) =~= all);
    b.build()
}

/// The resources that a container asks for, side by side.
pub open spec fn requirements_node(resources: Option<ResourceRequirementsView>) -> JsonView {
    match resources {
        None => JsonView::Object(seq![]),
        Some(resources) => match (resources.requests, resources.limits) {
            (None, None) => JsonView::Object(seq![]),
            (Some(requests), None) => JsonView::Object(seq![("requests"@, quantities_node(requests))]),
            (None, Some(limits)) => JsonView::Object(seq![("limits"@, quantities_node(limits))]),
            (Some(requests), Some(limits)) => JsonView::Object(
                seq![("requests"@, quantities_node(requests)), ("limits"@, quantities_node(limits))],
            ),
        },
    }
}

fn empty_object() -> (r: Json)
    ensures
        r.node() == JsonView::Object(seq![]),
{
    ObjectBuilder::new().build()
}

/// The resources that a container asks for, side by side.
pub fn resource_requirements_to_value(resources: &Option<ResourceRequirements>) -> (r: Json)
    ensures
        r.node() == requirements_node(resources.deep_view()),
{
    match resources {
        None => empty_object(),
        Some(resources) => match (&resources.requests, &resources.limits) {
            (None, None) => empty_object(),
            (Some(requests), None) => json_one("requests", quantity_map_to_value(requests)),
            (None, Some(limits)) => json_one("limits", quantity_map_to_value(limits)),
            (Some(requests), Some(limits)) => json_object2(
                "requests",
                quantity_map_to_value(requests),
                "limits",
                quantity_map_to_value(limits),
            ),
        },
    }
}

/// The container of a name.
pub open spec fn container_named(containers: Seq<ContainerView>, name: Seq<char>) -> Option<ContainerView> {
    views::first_that(containers, |c: ContainerView| c.name == name)
}

fn find_container<'a>(containers: &'a Vec<Container>, name: &str) -> (r: Option<&'a Container>)
    ensures
        r.deep_view() == container_named(containers.deep_view(), name@),
{
    let named = |c: &Container| -> (b: bool)
        ensures
            b == (c.deep_view().name == name@),
        { str_eq(c.name.as_str(), name) };
    match find_item(containers, named, Ghost(|c: ContainerView| c.name == name@)) {
        Some(i) => Some(&containers[i]),
        None => None,
    }
}

/// The name of a kind of workload.
pub open spec fn kind_of(workload: WorkloadObjectView) -> Seq<char> {
    match workload {
        WorkloadObjectView::Deployment(_) => "Deployment"@,
        WorkloadObjectView::StatefulSet(_) => "StatefulSet"@,
        WorkloadObjectView::DaemonSet(_) => "DaemonSet"@,
    }
}

/// The pods that a workload makes.
pub open spec fn template_of(workload: WorkloadObjectView) -> Option<PodTemplateView> {
    match workload {
        WorkloadObjectView::Deployment(w) => match w.spec {
            Some(spec) => Some(spec.template),
            None => None,
        },
        WorkloadObjectView::StatefulSet(w) => match w.spec {
            Some(spec) => Some(spec.template),
            None => None,
        },
        WorkloadObjectView::DaemonSet(w) => match w.spec {
            Some(spec) => Some(spec.template),
            None => None,
        },
    }
}

fn pod_template(workload: &WorkloadObject) -> (r: Option<&PodTemplate>)
    ensures
        r.deep_view() == template_of(workload.deep_view()),
{
    match workload {
        WorkloadObject::Deployment(w) => match &w.spec {
            Some(spec) => Some(&spec.template),
            None => None,
        },
        WorkloadObject::StatefulSet(w) => match &w.spec {
            Some(spec) => Some(&spec.template),
            None => None,
        },
        WorkloadObject::DaemonSet(w) => match &w.spec {
            Some(spec) => Some(&spec.template),
            None => None,
        },
    }
}

fn workload_kind(workload: &WorkloadObject) -> (r: &'static str)
    ensures
        r@ == kind_of(workload.deep_view()),
{
    match workload {
        WorkloadObject::Deployment(_) => "Deployment",
        WorkloadObject::StatefulSet(_) => "StatefulSet",
        WorkloadObject::DaemonSet(_) => "DaemonSet",
    }
}

/// The containers of the pods that a workload makes.
pub open spec fn containers_of(workload: WorkloadObjectView) -> Option<Seq<ContainerView>> {
    match template_of(workload) {
        Some(template) => template.containers,
        None => None,
    }
}

fn workload_containers(workload: &WorkloadObject) -> (r: Option<&Vec<Container>>)
    ensures
        r.deep_view() == containers_of(workload.deep_view()),
{
    match pod_template(workload) {
        Some(template) => match &template.containers {
            Some(containers) => Some(containers),
            None => None,
        },
        None => None,
    }
}

/// The resources of a workload's container, or why they cannot be told.
pub open spec fn observed_resources(workload: WorkloadObjectView, container: Seq<char>) -> Result<JsonView, Seq<char>> {
    match containers_of(workload) {
        None => Err(kind_of(workload) + " has no pod template spec: "@ + container),
        Some(containers) => match container_named(containers, container) {
            None => Err("container not found in workload pod template: "@ + container),
            Some(found) => Ok(requirements_node(found.resources)),
        },
    }
}

/// The resources of a workload's container, or why they cannot be told.
pub fn workload_container_resources(workload: &WorkloadObject, container: &str) -> (r: Result<Json, String>)
    ensures
        match r {
            Ok(json) => observed_resources(workload.deep_view(), container@) == Ok::<JsonView, Seq<char>>(json.node()),
            Err(message) => observed_resources(workload.deep_view(), container@) == Err::<JsonView, Seq<char>>(
                message@,
            ),
        },
{
    match workload_containers(workload) {
        None => Err(text3(workload_kind(workload), " has no pod template spec: ", container)),
        Some(containers) => match find_container(containers, container) {
            None => Err(text2("container not found in workload pod template: ", container)),
            Some(found) => Ok(resource_requirements_to_value(&found.resources)),
        },
    }
}

/// The resources of a deployment's container, or why they cannot be told.
pub fn deployment_container_resources(workload: &Deployment, container: &str) -> (r: Result<Json, String>)
    ensures
        ({
            let wanted = observed_resources(WorkloadObjectView::Deployment(workload.deep_view()), container@);
            match r {
                Ok(json) => wanted == Ok::<JsonView, Seq<char>>(json.node()),
                Err(message) => wanted == Err::<JsonView, Seq<char>>(message@),
            }
        }),
{
    workload_container_resources(&WorkloadObject::Deployment(workload.deep_clone()), container)
}

/// The resources of a stateful set's container, or why they cannot be told.
pub fn statefulset_container_resources(workload: &StatefulSet, container: &str) -> (r: Result<Json, String>)
    ensures
        ({
            let wanted = observed_resources(WorkloadObjectView::StatefulSet(workload.deep_view()), container@);
            match r {
                Ok(json) => wanted == Ok::<JsonView, Seq<char>>(json.node()),
                Err(message) => wanted == Err::<JsonView, Seq<char>>(message@),
            }
        }),
{
    workload_container_resources(&WorkloadObject::StatefulSet(workload.deep_clone()), container)
}

/// The resources of a daemon set's container, or why they cannot be told.
pub fn daemonset_container_resources(workload: &DaemonSet, container: &str) -> (r: Result<Json, String>)
    ensures
        ({
            let wanted = observed_resources(WorkloadObjectView::DaemonSet(workload.deep_view()), container@);
            match r {
                Ok(json) => wanted == Ok::<JsonView, Seq<char>>(json.node()),
                Err(message) => wanted == Err::<JsonView, Seq<char>>(message@),
            }
        }),
{
    workload_container_resources(&WorkloadObject::DaemonSet(workload.deep_clone()), container)
}

/// The image of a daemon set's container, or why it cannot be told.
pub open spec fn observed_image(workload: DaemonSetView, container: Seq<char>) -> Result<Seq<char>, Seq<char>> {
    match containers_of(WorkloadObjectView::DaemonSet(workload)) {
        None => Err("target DaemonSet has no pod template spec for container "@ + container),
        Some(containers) => match container_named(containers, container) {
            None => Err("target DaemonSet missing expected container "@ + container),
            Some(found) => match found.image {
                Some(image) => Ok(image),
                None => Err("target DaemonSet container "@ + container + " has no image field"@),
            },
        },
    }
}

/// The image of a daemon set's container, or why it cannot be told.
pub fn daemonset_container_image(workload: &DaemonSet, container: &str) -> (r: Result<String, String>)
    ensures
        match r {
            Ok(image) => observed_image(workload.deep_view(), container@) == Ok::<Seq<char>, Seq<char>>(image@),
            Err(message) => observed_image(workload.deep_view(), container@) == Err::<Seq<char>, Seq<char>>(message@),
        },
{
    let containers = match &workload.spec {
        Some(spec) => match &spec.template.containers {
            Some(containers) => containers,
            None => {
                return Err(text2("target DaemonSet has no pod template spec for container ", container));
            },
        },
        None => {
            return Err(text2("target DaemonSet has no pod template spec for container ", container));
        },
    };
    match find_container(containers, container) {
        None => Err(text2("target DaemonSet missing expected container ", container)),
        Some(found) => match &found.image {
            Some(image) => Ok(owned(image.as_str())),
            None => Err(text3("target DaemonSet container ", container, " has no image field")),
        },
    }
}

/// The labels of the pods that a workload makes.
pub open spec fn pod_labels_of(workload: WorkloadObjectView) -> Seq<KVView> {
    match template_of(workload) {
        Some(template) => match template.labels {
            Some(labels) => labels,
            None => seq![],
        },
        None => seq![],
    }
}

/// The labels of the pods that a workload makes.
pub fn workload_pod_labels(workload: &WorkloadObject) -> (r: Vec<KV>)
    ensures
        r.deep_view() == pod_labels_of(workload.deep_view()),
{
    let none: Vec<KV> = Vec::new();
    assert(none.deep_view() =~= seq![]);
    match pod_template(workload) {
        Some(template) => match &template.labels {
            Some(labels) => labels.deep_clone(),
            None => none,
        },
        None => none,
    }
}

/// When the pods of a workload were last told to restart.
pub open spec fn restarted_at(workload: WorkloadObjectView) -> Option<Seq<char>> {
    match template_of(workload) {
        Some(template) => match template.annotations {
            Some(annotations) => pairs::value_of(annotations, "kubectl.kubernetes.io/restartedAt"@),
            None => None,
        },
        None => None,
    }
}

/// When the pods of a workload were last told to restart, as it is shown.
pub fn observed_restart(workload: &WorkloadObject) -> (r: Json)
    ensures
        r.node() == json::one_member("restartedAt"@, json::opt_text_node(restarted_at(workload.deep_view()))),
{
    let at = match pod_template(workload) {
        Some(template) => match &template.annotations {
            Some(annotations) => pair_value(annotations, "kubectl.kubernetes.io/restartedAt"),
            None => None,
        },
        None => None,
    };
    json_one("restartedAt", json_opt_text(at))
}

/// The patch that restarts the pods of a workload.
pub open spec fn restart_patch(restart_at: Seq<char>) -> JsonView {
    json::one_member(
        "spec"@,
        json::one_member(
            "template"@,
            json::one_member(
                "metadata"@,
                json::one_member(
                    "annotations"@,
                    json::one_member("kubectl.kubernetes.io/restartedAt"@, JsonView::Text(restart_at)),
                ),
            ),
        ),
    )
}

/// The patch that restarts the pods of a workload.
pub fn rollout_restart_patch(restart_at: &str) -> (r: Json)
    ensures
        r.node() == restart_patch(restart_at@),
{
    json_one(
        "spec",
        json_one(
            "template",
            json_one(
                "metadata",
                json_one("annotations", json_one("kubectl.kubernetes.io/restartedAt", json_text(restart_at))),
            ),
        ),
    )
}

// ------------------------------------------------------------- what it is for

/// The patch of a change names the container, and of each side just what is asked for: an amount
/// that is named is in it as it is written, one that is not is not, and a side without amounts is
/// cleared.
pub proof fn lemma_patch_says_what_is_asked(spec: WorkloadResourcesSpecView)
    ensures
        resources_patch(spec) is Some <==> spec.requests is Some || spec.limits is Some,
        resources_patch(spec) matches Some(patch) ==> exists|resources: JsonView|
            patch == JsonView::Object(
                seq![
                    (
                        "spec"@,
                        JsonView::Object(
                            seq![
                                (
                                    "template"@,
                                    JsonView::Object(
                                        seq![
                                            (
                                                "spec"@,
                                                JsonView::Object(
                                                    seq![
                                                        (
                                                            "containers"@,
                                                            JsonView::Array(
                                                                seq![
                                                                    JsonView::Object(
                                                                        seq![
                                                                            ("name"@, JsonView::Text(spec.container)),
                                                                            ("resources"@, resources),
                                                                        ],
                                                                    ),
                                                                ],
                                                            ),
                                                        ),
                                                    ],
                                                ),
                                            ),
                                        ],
                                    ),
                                ),
                            ],
                        ),
                    ),
                ],
            ) && #[trigger] is_change(resources, spec),
{
    if let Some(patch) = resources_patch(spec) {
        let resources = changed_sides(spec.requests, spec.limits);
        let members = resources->Object_0;
        assert(forall|i: int| 0 <= i < members.len() ==> members.contains(#[trigger] members[i]));
        if let Some(side) = spec.requests {
            assert(members[0] == ("requests"@, resource_side(side)));
            lemma_side_says_what_is_asked(side);
        }
        if let Some(side) = spec.limits {
            assert(members[members.len() - 1] == ("limits"@, resource_side(side)));
            lemma_side_says_what_is_asked(side);
        }
        reveal_strlit("requests");
        reveal_strlit("limits");
        assert("requests"@.len() != "limits"@.len());
        assert(is_change(resources, spec));
    }
}

/// What is patched of the resources of a container.
pub open spec fn is_change(resources: JsonView, spec: WorkloadResourcesSpecView) -> bool {
    resources matches JsonView::Object(members) && {
        &&& spec.requests matches Some(side) ==> exists|v: JsonView| members.contains(("requests"@, v)) && #[trigger] is_side(
            v,
            side,
        )
        &&& spec.limits matches Some(side) ==> exists|v: JsonView| members.contains(("limits"@, v)) && #[trigger] is_side(
            v,
            side,
        )
        &&& spec.requests is None ==> forall|v: JsonView| !members.contains(("requests"@, v))
        &&& spec.limits is None ==> forall|v: JsonView| !members.contains(("limits"@, v))
    }
}

/// What is patched of one side.
pub open spec fn is_side(shown: JsonView, side: ResourceMapView) -> bool {
    if side.cpu is None && side.memory is None {
        shown == JsonView::Null
    } else {
        shown matches JsonView::Object(members) && {
            &&& side.cpu matches Some(cpu) ==> members.contains(("cpu"@, JsonView::Text(cpu)))
            &&& side.memory matches Some(memory) ==> members.contains(("memory"@, JsonView::Text(memory)))
            &&& members.len() == (if side.cpu is Some && side.memory is Some {
                2int
            } else {
                1int
            })
        }
    }
}

proof fn lemma_side_says_what_is_asked(side: ResourceMapView)
    ensures
        is_side(resource_side(side), side),
{
    if side.cpu is Some || side.memory is Some {
        let members = resource_side(side)->Object_0;
        assert(members.contains(members[0]));
        assert(members.contains(members[members.len() - 1]));
    }
}

/// The containers of the pods that a workload makes, where it has some.
pub open spec fn makes_containers(workload: WorkloadObjectView, containers: Seq<ContainerView>) -> bool {
    match workload {
        WorkloadObjectView::Deployment(w) => w.spec is Some && w.spec->0.template.containers == Some(containers),
        WorkloadObjectView::StatefulSet(w) => w.spec is Some && w.spec->0.template.containers == Some(containers),
        WorkloadObjectView::DaemonSet(w) => w.spec is Some && w.spec->0.template.containers == Some(containers),
    }
}

/// What is observed of a container is what the first container of that name in the workload's
/// template asks for, each amount as it is written; without such a container there is an error that
/// names it.
pub proof fn lemma_container_is_observed(
    workload: WorkloadObjectView,
    containers: Seq<ContainerView>,
    container: Seq<char>,
)
    ensures
        makes_containers(workload, containers) ==> {
            let found = exists|i: int| 0 <= i < containers.len() && (#[trigger] containers[i]).name == container;
            let seen = observed_resources(workload, container);
            &&& seen is Ok <==> found
            &&& found ==> exists|i: int|
                0 <= i < containers.len() && (#[trigger] containers[i]).name == container && shows_requirements(
                    seen->Ok_0,
                    containers[i].resources,
                ) && forall|j: int| 0 <= j < i ==> (#[trigger] containers[j]).name != container
        },
        observed_resources(workload, container) is Ok ==> exists|some: Seq<ContainerView>|
            #[trigger] makes_containers(workload, some),
        observed_resources(workload, container) matches Err(message) ==> text::contains_text(message, container),
{
    let seen = observed_resources(workload, container);
    if let Some(some) = containers_of(workload) {
        assert(makes_containers(workload, some));
    }
    if makes_containers(workload, containers) {
        let named = |c: ContainerView| c.name == container;
        views::lemma_first_that_is_there(containers, named);
        if let Some(c) = container_named(containers, container) {
            let i = choose|i: int|
                0 <= i < containers.len() && (#[trigger] containers[i]) == c && named(containers[i]) && forall|j: int|
                    0 <= j < i ==> !named(#[trigger] containers[j]);
            lemma_requirements_are_shown(c.resources);
            assert(containers[i].name == container);
            assert forall|j: int| 0 <= j < i implies (#[trigger] containers[j]).name != container by {
                assert(!named(containers[j]));
            }
        }
        if exists|i: int| 0 <= i < containers.len() && (#[trigger] containers[i]).name == container {
            let i = choose|i: int| 0 <= i < containers.len() && (#[trigger] containers[i]).name == container;
            assert(named(containers[i]));
        }
    }
    if let Err(message) = seen {
        let at = message.len() - container.len();
        assert(message.subrange(at, at + container.len()) =~= container);
        assert(text::occurs_at(message, container, at));
    }
}

/// A value shows the amounts of a container: each side that it has, with each amount.
pub open spec fn shows_requirements(shown: JsonView, resources: Option<ResourceRequirementsView>) -> bool {
    shown matches JsonView::Object(members) && match resources {
        None => members.len() == 0,
        Some(r) => {
            &&& r.requests matches Some(amounts) ==> members.len() > 0 && members[0].0 == "requests"@ && shows_amounts(
                members[0].1,
                amounts,
            )
            &&& r.limits matches Some(amounts) ==> members.len() > 0 && members.last().0 == "limits"@ && shows_amounts(
                members.last().1,
                amounts,
            )
            &&& r.requests is None && r.limits is None ==> members.len() == 0
        },
    }
}

/// A value shows amounts by name.
pub open spec fn shows_amounts(shown: JsonView, amounts: Seq<KVView>) -> bool {
    shown matches JsonView::Object(members) && members.len() == amounts.len() && forall|i: int|
        0 <= i < amounts.len() ==> #[trigger] members[i] == (amounts[i].key, JsonView::Text(amounts[i].value))
}

proof fn lemma_requirements_are_shown(resources: Option<ResourceRequirementsView>)
    ensures
        shows_requirements(requirements_node(resources), resources),
{
}

/// A restart is asked for by its time in the annotations of the pods that a workload makes, and read
/// back from there.
pub proof fn lemma_restart_is_an_annotation(restart_at: Seq<char>, workload: WorkloadObjectView, annotations: Seq<KVView>)
    ensures
        restart_patch(restart_at) == JsonView::Object(
            seq![
                (
                    "spec"@,
                    JsonView::Object(
                        seq![
                            (
                                "template"@,
                                JsonView::Object(
                                    seq![
                                        (
                                            "metadata"@,
                                            JsonView::Object(
                                                seq![
                                                    (
                                                        "annotations"@,
                                                        JsonView::Object(
                                                            seq![
                                                                (
                                                                    "kubectl.kubernetes.io/restartedAt"@,
                                                                    JsonView::Text(restart_at),
                                                                ),
                                                            ],
                                                        ),
                                                    ),
                                                ],
                                            ),
                                        ),
                                    ],
                                ),
                            ),
                        ],
                    ),
                ),
            ],
        ),
        (template_of(workload) matches Some(t) && t.annotations == Some(annotations)) ==> (restarted_at(workload) == Some(
            restart_at,
        ) <==> pairs::gives_value(annotations, "kubectl.kubernetes.io/restartedAt"@, restart_at)),
        (template_of(workload) matches Some(t) && t.annotations is None) ==> restarted_at(workload) is None,
{
    pairs::lemma_value_is_the_first(annotations, "kubectl.kubernetes.io/restartedAt"@, restart_at);
}

/// The labels of a workload's pods are those of its template, whatever its kind; so is the image of
/// a daemon set's container.
pub proof fn lemma_template_is_read(
    deployment: DeploymentView,
    stateful_set: StatefulSetView,
    daemon_set: DaemonSetView,
    container: Seq<char>,
)
    ensures
        deployment.spec matches Some(spec) ==> pod_labels_of(WorkloadObjectView::Deployment(deployment)) == (
        if spec.template.labels is Some {
            spec.template.labels->0
        } else {
            Seq::<KVView>::empty()
        }),
        stateful_set.spec matches Some(spec) ==> pod_labels_of(WorkloadObjectView::StatefulSet(stateful_set)) == (
        if spec.template.labels is Some {
            spec.template.labels->0
        } else {
            Seq::<KVView>::empty()
        }),
        daemon_set.spec matches Some(spec) ==> pod_labels_of(WorkloadObjectView::DaemonSet(daemon_set)) == (
        if spec.template.labels is Some {
            spec.template.labels->0
        } else {
            Seq::<KVView>::empty()
        }),
        observed_image(daemon_set, container) matches Ok(image) ==> (daemon_set.spec matches Some(spec) && (
        spec.template.containers matches Some(containers) && exists|i: int|
            0 <= i < containers.len() && (#[trigger] containers[i]).name == container && containers[i].image == Some(
                image,
            ))),
{
    if let Ok(image) = observed_image(daemon_set, container) {
        let containers = containers_of(WorkloadObjectView::DaemonSet(daemon_set))->0;
        let named = |c: ContainerView| c.name == container;
        views::lemma_first_that_is_there(containers, named);
        let c = container_named(containers, container)->0;
        let i = choose|i: int|
            0 <= i < containers.len() && (#[trigger] containers[i]) == c && named(containers[i]) && forall|j: int|
                0 <= j < i ==> !named(#[trigger] containers[j]);
        assert(containers[i].name == container);
    }
}

} // verus!
