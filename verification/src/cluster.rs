//! The cluster itself: its platform, its nodes and its namespaces.
use crate::json_value;
use crate::json_value::{JsonNode, text_at};
use crate::model::{
    ClusterInfo, ClusterInfoView, KV, KVView, NamespaceInfo, NamespaceInfoView, NodeInfo, NodeInfoView,
};
use crate::objects;
use crate::objects::{
    map_metadata_pairs, Namespace, NamespaceView, Node, NodeCondition, NodeConditionView, NodeStatusView,
    NodeView,
};
use crate::order::str_eq;
use crate::pairs;
use crate::pairs::opt_pair_value;
use crate::text;
use crate::text::{contains, owned, starts_with, strip_prefix, to_lowercase};
use crate::views;
use crate::views::{any_item, DeepClone, filter_map_items, map_items, opt_owned, opt_str};
use vstd::prelude::*;

verus! {

/// A label that only OpenShift nodes carry starts like this.
pub const OPENSHIFT_LABEL_PREFIX: &'static str = "node.openshift.io/";

/// A label that tells a role of a node starts like this.
pub const ROLE_LABEL_PREFIX: &'static str = "node-role.kubernetes.io/";

/// The managed platform that a server's version names.
pub open spec fn version_platform(version: Seq<char>) -> Option<Seq<char>> {
    let lower = text::lowercase(version);
    if text::contains_text(lower, "eks"@) {
        Some("eks"@)
    } else if text::contains_text(lower, "gke"@) {
        Some("gke"@)
    } else if text::contains_text(lower, "aks"@) {
        Some("aks"@)
    } else {
        None
    }
}

/// A node carries a label of OpenShift.
pub open spec fn is_openshift_node(node: NodeView) -> bool {
    objects::labels_of(node.metadata).any(|l: KVView| text::has_prefix(l.key, OPENSHIFT_LABEL_PREFIX@))
}

/// The platform: the managed one that the version names, or else OpenShift where a node carries
/// its label, or else none in particular.
pub open spec fn platform_of(version: Option<Seq<char>>, nodes: Seq<NodeView>) -> Seq<char> {
    match version {
        Some(version) if version_platform(version) is Some => version_platform(version)->0,
        _ => if nodes.any(|n: NodeView| is_openshift_node(n)) {
            "openshift"@
        } else {
            "vanilla"@
        },
    }
}

fn node_is_openshift(node: &Node) -> (r: bool)
    ensures
        r == is_openshift_node(node.deep_view()),
{
    let test = |l: &KV| -> (r: bool)
        ensures
            r == text::has_prefix(l.deep_view().key, OPENSHIFT_LABEL_PREFIX@),
        { starts_with(l.key.as_str(), OPENSHIFT_LABEL_PREFIX) };
    match &node.metadata.labels {
        Some(labels) => any_item(
            labels,
            test,
            Ghost(|l: KVView| text::has_prefix(l.key, OPENSHIFT_LABEL_PREFIX@)),
        ),
        None => false,
    }
}

/// The platform of a cluster, by the server's version and by the nodes.
pub fn detect_platform(version: Option<&str>, nodes: &Vec<Node>) -> (r: Option<String>)
    ensures
        r.deep_view() == Some(platform_of(version.deep_view(), nodes.deep_view())),
{
    if let Some(version) = version {
        let lower = to_lowercase(version);
        if contains(lower.as_str(), "eks") {
            return Some(owned("eks"));
        }
        if contains(lower.as_str(), "gke") {
            return Some(owned("gke"));
        }
        if contains(lower.as_str(), "aks") {
            return Some(owned("aks"));
        }
    }
    let test = |n: &Node| -> (r: bool)
        ensures
            r == is_openshift_node(n.deep_view()),
        { node_is_openshift(n) };
    if any_item(nodes, test, Ghost(|n: NodeView| is_openshift_node(n))) {
        Some(owned("openshift"))
    } else {
        Some(owned("vanilla"))
    }
}

/// The version of OpenShift that a cluster-version object holds: the desired one, or else the
/// last one of its history.
pub open spec fn openshift_version_in(contents: Map<Seq<char>, JsonNode>) -> Option<Seq<char>> {
    match json_value::text_in(contents, "/status/desired/version"@) {
        Some(version) => Some(version),
        None => json_value::text_in(contents, "/status/history/0/version"@),
    }
}

/// The version of OpenShift that a cluster-version object holds.
pub fn extract_openshift_version(value: &serde_json::Value) -> (r: Option<String>)
    ensures
        r.deep_view() == openshift_version_in(json_value::json_contents(*value)),
{
    match text_at(value, "/status/desired/version") {
        Some(version) => Some(owned(version)),
        None => opt_owned(text_at(value, "/status/history/0/version")),
    }
}

/// The first version of OpenShift that one of the objects, from one on, holds.
pub open spec fn first_openshift_version(
    objects: Seq<Map<Seq<char>, JsonNode>>,
    from: int,
) -> Option<Seq<char>>
    decreases objects.len() - from,
{
    if from < 0 || from >= objects.len() {
        None
    } else if openshift_version_in(objects[from]) is Some {
        openshift_version_in(objects[from])
    } else {
        first_openshift_version(objects, from + 1)
    }
}

/// What the documents of a list hold.
pub open spec fn contents_of(values: Seq<serde_json::Value>) -> Seq<Map<Seq<char>, JsonNode>> {
    values.map_values(|v: serde_json::Value| json_value::json_contents(v))
}

/// The first version of OpenShift that one of the cluster-version objects holds.
pub fn find_openshift_version(objects: &Vec<serde_json::Value>) -> (r: Option<String>)
    ensures
        r.deep_view() == first_openshift_version(contents_of(objects@), 0),
{
    let ghost all = contents_of(objects@);
    let mut i: usize = 0;
    while i < objects.len()
        invariant
            i <= objects.len(),
            all == contents_of(objects@),
            first_openshift_version(all, 0) == first_openshift_version(all, i as int),
        decreases objects.len() - i,
    {
        assert(all[i as int] == json_value::json_contents(objects@[i as int]));
        let version = extract_openshift_version(&objects[i]);
        if version.is_some() {
            return version;
        }
        i += 1;
    }
    None
}

// --------------------------------------------------------------------- nodes

/// A condition says that the node is ready.
pub open spec fn says_ready(condition: NodeConditionView) -> bool {
    condition.type_ == "Ready"@ && condition.status == "True"@
}

/// The role that a label tells, where it tells one.
pub open spec fn role_of(label: KVView) -> Option<Seq<char>> {
    if text::has_prefix(label.key, ROLE_LABEL_PREFIX@) {
        Some(text::after_prefix(label.key, ROLE_LABEL_PREFIX@))
    } else {
        None
    }
}

/// What a snapshot shows of a node.
pub open spec fn node_info(node: NodeView) -> NodeInfoView {
    let info = match node.status {
        Some(status) => status.node_info,
        None => None,
    };
    let capacity = match node.status {
        Some(status) => status.capacity,
        None => None,
    };
    let allocatable = match node.status {
        Some(status) => status.allocatable,
        None => None,
    };
    let conditions = match node.status {
        Some(status) => status.conditions,
        None => None,
    };
    NodeInfoView {
        name: views::text_or(node.metadata.name, ""@),
        kubelet_version: match info {
            Some(i) => Some(i.kubelet_version),
            None => None,
        },
        os_image: match info {
            Some(i) => Some(i.os_image),
            None => None,
        },
        container_runtime: match info {
            Some(i) => Some(i.container_runtime_version),
            None => None,
        },
        architecture: match info {
            Some(i) => Some(i.architecture),
            None => None,
        },
        capacity_cpu: pairs::opt_value_of(capacity, "cpu"@),
        capacity_memory: pairs::opt_value_of(capacity, "memory"@),
        allocatable_cpu: pairs::opt_value_of(allocatable, "cpu"@),
        allocatable_memory: pairs::opt_value_of(allocatable, "memory"@),
        ready: views::list_or_none(conditions).any(|c: NodeConditionView| says_ready(c)),
        roles: objects::labels_of(node.metadata).filter_map(|l: KVView| role_of(l)),
    }
}

fn node_is_ready(conditions: &Option<Vec<NodeCondition>>) -> (r: bool)
    ensures
        r == views::list_or_none(conditions.deep_view()).any(|c: NodeConditionView| says_ready(c)),
{
    let test = |c: &NodeCondition| -> (r: bool)
        ensures
            r == says_ready(c.deep_view()),
        { str_eq(c.type_.as_str(), "Ready") && str_eq(c.status.as_str(), "True") };
    match conditions {
        Some(conditions) => any_item(conditions, test, Ghost(|c: NodeConditionView| says_ready(c))),
        None => false,
    }
}

fn node_roles(labels: &Option<Vec<KV>>) -> (r: Vec<String>)
    ensures
        r.deep_view() == views::list_or_none(labels.deep_view()).filter_map(|l: KVView| role_of(l)),
{
    let role = |l: &KV| -> (r: Option<String>)
        ensures
            r.deep_view() == role_of(l.deep_view()),
        { opt_owned(strip_prefix(l.key.as_str(), ROLE_LABEL_PREFIX)) };
    let none: Vec<KV> = Vec::new();
    assert(none.deep_view() =~= seq![]);
    let labels = match labels {
        Some(labels) => labels,
        None => &none,
    };
    filter_map_items(labels, role, Ghost(|l: KVView| role_of(l)))
}

/// What a snapshot shows of a node.
pub fn map_node(node: &Node) -> (r: NodeInfo)
    ensures
        r.deep_view() == node_info(node.deep_view()),
{
    let name = owned(opt_str(&node.metadata.name, ""));
    let roles = node_roles(&node.metadata.labels);
    match &node.status {
        None => NodeInfo {
            name,
            kubelet_version: None,
            os_image: None,
            container_runtime: None,
            architecture: None,
            capacity_cpu: None,
            capacity_memory: None,
            allocatable_cpu: None,
            allocatable_memory: None,
            ready: false,
            roles,
        },
        Some(status) => {
            let (kubelet_version, os_image, container_runtime, architecture) = match &status.node_info {
                Some(info) => (
                    Some(info.kubelet_version.clone()),
                    Some(info.os_image.clone()),
                    Some(info.container_runtime_version.clone()),
                    Some(info.architecture.clone()),
                ),
                None => (None, None, None, None),
            };
            NodeInfo {
                name,
                kubelet_version,
                os_image,
                container_runtime,
                architecture,
                capacity_cpu: opt_pair_value(&status.capacity, "cpu"),
                capacity_memory: opt_pair_value(&status.capacity, "memory"),
                allocatable_cpu: opt_pair_value(&status.allocatable, "cpu"),
                allocatable_memory: opt_pair_value(&status.allocatable, "memory"),
                ready: node_is_ready(&status.conditions),
                roles,
            }
        },
    }
}

/// What a snapshot shows of the cluster; the version of OpenShift is asked for apart.
pub open spec fn cluster_info(version: Option<Seq<char>>, nodes: Seq<NodeView>) -> ClusterInfoView {
    ClusterInfoView {
        kubernetes_version: version,
        platform: Some(platform_of(version, nodes)),
        openshift_version: None,
        node_count: nodes.len() as usize,
        nodes: nodes.map_values(|n: NodeView| node_info(n)),
    }
}

/// What a snapshot shows of the cluster; the version of OpenShift is asked for apart.
pub fn build_cluster_info(version: Option<&str>, nodes: &Vec<Node>) -> (r: ClusterInfo)
    ensures
        r.deep_view() == cluster_info(version.deep_view(), nodes.deep_view()),
{
    let image = |n: &Node| -> (r: NodeInfo)
        ensures
            r.deep_view() == node_info(n.deep_view()),
        { map_node(n) };
    let infos = map_items(nodes, image, Ghost(|n: NodeView| node_info(n)));
    ClusterInfo {
        kubernetes_version: opt_owned(version),
        platform: detect_platform(version, nodes),
        openshift_version: None,
        node_count: nodes.len(),
        nodes: infos,
    }
}

/// The version of OpenShift is to be asked for: the cluster is one.
pub fn wants_openshift_version(cluster: &ClusterInfo) -> (r: bool)
    ensures
        r == (cluster.deep_view().platform == Some("openshift"@)),
{
    match &cluster.platform {
        Some(platform) => str_eq(platform.as_str(), "openshift"),
        None => false,
    }
}

// ---------------------------------------------------------------- namespaces

/// What a snapshot shows of a namespace.
pub open spec fn namespace_info(namespace: NamespaceView) -> NamespaceInfoView {
    NamespaceInfoView {
        name: views::text_or(namespace.metadata.name, ""@),
        phase: namespace.phase,
        labels: objects::labels_of(namespace.metadata),
    }
}

/// What a snapshot shows of a namespace.
pub fn map_namespace(namespace: &Namespace) -> (r: NamespaceInfo)
    ensures
        r.deep_view() == namespace_info(namespace.deep_view()),
{
    NamespaceInfo {
        name: owned(opt_str(&namespace.metadata.name, "")),
        phase: namespace.phase.deep_clone(),
        labels: map_metadata_pairs(&namespace.metadata.labels),
    }
}

// ------------------------------------------------------------- what it is for

/// The platform is told by the version where it names one; else by the label of an OpenShift node.
pub proof fn lemma_platform_is_told(version: Option<Seq<char>>, nodes: Seq<NodeView>)
    ensures
        ({
            let platform = platform_of(version, nodes);
            let names = |what: Seq<char>| version is Some && text::contains_text(text::lowercase(version->0), what);
            let openshift = exists|i: int, j: int|
                #![trigger nodes[i].metadata.labels->0[j]]
                0 <= i < nodes.len() && nodes[i].metadata.labels is Some && 0 <= j < nodes[i].metadata.labels->0.len()
                    && text::has_prefix(nodes[i].metadata.labels->0[j].key, "node.openshift.io/"@);
            &&& names("eks"@) ==> platform == "eks"@
            &&& !names("eks"@) && names("gke"@) ==> platform == "gke"@
            &&& !names("eks"@) && !names("gke"@) && names("aks"@) ==> platform == "aks"@
            &&& !names("eks"@) && !names("gke"@) && !names("aks"@) ==> platform == (if openshift {
                "openshift"@
            } else {
                "vanilla"@
            })
        }),
{
    let is_one = |n: NodeView| is_openshift_node(n);
    let marks = |l: KVView| text::has_prefix(l.key, OPENSHIFT_LABEL_PREFIX@);
    if nodes.any(is_one) {
        let i = choose|i: int| 0 <= i < nodes.len() && is_one(nodes[i]);
        let labels = objects::labels_of(nodes[i].metadata);
        assert(labels.any(marks));
        let j = choose|j: int| 0 <= j < labels.len() && marks(labels[j]);
        assert(nodes[i].metadata.labels->0[j] == labels[j]);
    }
    if exists|i: int, j: int|
        #![trigger nodes[i].metadata.labels->0[j]]
        0 <= i < nodes.len() && nodes[i].metadata.labels is Some && 0 <= j < nodes[i].metadata.labels->0.len()
            && text::has_prefix(nodes[i].metadata.labels->0[j].key, "node.openshift.io/"@) {
        let (i, j) = choose|i: int, j: int|
            #![trigger nodes[i].metadata.labels->0[j]]
            0 <= i < nodes.len() && nodes[i].metadata.labels is Some && 0 <= j < nodes[i].metadata.labels->0.len()
                && text::has_prefix(nodes[i].metadata.labels->0[j].key, "node.openshift.io/"@);
        assert(marks(objects::labels_of(nodes[i].metadata)[j]));
        assert(is_one(nodes[i]));
    }
}

/// A node is ready where a condition says so, and only there.
pub proof fn lemma_ready_where_a_condition_says_so(node: NodeView, status: NodeStatusView, conditions: Seq<NodeConditionView>)
    requires
        node.status == Some(status),
        status.conditions == Some(conditions),
    ensures
        node_info(node).ready <==> exists|i: int|
            0 <= i < conditions.len() && (#[trigger] conditions[i]).type_ == "Ready"@ && conditions[i].status == "True"@,
{
    let ready = |c: NodeConditionView| says_ready(c);
    if conditions.any(ready) {
        let i = choose|i: int| 0 <= i < conditions.len() && ready(conditions[i]);
        assert(conditions[i].type_ == "Ready"@);
    }
    if exists|i: int|
        0 <= i < conditions.len() && (#[trigger] conditions[i]).type_ == "Ready"@ && conditions[i].status == "True"@ {
        let i = choose|i: int|
            0 <= i < conditions.len() && (#[trigger] conditions[i]).type_ == "Ready"@ && conditions[i].status == "True"@;
        assert(ready(conditions[i]));
    }
}

/// A node has the roles that its labels name, and no others.
pub proof fn lemma_roles_by_label(node: NodeView, labels: Seq<KVView>, role: Seq<char>)
    requires
        node.metadata.labels == Some(labels),
    ensures
        node_info(node).roles.contains(role) <==> exists|i: int|
            0 <= i < labels.len() && (#[trigger] labels[i]).key == "node-role.kubernetes.io/"@ + role,
{
    let f = |l: KVView| role_of(l);
    let start = "node-role.kubernetes.io/"@;
    let roles = labels.filter_map(f);
    if roles.contains(role) {
        labels.lemma_filter_map_contains(f, role);
        let l = choose|l: KVView| #[trigger] labels.contains(l) && f(l) == Some(role);
        let i = choose|i: int| 0 <= i < labels.len() && labels[i] == l;
        assert(labels[i].key =~= start + role);
    }
    if exists|i: int| 0 <= i < labels.len() && (#[trigger] labels[i]).key == start + role {
        let i = choose|i: int| 0 <= i < labels.len() && (#[trigger] labels[i]).key == start + role;
        let key = labels[i].key;
        assert(key.subrange(0, start.len() as int) =~= start);
        assert(key.subrange(start.len() as int, key.len() as int) =~= role);
        views::lemma_filter_map_has(labels, f, i);
    }
}

/// What is shown of a node is its own: its name, what its status says of it, and its amounts, each
/// from its own list.
pub proof fn lemma_node_is_shown(
    node: NodeView,
    status: NodeStatusView,
    capacity: Seq<KVView>,
    allocatable: Seq<KVView>,
    amount: Seq<char>,
)
    requires
        node.status == Some(status),
        status.capacity == Some(capacity),
        status.allocatable == Some(allocatable),
    ensures
        ({
            let shown = node_info(node);
            &&& node.metadata.name matches Some(n) ==> shown.name == n
            &&& status.node_info matches Some(info) ==> shown.kubelet_version == Some(info.kubelet_version)
                && shown.os_image == Some(info.os_image) && shown.container_runtime == Some(
                info.container_runtime_version,
            ) && shown.architecture == Some(info.architecture)
            &&& shown.capacity_cpu == Some(amount) <==> pairs::gives_value(capacity, "cpu"@, amount)
            &&& shown.capacity_memory == Some(amount) <==> pairs::gives_value(capacity, "memory"@, amount)
            &&& shown.allocatable_cpu == Some(amount) <==> pairs::gives_value(allocatable, "cpu"@, amount)
            &&& shown.allocatable_memory == Some(amount) <==> pairs::gives_value(allocatable, "memory"@, amount)
        }),
{
    pairs::lemma_value_is_the_first(capacity, "cpu"@, amount);
    pairs::lemma_value_is_the_first(capacity, "memory"@, amount);
    pairs::lemma_value_is_the_first(allocatable, "cpu"@, amount);
    pairs::lemma_value_is_the_first(allocatable, "memory"@, amount);
}

/// The cluster shows every node, and counts them; a namespace shows its own labels.
pub proof fn lemma_cluster_shows_every_node(version: Option<Seq<char>>, nodes: Seq<NodeView>, namespace: NamespaceView, i: int)
    ensures
        cluster_info(version, nodes).kubernetes_version == version,
        nodes.len() <= usize::MAX ==> cluster_info(version, nodes).node_count == nodes.len(),
        cluster_info(version, nodes).nodes.len() == nodes.len(),
        0 <= i < nodes.len() && nodes[i].metadata.name is Some ==> cluster_info(version, nodes).nodes[i].name
            == nodes[i].metadata.name->0,
        namespace.metadata.name matches Some(n) ==> namespace_info(namespace).name == n,
        namespace_info(namespace).phase == namespace.phase,
        namespace.metadata.labels matches Some(l) ==> namespace_info(namespace).labels == l,
{
}

/// The version of OpenShift is the first that is told, the one that is wanted before the one that
/// was.
pub proof fn lemma_first_version_counts(objects: Seq<Map<Seq<char>, JsonNode>>, from: int, k: int)
    requires
        0 <= from <= k < objects.len(),
        forall|j: int|
            from <= j < k ==> json_value::text_in(#[trigger] objects[j], "/status/desired/version"@) is None && json_value::text_in(
                objects[j],
                "/status/history/0/version"@,
            ) is None,
    ensures
        json_value::text_in(objects[k], "/status/desired/version"@) is Some ==> first_openshift_version(objects, from) == json_value::text_in(
            objects[k],
            "/status/desired/version"@,
        ),
        json_value::text_in(objects[k], "/status/desired/version"@) is None && json_value::text_in(objects[k], "/status/history/0/version"@) is Some
            ==> first_openshift_version(objects, from) == json_value::text_in(objects[k], "/status/history/0/version"@),
    decreases k - from,
{
    if from < k {
        assert(openshift_version_in(objects[from]) is None);
        lemma_first_version_counts(objects, from + 1, k);
    }
}

} // verus!
