//! Pods: their containers, their age, and the resources that they use.
use crate::cluster;
use crate::json_value;
use crate::json_value::{array_len_at, JsonNode, text_at};
use crate::model::{
    ContainerInfo, ContainerInfoView, KV, KVView, PodInfo, PodInfoView, ResourceSpec, ResourceSpecView,
    Technology, TechnologyView,
};
use crate::objects::{
    Container, ContainerView, ObjectMetaView, OwnerReferenceView, Pod, PodView, ResourceRequirements,
    ResourceRequirementsView,
};
use crate::order::str_eq;
use crate::pairs;
use crate::pairs::opt_pair_value;
use crate::quantity;
use crate::quantity::{format_cpu_quantity, format_memory_quantity, parse_cpu_quantity, parse_memory_quantity};
use crate::tech;
use crate::tech::{
    detect, detect_application_stack_from_image, detect_from_labels, detect_from_process,
    refine_spring_boot,
};
use crate::text;
use crate::text::{decimal, owned, text3};
use crate::views;
use crate::views::{DeepClone, map_items, opt_list, opt_owned, opt_str};
use vstd::prelude::*;

verus! {

/// What the containers of a pod use together.
#[derive(Clone, Debug, PartialEq, Eq)]
pub struct PodUsage {
    pub namespace: String,
    pub name: String,
    pub cpu_nano: i128,
    pub memory_bytes: i128,
}

/// The view of [`PodUsage`].
pub struct PodUsageView {
    pub namespace: Seq<char>,
    pub name: Seq<char>,
    pub cpu_nano: i128,
    pub memory_bytes: i128,
}

impl DeepView for PodUsage {
    type V = PodUsageView;

    open spec fn deep_view(&self) -> PodUsageView {
        PodUsageView {
            namespace: self.namespace.deep_view(),
            name: self.name.deep_view(),
            cpu_nano: self.cpu_nano.deep_view(),
            memory_bytes: self.memory_bytes.deep_view(),
        }
    }
}

impl DeepClone for PodUsage {
    fn deep_clone(&self) -> (copy: Self) {
        PodUsage {
            namespace: self.namespace.deep_clone(),
            name: self.name.deep_clone(),
            cpu_nano: self.cpu_nano.deep_clone(),
            memory_bytes: self.memory_bytes.deep_clone(),
        }
    }
}

// ------------------------------------------------------------------ resources

/// What a snapshot shows of a container's resources.
pub open spec fn resource_spec(resources: Option<ResourceRequirementsView>) -> ResourceSpecView {
    match resources {
        Some(r) => ResourceSpecView {
            requests_cpu: pairs::opt_value_of(r.requests, "cpu"@),
            requests_memory: pairs::opt_value_of(r.requests, "memory"@),
            limits_cpu: pairs::opt_value_of(r.limits, "cpu"@),
            limits_memory: pairs::opt_value_of(r.limits, "memory"@),
        },
        None => ResourceSpecView { requests_cpu: None, requests_memory: None, limits_cpu: None, limits_memory: None },
    }
}

/// What a snapshot shows of a container's resources.
pub fn map_resources(resources: &Option<ResourceRequirements>) -> (r: ResourceSpec)
    ensures
        r.deep_view() == resource_spec(resources.deep_view()),
{
    match resources {
        Some(r) => ResourceSpec {
            requests_cpu: opt_pair_value(&r.requests, "cpu"),
            requests_memory: opt_pair_value(&r.requests, "memory"),
            limits_cpu: opt_pair_value(&r.limits, "cpu"),
            limits_memory: opt_pair_value(&r.limits, "memory"),
        },
        None => ResourceSpec { requests_cpu: None, requests_memory: None, limits_cpu: None, limits_memory: None },
    }
}

// ------------------------------------------------------------------------ age

/// How long ago a pod was made, in seconds; 0 for one that lies ahead.
pub open spec fn age_of(created_at: Option<i64>, now_secs: i64) -> Option<u64> {
    match created_at {
        Some(created) => if now_secs <= created {
            Some(0)
        } else {
            Some((now_secs - created) as u64)
        },
        None => None,
    }
}

/// How long ago a pod was made, in seconds; 0 for one that lies ahead.
pub fn pod_age_seconds(created_at: Option<i64>, now_secs: i64) -> (r: Option<u64>)
    ensures
        r == age_of(created_at, now_secs),
{
    match created_at {
        Some(created) => if now_secs <= created {
            Some(0)
        } else {
            Some((now_secs as i128 - created as i128) as u64)
        },
        None => None,
    }
}

// ----------------------------------------------------------------- technology

/// The stack that an image's name tells goes before any other.
pub open spec fn tagged_by_image(technology: TechnologyView, image: Seq<char>) -> TechnologyView {
    match tech::image_stack(image) {
        Some(stack) => TechnologyView { subtype: stack.subtype, source: stack.source, ..technology },
        None => technology,
    }
}

/// The stack that an image's name tells goes before any other.
pub fn refine_with_application_stack_image(technology: Technology, image: &str) -> (r: Technology)
    ensures
        r.deep_view() == tagged_by_image(technology.deep_view(), image@),
{
    match detect_application_stack_from_image(image) {
        Some(stack) => Technology { subtype: stack.subtype, source: stack.source, ..technology },
        None => technology,
    }
}

/// The technology of a container: what the pod's labels or annotations name; or else what the
/// command line shows, where it is looked at; or else what the image is. The stack is the one that
/// the image's name tells, where it tells one.
pub open spec fn technology_of_container(
    container: ContainerView,
    labels: Seq<(Seq<char>, Seq<char>)>,
    annotations: Seq<(Seq<char>, Seq<char>)>,
    by_process: bool,
) -> TechnologyView {
    let image = views::text_or(container.image, ""@);
    let command = views::list_or_none(container.command);
    let args = views::list_or_none(container.args);
    match tech::labelled_technology(labels, annotations) {
        Some(technology) => technology,
        None => if !by_process {
            tagged_by_image(tech::image_technology(image), image)
        } else {
            let detected = match tech::process_technology(command, args) {
                Some(technology) => technology,
                None => tech::image_technology(image),
            };
            tagged_by_image(tech::spring_refined(detected, command, args), image)
        },
    }
}

/// The technology of a container.
pub fn container_technology(
    container: &Container,
    pod_labels: &Vec<(&str, &str)>,
    pod_annotations: &Vec<(&str, &str)>,
    tech_detect_process: bool,
) -> (r: Technology)
    ensures
        r.deep_view() == technology_of_container(
            container.deep_view(),
            pod_labels.deep_view(),
            pod_annotations.deep_view(),
            tech_detect_process,
        ),
{
    let image = opt_str(&container.image, "");
    if let Some(technology) = detect_from_labels(pod_labels, pod_annotations) {
        return technology;
    }
    if !tech_detect_process {
        return refine_with_application_stack_image(detect(image), image);
    }
    let command = opt_list(&container.command);
    let args = opt_list(&container.args);
    let detected = match detect_from_process(&command, &args) {
        Some(technology) => technology,
        None => detect(image),
    };
    let refined = refine_spring_boot(detected, &command, &args);
    refine_with_application_stack_image(refined, image)
}

/// The pairs of an optional list.
pub open spec fn pairs_in(list: Option<Seq<KVView>>) -> Seq<(Seq<char>, Seq<char>)> {
    views::list_or_none(list).map_values(|p: KVView| (p.key, p.value))
}

fn pairs_of<'a>(list: &'a Option<Vec<KV>>) -> (r: Vec<(&'a str, &'a str)>)
    ensures
        r.deep_view() == pairs_in(list.deep_view()),
{
    let mut r: Vec<(&'a str, &'a str)> = Vec::new();
    match list {
        Some(pairs) => {
            let mut i: usize = 0;
            while i < pairs.len()
                invariant
                    i <= pairs.len(),
                    r.len() == i,
                    forall|j: int|
                        0 <= j < i ==> (#[trigger] r@[j]).deep_view() == (pairs@[j].deep_view().key, pairs@[j].deep_view().value),
                decreases pairs.len() - i,
            {
                r.push((pairs[i].key.as_str(), pairs[i].value.as_str()));
                i += 1;
            }
        },
        None => {},
    }
    assert(r.deep_view() =~= pairs_in(list.deep_view()));
    r
}

// ---------------------------------------------------------------------- usage

/// The pointer to an amount that a container of a metrics object uses.
pub open spec fn usage_pointer(i: nat, what: Seq<char>) -> Seq<char> {
    "/containers/"@ + text::decimal_of(i) + what
}

/// The CPU that a container of a metrics object uses, in nano-cores.
pub open spec fn cpu_used(contents: Map<Seq<char>, JsonNode>, i: nat) -> Option<int> {
    match json_value::text_in(contents, usage_pointer(i, "/usage/cpu"@)) {
        Some(amount) => quantity::cpu_quantity(amount),
        None => None,
    }
}

/// The memory that a container of a metrics object uses, in bytes.
pub open spec fn memory_used(contents: Map<Seq<char>, JsonNode>, i: nat) -> Option<int> {
    match json_value::text_in(contents, usage_pointer(i, "/usage/memory"@)) {
        Some(amount) => quantity::memory_quantity(amount),
        None => None,
    }
}

/// What the first containers of a metrics object use together: CPU and memory. Nothing where one
/// of them lacks an amount, or where a sum is out of range.
pub open spec fn used_by_first(contents: Map<Seq<char>, JsonNode>, n: nat) -> Option<(int, int)>
    decreases n,
{
    if n == 0 {
        Some((0, 0))
    } else {
        let i = (n - 1) as nat;
        match (used_by_first(contents, i), cpu_used(contents, i), memory_used(contents, i)) {
            (Some(sum), Some(cpu), Some(memory)) => if quantity::fits(sum.0 + cpu) && quantity::fits(sum.1 + memory) {
                Some((sum.0 + cpu, sum.1 + memory))
            } else {
                None
            },
            _ => None,
        }
    }
}

/// What a metrics object tells of its pod; nothing where it lacks something.
pub open spec fn pod_usage_in(contents: Map<Seq<char>, JsonNode>) -> Option<PodUsageView> {
    match (
        json_value::text_in(contents, "/metadata/namespace"@),
        json_value::text_in(contents, "/metadata/name"@),
        json_value::array_len_in(contents, "/containers"@),
    ) {
        (Some(namespace), Some(name), Some(n)) => match used_by_first(contents, n) {
            Some(sum) => Some(
                PodUsageView { namespace, name, cpu_nano: sum.0 as i128, memory_bytes: sum.1 as i128 },
            ),
            None => None,
        },
        _ => None,
    }
}

proof fn lemma_used_by_first_none(contents: Map<Seq<char>, JsonNode>, i: nat, n: nat)
    requires
        i <= n,
        used_by_first(contents, i) is None,
    ensures
        used_by_first(contents, n) is None,
    decreases n,
{
    if i < n {
        lemma_used_by_first_none(contents, i, (n - 1) as nat);
    }
}

fn container_amount(metric: &serde_json::Value, i: usize, what: &str) -> (r: Option<String>)
    ensures
        r.deep_view() == json_value::text_in(json_value::json_contents(*metric), usage_pointer(i as nat, what@)),
{
    let index = decimal(i as u128);
    let pointer = text3("/containers/", index.as_str(), what);
    opt_owned(text_at(metric, pointer.as_str()))
}

fn container_usage(metric: &serde_json::Value, i: usize) -> (r: Option<(i128, i128)>)
    ensures
        match r {
            Some(used) => cpu_used(json_value::json_contents(*metric), i as nat) == Some(used.0 as int)
                && memory_used(json_value::json_contents(*metric), i as nat) == Some(used.1 as int),
            None => cpu_used(json_value::json_contents(*metric), i as nat) is None
                || memory_used(json_value::json_contents(*metric), i as nat) is None,
        },
{
    match (container_amount(metric, i, "/usage/cpu"), container_amount(metric, i, "/usage/memory")) {
        (Some(cpu), Some(memory)) => match (parse_cpu_quantity(cpu.as_str()), parse_memory_quantity(memory.as_str())) {
            (Some(cpu), Some(memory)) => Some((cpu, memory)),
            _ => None,
        },
        _ => None,
    }
}

/// What a metrics object tells of its pod.
pub fn map_pod_metrics(metric: &serde_json::Value) -> (r: Option<PodUsage>)
    ensures
        r.deep_view() == pod_usage_in(json_value::json_contents(*metric)),
{
    let ghost contents = json_value::json_contents(*metric);
    let namespace = match text_at(metric, "/metadata/namespace") {
        Some(namespace) => owned(namespace),
        None => return None,
    };
    let name = match text_at(metric, "/metadata/name") {
        Some(name) => owned(name),
        None => return None,
    };
    let n: usize = match array_len_at(metric, "/containers") {
        Some(n) => n,
        None => return None,
    };
    let mut cpu_nano: i128 = 0;
    let mut memory_bytes: i128 = 0;
    let mut i: usize = 0;
    while i < n
        invariant
            i <= n,
            contents == json_value::json_contents(*metric),
            json_value::text_in(contents, "/metadata/namespace"@) is Some,
            json_value::text_in(contents, "/metadata/name"@) is Some,
            json_value::array_len_in(contents, "/containers"@) == Some(n as nat),
            used_by_first(contents, i as nat) == Some((cpu_nano as int, memory_bytes as int)),
        decreases n - i,
    {
        proof {
            if used_by_first(contents, (i + 1) as nat) is None {
                lemma_used_by_first_none(contents, (i + 1) as nat, n as nat);
            }
        }
        match container_usage(metric, i) {
            Some((cpu, memory)) => match (cpu_nano.checked_add(cpu), memory_bytes.checked_add(memory)) {
                (Some(cpu_sum), Some(memory_sum)) => {
                    cpu_nano = cpu_sum;
                    memory_bytes = memory_sum;
                },
                _ => return None,
            },
            None => return None,
        }
        i += 1;
    }
    Some(PodUsage { namespace, name, cpu_nano, memory_bytes })
}

/// What the metrics objects tell of their pods.
pub open spec fn usage_index(metrics: Seq<Map<Seq<char>, JsonNode>>) -> Seq<PodUsageView> {
    metrics.filter_map(|m: Map<Seq<char>, JsonNode>| pod_usage_in(m))
}

/// What the metrics objects tell of their pods.
pub fn build_pod_usage_index(pod_metrics: &Vec<serde_json::Value>) -> (r: Vec<PodUsage>)
    ensures
        r.deep_view() == usage_index(cluster::contents_of(pod_metrics@)),
{
    let ghost all = cluster::contents_of(pod_metrics@);
    let ghost image = |m: Map<Seq<char>, JsonNode>| pod_usage_in(m);
    let mut r: Vec<PodUsage> = Vec::new();
    let mut i: usize = 0;
    assert(r.deep_view() =~= all.take(0).filter_map(image));
    while i < pod_metrics.len()
        invariant
            i <= pod_metrics.len(),
            all == cluster::contents_of(pod_metrics@),
            image == (|m: Map<Seq<char>, JsonNode>| pod_usage_in(m)),
            r.deep_view() == all.take(i as int).filter_map(image),
        decreases pod_metrics.len() - i,
    {
        let ghost before = r.deep_view();
        proof {
            all.lemma_filter_map_take_succ(image, i as int);
        }
        assert(all[i as int] == json_value::json_contents(pod_metrics@[i as int]));
        match map_pod_metrics(&pod_metrics[i]) {
            Some(usage) => {
                let ghost seen = usage.deep_view();
                r.push(usage);
                assert(r.deep_view() =~= before + seq![seen]);
            },
            None => {
                assert(before + Seq::<PodUsageView>::empty() =~= before);
            },
        }
        i += 1;
    }
    assert(all.take(all.len() as int) =~= all);
    r
}

/// What was told last of a pod.
pub open spec fn usage_of(index: Seq<PodUsageView>, namespace: Seq<char>, name: Seq<char>) -> Option<PodUsageView>
    decreases index.len(),
{
    if index.len() == 0 {
        None
    } else if index.last().namespace == namespace && index.last().name == name {
        Some(index.last())
    } else {
        usage_of(index.drop_last(), namespace, name)
    }
}

fn find_usage<'a>(index: &'a Vec<PodUsage>, namespace: &str, name: &str) -> (r: Option<&'a PodUsage>)
    ensures
        r.deep_view() == usage_of(index.deep_view(), namespace@, name@),
{
    let ghost all = index.deep_view();
    let mut i: usize = index.len();
    assert(all.take(i as int) =~= all);
    while i > 0
        invariant
            i <= index.len(),
            all == index.deep_view(),
            usage_of(all, namespace@, name@) == usage_of(all.take(i as int), namespace@, name@),
        decreases i,
    {
        i -= 1;
        assert(all.take(i + 1).drop_last() =~= all.take(i as int));
        assert(all.take(i + 1).last() == index@[i as int].deep_view());
        if str_eq(index[i].namespace.as_str(), namespace) && str_eq(index[i].name.as_str(), name) {
            return Some(&index[i]);
        }
    }
    None
}

// ----------------------------------------------------------------------- pods

/// What a snapshot shows of a container.
pub open spec fn container_info(
    container: ContainerView,
    labels: Seq<(Seq<char>, Seq<char>)>,
    annotations: Seq<(Seq<char>, Seq<char>)>,
    by_process: bool,
) -> ContainerInfoView {
    ContainerInfoView {
        name: container.name,
        image: views::text_or(container.image, ""@),
        image_pull_policy: container.image_pull_policy,
        technology: technology_of_container(container, labels, annotations, by_process),
        resources: resource_spec(container.resources),
    }
}

fn map_container(
    container: &Container,
    labels: &Vec<(&str, &str)>,
    annotations: &Vec<(&str, &str)>,
    by_process: bool,
) -> (r: ContainerInfo)
    ensures
        r.deep_view() == container_info(
            container.deep_view(),
            labels.deep_view(),
            annotations.deep_view(),
            by_process,
        ),
{
    ContainerInfo {
        name: container.name.clone(),
        image: owned(opt_str(&container.image, "")),
        image_pull_policy: container.image_pull_policy.deep_clone(),
        technology: container_technology(container, labels, annotations, by_process),
        resources: map_resources(&container.resources),
    }
}

/// The containers that a snapshot shows of a pod.
pub open spec fn container_infos(pod: PodView, by_process: bool) -> Seq<ContainerInfoView> {
    let labels = pairs_in(pod.metadata.labels);
    let annotations = pairs_in(pod.metadata.annotations);
    match pod.spec {
        Some(spec) => spec.containers.map_values(
            |c: ContainerView| container_info(c, labels, annotations, by_process),
        ),
        None => seq![],
    }
}

fn map_containers(pod: &Pod, by_process: bool) -> (r: Vec<ContainerInfo>)
    ensures
        r.deep_view() == container_infos(pod.deep_view(), by_process),
{
    let labels = pairs_of(&pod.metadata.labels);
    let annotations = pairs_of(&pod.metadata.annotations);
    let ghost label_pairs = labels.deep_view();
    let ghost annotation_pairs = annotations.deep_view();
    let image = |c: &Container| -> (r: ContainerInfo)
        ensures
            r.deep_view() == container_info(c.deep_view(), labels.deep_view(), annotations.deep_view(), by_process),
        { map_container(c, &labels, &annotations, by_process) };
    match &pod.spec {
        Some(spec) => map_items(
            &spec.containers,
            image,
            Ghost(|c: ContainerView| container_info(c, label_pairs, annotation_pairs, by_process)),
        ),
        None => {
            let none: Vec<ContainerInfo> = Vec::new();
            assert(none.deep_view() =~= seq![]);
            none
        },
    }
}

/// The first owner of an object.
pub open spec fn owner_in(meta: ObjectMetaView) -> Option<OwnerReferenceView> {
    match meta.owner_references {
        Some(owners) => if owners.len() > 0 {
            Some(owners[0])
        } else {
            None
        },
        None => None,
    }
}

/// What a snapshot shows of a pod.
pub open spec fn pod_info(pod: PodView, usage: Seq<PodUsageView>, by_process: bool, now_secs: i64) -> PodInfoView {
    let namespace = views::text_or(pod.metadata.namespace, ""@);
    let name = views::text_or(pod.metadata.name, ""@);
    let used = usage_of(usage, namespace, name);
    let owner = owner_in(pod.metadata);
    PodInfoView {
        namespace,
        name,
        age_seconds: age_of(pod.metadata.creation_timestamp, now_secs),
        node: match pod.spec {
            Some(spec) => spec.node_name,
            None => None,
        },
        phase: match pod.status {
            Some(status) => status.phase,
            None => None,
        },
        usage_cpu: match used {
            Some(used) => quantity::cpu_text(used.cpu_nano as int),
            None => None,
        },
        usage_memory: match used {
            Some(used) => quantity::memory_text(used.memory_bytes as int),
            None => None,
        },
        owner_kind: match owner {
            Some(owner) => Some(owner.kind),
            None => None,
        },
        owner_name: match owner {
            Some(owner) => Some(owner.name),
            None => None,
        },
        containers: container_infos(pod, by_process),
    }
}

/// What a snapshot shows of a pod.
pub fn map_pod(pod: &Pod, pod_usage: &Vec<PodUsage>, tech_detect_process: bool, now_secs: i64) -> (r: PodInfo)
    ensures
        r.deep_view() == pod_info(pod.deep_view(), pod_usage.deep_view(), tech_detect_process, now_secs),
{
    let namespace = opt_str(&pod.metadata.namespace, "");
    let name = opt_str(&pod.metadata.name, "");
    let (usage_cpu, usage_memory) = match find_usage(pod_usage, namespace, name) {
        Some(used) => (format_cpu_quantity(used.cpu_nano), format_memory_quantity(used.memory_bytes)),
        None => (None, None),
    };
    let (owner_kind, owner_name) = match &pod.metadata.owner_references {
        Some(owners) => if owners.len() > 0 {
            assert(owners.deep_view()[0] == owners@[0].deep_view());
            (Some(owners[0].kind.clone()), Some(owners[0].name.clone()))
        } else {
            (None, None)
        },
        None => (None, None),
    };
    let node = match &pod.spec {
        Some(spec) => spec.node_name.deep_clone(),
        None => None,
    };
    let phase = match &pod.status {
        Some(status) => status.phase.deep_clone(),
        None => None,
    };
    PodInfo {
        namespace: owned(namespace),
        name: owned(name),
        age_seconds: pod_age_seconds(pod.metadata.creation_timestamp, now_secs),
        node,
        phase,
        usage_cpu,
        usage_memory,
        owner_kind,
        owner_name,
        containers: map_containers(pod, tech_detect_process),
    }
}

// ------------------------------------------------------------- what it is for

/// A pod is as old as the seconds since it was made, and of no age where that lies ahead.
pub proof fn lemma_age_counts_from_creation(created: i64, now_secs: i64)
    ensures
        age_of(None, now_secs) is None,
        age_of(Some(created), now_secs) is Some,
        now_secs >= created ==> age_of(Some(created), now_secs)->0 + created == now_secs,
        now_secs < created ==> age_of(Some(created), now_secs) == Some(0u64),
{
}

/// A container asks for, and is limited to, what its own lists say, each amount from its own list.
pub proof fn lemma_resources_are_shown(
    resources: ResourceRequirementsView,
    requests: Seq<KVView>,
    limits: Seq<KVView>,
    amount: Seq<char>,
)
    requires
        resources.requests == Some(requests),
        resources.limits == Some(limits),
    ensures
        resource_spec(Some(resources)).requests_cpu == Some(amount) <==> pairs::gives_value(requests, "cpu"@, amount),
        resource_spec(Some(resources)).requests_memory == Some(amount) <==> pairs::gives_value(requests, "memory"@, amount),
        resource_spec(Some(resources)).limits_cpu == Some(amount) <==> pairs::gives_value(limits, "cpu"@, amount),
        resource_spec(Some(resources)).limits_memory == Some(amount) <==> pairs::gives_value(limits, "memory"@, amount),
{
    pairs::lemma_value_is_the_first(requests, "cpu"@, amount);
    pairs::lemma_value_is_the_first(requests, "memory"@, amount);
    pairs::lemma_value_is_the_first(limits, "cpu"@, amount);
    pairs::lemma_value_is_the_first(limits, "memory"@, amount);
}

/// What the containers use is the sum of what each of them uses, and each of them must tell it.
pub proof fn lemma_usage_is_the_sum(contents: Map<Seq<char>, JsonNode>, n: nat)
    ensures
        used_by_first(contents, n) matches Some(sum) ==> {
            &&& sum.0 == Seq::new(n, |i: int| cpu_used(contents, i as nat)->0).fold_left(0int, |a: int, x: int| a + x)
            &&& sum.1 == Seq::new(n, |i: int| memory_used(contents, i as nat)->0).fold_left(
                0int,
                |a: int, x: int| a + x,
            )
            &&& forall|i: nat| i < n ==> (#[trigger] cpu_used(contents, i)) is Some
            &&& forall|i: nat| i < n ==> (#[trigger] memory_used(contents, i)) is Some
        },
    decreases n,
{
    let cpus = Seq::new(n, |i: int| cpu_used(contents, i as nat)->0);
    let memories = Seq::new(n, |i: int| memory_used(contents, i as nat)->0);
    if n > 0 {
        let k = (n - 1) as nat;
        lemma_usage_is_the_sum(contents, k);
        assert(cpus.drop_last() =~= Seq::new(k, |i: int| cpu_used(contents, i as nat)->0));
        assert(memories.drop_last() =~= Seq::new(k, |i: int| memory_used(contents, i as nat)->0));
    }
}

/// Usage is of the pod that the metrics name, in its namespace; the last word on a pod counts, and a
/// pod that no metrics name uses nothing that is known.
pub proof fn lemma_usage_is_of_the_pod(index: Seq<PodUsageView>, namespace: Seq<char>, name: Seq<char>)
    ensures
        usage_of(index, namespace, name) is Some <==> exists|i: int|
            0 <= i < index.len() && (#[trigger] index[i]).namespace == namespace && index[i].name == name,
        usage_of(index, namespace, name) matches Some(used) ==> index.contains(used) && used.namespace == namespace
            && used.name == name,
        index.len() > 0 && index.last().namespace == namespace && index.last().name == name ==> usage_of(
            index,
            namespace,
            name,
        ) == Some(index.last()),
    decreases index.len(),
{
    if index.len() > 0 {
        let rest = index.drop_last();
        lemma_usage_is_of_the_pod(rest, namespace, name);
        if exists|i: int| 0 <= i < index.len() && (#[trigger] index[i]).namespace == namespace && index[i].name == name {
            let i = choose|i: int|
                0 <= i < index.len() && (#[trigger] index[i]).namespace == namespace && index[i].name == name;
            if i < rest.len() {
                assert(rest[i] == index[i]);
            }
        }
        if exists|i: int| 0 <= i < rest.len() && (#[trigger] rest[i]).namespace == namespace && rest[i].name == name {
            let i = choose|i: int|
                0 <= i < rest.len() && (#[trigger] rest[i]).namespace == namespace && rest[i].name == name;
            assert(rest[i] == index[i]);
        }
        if let Some(used) = usage_of(rest, namespace, name) {
            let i = choose|i: int| 0 <= i < rest.len() && rest[i] == used;
            assert(index[i] == used);
        }
    }
}

/// A technology that labels tell stands before any other; the process counts only where it is looked
/// at, and the image where nothing else tells.
pub proof fn lemma_labels_tell_first(
    container: ContainerView,
    other: ContainerView,
    labels: Seq<(Seq<char>, Seq<char>)>,
    annotations: Seq<(Seq<char>, Seq<char>)>,
    by_process: bool,
)
    ensures
        tech::labelled_technology(labels, annotations) matches Some(technology) ==> technology_of_container(
            container,
            labels,
            annotations,
            by_process,
        ) == technology,
        container.image == other.image ==> technology_of_container(container, labels, annotations, false)
            == technology_of_container(other, labels, annotations, false),
        tech::labelled_technology(labels, annotations) is None ==> {
            let image = if container.image is Some {
                container.image->0
            } else {
                ""@
            };
            let shown = technology_of_container(container, labels, annotations, by_process);
            let told = tech::process_technology(
                if container.command is Some {
                    container.command->0
                } else {
                    seq![]
                },
                if container.args is Some {
                    container.args->0
                } else {
                    seq![]
                },
            );
            &&& by_process && told is Some ==> shown.product == told->0.product && shown.vendor == told->0.vendor
                && shown.version == told->0.version && shown.language == told->0.language
            &&& !by_process || told is None ==> shown.product == tech::image_technology(image).product && shown.vendor
                == tech::image_technology(image).vendor && shown.version == tech::image_technology(image).version
            &&& tech::image_stack(image) is Some ==> shown.subtype == tech::image_stack(image)->0.subtype
        },
{
}

/// What is shown of a pod is its own: names, node, phase, first owner, and each of its containers
/// with its name, image and pull policy.
pub proof fn lemma_pod_is_shown(pod: PodView, usage: Seq<PodUsageView>, by_process: bool, now_secs: i64, i: int)
    ensures
        ({
            let shown = pod_info(pod, usage, by_process, now_secs);
            &&& pod.metadata.namespace matches Some(n) ==> shown.namespace == n
            &&& pod.metadata.name matches Some(n) ==> shown.name == n
            &&& pod.metadata.creation_timestamp matches Some(c) ==> c <= now_secs ==> shown.age_seconds == Some(
                (now_secs - c) as u64,
            )
            &&& pod.status matches Some(status) ==> shown.phase == status.phase
            &&& pod.status is None ==> shown.phase is None
            &&& pod.metadata.owner_references matches Some(owners) ==> owners.len() > 0 ==> shown.owner_kind == Some(
                owners[0].kind,
            ) && shown.owner_name == Some(owners[0].name)
            &&& pod.spec is None ==> shown.node is None && shown.containers.len() == 0
            &&& pod.spec matches Some(spec) ==> shown.node == spec.node_name && shown.containers.len()
                == spec.containers.len() && (0 <= i < spec.containers.len() ==> shown.containers[i].name
                == spec.containers[i].name && shown.containers[i].image_pull_policy
                == spec.containers[i].image_pull_policy && (spec.containers[i].image is Some
                ==> shown.containers[i].image == spec.containers[i].image->0))
            &&& (forall|k: int|
                0 <= k < usage.len() ==> (#[trigger] usage[k]).namespace != shown.namespace || usage[k].name != shown.name)
                ==> shown.usage_cpu is None && shown.usage_memory is None
        }),
{
    let shown = pod_info(pod, usage, by_process, now_secs);
    lemma_usage_is_of_the_pod(usage, shown.namespace, shown.name);
}

} // verus!
