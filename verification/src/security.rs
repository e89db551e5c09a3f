//! Network policies, role bindings and pod security levels.
use crate::model::{
    ClusterRoleBindingInfo, ClusterRoleBindingInfoView, KV, KVView, NamespaceInfo, NamespaceInfoView,
    NetworkPolicyInfo, NetworkPolicyInfoView, PodSecurityAdmissionInfo, PodSecurityAdmissionInfoView,
    PodSecurityNamespaceInfo, PodSecurityNamespaceInfoView, SecuritySubjectInfo, SecuritySubjectInfoView,
};
use crate::objects;
use crate::objects::{
    ClusterRoleBinding, ClusterRoleBindingView, map_metadata_pairs, meta_precedes, NetworkPolicy,
    NetworkPolicySpec, NetworkPolicySpecView, NetworkPolicyView, Subject, SubjectView,
};
use crate::order;
use crate::order::{opt_str_le, sort_distinct, sort_in_order, str_eq, str_le};
use crate::text;
use crate::text::{owned, starts_with};
use crate::views;
use crate::views::{DeepClone, filter_map_items, map_items, opt_list, opt_str};
use vstd::prelude::*;

verus! {

/// The label that tells the pod security level that is enforced.
pub const PSA_ENFORCE_LABEL: &'static str = "pod-security.kubernetes.io/enforce";

/// The label that tells the pod security level that is audited.
pub const PSA_AUDIT_LABEL: &'static str = "pod-security.kubernetes.io/audit";

/// The label that tells the pod security level that is warned of.
pub const PSA_WARN_LABEL: &'static str = "pod-security.kubernetes.io/warn";

// ------------------------------------------------------------ network policies

/// The network policies in the order of a snapshot.
pub fn sort_network_policies_for_snapshot(network_policies: &mut Vec<NetworkPolicy>)
    ensures
        final(network_policies).deep_view() == order::in_order(
            old(network_policies).deep_view(),
            objects::by_place(|p: NetworkPolicyView| p.metadata),
        ),
{
    let mut all: Vec<NetworkPolicy> = Vec::new();
    std::mem::swap(&mut all, network_policies);
    let precedes = |a: &NetworkPolicy, b: &NetworkPolicy| -> (r: bool)
        ensures
            r == objects::meta_le(a.deep_view().metadata, b.deep_view().metadata),
        { meta_precedes(&a.metadata, &b.metadata) };
    *network_policies = sort_in_order(all, precedes, Ghost(objects::by_place(|p: NetworkPolicyView| p.metadata)));
}

/// There is at least one rule.
pub open spec fn has_rules(count: Option<usize>) -> bool {
    match count {
        Some(n) => n > 0,
        None => false,
    }
}

/// The kinds of traffic that a policy is about: those that it names, or else those that it has
/// rules for; in order and each once.
pub open spec fn policy_types_of(spec: NetworkPolicySpecView) -> Seq<Seq<char>> {
    let named = views::list_or_none(spec.policy_types);
    if named.len() > 0 {
        order::distinct_texts(named)
    } else if has_rules(spec.ingress_rules) && has_rules(spec.egress_rules) {
        seq!["Egress"@, "Ingress"@]
    } else if has_rules(spec.ingress_rules) {
        seq!["Ingress"@]
    } else if has_rules(spec.egress_rules) {
        seq!["Egress"@]
    } else {
        seq![]
    }
}

fn any_rules(count: Option<usize>) -> (r: bool)
    ensures
        r == has_rules(count),
{
    match count {
        Some(n) => n > 0,
        None => false,
    }
}

/// The kinds of traffic that a policy is about.
pub fn network_policy_types(spec: &NetworkPolicySpec) -> (r: Vec<String>)
    ensures
        r.deep_view() == policy_types_of(spec.deep_view()),
{
    let named = opt_list(&spec.policy_types);
    if named.len() > 0 {
        return sort_distinct(named);
    }
    let mut types: Vec<String> = Vec::new();
    if any_rules(spec.egress_rules) {
        types.push(owned("Egress"));
    }
    if any_rules(spec.ingress_rules) {
        types.push(owned("Ingress"));
    }
    assert(types.deep_view() =~= policy_types_of(spec.deep_view()));
    types
}

/// How many rules there are.
pub open spec fn rule_count(count: Option<usize>) -> usize {
    match count {
        Some(n) => n,
        None => 0,
    }
}

/// What a snapshot shows of a network policy.
pub open spec fn network_policy_info(policy: NetworkPolicyView) -> NetworkPolicyInfoView {
    let namespace = views::text_or(policy.metadata.namespace, ""@);
    let name = views::text_or(policy.metadata.name, ""@);
    match policy.spec {
        Some(spec) => NetworkPolicyInfoView {
            namespace,
            name,
            policy_types: policy_types_of(spec),
            pod_selector: match spec.pod_selector {
                Some(selector) => views::list_or_none(selector.match_labels),
                None => seq![],
            },
            ingress_rules_count: rule_count(spec.ingress_rules),
            egress_rules_count: rule_count(spec.egress_rules),
        },
        None => NetworkPolicyInfoView {
            namespace,
            name,
            policy_types: seq![],
            pod_selector: seq![],
            ingress_rules_count: 0,
            egress_rules_count: 0,
        },
    }
}

/// What a snapshot shows of a network policy.
pub fn map_network_policy(policy: &NetworkPolicy) -> (r: NetworkPolicyInfo)
    ensures
        r.deep_view() == network_policy_info(policy.deep_view()),
{
    let namespace = owned(opt_str(&policy.metadata.namespace, ""));
    let name = owned(opt_str(&policy.metadata.name, ""));
    let no_pairs: Vec<KV> = Vec::new();
    let no_types: Vec<String> = Vec::new();
    assert(no_pairs.deep_view() =~= seq![] && no_types.deep_view() =~= seq![]);
    match &policy.spec {
        Some(spec) => {
            let pod_selector = match &spec.pod_selector {
                Some(selector) => map_metadata_pairs(&selector.match_labels),
                None => no_pairs,
            };
            let ingress_rules_count: usize = match spec.ingress_rules {
                Some(n) => n,
                None => 0,
            };
            let egress_rules_count: usize = match spec.egress_rules {
                Some(n) => n,
                None => 0,
            };
            NetworkPolicyInfo {
                namespace,
                name,
                policy_types: network_policy_types(spec),
                pod_selector,
                ingress_rules_count,
                egress_rules_count,
            }
        },
        None => NetworkPolicyInfo {
            namespace,
            name,
            policy_types: no_types,
            pod_selector: no_pairs,
            ingress_rules_count: 0,
            egress_rules_count: 0,
        },
    }
}

// --------------------------------------------------------------- role bindings

/// A role gives wide rights.
pub open spec fn is_high_risk(role: Seq<char>) -> bool {
    role == "cluster-admin"@ || role == "admin"@ || role == "edit"@
}

/// Whether a role gives wide rights.
pub fn is_high_risk_role(role_name: &str) -> (r: bool)
    ensures
        r == is_high_risk(role_name@),
{
    str_eq(role_name, "cluster-admin") || str_eq(role_name, "admin") || str_eq(role_name, "edit")
}

/// A binding is worth a look: its role gives wide rights, or it is a cluster role that is not one
/// of the system's own.
pub open spec fn worth_a_look(kind: Seq<char>, name: Seq<char>) -> bool {
    is_high_risk(name) || (kind == "ClusterRole"@ && !text::has_prefix(name, "system:"@))
}

/// Whether a binding is worth a look.
pub fn should_include_cluster_role_binding(role_ref_kind: &str, role_ref_name: &str) -> (r: bool)
    ensures
        r == worth_a_look(role_ref_kind@, role_ref_name@),
{
    is_high_risk_role(role_ref_name) || (str_eq(role_ref_kind, "ClusterRole") && !starts_with(role_ref_name, "system:"))
}

/// One subject may precede another: by kind, name and namespace.
pub open spec fn subject_le(a: SecuritySubjectInfoView, b: SecuritySubjectInfoView) -> bool {
    if a.kind != b.kind {
        order::text_le(a.kind, b.kind)
    } else if a.name != b.name {
        order::text_le(a.name, b.name)
    } else {
        order::opt_text_le(a.namespace, b.namespace)
    }
}

fn subject_precedes(a: &SecuritySubjectInfo, b: &SecuritySubjectInfo) -> (r: bool)
    ensures
        r == subject_le(a.deep_view(), b.deep_view()),
{
    if !str_eq(a.kind.as_str(), b.kind.as_str()) {
        str_le(a.kind.as_str(), b.kind.as_str())
    } else if !str_eq(a.name.as_str(), b.name.as_str()) {
        str_le(a.name.as_str(), b.name.as_str())
    } else {
        opt_str_le(&a.namespace, &b.namespace)
    }
}

/// What a snapshot shows of a subject.
pub open spec fn subject_info(subject: SubjectView) -> SecuritySubjectInfoView {
    SecuritySubjectInfoView { kind: subject.kind, name: subject.name, namespace: subject.namespace }
}

/// What a snapshot shows of a cluster role binding; nothing of one that is not worth a look.
pub open spec fn binding_info(binding: ClusterRoleBindingView) -> Option<ClusterRoleBindingInfoView> {
    if worth_a_look(binding.role_ref_kind, binding.role_ref_name) {
        Some(
            ClusterRoleBindingInfoView {
                name: views::text_or(binding.metadata.name, ""@),
                role_ref_name: binding.role_ref_name,
                role_ref_kind: binding.role_ref_kind,
                risk_level: if is_high_risk(binding.role_ref_name) {
                    "high"@
                } else {
                    "review"@
                },
                subjects: order::in_order(
                    views::list_or_none(binding.subjects).map_values(|s: SubjectView| subject_info(s)),
                    |a: SecuritySubjectInfoView, b: SecuritySubjectInfoView| subject_le(a, b),
                ),
            },
        )
    } else {
        None
    }
}

/// What a snapshot shows of a cluster role binding; nothing of one that is not worth a look.
pub fn map_cluster_role_binding(binding: &ClusterRoleBinding) -> (r: Option<ClusterRoleBindingInfo>)
    ensures
        r.deep_view() == binding_info(binding.deep_view()),
{
    if !should_include_cluster_role_binding(binding.role_ref_kind.as_str(), binding.role_ref_name.as_str()) {
        return None;
    }
    let image = |s: &Subject| -> (r: SecuritySubjectInfo)
        ensures
            r.deep_view() == subject_info(s.deep_view()),
        {
            SecuritySubjectInfo {
                kind: s.kind.clone(),
                name: s.name.clone(),
                namespace: s.namespace.deep_clone(),
            }
        };
    let precedes = |a: &SecuritySubjectInfo, b: &SecuritySubjectInfo| -> (r: bool)
        ensures
            r == subject_le(a.deep_view(), b.deep_view()),
        { subject_precedes(a, b) };
    let subjects = map_items(&opt_list(&binding.subjects), image, Ghost(|s: SubjectView| subject_info(s)));
    let risk_level = if is_high_risk_role(binding.role_ref_name.as_str()) {
        owned("high")
    } else {
        owned("review")
    };
    Some(
        ClusterRoleBindingInfo {
            name: owned(opt_str(&binding.metadata.name, "")),
            role_ref_name: binding.role_ref_name.clone(),
            role_ref_kind: binding.role_ref_kind.clone(),
            risk_level,
            subjects: sort_in_order(
                subjects,
                precedes,
                Ghost(|a: SecuritySubjectInfoView, b: SecuritySubjectInfoView| subject_le(a, b)),
            ),
        },
    )
}

/// What a snapshot shows of the cluster role bindings: those that are worth a look, by name.
pub open spec fn binding_infos(bindings: Seq<ClusterRoleBindingView>) -> Seq<ClusterRoleBindingInfoView> {
    order::in_order(
        bindings.filter_map(|b: ClusterRoleBindingView| binding_info(b)),
        |a: ClusterRoleBindingInfoView, b: ClusterRoleBindingInfoView| order::text_le(a.name, b.name),
    )
}

/// What a snapshot shows of the cluster role bindings.
pub fn map_cluster_role_bindings(bindings: &Vec<ClusterRoleBinding>) -> (r: Vec<ClusterRoleBindingInfo>)
    ensures
        r.deep_view() == binding_infos(bindings.deep_view()),
{
    let image = |b: &ClusterRoleBinding| -> (r: Option<ClusterRoleBindingInfo>)
        ensures
            r.deep_view() == binding_info(b.deep_view()),
        { map_cluster_role_binding(b) };
    let precedes = |a: &ClusterRoleBindingInfo, b: &ClusterRoleBindingInfo| -> (r: bool)
        ensures
            r == order::text_le(a.deep_view().name, b.deep_view().name),
        { str_le(a.name.as_str(), b.name.as_str()) };
    let infos = filter_map_items(bindings, image, Ghost(|b: ClusterRoleBindingView| binding_info(b)));
    sort_in_order(
        infos,
        precedes,
        Ghost(|a: ClusterRoleBindingInfoView, b: ClusterRoleBindingInfoView| order::text_le(a.name, b.name)),
    )
}

// ---------------------------------------------------------- pod security levels

/// The value of the last pair with a key.
pub open spec fn last_value_of(pairs: Seq<KVView>, key: Seq<char>) -> Option<Seq<char>>
    decreases pairs.len(),
{
    if pairs.len() == 0 {
        None
    } else if pairs.last().key == key {
        Some(pairs.last().value)
    } else {
        last_value_of(pairs.drop_last(), key)
    }
}

fn last_pair_value(pairs: &Vec<KV>, key: &str) -> (r: Option<String>)
    ensures
        r.deep_view() == last_value_of(pairs.deep_view(), key@),
{
    let ghost all = pairs.deep_view();
    let mut i: usize = pairs.len();
    assert(all.take(i as int) =~= all);
    while i > 0
        invariant
            i <= pairs.len(),
            all == pairs.deep_view(),
            last_value_of(all, key@) == last_value_of(all.take(i as int), key@),
        decreases i,
    {
        i -= 1;
        assert(all.take(i + 1).drop_last() =~= all.take(i as int));
        assert(all.take(i + 1).last() == pairs@[i as int].deep_view());
        if str_eq(pairs[i].key.as_str(), key) {
            return Some(pairs[i].value.clone());
        }
    }
    None
}

/// The pod security levels of a namespace.
pub open spec fn security_levels(namespace: NamespaceInfoView) -> PodSecurityNamespaceInfoView {
    PodSecurityNamespaceInfoView {
        namespace: namespace.name,
        enforce: last_value_of(namespace.labels, PSA_ENFORCE_LABEL@),
        audit: last_value_of(namespace.labels, PSA_AUDIT_LABEL@),
        warn: last_value_of(namespace.labels, PSA_WARN_LABEL@),
    }
}

/// The pod security levels of the namespaces, by name.
pub open spec fn admission_info(namespaces: Seq<NamespaceInfoView>) -> PodSecurityAdmissionInfoView {
    PodSecurityAdmissionInfoView {
        namespaces: order::in_order(
            namespaces.map_values(|n: NamespaceInfoView| security_levels(n)),
            |a: PodSecurityNamespaceInfoView, b: PodSecurityNamespaceInfoView| order::text_le(a.namespace, b.namespace),
        ),
    }
}

/// The pod security levels of the namespaces, by name.
pub fn build_pod_security_admission(namespaces: &Vec<NamespaceInfo>) -> (r: PodSecurityAdmissionInfo)
    ensures
        r.deep_view() == admission_info(namespaces.deep_view()),
{
    let image = |n: &NamespaceInfo| -> (r: PodSecurityNamespaceInfo)
        ensures
            r.deep_view() == security_levels(n.deep_view()),
        {
            PodSecurityNamespaceInfo {
                namespace: n.name.clone(),
                enforce: last_pair_value(&n.labels, PSA_ENFORCE_LABEL),
                audit: last_pair_value(&n.labels, PSA_AUDIT_LABEL),
                warn: last_pair_value(&n.labels, PSA_WARN_LABEL),
            }
        };
    let precedes = |a: &PodSecurityNamespaceInfo, b: &PodSecurityNamespaceInfo| -> (r: bool)
        ensures
            r == order::text_le(a.deep_view().namespace, b.deep_view().namespace),
        { str_le(a.namespace.as_str(), b.namespace.as_str()) };
    let levels = map_items(namespaces, image, Ghost(|n: NamespaceInfoView| security_levels(n)));
    PodSecurityAdmissionInfo {
        namespaces: sort_in_order(
            levels,
            precedes,
            Ghost(
                |a: PodSecurityNamespaceInfoView, b: PodSecurityNamespaceInfoView| order::text_le(a.namespace, b.namespace),
            ),
        ),
    }
}

// ----------------------------------------------------------------------- laws

/// A snapshot shows each binding to a role with wide rights, and marks it so; it marks none of the
/// others, and shows none to a role of the system's own.
pub proof fn lemma_wide_rights_are_shown(bindings: Seq<ClusterRoleBindingView>, i: int)
    requires
        0 <= i < bindings.len(),
    ensures
        is_high_risk(bindings[i].role_ref_name) ==> binding_info(bindings[i]) is Some && binding_infos(
            bindings,
        ).contains(binding_info(bindings[i])->0) && binding_info(bindings[i])->0.risk_level == "high"@,
        forall|k: int|
            0 <= k < binding_infos(bindings).len() ==> {
                let shown = #[trigger] binding_infos(bindings)[k];
                &&& worth_a_look(shown.role_ref_kind, shown.role_ref_name)
                &&& shown.risk_level == if is_high_risk(shown.role_ref_name) {
                    "high"@
                } else {
                    "review"@
                }
            },
{
    let image = |b: ClusterRoleBindingView| binding_info(b);
    let le = |a: ClusterRoleBindingInfoView, b: ClusterRoleBindingInfoView| order::text_le(a.name, b.name);
    let infos = bindings.filter_map(image);
    let shown = order::in_order(infos, le);
    order::lemma_in_order_keeps_items(infos, le);
    broadcast use vstd::seq_lib::group_to_multiset_ensures;

    if is_high_risk(bindings[i].role_ref_name) {
        let info = binding_info(bindings[i])->0;
        views::lemma_filter_map_has(bindings, image, i);
        assert(infos.contains(info));
        assert(infos.to_multiset().count(info) > 0);
        assert(shown.contains(info));
    }
    assert forall|k: int| 0 <= k < shown.len() implies {
        let s = #[trigger] shown[k];
        &&& worth_a_look(s.role_ref_kind, s.role_ref_name)
        &&& s.risk_level == if is_high_risk(s.role_ref_name) {
            "high"@
        } else {
            "review"@
        }
    } by {
        let s = shown[k];
        assert(shown.contains(s));
        assert(shown.to_multiset().count(s) > 0);
        assert(infos.contains(s));
        bindings.lemma_filter_map_contains(image, s);
    }
}

// ------------------------------------------------------------- what it is for

/// A policy is of the types that it names, or else of those that it has rules for; its rules are
/// counted, and its selector shown.
pub proof fn lemma_policy_types(policy: NetworkPolicyView, spec: NetworkPolicySpecView, kind: Seq<char>)
    requires
        policy.spec == Some(spec),
    ensures
        ({
            let shown = network_policy_info(policy);
            let named = spec.policy_types is Some && spec.policy_types->0.len() > 0;
            &&& named ==> (shown.policy_types.contains(kind) <==> spec.policy_types->0.contains(kind))
            &&& !named ==> (shown.policy_types.contains(kind) <==> (kind == "Ingress"@ && shown.ingress_rules_count > 0)
                || (kind == "Egress"@ && shown.egress_rules_count > 0))
            &&& spec.ingress_rules matches Some(n) ==> shown.ingress_rules_count == n
            &&& spec.egress_rules matches Some(n) ==> shown.egress_rules_count == n
            &&& spec.ingress_rules is None ==> shown.ingress_rules_count == 0
            &&& spec.egress_rules is None ==> shown.egress_rules_count == 0
            &&& policy.metadata.namespace matches Some(n) ==> shown.namespace == n
            &&& policy.metadata.name matches Some(n) ==> shown.name == n
            &&& spec.pod_selector matches Some(selector) ==> selector.match_labels is Some ==> shown.pod_selector
                == selector.match_labels->0
        }),
{
    let named = views::list_or_none(spec.policy_types);
    order::lemma_distinct_texts(named);
    let both = seq!["Egress"@, "Ingress"@];
    let inward = seq!["Ingress"@];
    let outward = seq!["Egress"@];
    assert(both[0] == "Egress"@ && both[1] == "Ingress"@ && inward[0] == "Ingress"@ && outward[0] == "Egress"@);
    assert(both.contains(kind) <==> kind == "Egress"@ || kind == "Ingress"@);
    assert(inward.contains(kind) <==> kind == "Ingress"@);
    assert(outward.contains(kind) <==> kind == "Egress"@);
    if named.len() > 0 {
        assert(named.contains(kind) <==> order::distinct_texts(named).contains(kind));
    }
}

/// A binding is shown where its role gives wide rights or is a cluster role that is not the
/// system's; the risk is high exactly where the rights are wide. Its subjects are all shown.
pub proof fn lemma_bindings_by_role(binding: ClusterRoleBindingView, subject: SubjectView)
    ensures
        ({
            let role = binding.role_ref_name;
            let wide = role == "cluster-admin"@ || role == "admin"@ || role == "edit"@;
            &&& binding_info(binding) is Some <==> wide || (binding.role_ref_kind == "ClusterRole"@ && !text::has_prefix(
                role,
                "system:"@,
            ))
            &&& binding_info(binding) matches Some(shown) ==> {
                &&& shown.risk_level == (if wide {
                    "high"@
                } else {
                    "review"@
                })
                &&& shown.role_ref_name == role && shown.role_ref_kind == binding.role_ref_kind
                &&& binding.metadata.name is Some ==> shown.name == binding.metadata.name->0
                &&& binding.subjects is Some ==> shown.subjects.len() == binding.subjects->0.len() && (
                binding.subjects->0.contains(subject) ==> shown.subjects.contains(
                    SecuritySubjectInfoView { kind: subject.kind, name: subject.name, namespace: subject.namespace },
                ))
                &&& binding.subjects is None ==> shown.subjects.len() == 0
            }
        }),
{
    let le = |a: SecuritySubjectInfoView, b: SecuritySubjectInfoView| subject_le(a, b);
    let subjects = views::list_or_none(binding.subjects);
    let infos = subjects.map_values(|s: SubjectView| subject_info(s));
    order::lemma_in_order_has(infos, le, subject_info(subject));
    if subjects.contains(subject) {
        let i = choose|i: int| 0 <= i < subjects.len() && subjects[i] == subject;
        assert(infos[i] == subject_info(subject));
    }
}

/// The last label with a key tells the value.
pub proof fn lemma_last_value_counts(pairs: Seq<KVView>, key: Seq<char>, i: int)
    requires
        0 <= i < pairs.len(),
        pairs[i].key == key,
        forall|j: int| i < j < pairs.len() ==> (#[trigger] pairs[j]).key != key,
    ensures
        last_value_of(pairs, key) == Some(pairs[i].value),
    decreases pairs.len(),
{
    if i < pairs.len() - 1 {
        assert(pairs[pairs.len() - 1].key != key);
        lemma_last_value_counts(pairs.drop_last(), key, i);
    }
}

/// A level that is shown of a namespace is the value of one of its labels, of the label of that
/// level; where no label has that key, none is.
pub proof fn lemma_value_is_of_a_label(pairs: Seq<KVView>, key: Seq<char>)
    ensures
        last_value_of(pairs, key) matches Some(v) ==> pairs.contains(KVView { key, value: v }),
        (forall|i: int| 0 <= i < pairs.len() ==> (#[trigger] pairs[i]).key != key) ==> last_value_of(pairs, key) is None,
    decreases pairs.len(),
{
    if pairs.len() > 0 {
        let rest = pairs.drop_last();
        lemma_value_is_of_a_label(rest, key);
        if pairs.last().key == key {
            assert(pairs[pairs.len() - 1] == KVView { key, value: pairs.last().value });
        } else {
            if let Some(v) = last_value_of(rest, key) {
                let i = choose|i: int| 0 <= i < rest.len() && rest[i] == KVView { key, value: v };
                assert(pairs[i] == rest[i]);
            }
            if forall|i: int| 0 <= i < pairs.len() ==> (#[trigger] pairs[i]).key != key {
                assert forall|i: int| 0 <= i < rest.len() implies (#[trigger] rest[i]).key != key by {
                    assert(rest[i] == pairs[i]);
                }
            }
        }
    }
}

/// Every namespace is shown, with the level that it enforces, audits and warns of, each from the
/// label of its own.
pub proof fn lemma_levels_by_label(namespaces: Seq<NamespaceInfoView>, i: int)
    requires
        0 <= i < namespaces.len(),
    ensures
        admission_info(namespaces).namespaces.len() == namespaces.len(),
        admission_info(namespaces).namespaces.contains(
            PodSecurityNamespaceInfoView {
                namespace: namespaces[i].name,
                enforce: last_value_of(namespaces[i].labels, "pod-security.kubernetes.io/enforce"@),
                audit: last_value_of(namespaces[i].labels, "pod-security.kubernetes.io/audit"@),
                warn: last_value_of(namespaces[i].labels, "pod-security.kubernetes.io/warn"@),
            },
        ),
{
    let le = |a: PodSecurityNamespaceInfoView, b: PodSecurityNamespaceInfoView| order::text_le(a.namespace, b.namespace);
    let levels = namespaces.map_values(|n: NamespaceInfoView| security_levels(n));
    assert(levels[i] == security_levels(namespaces[i]));
    order::lemma_in_order_has(levels, le, levels[i]);
}

} // verus!
