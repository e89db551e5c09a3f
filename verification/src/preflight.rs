//! What stands in the way of a change to a workload. A check only warns; one that cannot be made
//! warns of that.
use crate::json_value;
use crate::json_value::{JsonNode, text_at};
use crate::model::{KV, KVView};
use crate::objects;
use crate::objects::label_selector_matches;
use crate::order;
use crate::order::{sort_texts, str_eq};
use crate::policy::{WorkloadResourcesSpec, WorkloadResourcesSpecView};
use crate::text;
use crate::text::{decimal, owned, text3, text4, text5, text7};
use crate::views;
use crate::views::{append_cloned, filter_map_items, map_items, opt_owned, opt_str};
use crate::workload::{
    HorizontalPodAutoscaler, HorizontalPodAutoscalerView, PodDisruptionBudget, PodDisruptionBudgetView,
    VerticalPodAutoscaler, VerticalPodAutoscalerView,
};
use vstd::prelude::*;

verus! {

/// What came of a check: its warnings, or why it could not be made.
pub open spec fn outcome_of(outcome: Result<Vec<String>, String>) -> Result<Seq<Seq<char>>, Seq<char>> {
    match outcome {
        Ok(warnings) => Ok(warnings.deep_view()),
        Err(reason) => Err(reason@),
    }
}

/// The warnings of a check, or the warning that it could not be made.
pub open spec fn merged(check_name: Seq<char>, outcome: Result<Seq<Seq<char>>, Seq<char>>) -> Seq<Seq<char>> {
    match outcome {
        Ok(warnings) => warnings,
        Err(reason) => seq!["preflight.check.unavailable: "@ + check_name + " unavailable: "@ + reason],
    }
}

/// Adds the warnings of a check, or the warning that it could not be made.
pub fn merge_check(warnings: &mut Vec<String>, check_name: &str, outcome: &Result<Vec<String>, String>)
    ensures
        final(warnings).deep_view() == old(warnings).deep_view() + merged(check_name@, outcome_of(*outcome)),
{
    let ghost before = warnings.deep_view();
    match outcome {
        Ok(found) => append_cloned(warnings, found),
        Err(reason) => {
            let note = text4("preflight.check.unavailable: ", check_name, " unavailable: ", reason.as_str());
            let ghost noted = note@;
            warnings.push(note);
            assert(warnings.deep_view() =~= before + seq![noted]);
        },
    }
}

/// The workload of a change as it is shown.
pub open spec fn shown_target(spec: WorkloadResourcesSpecView) -> Seq<char> {
    spec.workload_kind + "/"@ + spec.name
}

fn show_target(spec: &WorkloadResourcesSpec) -> (r: String)
    ensures
        r@ == shown_target(spec.deep_view()),
{
    text3(spec.workload_kind.as_str(), "/", spec.name.as_str())
}

/// The name of an autoscaler that scales the workload.
pub open spec fn scaler_name(
    hpa: HorizontalPodAutoscalerView,
    spec: WorkloadResourcesSpecView,
) -> Option<Seq<char>> {
    match hpa.target {
        Some(target) => if target.kind == spec.workload_kind && target.name == spec.name {
            Some(views::text_or(hpa.name, "<unknown>"@))
        } else {
            None
        },
        None => None,
    }
}

/// The warnings of the autoscalers that scale the workload, by their names.
pub open spec fn hpa_warnings(
    hpas: Seq<HorizontalPodAutoscalerView>,
    spec: WorkloadResourcesSpecView,
) -> Seq<Seq<char>> {
    order::sorted_texts(hpas.filter_map(|h: HorizontalPodAutoscalerView| scaler_name(h, spec))).map_values(
        |name: Seq<char>| hpa_warning(name, spec),
    )
}

/// The warning of an autoscaler that scales the workload.
pub open spec fn hpa_warning(name: Seq<char>, spec: WorkloadResourcesSpecView) -> Seq<char> {
    "preflight.hpa.targeted: HPA "@ + name + " targets "@ + shown_target(spec)
        + "; resource changes may affect autoscaling behavior"@
}

/// Warns of the autoscalers that scale the workload.
pub fn preflight_check_hpa(hpas: &Vec<HorizontalPodAutoscaler>, spec: &WorkloadResourcesSpec) -> (r: Vec<String>)
    ensures
        r.deep_view() == hpa_warnings(hpas.deep_view(), spec.deep_view()),
{
    let scaler = |h: &HorizontalPodAutoscaler| -> (r: Option<String>)
        ensures
            r.deep_view() == scaler_name(h.deep_view(), spec.deep_view()),
        {
            match &h.target {
                Some(target) => if str_eq(target.kind.as_str(), spec.workload_kind.as_str()) && str_eq(
                    target.name.as_str(),
                    spec.name.as_str(),
                ) {
                    Some(owned(opt_str(&h.name, "<unknown>")))
                } else {
                    None
                },
                None => None,
            }
        };
    let names = sort_texts(
        filter_map_items(
            hpas,
            scaler,
            Ghost(|h: HorizontalPodAutoscalerView| scaler_name(h, spec.deep_view())),
        ),
    );
    let warn = |name: &String| -> (r: String)
        ensures
            r.deep_view() == hpa_warning(name.deep_view(), spec.deep_view()),
        {
            text5(
                "preflight.hpa.targeted: HPA ",
                name.as_str(),
                " targets ",
                show_target(spec).as_str(),
                "; resource changes may affect autoscaling behavior",
            )
        };
    map_items(&names, warn, Ghost(|name: Seq<char>| hpa_warning(name, spec.deep_view())))
}

/// A vertical autoscaler changes what a container asks for by itself.
pub open spec fn mode_conflicts(mode: Option<Seq<char>>) -> bool {
    views::text_or(mode, "Auto"@) == "Auto"@ || views::text_or(mode, "Auto"@) == "Recreate"@
}

/// Whether a vertical autoscaler of a mode changes what a container asks for by itself.
pub fn vpa_mode_is_conflicting(mode: Option<&str>) -> (r: bool)
    ensures
        r == mode_conflicts(mode.deep_view()),
{
    match mode {
        Some(mode) => str_eq(mode, "Auto") || str_eq(mode, "Recreate"),
        None => true,
    }
}

/// What a vertical autoscaler's document says of what it sizes and how.
pub open spec fn autoscaler_of(
    name: Option<Seq<char>>,
    contents: Map<Seq<char>, JsonNode>,
) -> VerticalPodAutoscalerView {
    VerticalPodAutoscalerView {
        name,
        target_kind: json_value::text_in(contents, "/spec/targetRef/kind"@),
        target_name: json_value::text_in(contents, "/spec/targetRef/name"@),
        update_mode: json_value::text_in(contents, "/spec/updatePolicy/updateMode"@),
    }
}

/// What a vertical autoscaler's document says of what it sizes and how.
pub fn read_vertical_autoscaler(name: Option<String>, value: &serde_json::Value) -> (r: VerticalPodAutoscaler)
    ensures
        r.deep_view() == autoscaler_of(name.deep_view(), json_value::json_contents(*value)),
{
    VerticalPodAutoscaler {
        name,
        target_kind: opt_owned(text_at(value, "/spec/targetRef/kind")),
        target_name: opt_owned(text_at(value, "/spec/targetRef/name")),
        update_mode: opt_owned(text_at(value, "/spec/updatePolicy/updateMode")),
    }
}

/// The warning of a vertical autoscaler that sizes the workload by itself.
pub open spec fn vpa_warning(
    vpa: VerticalPodAutoscalerView,
    spec: WorkloadResourcesSpecView,
) -> Option<Seq<char>> {
    if views::text_or(vpa.target_kind, ""@) == spec.workload_kind && views::text_or(vpa.target_name, ""@) == spec.name
        && mode_conflicts(vpa.update_mode) {
        Some(
            "preflight.vpa.auto_mode: VPA "@ + views::text_or(vpa.name, "<unknown>"@) + " targets "@ + shown_target(spec)
                + " with updateMode="@ + views::text_or(vpa.update_mode, "Auto"@)
                + "; manual resources may be overwritten"@,
        )
    } else {
        None
    }
}

/// The warnings of the vertical autoscalers that size the workload by themselves, in order.
pub open spec fn vpa_warnings(
    vpas: Seq<VerticalPodAutoscalerView>,
    spec: WorkloadResourcesSpecView,
) -> Seq<Seq<char>> {
    order::sorted_texts(vpas.filter_map(|v: VerticalPodAutoscalerView| vpa_warning(v, spec)))
}

/// Warns of the vertical autoscalers that size the workload by themselves.
pub fn preflight_check_vpa(vpas: &Vec<VerticalPodAutoscaler>, spec: &WorkloadResourcesSpec) -> (r: Vec<String>)
    ensures
        r.deep_view() == vpa_warnings(vpas.deep_view(), spec.deep_view()),
{
    let warn = |v: &VerticalPodAutoscaler| -> (r: Option<String>)
        ensures
            r.deep_view() == vpa_warning(v.deep_view(), spec.deep_view()),
        {
            let mode = match &v.update_mode {
                Some(mode) => Some(mode.as_str()),
                None => None,
            };
            if str_eq(opt_str(&v.target_kind, ""), spec.workload_kind.as_str()) && str_eq(
                opt_str(&v.target_name, ""),
                spec.name.as_str(),
            ) && vpa_mode_is_conflicting(mode) {
                Some(
                    text7(
                        "preflight.vpa.auto_mode: VPA ",
                        opt_str(&v.name, "<unknown>"),
                        " targets ",
                        show_target(spec).as_str(),
                        " with updateMode=",
                        opt_str(&v.update_mode, "Auto"),
                        "; manual resources may be overwritten",
                    ),
                )
            } else {
                None
            }
        };
    sort_texts(
        filter_map_items(vpas, warn, Ghost(|v: VerticalPodAutoscalerView| vpa_warning(v, spec.deep_view()))),
    )
}

/// The warning of the limit ranges of a namespace, where it has some.
pub open spec fn limitrange_warnings(count: nat, namespace: Seq<char>) -> Seq<Seq<char>> {
    if count == 0 {
        seq![]
    } else {
        seq![
            "preflight.limitrange.present: namespace "@ + namespace + " has "@ + text::decimal_of(count)
                + " LimitRange object(s); requested values may be constrained"@,
        ]
    }
}

/// Warns of the limit ranges of the namespace.
pub fn preflight_check_limitrange(count: usize, namespace: &str) -> (r: Vec<String>)
    ensures
        r.deep_view() == limitrange_warnings(count as nat, namespace@),
{
    let mut warnings: Vec<String> = Vec::new();
    if count > 0 {
        warnings.push(
            text5(
                "preflight.limitrange.present: namespace ",
                namespace,
                " has ",
                decimal(count as u128).as_str(),
                " LimitRange object(s); requested values may be constrained",
            ),
        );
    }
    assert(warnings.deep_view() =~= limitrange_warnings(count as nat, namespace@));
    warnings
}

/// The warning of the quotas of a namespace, where it has some.
pub open spec fn resourcequota_warnings(count: nat, namespace: Seq<char>) -> Seq<Seq<char>> {
    if count == 0 {
        seq![]
    } else {
        seq![
            "preflight.resourcequota.present: namespace "@ + namespace + " has "@ + text::decimal_of(count)
                + " ResourceQuota object(s); requested values may exceed quota"@,
        ]
    }
}

/// Warns of the quotas of the namespace.
pub fn preflight_check_resourcequota(count: usize, namespace: &str) -> (r: Vec<String>)
    ensures
        r.deep_view() == resourcequota_warnings(count as nat, namespace@),
{
    let mut warnings: Vec<String> = Vec::new();
    if count > 0 {
        warnings.push(
            text5(
                "preflight.resourcequota.present: namespace ",
                namespace,
                " has ",
                decimal(count as u128).as_str(),
                " ResourceQuota object(s); requested values may exceed quota",
            ),
        );
    }
    assert(warnings.deep_view() =~= resourcequota_warnings(count as nat, namespace@));
    warnings
}

/// The name of a disruption budget that covers the pods.
pub open spec fn budget_name(pdb: PodDisruptionBudgetView, pod_labels: Seq<KVView>) -> Option<Seq<char>> {
    if objects::selector_matches(pdb.selector, pod_labels) {
        Some(views::text_or(pdb.name, "<unknown>"@))
    } else {
        None
    }
}

/// The warning of a disruption budget that covers the pods.
pub open spec fn pdb_warning(name: Seq<char>, spec: WorkloadResourcesSpecView) -> Seq<char> {
    "preflight.pdb.selector_overlap: PDB "@ + name + " selector matches "@ + shown_target(spec)
        + " pod labels; rollout may be constrained"@
}

/// The warnings of the disruption budgets that cover the pods, by their names.
pub open spec fn pdb_warnings(
    pdbs: Seq<PodDisruptionBudgetView>,
    spec: WorkloadResourcesSpecView,
    pod_labels: Seq<KVView>,
) -> Seq<Seq<char>> {
    order::sorted_texts(pdbs.filter_map(|p: PodDisruptionBudgetView| budget_name(p, pod_labels))).map_values(
        |name: Seq<char>| pdb_warning(name, spec),
    )
}

/// Warns of the disruption budgets that cover the pods.
pub fn preflight_check_pdb(
    pdbs: &Vec<PodDisruptionBudget>,
    spec: &WorkloadResourcesSpec,
    pod_labels: &Vec<KV>,
) -> (r: Vec<String>)
    ensures
        r.deep_view() == pdb_warnings(pdbs.deep_view(), spec.deep_view(), pod_labels.deep_view()),
{
    let budget = |p: &PodDisruptionBudget| -> (r: Option<String>)
        ensures
            r.deep_view() == budget_name(p.deep_view(), pod_labels.deep_view()),
        {
            let selector = match &p.selector {
                Some(selector) => Some(selector),
                None => None,
            };
            if label_selector_matches(selector, pod_labels) {
                Some(owned(opt_str(&p.name, "<unknown>")))
            } else {
                None
            }
        };
    let names = sort_texts(
        filter_map_items(
            pdbs,
            budget,
            Ghost(|p: PodDisruptionBudgetView| budget_name(p, pod_labels.deep_view())),
        ),
    );
    let warn = |name: &String| -> (r: String)
        ensures
            r.deep_view() == pdb_warning(name.deep_view(), spec.deep_view()),
        {
            text5(
                "preflight.pdb.selector_overlap: PDB ",
                name.as_str(),
                " selector matches ",
                show_target(spec).as_str(),
                " pod labels; rollout may be constrained",
            )
        };
    map_items(&names, warn, Ghost(|name: Seq<char>| pdb_warning(name, spec.deep_view())))
}

/// What was found in the namespace of a change, each or why it could not be told.
pub struct PreflightFindings {
    pub hpas: Result<Vec<HorizontalPodAutoscaler>, String>,
    pub vpas: Result<Vec<VerticalPodAutoscaler>, String>,
    pub limit_ranges: Result<usize, String>,
    pub resource_quotas: Result<usize, String>,
    pub pdbs: Result<Vec<PodDisruptionBudget>, String>,
}

/// The warnings of all checks, in their order.
pub open spec fn preflight_warnings(
    findings: PreflightFindings,
    spec: WorkloadResourcesSpecView,
    pod_labels: Seq<KVView>,
) -> Seq<Seq<char>> {
    merged(
        "hpa"@,
        match findings.hpas {
            Ok(hpas) => Ok(hpa_warnings(hpas.deep_view(), spec)),
            Err(reason) => Err(reason@),
        },
    ) + merged(
        "vpa"@,
        match findings.vpas {
            Ok(vpas) => Ok(vpa_warnings(vpas.deep_view(), spec)),
            Err(reason) => Err(reason@),
        },
    ) + merged(
        "limitrange"@,
        match findings.limit_ranges {
            Ok(count) => Ok(limitrange_warnings(count as nat, spec.namespace)),
            Err(reason) => Err(reason@),
        },
    ) + merged(
        "resourcequota"@,
        match findings.resource_quotas {
            Ok(count) => Ok(resourcequota_warnings(count as nat, spec.namespace)),
            Err(reason) => Err(reason@),
        },
    ) + merged(
        "pdb"@,
        match findings.pdbs {
            Ok(pdbs) => Ok(pdb_warnings(pdbs.deep_view(), spec, pod_labels)),
            Err(reason) => Err(reason@),
        },
    )
}

/// The warnings of all checks, in their order.
pub fn collect_preflight_warnings(
    findings: &PreflightFindings,
    spec: &WorkloadResourcesSpec,
    pod_labels: &Vec<KV>,
) -> (r: Vec<String>)
    ensures
        r.deep_view() == preflight_warnings(*findings, spec.deep_view(), pod_labels.deep_view()),
{
    let mut warnings: Vec<String> = Vec::new();
    let hpa: Result<Vec<String>, String> = match &findings.hpas {
        Ok(hpas) => Ok(preflight_check_hpa(hpas, spec)),
        Err(reason) => Err(owned(reason.as_str())),
    };
    merge_check(&mut warnings, "hpa", &hpa);
    assert(warnings.deep_view() =~= merged("hpa"@, outcome_of(hpa)));
    let vpa: Result<Vec<String>, String> = match &findings.vpas {
        Ok(vpas) => Ok(preflight_check_vpa(vpas, spec)),
        Err(reason) => Err(owned(reason.as_str())),
    };
    merge_check(&mut warnings, "vpa", &vpa);
    let limit_range: Result<Vec<String>, String> = match &findings.limit_ranges {
        Ok(count) => Ok(preflight_check_limitrange(*count, spec.namespace.as_str())),
        Err(reason) => Err(owned(reason.as_str())),
    };
    merge_check(&mut warnings, "limitrange", &limit_range);
    let quota: Result<Vec<String>, String> = match &findings.resource_quotas {
        Ok(count) => Ok(preflight_check_resourcequota(*count, spec.namespace.as_str())),
        Err(reason) => Err(owned(reason.as_str())),
    };
    merge_check(&mut warnings, "resourcequota", &quota);
    let pdb: Result<Vec<String>, String> = match &findings.pdbs {
        Ok(pdbs) => Ok(preflight_check_pdb(pdbs, spec, pod_labels)),
        Err(reason) => Err(owned(reason.as_str())),
    };
    merge_check(&mut warnings, "pdb", &pdb);
    warnings
}

// ------------------------------------------------------------- what it is for

/// A change is warned of exactly the autoscalers that scale its workload, each by name.
pub proof fn lemma_autoscalers_are_warned_of(
    hpas: Seq<HorizontalPodAutoscalerView>,
    vpas: Seq<VerticalPodAutoscalerView>,
    spec: WorkloadResourcesSpecView,
)
    ensures
        forall|i: int|
            0 <= i < hpas.len() && #[trigger] scales(hpas[i], spec) ==> hpa_warnings(hpas, spec).contains(
                "preflight.hpa.targeted: HPA "@ + (if hpas[i].name is Some {
                    hpas[i].name->0
                } else {
                    "<unknown>"@
                }) + " targets "@ + (spec.workload_kind + "/"@ + spec.name)
                    + "; resource changes may affect autoscaling behavior"@,
            ),
        hpa_warnings(hpas, spec).len() > 0 <==> exists|i: int| 0 <= i < hpas.len() && #[trigger] scales(hpas[i], spec),
        vpa_warnings(vpas, spec).len() > 0 <==> exists|i: int| 0 <= i < vpas.len() && #[trigger] sets(vpas[i], spec),
        forall|i: int|
            0 <= i < vpas.len() && #[trigger] sets(vpas[i], spec) ==> vpa_warnings(vpas, spec).contains(
                "preflight.vpa.auto_mode: VPA "@ + (if vpas[i].name is Some {
                    vpas[i].name->0
                } else {
                    "<unknown>"@
                }) + " targets "@ + (spec.workload_kind + "/"@ + spec.name) + " with updateMode="@ + (
                if vpas[i].update_mode is Some {
                    vpas[i].update_mode->0
                } else {
                    "Auto"@
                }) + "; manual resources may be overwritten"@,
            ),
{
    let f = |h: HorizontalPodAutoscalerView| scaler_name(h, spec);
    let g = |v: VerticalPodAutoscalerView| vpa_warning(v, spec);
    let names = hpas.filter_map(f);
    let told = vpas.filter_map(g);
    let sorted = order::sorted_texts(names);
    order::lemma_sorted_has(names, seq![]);
    order::lemma_sorted_has(told, seq![]);
    assert forall|i: int| 0 <= i < hpas.len() && #[trigger] scales(hpas[i], spec) implies hpa_warnings(
        hpas,
        spec,
    ).contains(
        "preflight.hpa.targeted: HPA "@ + (if hpas[i].name is Some {
                    hpas[i].name->0
                } else {
                    "<unknown>"@
                }) + " targets "@ + (spec.workload_kind + "/"@ + spec.name)
                    + "; resource changes may affect autoscaling behavior"@,
    ) by {
        views::lemma_filter_map_has(hpas, f, i);
        order::lemma_sorted_has(names, f(hpas[i])->0);
        let k = choose|k: int| 0 <= k < sorted.len() && sorted[k] == f(hpas[i])->0;
        assert(hpa_warnings(hpas, spec)[k] == hpa_warning(sorted[k], spec));
    }
    if exists|i: int| 0 <= i < hpas.len() && #[trigger] scales(hpas[i], spec) {
        let i = choose|i: int| 0 <= i < hpas.len() && #[trigger] scales(hpas[i], spec);
        views::lemma_filter_map_has(hpas, f, i);
    }
    if hpa_warnings(hpas, spec).len() > 0 {
        assert(names.contains(names[0]));
        hpas.lemma_filter_map_contains(f, names[0]);
        let h = choose|h: HorizontalPodAutoscalerView| #[trigger] hpas.contains(h) && f(h) == Some(names[0]);
        let i = choose|i: int| 0 <= i < hpas.len() && hpas[i] == h;
        assert(scales(hpas[i], spec));
    }
    assert forall|i: int| 0 <= i < vpas.len() && #[trigger] sets(vpas[i], spec) implies vpa_warnings(vpas, spec).contains(
        "preflight.vpa.auto_mode: VPA "@ + (if vpas[i].name is Some {
            vpas[i].name->0
        } else {
            "<unknown>"@
        }) + " targets "@ + (spec.workload_kind + "/"@ + spec.name) + " with updateMode="@ + (
        if vpas[i].update_mode is Some {
            vpas[i].update_mode->0
        } else {
            "Auto"@
        }) + "; manual resources may be overwritten"@,
    ) by {
        views::lemma_filter_map_has(vpas, g, i);
        order::lemma_sorted_has(told, g(vpas[i])->0);
    }
    if vpa_warnings(vpas, spec).len() > 0 {
        assert(told.contains(told[0]));
        vpas.lemma_filter_map_contains(g, told[0]);
        let v = choose|v: VerticalPodAutoscalerView| #[trigger] vpas.contains(v) && g(v) == Some(told[0]);
        let i = choose|i: int| 0 <= i < vpas.len() && vpas[i] == v;
        assert(sets(vpas[i], spec));
    }
    if exists|i: int| 0 <= i < vpas.len() && #[trigger] sets(vpas[i], spec) {
        let i = choose|i: int| 0 <= i < vpas.len() && #[trigger] sets(vpas[i], spec);
        views::lemma_filter_map_has(vpas, g, i);
    }
}

/// An autoscaler scales the workload that a change is about.
pub open spec fn scales(hpa: HorizontalPodAutoscalerView, spec: WorkloadResourcesSpecView) -> bool {
    hpa.target matches Some(target) && target.kind == spec.workload_kind && target.name == spec.name
}

/// An autoscaler sets the resources of the workload that a change is about: by itself, which is also
/// what it does where its mode is not named.
pub open spec fn sets(vpa: VerticalPodAutoscalerView, spec: WorkloadResourcesSpecView) -> bool {
    &&& (if vpa.target_kind is Some {
        vpa.target_kind->0
    } else {
        ""@
    }) == spec.workload_kind
    &&& (if vpa.target_name is Some {
        vpa.target_name->0
    } else {
        ""@
    }) == spec.name
    &&& vpa.update_mode is None || vpa.update_mode->0 == "Auto"@ || vpa.update_mode->0 == "Recreate"@
}

/// A change is warned of exactly the disruption budgets whose selector takes the labels of the
/// pods, each by name.
pub proof fn lemma_budgets_are_warned_of(
    pdbs: Seq<PodDisruptionBudgetView>,
    spec: WorkloadResourcesSpecView,
    pod_labels: Seq<KVView>,
)
    ensures
        pdb_warnings(pdbs, spec, pod_labels).len() > 0 <==> exists|i: int|
            0 <= i < pdbs.len() && objects::selector_matches((#[trigger] pdbs[i]).selector, pod_labels),
        forall|i: int|
            0 <= i < pdbs.len() && objects::selector_matches((#[trigger] pdbs[i]).selector, pod_labels) ==> pdb_warnings(
                pdbs,
                spec,
                pod_labels,
            ).contains(
                "preflight.pdb.selector_overlap: PDB "@ + (if pdbs[i].name is Some {
                    pdbs[i].name->0
                } else {
                    "<unknown>"@
                }) + " selector matches "@ + (spec.workload_kind + "/"@ + spec.name)
                    + " pod labels; rollout may be constrained"@,
            ),
{
    let f = |p: PodDisruptionBudgetView| budget_name(p, pod_labels);
    let names = pdbs.filter_map(f);
    let sorted = order::sorted_texts(names);
    order::lemma_sorted_has(names, seq![]);
    assert forall|i: int| 0 <= i < pdbs.len() && objects::selector_matches((#[trigger] pdbs[i]).selector, pod_labels) implies pdb_warnings(
        pdbs,
        spec,
        pod_labels,
    ).contains(
        "preflight.pdb.selector_overlap: PDB "@ + (if pdbs[i].name is Some {
                    pdbs[i].name->0
                } else {
                    "<unknown>"@
                }) + " selector matches "@ + (spec.workload_kind + "/"@ + spec.name)
                    + " pod labels; rollout may be constrained"@,
    ) by {
        views::lemma_filter_map_has(pdbs, f, i);
        order::lemma_sorted_has(names, f(pdbs[i])->0);
        let k = choose|k: int| 0 <= k < sorted.len() && sorted[k] == f(pdbs[i])->0;
        assert(pdb_warnings(pdbs, spec, pod_labels)[k] == pdb_warning(sorted[k], spec));
    }
    if names.len() > 0 {
        assert(names.contains(names[0]));
        pdbs.lemma_filter_map_contains(f, names[0]);
        let p = choose|p: PodDisruptionBudgetView| #[trigger] pdbs.contains(p) && f(p) == Some(names[0]);
        let i = choose|i: int| 0 <= i < pdbs.len() && pdbs[i] == p;
        assert(objects::selector_matches(pdbs[i].selector, pod_labels));
    }
    if exists|i: int| 0 <= i < pdbs.len() && objects::selector_matches((#[trigger] pdbs[i]).selector, pod_labels) {
        let i = choose|i: int| 0 <= i < pdbs.len() && objects::selector_matches((#[trigger] pdbs[i]).selector, pod_labels);
        views::lemma_filter_map_has(pdbs, f, i);
    }
}

/// What a check found is in the warnings, for each of the checks; one that could not be made is
/// warned of with its name and the reason, and takes nothing from the others.
pub proof fn lemma_each_check_counts(
    findings: PreflightFindings,
    spec: WorkloadResourcesSpecView,
    pod_labels: Seq<KVView>,
    warning: Seq<char>,
)
    ensures
        preflight_warnings(findings, spec, pod_labels).contains(warning) <==> {
            ||| match findings.hpas {
                Ok(hpas) => hpa_warnings(hpas.deep_view(), spec).contains(warning),
                Err(reason) => warning == "preflight.check.unavailable: "@ + "hpa"@ + " unavailable: "@ + reason@,
            }
            ||| match findings.vpas {
                Ok(vpas) => vpa_warnings(vpas.deep_view(), spec).contains(warning),
                Err(reason) => warning == "preflight.check.unavailable: "@ + "vpa"@ + " unavailable: "@ + reason@,
            }
            ||| match findings.limit_ranges {
                Ok(count) => count > 0 && warning == "preflight.limitrange.present: namespace "@ + spec.namespace
                    + " has "@ + text::decimal_of(count as nat) + " LimitRange object(s); requested values may be constrained"@,
                Err(reason) => warning == "preflight.check.unavailable: "@ + "limitrange"@ + " unavailable: "@ + reason@,
            }
            ||| match findings.resource_quotas {
                Ok(count) => count > 0 && warning == "preflight.resourcequota.present: namespace "@ + spec.namespace
                    + " has "@ + text::decimal_of(count as nat) + " ResourceQuota object(s); requested values may exceed quota"@,
                Err(reason) => warning == "preflight.check.unavailable: "@ + "resourcequota"@ + " unavailable: "@ + reason@,
            }
            ||| match findings.pdbs {
                Ok(pdbs) => pdb_warnings(pdbs.deep_view(), spec, pod_labels).contains(warning),
                Err(reason) => warning == "preflight.check.unavailable: "@ + "pdb"@ + " unavailable: "@ + reason@,
            }
        },
{
    let a = merged(
        "hpa"@,
        match findings.hpas {
            Ok(hpas) => Ok(hpa_warnings(hpas.deep_view(), spec)),
            Err(reason) => Err(reason@),
        },
    );
    let b = merged(
        "vpa"@,
        match findings.vpas {
            Ok(vpas) => Ok(vpa_warnings(vpas.deep_view(), spec)),
            Err(reason) => Err(reason@),
        },
    );
    let c = merged(
        "limitrange"@,
        match findings.limit_ranges {
            Ok(count) => Ok(limitrange_warnings(count as nat, spec.namespace)),
            Err(reason) => Err(reason@),
        },
    );
    let d = merged(
        "resourcequota"@,
        match findings.resource_quotas {
            Ok(count) => Ok(resourcequota_warnings(count as nat, spec.namespace)),
            Err(reason) => Err(reason@),
        },
    );
    let e = merged(
        "pdb"@,
        match findings.pdbs {
            Ok(pdbs) => Ok(pdb_warnings(pdbs.deep_view(), spec, pod_labels)),
            Err(reason) => Err(reason@),
        },
    );
    lemma_in_either(a, b, warning);
    lemma_in_either(a + b, c, warning);
    lemma_in_either(a + b + c, d, warning);
    lemma_in_either(a + b + c + d, e, warning);
    lemma_in_one("preflight.check.unavailable: "@ + "hpa"@ + " unavailable: "@ + findings.hpas->Err_0@, warning);
    lemma_in_one("preflight.check.unavailable: "@ + "vpa"@ + " unavailable: "@ + findings.vpas->Err_0@, warning);
    lemma_in_one(
        "preflight.check.unavailable: "@ + "limitrange"@ + " unavailable: "@ + findings.limit_ranges->Err_0@,
        warning,
    );
    lemma_in_one(
        "preflight.check.unavailable: "@ + "resourcequota"@ + " unavailable: "@ + findings.resource_quotas->Err_0@,
        warning,
    );
    lemma_in_one("preflight.check.unavailable: "@ + "pdb"@ + " unavailable: "@ + findings.pdbs->Err_0@, warning);
    if c.len() > 0 {
        lemma_in_one(c[0], warning);
        assert(c =~= seq![c[0]]);
    }
    if d.len() > 0 {
        lemma_in_one(d[0], warning);
        assert(d =~= seq![d[0]]);
    }
}

proof fn lemma_in_either(a: Seq<Seq<char>>, b: Seq<Seq<char>>, x: Seq<char>)
    ensures
        (a + b).contains(x) <==> a.contains(x) || b.contains(x),
{
    if a.contains(x) {
        let i = choose|i: int| 0 <= i < a.len() && a[i] == x;
        assert((a + b)[i] == x);
    }
    if b.contains(x) {
        let i = choose|i: int| 0 <= i < b.len() && b[i] == x;
        assert((a + b)[a.len() + i] == x);
    }
    if (a + b).contains(x) {
        let i = choose|i: int| 0 <= i < (a + b).len() && (a + b)[i] == x;
        if i < a.len() {
            assert(a[i] == x);
        } else {
            assert(b[i - a.len()] == x);
        }
    }
}

proof fn lemma_in_one(a: Seq<char>, x: Seq<char>)
    ensures
        seq![a].contains(x) <==> a == x,
{
    assert(seq![a][0] == a);
}

} // verus!
