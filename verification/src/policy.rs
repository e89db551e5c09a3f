//! The policies that gate actions on the cluster.
//!
//! An action is executed only under a policy that is fresh, ready, covers the namespace and
//! allows the action, the kind of resource and the amounts that are asked for.
use crate::objects::{LabelSelector, LabelSelectorView, ObjectMeta, ObjectMetaView};
use crate::order::str_eq;
use crate::quantity;
use crate::quantity::{parse_cpu_quantity, parse_memory_quantity};
use crate::text;
use crate::text::{eq_ignore_ascii_case, join, list_has, owned, text2, text3, text4, text5};
use crate::views;
use crate::views::{all_items, any_item, DeepClone};
use vstd::prelude::*;

verus! {

/// The namespace in which the agent runs.
pub const UPDATE_AGENT_NAMESPACE: &'static str = "sentinella";

/// The most that a policy lets a workload ask for.
#[derive(Clone, Debug, Default, PartialEq, Eq)]
pub struct SentinellaHubActionPolicyLimits {
    pub max_cpu_limit: Option<String>,
    pub max_memory_limit: Option<String>,
}

/// The view of [`SentinellaHubActionPolicyLimits`].
pub struct SentinellaHubActionPolicyLimitsView {
    pub max_cpu_limit: Option<Seq<char>>,
    pub max_memory_limit: Option<Seq<char>>,
}

impl DeepView for SentinellaHubActionPolicyLimits {
    type V = SentinellaHubActionPolicyLimitsView;

    open spec fn deep_view(&self) -> SentinellaHubActionPolicyLimitsView {
        SentinellaHubActionPolicyLimitsView {
            max_cpu_limit: self.max_cpu_limit.deep_view(),
            max_memory_limit: self.max_memory_limit.deep_view(),
        }
    }
}

impl DeepClone for SentinellaHubActionPolicyLimits {
    fn deep_clone(&self) -> (copy: Self) {
        SentinellaHubActionPolicyLimits {
            max_cpu_limit: self.max_cpu_limit.deep_clone(),
            max_memory_limit: self.max_memory_limit.deep_clone(),
        }
    }
}

/// What a policy allows.
#[derive(Clone, Debug, Default, PartialEq, Eq)]
pub struct SentinellaHubActionPolicySpec {
    pub namespace_selector: Option<LabelSelector>,
    pub allowed_actions: Vec<String>,
    pub allowed_resources: Vec<String>,
    pub approval_required: bool,
    pub limits: Option<SentinellaHubActionPolicyLimits>,
}

/// The view of [`SentinellaHubActionPolicySpec`].
pub struct SentinellaHubActionPolicySpecView {
    pub namespace_selector: Option<LabelSelectorView>,
    pub allowed_actions: Seq<Seq<char>>,
    pub allowed_resources: Seq<Seq<char>>,
    pub approval_required: bool,
    pub limits: Option<SentinellaHubActionPolicyLimitsView>,
}

impl DeepView for SentinellaHubActionPolicySpec {
    type V = SentinellaHubActionPolicySpecView;

    open spec fn deep_view(&self) -> SentinellaHubActionPolicySpecView {
        SentinellaHubActionPolicySpecView {
            namespace_selector: self.namespace_selector.deep_view(),
            allowed_actions: self.allowed_actions.deep_view(),
            allowed_resources: self.allowed_resources.deep_view(),
            approval_required: self.approval_required.deep_view(),
            limits: self.limits.deep_view(),
        }
    }
}

impl DeepClone for SentinellaHubActionPolicySpec {
    fn deep_clone(&self) -> (copy: Self) {
        SentinellaHubActionPolicySpec {
            namespace_selector: self.namespace_selector.deep_clone(),
            allowed_actions: self.allowed_actions.deep_clone(),
            allowed_resources: self.allowed_resources.deep_clone(),
            approval_required: self.approval_required.deep_clone(),
            limits: self.limits.deep_clone(),
        }
    }
}

/// A condition of a policy.
#[derive(Clone, Debug, PartialEq, Eq)]
pub struct SentinellaHubActionPolicyCondition {
    pub type_: String,
    pub status: String,
    pub reason: Option<String>,
    pub message: Option<String>,
    pub observed_generation: Option<i64>,
    pub last_transition_time_ms: Option<u128>,
}

/// The view of [`SentinellaHubActionPolicyCondition`].
pub struct SentinellaHubActionPolicyConditionView {
    pub type_: Seq<char>,
    pub status: Seq<char>,
    pub reason: Option<Seq<char>>,
    pub message: Option<Seq<char>>,
    pub observed_generation: Option<i64>,
    pub last_transition_time_ms: Option<u128>,
}

impl DeepView for SentinellaHubActionPolicyCondition {
    type V = SentinellaHubActionPolicyConditionView;

    open spec fn deep_view(&self) -> SentinellaHubActionPolicyConditionView {
        SentinellaHubActionPolicyConditionView {
            type_: self.type_.deep_view(),
            status: self.status.deep_view(),
            reason: self.reason.deep_view(),
            message: self.message.deep_view(),
            observed_generation: self.observed_generation.deep_view(),
            last_transition_time_ms: self.last_transition_time_ms.deep_view(),
        }
    }
}

impl DeepClone for SentinellaHubActionPolicyCondition {
    fn deep_clone(&self) -> (copy: Self) {
        SentinellaHubActionPolicyCondition {
            type_: self.type_.deep_clone(),
            status: self.status.deep_clone(),
            reason: self.reason.deep_clone(),
            message: self.message.deep_clone(),
            observed_generation: self.observed_generation.deep_clone(),
            last_transition_time_ms: self.last_transition_time_ms.deep_clone(),
        }
    }
}

/// What the operator found out about a policy.
#[derive(Clone, Debug, Default, PartialEq, Eq)]
pub struct SentinellaHubActionPolicyStatus {
    pub effective_namespaces: Vec<String>,
    pub conditions: Vec<SentinellaHubActionPolicyCondition>,
    pub observed_generation: Option<i64>,
    pub last_reconciled_at_ms: Option<u128>,
    pub stale: bool,
}

/// The view of [`SentinellaHubActionPolicyStatus`].
pub struct SentinellaHubActionPolicyStatusView {
    pub effective_namespaces: Seq<Seq<char>>,
    pub conditions: Seq<SentinellaHubActionPolicyConditionView>,
    pub observed_generation: Option<i64>,
    pub last_reconciled_at_ms: Option<u128>,
    pub stale: bool,
}

impl DeepView for SentinellaHubActionPolicyStatus {
    type V = SentinellaHubActionPolicyStatusView;

    open spec fn deep_view(&self) -> SentinellaHubActionPolicyStatusView {
        SentinellaHubActionPolicyStatusView {
            effective_namespaces: self.effective_namespaces.deep_view(),
            conditions: self.conditions.deep_view(),
            observed_generation: self.observed_generation.deep_view(),
            last_reconciled_at_ms: self.last_reconciled_at_ms.deep_view(),
            stale: self.stale.deep_view(),
        }
    }
}

impl DeepClone for SentinellaHubActionPolicyStatus {
    fn deep_clone(&self) -> (copy: Self) {
        SentinellaHubActionPolicyStatus {
            effective_namespaces: self.effective_namespaces.deep_clone(),
            conditions: self.conditions.deep_clone(),
            observed_generation: self.observed_generation.deep_clone(),
            last_reconciled_at_ms: self.last_reconciled_at_ms.deep_clone(),
            stale: self.stale.deep_clone(),
        }
    }
}

/// A policy on the actions that the agent may execute.
#[derive(Clone, Debug, Default, PartialEq, Eq)]
pub struct SentinellaHubActionPolicy {
    pub metadata: ObjectMeta,
    pub spec: SentinellaHubActionPolicySpec,
    pub status: Option<SentinellaHubActionPolicyStatus>,
}

/// The view of [`SentinellaHubActionPolicy`].
pub struct SentinellaHubActionPolicyView {
    pub metadata: ObjectMetaView,
    pub spec: SentinellaHubActionPolicySpecView,
    pub status: Option<SentinellaHubActionPolicyStatusView>,
}

impl DeepView for SentinellaHubActionPolicy {
    type V = SentinellaHubActionPolicyView;

    open spec fn deep_view(&self) -> SentinellaHubActionPolicyView {
        SentinellaHubActionPolicyView {
            metadata: self.metadata.deep_view(),
            spec: self.spec.deep_view(),
            status: self.status.deep_view(),
        }
    }
}

impl DeepClone for SentinellaHubActionPolicy {
    fn deep_clone(&self) -> (copy: Self) {
        SentinellaHubActionPolicy {
            metadata: self.metadata.deep_clone(),
            spec: self.spec.deep_clone(),
            status: self.status.deep_clone(),
        }
    }
}

/// The resources of one side, requests or limits.
#[derive(Clone, Debug, Default, PartialEq, Eq)]
pub struct ResourceMap {
    pub cpu: Option<String>,
    pub memory: Option<String>,
}

/// The view of [`ResourceMap`].
pub struct ResourceMapView {
    pub cpu: Option<Seq<char>>,
    pub memory: Option<Seq<char>>,
}

impl DeepView for ResourceMap {
    type V = ResourceMapView;

    open spec fn deep_view(&self) -> ResourceMapView {
        ResourceMapView {
            cpu: self.cpu.deep_view(),
            memory: self.memory.deep_view(),
        }
    }
}

impl DeepClone for ResourceMap {
    fn deep_clone(&self) -> (copy: Self) {
        ResourceMap {
            cpu: self.cpu.deep_clone(),
            memory: self.memory.deep_clone(),
        }
    }
}

/// A change to the resources of a container.
#[derive(Clone, Debug, PartialEq, Eq)]
pub struct WorkloadResourcesSpec {
    pub workload_kind: String,
    pub namespace: String,
    pub name: String,
    pub container: String,
    pub requests: Option<ResourceMap>,
    pub limits: Option<ResourceMap>,
}

/// The view of [`WorkloadResourcesSpec`].
pub struct WorkloadResourcesSpecView {
    pub workload_kind: Seq<char>,
    pub namespace: Seq<char>,
    pub name: Seq<char>,
    pub container: Seq<char>,
    pub requests: Option<ResourceMapView>,
    pub limits: Option<ResourceMapView>,
}

impl DeepView for WorkloadResourcesSpec {
    type V = WorkloadResourcesSpecView;

    open spec fn deep_view(&self) -> WorkloadResourcesSpecView {
        WorkloadResourcesSpecView {
            workload_kind: self.workload_kind.deep_view(),
            namespace: self.namespace.deep_view(),
            name: self.name.deep_view(),
            container: self.container.deep_view(),
            requests: self.requests.deep_view(),
            limits: self.limits.deep_view(),
        }
    }
}

impl DeepClone for WorkloadResourcesSpec {
    fn deep_clone(&self) -> (copy: Self) {
        WorkloadResourcesSpec {
            workload_kind: self.workload_kind.deep_clone(),
            namespace: self.namespace.deep_clone(),
            name: self.name.deep_clone(),
            container: self.container.deep_clone(),
            requests: self.requests.deep_clone(),
            limits: self.limits.deep_clone(),
        }
    }
}

/// A policy that allows an action.
#[derive(Clone, Debug, PartialEq, Eq)]
pub struct EffectivePolicy {
    pub name: String,
    pub policy: SentinellaHubActionPolicy,
    pub status: SentinellaHubActionPolicyStatus,
}

/// The view of [`EffectivePolicy`].
pub struct EffectivePolicyView {
    pub name: Seq<char>,
    pub policy: SentinellaHubActionPolicyView,
    pub status: SentinellaHubActionPolicyStatusView,
}

impl DeepView for EffectivePolicy {
    type V = EffectivePolicyView;

    open spec fn deep_view(&self) -> EffectivePolicyView {
        EffectivePolicyView {
            name: self.name.deep_view(),
            policy: self.policy.deep_view(),
            status: self.status.deep_view(),
        }
    }
}

impl DeepClone for EffectivePolicy {
    fn deep_clone(&self) -> (copy: Self) {
        EffectivePolicy {
            name: self.name.deep_clone(),
            policy: self.policy.deep_clone(),
            status: self.status.deep_clone(),
        }
    }
}

/// The actions that a policy can allow.
pub open spec fn supported_actions() -> Seq<Seq<char>> {
    seq![
        "rollout_restart"@,
        "scale"@,
        "preview_workload_resources"@,
        "apply_workload_resources"@,
        "self_update"@,
        "update_agent"@,
        "diagnose_postgresql"@,
        "drain_node"@,
    ]
}

/// Whether a policy can allow an action.
pub fn policy_action_is_supported(action: &str) -> (r: bool)
    ensures
        r == supported_actions().contains(action@),
{
    proof {
        let all = supported_actions();
        assert(all[0] == "rollout_restart"@);
        assert(all[1] == "scale"@);
        assert(all[2] == "preview_workload_resources"@);
        assert(all[3] == "apply_workload_resources"@);
        assert(all[4] == "self_update"@);
        assert(all[5] == "update_agent"@);
        assert(all[6] == "diagnose_postgresql"@);
        assert(all[7] == "drain_node"@);
    }
    str_eq(action, "rollout_restart") || str_eq(action, "scale") || str_eq(action, "preview_workload_resources")
        || str_eq(action, "apply_workload_resources") || str_eq(action, "self_update") || str_eq(
        action,
        "update_agent",
    ) || str_eq(action, "diagnose_postgresql") || str_eq(action, "drain_node")
}

/// The actions that are aimed at a workload.
pub open spec fn workload_actions() -> Seq<Seq<char>> {
    seq!["rollout_restart"@, "scale"@, "preview_workload_resources"@, "apply_workload_resources"@]
}

/// Whether an action is aimed at a workload.
pub fn policy_action_targets_workload(action: &str) -> (r: bool)
    ensures
        r == workload_actions().contains(action@),
{
    proof {
        let all = workload_actions();
        assert(all[0] == "rollout_restart"@);
        assert(all[1] == "scale"@);
        assert(all[2] == "preview_workload_resources"@);
        assert(all[3] == "apply_workload_resources"@);
    }
    str_eq(action, "rollout_restart") || str_eq(action, "scale") || str_eq(action, "preview_workload_resources")
        || str_eq(action, "apply_workload_resources")
}

/// The kinds of workload that a policy can allow.
pub open spec fn supported_resources() -> Seq<Seq<char>> {
    seq!["Deployment"@, "StatefulSet"@, "DaemonSet"@]
}

/// Whether a policy can allow a kind of workload.
pub fn policy_resource_is_supported(resource: &str) -> (r: bool)
    ensures
        r == supported_resources().contains(resource@),
{
    proof {
        let all = supported_resources();
        assert(all[0] == "Deployment"@);
        assert(all[1] == "StatefulSet"@);
        assert(all[2] == "DaemonSet"@);
    }
    str_eq(resource, "Deployment") || str_eq(resource, "StatefulSet") || str_eq(resource, "DaemonSet")
}

/// The limits of a policy can be read as quantities.
pub open spec fn limits_valid(limits: Option<SentinellaHubActionPolicyLimitsView>) -> bool {
    limits matches Some(l) ==> {
        &&& l.max_cpu_limit matches Some(cpu) ==> quantity::cpu_quantity(cpu) is Some
        &&& l.max_memory_limit matches Some(memory) ==> quantity::memory_quantity(memory) is Some
    }
}

/// Whether the limits of a policy can be read as quantities.
pub fn policy_limits_are_valid(limits: &Option<SentinellaHubActionPolicyLimits>) -> (r: bool)
    ensures
        r == limits_valid(limits.deep_view()),
{
    match limits {
        Some(l) => {
            let cpu_ok = match &l.max_cpu_limit {
                Some(cpu) => parse_cpu_quantity(cpu.as_str()).is_some(),
                None => true,
            };
            let memory_ok = match &l.max_memory_limit {
                Some(memory) => parse_memory_quantity(memory.as_str()).is_some(),
                None => true,
            };
            cpu_ok && memory_ok
        },
        None => true,
    }
}

/// A status is stale where it has no time, or its time lies further back than it may.
pub open spec fn is_stale(last_reconciled_at_ms: Option<u128>, now_ms: u128, stale_after_ms: u128) -> bool {
    match last_reconciled_at_ms {
        Some(at) => now_ms - at > stale_after_ms,
        None => true,
    }
}

/// Whether a status is stale.
pub fn policy_status_is_stale(last_reconciled_at_ms: Option<u128>, now_ms: u128, stale_after_ms: u128) -> (r: bool)
    ensures
        r == is_stale(last_reconciled_at_ms, now_ms, stale_after_ms),
{
    match last_reconciled_at_ms {
        Some(at) => now_ms.saturating_sub(at) > stale_after_ms,
        None => true,
    }
}

/// How long a status stays fresh, in milliseconds: three polls of the operator, or one where
/// three are too many seconds to count.
pub open spec fn stale_after(poll_interval_secs: u64) -> u128 {
    (if poll_interval_secs * 3 <= u64::MAX {
        poll_interval_secs * 3 * 1000
    } else {
        poll_interval_secs * 1000
    }) as u128
}

/// How long a status stays fresh, in milliseconds.
pub fn stale_after_ms(poll_interval_secs: u64) -> (r: u128)
    ensures
        r == stale_after(poll_interval_secs),
{
    match poll_interval_secs.checked_mul(3) {
        Some(secs) => secs as u128 * 1000,
        None => poll_interval_secs as u128 * 1000,
    }
}

/// A condition of the given type is true.
pub open spec fn condition_holds(
    conditions: Seq<SentinellaHubActionPolicyConditionView>,
    condition_type: Seq<char>,
) -> bool {
    conditions.any(
        |c: SentinellaHubActionPolicyConditionView|
            c.type_ == condition_type && text::ascii_lower(c.status) == text::ascii_lower("true"@),
    )
}

/// Whether a condition of the given type is true.
pub fn condition_true(conditions: &Vec<SentinellaHubActionPolicyCondition>, condition_type: &str) -> (r: bool)
    ensures
        r == condition_holds(conditions.deep_view(), condition_type@),
{
    let test = |c: &SentinellaHubActionPolicyCondition| -> (b: bool)
        ensures
            b == (c.deep_view().type_ == condition_type@ && text::ascii_lower(c.deep_view().status) == text::ascii_lower(
                "true"@,
            )),
        { str_eq(c.type_.as_str(), condition_type) && eq_ignore_ascii_case(c.status.as_str(), "true") };
    any_item(
        conditions,
        test,
        Ghost(
            |c: SentinellaHubActionPolicyConditionView|
                c.type_ == condition_type@ && text::ascii_lower(c.status) == text::ascii_lower("true"@),
        ),
    )
}

// ------------------------------------------------------------------- limits

/// The quantities that are compared.
#[derive(Clone, Copy, Debug, PartialEq, Eq, Structural)]
pub enum Measure {
    Cpu,
    Memory,
}

/// A quantity in the smallest unit of its measure.
pub open spec fn measured(measure: Measure, quantity: Seq<char>) -> Option<int> {
    match measure {
        Measure::Cpu => quantity::cpu_quantity(quantity),
        Measure::Memory => quantity::memory_quantity(quantity),
    }
}

/// A quantity that can be compared: one that can be read, and is not the least number.
pub open spec fn comparable(measure: Measure, quantity: Seq<char>) -> bool {
    measured(measure, quantity) matches Some(n) && n != i128::MIN
}

/// What is wrong with a quantity under a limit.
pub open spec fn limit_violation(
    label: Seq<char>,
    quantity: Seq<char>,
    limit: Seq<char>,
    measure: Measure,
) -> Option<Seq<char>> {
    if !comparable(measure, quantity) {
        Some(label + " "@ + quantity + " is not a valid quantity"@)
    } else if !comparable(measure, limit) {
        Some("policy limit "@ + limit + " is not a valid quantity"@)
    } else if measured(measure, quantity)->0 > measured(measure, limit)->0 {
        Some(label + " "@ + quantity + " exceeds max "@ + limit)
    } else {
        None
    }
}

fn measure_quantity(measure: Measure, quantity: &str) -> (r: i128)
    ensures
        comparable(measure, quantity@) ==> measured(measure, quantity@) == Some(r as int),
        r == i128::MIN <==> !comparable(measure, quantity@),
{
    let parsed = match measure {
        Measure::Cpu => parse_cpu_quantity(quantity),
        Measure::Memory => parse_memory_quantity(quantity),
    };
    match parsed {
        Some(n) => n,
        None => i128::MIN,
    }
}

/// What is wrong with a quantity under a limit.
pub fn quantity_exceeds_limit(label: &str, quantity: &str, limit: &str, measure: Measure) -> (r: Option<String>)
    ensures
        r.deep_view() == limit_violation(label@, quantity@, limit@, measure),
{
    let quantity_value: i128 = measure_quantity(measure, quantity);
    let limit_value: i128 = measure_quantity(measure, limit);
    if quantity_value == i128::MIN {
        Some(text4(label, " ", quantity, " is not a valid quantity"))
    } else if limit_value == i128::MIN {
        Some(text3("policy limit ", limit, " is not a valid quantity"))
    } else if quantity_value > limit_value {
        Some(text5(label, " ", quantity, " exceeds max ", limit))
    } else {
        None
    }
}

/// What is wrong with a quantity that may be asked for, under a limit that may be set.
pub open spec fn violation_of(
    label: Seq<char>,
    quantity: Option<Seq<char>>,
    limit: Option<Seq<char>>,
    measure: Measure,
) -> Seq<Seq<char>> {
    match (quantity, limit) {
        (Some(q), Some(l)) => match limit_violation(label, q, l, measure) {
            Some(reason) => seq![reason],
            None => seq![],
        },
        _ => seq![],
    }
}

/// What one side of a change asks of CPU.
pub open spec fn cpu_of(side: Option<ResourceMapView>) -> Option<Seq<char>> {
    match side {
        Some(map) => map.cpu,
        None => None,
    }
}

/// What one side of a change asks of memory.
pub open spec fn memory_of(side: Option<ResourceMapView>) -> Option<Seq<char>> {
    match side {
        Some(map) => map.memory,
        None => None,
    }
}

/// All that is wrong with a change under the limits of a policy.
pub open spec fn limit_violations(
    limits: SentinellaHubActionPolicyLimitsView,
    spec: WorkloadResourcesSpecView,
) -> Seq<Seq<char>> {
    violation_of("cpu request"@, cpu_of(spec.requests), limits.max_cpu_limit, Measure::Cpu) + violation_of(
        "cpu limit"@,
        cpu_of(spec.limits),
        limits.max_cpu_limit,
        Measure::Cpu,
    ) + violation_of("memory request"@, memory_of(spec.requests), limits.max_memory_limit, Measure::Memory)
        + violation_of("memory limit"@, memory_of(spec.limits), limits.max_memory_limit, Measure::Memory)
}

/// Why the limits of a policy forbid a change.
pub open spec fn limits_reason(
    limits: Option<SentinellaHubActionPolicyLimitsView>,
    spec: WorkloadResourcesSpecView,
) -> Option<Seq<char>> {
    match limits {
        Some(l) => if limit_violations(l, spec).len() == 0 {
            None
        } else {
            Some("limits exceeded: "@ + text::joined(limit_violations(l, spec), ", "@))
        },
        None => None,
    }
}

fn push_violation(
    out: &mut Vec<String>,
    label: &str,
    quantity: Option<&String>,
    limit: &Option<String>,
    measure: Measure,
)
    ensures
        final(out).deep_view() == old(out).deep_view() + violation_of(
            label@,
            quantity.deep_view(),
            limit.deep_view(),
            measure,
        ),
{
    let ghost before = out.deep_view();
    assert(before + Seq::<Seq<char>>::empty() =~= before);
    match quantity {
        Some(q) => match limit {
            Some(l) => match quantity_exceeds_limit(label, q.as_str(), l.as_str(), measure) {
                Some(reason) => {
                    let ghost view = reason@;
                    out.push(reason);
                    assert(out.deep_view() =~= before + seq![view]);
                },
                None => {},
            },
            None => {},
        },
        None => {},
    }
}

fn cpu_side<'a>(side: &'a Option<ResourceMap>) -> (r: Option<&'a String>)
    ensures
        r.deep_view() == cpu_of(side.deep_view()),
{
    match side {
        Some(map) => map.cpu.as_ref(),
        None => None,
    }
}

fn memory_side<'a>(side: &'a Option<ResourceMap>) -> (r: Option<&'a String>)
    ensures
        r.deep_view() == memory_of(side.deep_view()),
{
    match side {
        Some(map) => map.memory.as_ref(),
        None => None,
    }
}

/// Why the limits of a policy forbid a change.
pub fn policy_limits_violation_reason(
    limits: Option<&SentinellaHubActionPolicyLimits>,
    spec: &WorkloadResourcesSpec,
) -> (r: Option<String>)
    ensures
        r.deep_view() == limits_reason(limits.deep_view(), spec.deep_view()),
{
    match limits {
        Some(l) => {
            let mut violations: Vec<String> = Vec::new();
            assert(violations.deep_view() =~= seq![]);
            push_violation(&mut violations, "cpu request", cpu_side(&spec.requests), &l.max_cpu_limit, Measure::Cpu);
            push_violation(&mut violations, "cpu limit", cpu_side(&spec.limits), &l.max_cpu_limit, Measure::Cpu);
            push_violation(
                &mut violations,
                "memory request",
                memory_side(&spec.requests),
                &l.max_memory_limit,
                Measure::Memory,
            );
            push_violation(
                &mut violations,
                "memory limit",
                memory_side(&spec.limits),
                &l.max_memory_limit,
                Measure::Memory,
            );
            assert(violations.deep_view() =~= limit_violations(l.deep_view(), spec.deep_view()));
            if violations.len() == 0 {
                None
            } else {
                Some(text2("limits exceeded: ", join(&violations, ", ").as_str()))
            }
        },
        None => None,
    }
}

// ------------------------------------------------------------------- gates

/// A list that is not empty and all of which is allowed.
pub open spec fn all_known(names: Seq<Seq<char>>, known: Seq<Seq<char>>) -> bool {
    names.len() > 0 && names.all(|n: Seq<char>| known.contains(n))
}

/// Whether a policy declares actions, all of them known.
pub fn actions_declared(actions: &Vec<String>) -> (r: bool)
    ensures
        r == all_known(actions.deep_view(), supported_actions()),
{
    let test = |a: &String| -> (b: bool)
        ensures
            b == supported_actions().contains(a.deep_view()),
        { policy_action_is_supported(a.as_str()) };
    all_items(actions, test, Ghost(|n: Seq<char>| supported_actions().contains(n))) && actions.len() > 0
}

/// Whether a policy declares kinds of workload, all of them known.
pub fn resources_declared(resources: &Vec<String>) -> (r: bool)
    ensures
        r == all_known(resources.deep_view(), supported_resources()),
{
    let test = |a: &String| -> (b: bool)
        ensures
            b == supported_resources().contains(a.deep_view()),
        { policy_resource_is_supported(a.as_str()) };
    all_items(resources, test, Ghost(|n: Seq<char>| supported_resources().contains(n))) && resources.len() > 0
}

/// An action that changes the resources of a workload, or shows what changing them would do.
pub open spec fn changes_resources(command_kind: Seq<char>) -> bool {
    command_kind == "preview_workload_resources"@ || command_kind == "apply_workload_resources"@
}

/// Why a policy does not allow a command: it must declare known actions and this one among
/// them; for a workload it must declare known kinds and this one among them; for a change of
/// resources the amounts must lie within its limits.
pub open spec fn rejection_of(
    policy: SentinellaHubActionPolicyView,
    command_kind: Seq<char>,
    target_kind: Option<Seq<char>>,
    resource_spec: Option<WorkloadResourcesSpecView>,
) -> Option<Seq<char>> {
    if !all_known(policy.spec.allowed_actions, supported_actions()) {
        Some("does not declare any supported actions"@)
    } else if !policy.spec.allowed_actions.contains(command_kind) {
        Some("does not allow action "@ + command_kind)
    } else if workload_actions().contains(command_kind) && target_kind is None {
        Some("is missing a workload target kind"@)
    } else if workload_actions().contains(command_kind) && !all_known(
        policy.spec.allowed_resources,
        supported_resources(),
    ) {
        Some("does not declare any supported workload resources"@)
    } else if workload_actions().contains(command_kind) && !policy.spec.allowed_resources.contains(target_kind->0) {
        Some("does not allow resource "@ + target_kind->0)
    } else if changes_resources(command_kind) && resource_spec is None {
        Some("is missing a workload resources spec"@)
    } else if changes_resources(command_kind) {
        limits_reason(policy.spec.limits, resource_spec->0)
    } else {
        None
    }
}

/// Why a policy does not allow a command.
pub fn policy_rejection_reason_for_command(
    policy: &SentinellaHubActionPolicy,
    command_kind: &str,
    target_kind: Option<&str>,
    resource_spec: Option<&WorkloadResourcesSpec>,
) -> (r: Option<String>)
    ensures
        r.deep_view() == rejection_of(
            policy.deep_view(),
            command_kind@,
            target_kind.deep_view(),
            resource_spec.deep_view(),
        ),
{
    if !actions_declared(&policy.spec.allowed_actions) {
        return Some(owned("does not declare any supported actions"));
    }
    if !list_has(&policy.spec.allowed_actions, command_kind) {
        return Some(text2("does not allow action ", command_kind));
    }
    if policy_action_targets_workload(command_kind) {
        match target_kind {
            None => {
                return Some(owned("is missing a workload target kind"));
            },
            Some(kind) => {
                if !resources_declared(&policy.spec.allowed_resources) {
                    return Some(owned("does not declare any supported workload resources"));
                }
                if !list_has(&policy.spec.allowed_resources, kind) {
                    return Some(text2("does not allow resource ", kind));
                }
            },
        }
    }
    if str_eq(command_kind, "preview_workload_resources") || str_eq(command_kind, "apply_workload_resources") {
        match resource_spec {
            None => Some(owned("is missing a workload resources spec")),
            Some(spec) => policy_limits_violation_reason(policy.spec.limits.as_ref(), spec),
        }
    } else {
        None
    }
}

/// Why the status of a policy is of no use: it is marked stale, has no time or is too old.
pub open spec fn status_rejection_of(
    policy_name: Seq<char>,
    status: SentinellaHubActionPolicyStatusView,
    now_ms: u128,
    stale_after_ms: u128,
) -> Option<Seq<char>> {
    if status.stale {
        Some("policy "@ + policy_name + " status is stale"@)
    } else if status.last_reconciled_at_ms is None {
        Some("policy "@ + policy_name + " status has no freshness timestamp"@)
    } else if is_stale(status.last_reconciled_at_ms, now_ms, stale_after_ms) {
        Some("policy "@ + policy_name + " status is stale"@)
    } else {
        None
    }
}

/// Why the status of a policy is of no use.
pub fn policy_status_rejection_reason(
    policy_name: &str,
    status: &SentinellaHubActionPolicyStatus,
    now_ms: u128,
    stale_after_ms: u128,
) -> (r: Option<String>)
    ensures
        r.deep_view() == status_rejection_of(policy_name@, status.deep_view(), now_ms, stale_after_ms),
{
    if status.stale {
        return Some(text3("policy ", policy_name, " status is stale"));
    }
    if status.last_reconciled_at_ms.is_none() {
        return Some(text3("policy ", policy_name, " status has no freshness timestamp"));
    }
    if policy_status_is_stale(status.last_reconciled_at_ms, now_ms, stale_after_ms) {
        return Some(text3("policy ", policy_name, " status is stale"));
    }
    None
}

/// A policy covers a namespace for a command: the namespace is effective, or it is the agent's
/// own and the command updates the agent.
pub open spec fn covers_namespace(namespace: Seq<char>, command_kind: Seq<char>, effective: Seq<Seq<char>>) -> bool {
    effective.contains(namespace) || (command_kind == "update_agent"@ && namespace == UPDATE_AGENT_NAMESPACE@)
}

/// Whether a policy covers a namespace for a command.
pub fn namespace_is_effective_for_command(
    namespace: &str,
    command_kind: &str,
    effective_namespaces: &Vec<String>,
) -> (r: bool)
    ensures
        r == covers_namespace(namespace@, command_kind@, effective_namespaces.deep_view()),
{
    list_has(effective_namespaces, namespace) || (str_eq(command_kind, "update_agent") && str_eq(
        namespace,
        UPDATE_AGENT_NAMESPACE,
    ))
}

/// What is made of one policy on the way to one that allows an action.
pub enum Verdict {
    /// It says nothing on the action.
    Skip,
    /// It forbids the action, for a reason.
    Reject(String),
    /// It allows the action.
    Accept,
}

/// The view of [`Verdict`].
pub enum VerdictView {
    Skip,
    Reject(Seq<char>),
    Accept,
}

impl DeepView for Verdict {
    type V = VerdictView;

    open spec fn deep_view(&self) -> VerdictView {
        match self {
            Verdict::Skip => VerdictView::Skip,
            Verdict::Reject(reason) => VerdictView::Reject(reason.deep_view()),
            Verdict::Accept => VerdictView::Accept,
        }
    }
}

/// The first policy that is accepted.
pub open spec fn accepted(
    policies: Seq<SentinellaHubActionPolicyView>,
    verdict: spec_fn(SentinellaHubActionPolicyView) -> VerdictView,
) -> Option<SentinellaHubActionPolicyView> {
    views::first_that(policies, |p: SentinellaHubActionPolicyView| verdict(p) is Accept)
}

/// The reasons of the policies that are rejected.
pub open spec fn reasons_of(
    policies: Seq<SentinellaHubActionPolicyView>,
    verdict: spec_fn(SentinellaHubActionPolicyView) -> VerdictView,
) -> Seq<Seq<char>> {
    policies.filter_map(
        |p: SentinellaHubActionPolicyView|
            match verdict(p) {
                VerdictView::Reject(reason) => Some(reason),
                _ => None,
            },
    )
}

/// A policy as it is handed on once it is accepted.
pub open spec fn effective(policy: SentinellaHubActionPolicyView) -> EffectivePolicyView {
    EffectivePolicyView { name: policy.metadata.name->0, policy, status: policy.status->0 }
}

/// The first accepted policy, or the reasons of the rejected ones.
fn select_policy<F: Fn(&SentinellaHubActionPolicy) -> Verdict>(
    policies: &Vec<SentinellaHubActionPolicy>,
    judge: F,
    Ghost(verdict): Ghost<spec_fn(SentinellaHubActionPolicyView) -> VerdictView>,
) -> (r: Result<EffectivePolicy, Vec<String>>)
    requires
        forall|p: &SentinellaHubActionPolicy| judge.requires((p,)),
        forall|p: &SentinellaHubActionPolicy, v: Verdict|
            judge.ensures((p,), v) ==> v.deep_view() == verdict(p.deep_view()),
        forall|p: SentinellaHubActionPolicyView| #[trigger]
            verdict(p) is Accept ==> p.metadata.name is Some && p.status is Some,
    ensures
        match r {
            Ok(policy) => accepted(policies.deep_view(), verdict) matches Some(p) && policy.deep_view() == effective(p),
            Err(reasons) => accepted(policies.deep_view(), verdict) is None && reasons.deep_view() == reasons_of(
                policies.deep_view(),
                verdict,
            ),
        },
{
    let ghost all = policies.deep_view();
    let ghost ok = |p: SentinellaHubActionPolicyView| verdict(p) is Accept;
    let ghost f = |p: SentinellaHubActionPolicyView|
        match verdict(p) {
            VerdictView::Reject(reason) => Some(reason),
            _ => None,
        };
    let mut reasons: Vec<String> = Vec::new();
    let mut i: usize = 0;
    assert(all.subrange(0, all.len() as int) =~= all);
    assert(reasons.deep_view() =~= all.take(0).filter_map(f));
    while i < policies.len()
        invariant
            i <= policies.len(),
            all == policies.deep_view(),
            ok == (|p: SentinellaHubActionPolicyView| verdict(p) is Accept),
            f == (|p: SentinellaHubActionPolicyView|
                match verdict(p) {
                    VerdictView::Reject(reason) => Some(reason),
                    _ => None,
                }),
            views::first_that(all, ok) == views::first_that(all.subrange(i as int, all.len() as int), ok),
            reasons.deep_view() == all.take(i as int).filter_map(f),
            forall|p: &SentinellaHubActionPolicy| judge.requires((p,)),
            forall|p: &SentinellaHubActionPolicy, v: Verdict|
                judge.ensures((p,), v) ==> v.deep_view() == verdict(p.deep_view()),
            forall|p: SentinellaHubActionPolicyView| #[trigger]
                verdict(p) is Accept ==> p.metadata.name is Some && p.status is Some,
        decreases policies.len() - i,
    {
        let ghost before = reasons.deep_view();
        proof {
            assert(all[i as int] == policies@[i as int].deep_view());
            assert(all.subrange(i as int, all.len() as int).drop_first() =~= all.subrange(i + 1, all.len() as int));
            all.lemma_filter_map_take_succ(f, i as int);
            assert(before + Seq::<Seq<char>>::empty() =~= before);
        }
        let policy = &policies[i];
        match judge(policy) {
            Verdict::Skip => {},
            Verdict::Reject(reason) => {
                let ghost view = reason@;
                reasons.push(reason);
                assert(reasons.deep_view() =~= before + seq![view]);
            },
            Verdict::Accept => {
                match (&policy.metadata.name, &policy.status) {
                    (Some(name), Some(status)) => {
                        return Ok(
                            EffectivePolicy {
                                name: name.clone(),
                                policy: policy.deep_clone(),
                                status: status.deep_clone(),
                            },
                        );
                    },
                    _ => {
                        assert(verdict(policy.deep_view()) is Accept);
                    },
                }
            },
        }
        i += 1;
    }
    assert(all.take(policies.len() as int) =~= all);
    Err(reasons)
}

/// The reasons in one line, or what is said where there are none.
pub open spec fn reasons_text(reasons: Seq<Seq<char>>, none: Seq<char>) -> Seq<char> {
    if reasons.len() == 0 {
        none
    } else {
        text::joined(reasons, "; "@)
    }
}

fn join_reasons(reasons: &Vec<String>, none: &str) -> (r: String)
    ensures
        r@ == reasons_text(reasons.deep_view(), none@),
{
    if reasons.len() == 0 {
        owned(none)
    } else {
        join(reasons, "; ")
    }
}

/// What is said of a namespace for which no policy is found.
pub open spec fn namespace_refusal(namespace: Seq<char>, reasons: Seq<Seq<char>>) -> Seq<char> {
    "namespace "@ + namespace + " is not eligible for action: "@ + reasons_text(
        reasons,
        "no Ready policy matched the namespace"@,
    )
}

/// A policy that is ready for any action in a namespace.
pub open spec fn ready_verdict(
    policy: SentinellaHubActionPolicyView,
    namespace: Seq<char>,
    now: u128,
    stale_after_ms: u128,
) -> VerdictView {
    match policy.metadata.name {
        None => VerdictView::Skip,
        Some(name) => match policy.status {
            None => VerdictView::Reject("policy "@ + name + " has no status"@),
            Some(status) => match status_rejection_of(name, status, now, stale_after_ms) {
                Some(reason) => VerdictView::Reject(reason),
                None => if !condition_holds(status.conditions, "Ready"@) {
                    VerdictView::Reject("policy "@ + name + " is not Ready"@)
                } else if !status.effective_namespaces.contains(namespace) {
                    VerdictView::Skip
                } else {
                    VerdictView::Accept
                },
            },
        },
    }
}

/// The first policy that is ready for any action in a namespace.
pub fn ensure_effective_policy_ready(
    policies: &Vec<SentinellaHubActionPolicy>,
    namespace: &str,
    now: u128,
    stale_after_ms: u128,
) -> (r: Result<EffectivePolicy, String>)
    ensures
        ({
            let verdict = |p: SentinellaHubActionPolicyView| ready_verdict(p, namespace@, now, stale_after_ms);
            match r {
                Ok(policy) => accepted(policies.deep_view(), verdict) matches Some(p) && policy.deep_view()
                    == effective(p),
                Err(message) => accepted(policies.deep_view(), verdict) is None && message@ == namespace_refusal(
                    namespace@,
                    reasons_of(policies.deep_view(), verdict),
                ),
            }
        }),
{
    let judge = |p: &SentinellaHubActionPolicy| -> (v: Verdict)
        ensures
            v.deep_view() == ready_verdict(p.deep_view(), namespace@, now, stale_after_ms),
        {
            match &p.metadata.name {
                None => Verdict::Skip,
                Some(name) => match &p.status {
                    None => Verdict::Reject(text3("policy ", name.as_str(), " has no status")),
                    Some(status) => match policy_status_rejection_reason(name.as_str(), status, now, stale_after_ms) {
                        Some(reason) => Verdict::Reject(reason),
                        None => if !condition_true(&status.conditions, "Ready") {
                            Verdict::Reject(text3("policy ", name.as_str(), " is not Ready"))
                        } else if !list_has(&status.effective_namespaces, namespace) {
                            Verdict::Skip
                        } else {
                            Verdict::Accept
                        },
                    },
                },
            }
        };
    let ghost verdict = |p: SentinellaHubActionPolicyView| ready_verdict(p, namespace@, now, stale_after_ms);
    match select_policy(policies, judge, Ghost(verdict)) {
        Ok(policy) => Ok(policy),
        Err(reasons) => Err(
            text4(
                "namespace ",
                namespace,
                " is not eligible for action: ",
                join_reasons(&reasons, "no Ready policy matched the namespace").as_str(),
            ),
        ),
    }
}

/// A policy that allows a command in a namespace; without one, in the cluster as a whole.
pub open spec fn command_verdict(
    policy: SentinellaHubActionPolicyView,
    namespace: Option<Seq<char>>,
    command_kind: Seq<char>,
    target_kind: Option<Seq<char>>,
    resource_spec: Option<WorkloadResourcesSpecView>,
    now: u128,
    stale_after_ms: u128,
) -> VerdictView {
    match policy.metadata.name {
        None => VerdictView::Skip,
        Some(name) => match policy.status {
            None => VerdictView::Reject("policy "@ + name + " has no status"@),
            Some(status) => if status.last_reconciled_at_ms is None {
                VerdictView::Reject("policy "@ + name + " status has no freshness timestamp"@)
            } else if is_stale(status.last_reconciled_at_ms, now, stale_after_ms) {
                VerdictView::Reject("policy "@ + name + " status is stale"@)
            } else if !condition_holds(status.conditions, "Ready"@) {
                VerdictView::Reject("policy "@ + name + " is not Ready"@)
            } else if namespace matches Some(ns) && !covers_namespace(ns, command_kind, status.effective_namespaces) {
                VerdictView::Skip
            } else {
                match rejection_of(policy, command_kind, target_kind, resource_spec) {
                    Some(reason) => VerdictView::Reject("policy "@ + name + " "@ + reason),
                    None => VerdictView::Accept,
                }
            },
        },
    }
}

fn judge_command(
    p: &SentinellaHubActionPolicy,
    namespace: Option<&str>,
    command_kind: &str,
    target_kind: Option<&str>,
    resource_spec: Option<&WorkloadResourcesSpec>,
    now: u128,
    stale_after_ms: u128,
) -> (v: Verdict)
    ensures
        v.deep_view() == command_verdict(
            p.deep_view(),
            namespace.deep_view(),
            command_kind@,
            target_kind.deep_view(),
            resource_spec.deep_view(),
            now,
            stale_after_ms,
        ),
{
    match &p.metadata.name {
        None => Verdict::Skip,
        Some(name) => match &p.status {
            None => Verdict::Reject(text3("policy ", name.as_str(), " has no status")),
            Some(status) => {
                if status.last_reconciled_at_ms.is_none() {
                    return Verdict::Reject(
                        text3("policy ", name.as_str(), " status has no freshness timestamp"),
                    );
                }
                if policy_status_is_stale(status.last_reconciled_at_ms, now, stale_after_ms) {
                    return Verdict::Reject(text3("policy ", name.as_str(), " status is stale"));
                }
                if !condition_true(&status.conditions, "Ready") {
                    return Verdict::Reject(text3("policy ", name.as_str(), " is not Ready"));
                }
                let covered = match namespace {
                    Some(ns) => namespace_is_effective_for_command(ns, command_kind, &status.effective_namespaces),
                    None => true,
                };
                if !covered {
                    return Verdict::Skip;
                }
                match policy_rejection_reason_for_command(p, command_kind, target_kind, resource_spec) {
                    Some(reason) => Verdict::Reject(text4("policy ", name.as_str(), " ", reason.as_str())),
                    None => Verdict::Accept,
                }
            },
        },
    }
}

/// The first policy that allows a command in a namespace.
pub fn ensure_effective_policy_allows(
    policies: &Vec<SentinellaHubActionPolicy>,
    namespace: &str,
    command_kind: &str,
    target_kind: Option<&str>,
    resource_spec: Option<&WorkloadResourcesSpec>,
    now: u128,
    stale_after_ms: u128,
) -> (r: Result<EffectivePolicy, String>)
    ensures
        ({
            let verdict = |p: SentinellaHubActionPolicyView|
                command_verdict(
                    p,
                    Some(namespace@),
                    command_kind@,
                    target_kind.deep_view(),
                    resource_spec.deep_view(),
                    now,
                    stale_after_ms,
                );
            match r {
                Ok(policy) => accepted(policies.deep_view(), verdict) matches Some(p) && policy.deep_view()
                    == effective(p),
                Err(message) => accepted(policies.deep_view(), verdict) is None && message@ == namespace_refusal(
                    namespace@,
                    reasons_of(policies.deep_view(), verdict),
                ),
            }
        }),
{
    let ghost verdict = |p: SentinellaHubActionPolicyView|
        command_verdict(
            p,
            Some(namespace@),
            command_kind@,
            target_kind.deep_view(),
            resource_spec.deep_view(),
            now,
            stale_after_ms,
        );
    let judge = |p: &SentinellaHubActionPolicy| -> (v: Verdict)
        ensures
            v.deep_view() == command_verdict(
                p.deep_view(),
                Some(namespace@),
                command_kind@,
                target_kind.deep_view(),
                resource_spec.deep_view(),
                now,
                stale_after_ms,
            ),
        { judge_command(p, Some(namespace), command_kind, target_kind, resource_spec, now, stale_after_ms) };
    match select_policy(policies, judge, Ghost(verdict)) {
        Ok(policy) => Ok(policy),
        Err(reasons) => Err(
            text4(
                "namespace ",
                namespace,
                " is not eligible for action: ",
                join_reasons(&reasons, "no Ready policy matched the namespace").as_str(),
            ),
        ),
    }
}

/// The first policy that allows a command on the cluster as a whole.
pub fn select_cluster_action_policy(
    policies: &Vec<SentinellaHubActionPolicy>,
    command_kind: &str,
    now: u128,
    stale_after_ms: u128,
) -> (r: Result<EffectivePolicy, String>)
    ensures
        ({
            let verdict = |p: SentinellaHubActionPolicyView|
                command_verdict(p, None, command_kind@, None, None, now, stale_after_ms);
            match r {
                Ok(policy) => accepted(policies.deep_view(), verdict) matches Some(p) && policy.deep_view()
                    == effective(p),
                Err(message) => accepted(policies.deep_view(), verdict) is None && message@ == "cluster action "@
                    + command_kind@ + " is not eligible: "@ + reasons_text(
                    reasons_of(policies.deep_view(), verdict),
                    "no Ready policy matched the cluster action"@,
                ),
            }
        }),
{
    let ghost verdict = |p: SentinellaHubActionPolicyView|
        command_verdict(p, None, command_kind@, None, None, now, stale_after_ms);
    let judge = |p: &SentinellaHubActionPolicy| -> (v: Verdict)
        ensures
            v.deep_view() == command_verdict(p.deep_view(), None, command_kind@, None, None, now, stale_after_ms),
        { judge_command(p, None, command_kind, None, None, now, stale_after_ms) };
    match select_policy(policies, judge, Ghost(verdict)) {
        Ok(policy) => Ok(policy),
        Err(reasons) => Err(
            text4(
                "cluster action ",
                command_kind,
                " is not eligible: ",
                join_reasons(&reasons, "no Ready policy matched the cluster action").as_str(),
            ),
        ),
    }
}

/// Why no policy allows a command in a namespace, where none does.
pub open spec fn command_refusal(
    policies: Seq<SentinellaHubActionPolicyView>,
    namespace: Seq<char>,
    command_kind: Seq<char>,
    target_kind: Option<Seq<char>>,
    resource_spec: Option<WorkloadResourcesSpecView>,
    now: u128,
    stale_after_ms: u128,
) -> Option<Seq<char>> {
    let verdict = |p: SentinellaHubActionPolicyView|
        command_verdict(p, Some(namespace), command_kind, target_kind, resource_spec, now, stale_after_ms);
    if accepted(policies, verdict) is Some {
        None
    } else {
        Some(namespace_refusal(namespace, reasons_of(policies, verdict)))
    }
}

/// Why no policy allows a command in a namespace, where none does.
pub fn refuse_command(
    policies: &Vec<SentinellaHubActionPolicy>,
    namespace: &str,
    command_kind: &str,
    target_kind: Option<&str>,
    resource_spec: Option<&WorkloadResourcesSpec>,
    now: u128,
    stale_after_ms: u128,
) -> (r: Option<String>)
    ensures
        r.deep_view() == command_refusal(
            policies.deep_view(),
            namespace@,
            command_kind@,
            target_kind.deep_view(),
            resource_spec.deep_view(),
            now,
            stale_after_ms,
        ),
{
    match ensure_effective_policy_allows(
        policies,
        namespace,
        command_kind,
        target_kind,
        resource_spec,
        now,
        stale_after_ms,
    ) {
        Ok(_) => None,
        Err(message) => Some(message),
    }
}

/// Why no policy allows a command on the cluster, where none does.
pub open spec fn cluster_refusal(
    policies: Seq<SentinellaHubActionPolicyView>,
    command_kind: Seq<char>,
    now: u128,
    stale_after_ms: u128,
) -> Option<Seq<char>> {
    let verdict = |p: SentinellaHubActionPolicyView|
        command_verdict(p, None, command_kind, None, None, now, stale_after_ms);
    if accepted(policies, verdict) is Some {
        None
    } else {
        Some(
            "cluster action "@ + command_kind + " is not eligible: "@ + reasons_text(
                reasons_of(policies, verdict),
                "no Ready policy matched the cluster action"@,
            ),
        )
    }
}

/// Why no policy allows a command on the cluster, where none does.
pub fn refuse_cluster_action(
    policies: &Vec<SentinellaHubActionPolicy>,
    command_kind: &str,
    now: u128,
    stale_after_ms: u128,
) -> (r: Option<String>)
    ensures
        r.deep_view() == cluster_refusal(policies.deep_view(), command_kind@, now, stale_after_ms),
{
    match select_cluster_action_policy(policies, command_kind, now, stale_after_ms) {
        Ok(_) => None,
        Err(message) => Some(message),
    }
}

/// What is said where the policies cannot be listed.
pub fn policies_not_listed(error: &str) -> (r: String)
    ensures
        r@ == "failed to list SentinellaHubActionPolicy: "@ + error@,
{
    text2("failed to list SentinellaHubActionPolicy: ", error)
}

/// What is said where a policy cannot be read.
pub fn policy_not_read(error: &str) -> (r: String)
    ensures
        r@ == "failed to deserialize SentinellaHubActionPolicy: "@ + error@,
{
    text2("failed to deserialize SentinellaHubActionPolicy: ", error)
}

// ------------------------------------------------------------------- laws

/// A policy that allows a command is fresh, ready, covers the namespace, and declares the action
/// among actions that are all known; one for a workload declares the kind of workload too.
pub proof fn lemma_accepted_policy_is_sound(
    policy: SentinellaHubActionPolicyView,
    namespace: Option<Seq<char>>,
    command_kind: Seq<char>,
    target_kind: Option<Seq<char>>,
    resource_spec: Option<WorkloadResourcesSpecView>,
    now: u128,
    stale_after_ms: u128,
)
    requires
        command_verdict(
            policy,
            namespace,
            command_kind,
            target_kind,
            resource_spec,
            now,
            stale_after_ms,
        ) is Accept,
    ensures
        policy.status matches Some(status) && {
            &&& !is_stale(status.last_reconciled_at_ms, now, stale_after_ms)
            &&& condition_holds(status.conditions, "Ready"@)
            &&& namespace matches Some(ns) ==> covers_namespace(ns, command_kind, status.effective_namespaces)
        },
        policy.spec.allowed_actions.contains(command_kind),
        supported_actions().contains(command_kind),
        workload_actions().contains(command_kind) ==> (target_kind matches Some(kind)
            && policy.spec.allowed_resources.contains(kind) && supported_resources().contains(kind)),
        changes_resources(command_kind) ==> (resource_spec matches Some(spec) && limits_reason(
            policy.spec.limits,
            spec,
        ) is None),
{
    let known_action = |n: Seq<char>| supported_actions().contains(n);
    let i = choose|i: int|
        0 <= i < policy.spec.allowed_actions.len() && policy.spec.allowed_actions[i] == command_kind;
    assert(known_action(policy.spec.allowed_actions[i]));
    if workload_actions().contains(command_kind) {
        let known_resource = |n: Seq<char>| supported_resources().contains(n);
        let kind = target_kind->0;
        let j = choose|j: int|
            0 <= j < policy.spec.allowed_resources.len() && policy.spec.allowed_resources[j] == kind;
        assert(known_resource(policy.spec.allowed_resources[j]));
    }
}

/// Under a policy with limits that allows a change of resources, each amount that the change
/// asks for can be read and is not above its limit.
pub proof fn lemma_accepted_amounts_within_limits(
    limits: SentinellaHubActionPolicyLimitsView,
    spec: WorkloadResourcesSpecView,
)
    requires
        limits_reason(Some(limits), spec) is None,
    ensures
        limits.max_cpu_limit matches Some(max) ==> {
            &&& cpu_of(spec.requests) matches Some(q) ==> quantity::cpu_quantity(q) is Some && quantity::cpu_quantity(max) is Some
                && quantity::cpu_quantity(q)->0 <= quantity::cpu_quantity(max)->0
            &&& cpu_of(spec.limits) matches Some(q) ==> quantity::cpu_quantity(q) is Some && quantity::cpu_quantity(max) is Some
                && quantity::cpu_quantity(q)->0 <= quantity::cpu_quantity(max)->0
        },
        limits.max_memory_limit matches Some(max) ==> {
            &&& memory_of(spec.requests) matches Some(q) ==> quantity::memory_quantity(q) is Some && quantity::memory_quantity(max) is Some
                && quantity::memory_quantity(q)->0 <= quantity::memory_quantity(max)->0
            &&& memory_of(spec.limits) matches Some(q) ==> quantity::memory_quantity(q) is Some && quantity::memory_quantity(max) is Some
                && quantity::memory_quantity(q)->0 <= quantity::memory_quantity(max)->0
        },
{
    let a = violation_of("cpu request"@, cpu_of(spec.requests), limits.max_cpu_limit, Measure::Cpu);
    let b = violation_of("cpu limit"@, cpu_of(spec.limits), limits.max_cpu_limit, Measure::Cpu);
    let c = violation_of("memory request"@, memory_of(spec.requests), limits.max_memory_limit, Measure::Memory);
    let d = violation_of("memory limit"@, memory_of(spec.limits), limits.max_memory_limit, Measure::Memory);
    assert((a + b + c + d).len() == a.len() + b.len() + c.len() + d.len());
}

// ------------------------------------------------------------- what it is for

/// An amount can be compared: it can be read, and is not the least number there is.
pub open spec fn is_amount(amount: Option<int>) -> bool {
    amount is Some && amount->0 != i128::MIN
}

/// An amount that is asked for keeps to a limit, or there is no limit for it.
pub open spec fn keeps_to(asked: Option<Seq<char>>, limit: Option<Seq<char>>, cpu: bool) -> bool {
    asked is Some && limit is Some ==> if cpu {
        is_amount(quantity::cpu_quantity(asked->0)) && is_amount(quantity::cpu_quantity(limit->0)) && quantity::cpu_quantity(asked->0)->0
            <= quantity::cpu_quantity(limit->0)->0
    } else {
        is_amount(quantity::memory_quantity(asked->0)) && is_amount(quantity::memory_quantity(limit->0)) && quantity::memory_quantity(asked->0)->0
            <= quantity::memory_quantity(limit->0)->0
    }
}

/// The amounts of a change keep to the limits of a policy.
pub open spec fn keeps_to_limits(
    limits: Option<SentinellaHubActionPolicyLimitsView>,
    spec: WorkloadResourcesSpecView,
) -> bool {
    limits matches Some(l) ==> {
        &&& spec.requests matches Some(side) ==> keeps_to(side.cpu, l.max_cpu_limit, true) && keeps_to(
            side.memory,
            l.max_memory_limit,
            false,
        )
        &&& spec.limits matches Some(side) ==> keeps_to(side.cpu, l.max_cpu_limit, true) && keeps_to(
            side.memory,
            l.max_memory_limit,
            false,
        )
    }
}

/// The limits of a policy give no reason against a change exactly where each amount that the change
/// asks for can be read and is at most the limit of its measure, where there is one.
pub proof fn lemma_limits_refuse_only_what_exceeds(
    limits: Option<SentinellaHubActionPolicyLimitsView>,
    spec: WorkloadResourcesSpecView,
)
    ensures
        limits_reason(limits, spec) is None <==> keeps_to_limits(limits, spec),
{
    if let Some(l) = limits {
        let a = violation_of("cpu request"@, cpu_of(spec.requests), l.max_cpu_limit, Measure::Cpu);
        let b = violation_of("cpu limit"@, cpu_of(spec.limits), l.max_cpu_limit, Measure::Cpu);
        let c = violation_of("memory request"@, memory_of(spec.requests), l.max_memory_limit, Measure::Memory);
        let d = violation_of("memory limit"@, memory_of(spec.limits), l.max_memory_limit, Measure::Memory);
        assert((a + b + c + d).len() == a.len() + b.len() + c.len() + d.len());
    }
}

/// A change that a policy's limits refuse is refused with a text that names each amount that is
/// above its limit, and the limit.
pub proof fn lemma_excess_is_named(
    limits: SentinellaHubActionPolicyLimitsView,
    spec: WorkloadResourcesSpecView,
    asked: Seq<char>,
    max: Seq<char>,
)
    requires
        spec.requests matches Some(side) && side.cpu == Some(asked),
        limits.max_cpu_limit == Some(max),
        is_amount(quantity::cpu_quantity(asked)) && is_amount(quantity::cpu_quantity(max)) && quantity::cpu_quantity(asked)->0 > quantity::cpu_quantity(max)->0,
    ensures
        limits_reason(Some(limits), spec) matches Some(reason) && text::contains_text(reason, asked) && text::contains_text(
            reason,
            max,
        ),
{
    let all = limit_violations(limits, spec);
    let first = "cpu request"@ + " "@ + asked + " exceeds max "@ + max;
    let a = violation_of("cpu request"@, cpu_of(spec.requests), limits.max_cpu_limit, Measure::Cpu);
    assert(a =~= seq![first]);
    assert(all[0] == first);
    text::lemma_joined_holds_each(all, ", "@, 0);
    let list = text::joined(all, ", "@);
    text::lemma_held_in_longer("limits exceeded: "@, list, seq![], first);
    let reason = "limits exceeded: "@ + list;
    assert(reason =~= "limits exceeded: "@ + list + seq![]);
    let k = choose|k: int| #[trigger] text::occurs_at(reason, first, k);
    let x = ("cpu request"@ + " "@).len() as int;
    assert(reason.subrange(k + x, k + x + asked.len()) =~= first.subrange(x, x + asked.len()));
    assert(first.subrange(x, x + asked.len()) =~= asked);
    assert(text::occurs_at(reason, asked, k + x));
    let y = first.len() - max.len();
    assert(reason.subrange(k + y, k + y + max.len()) =~= first.subrange(y, y + max.len()));
    assert(first.subrange(y, y + max.len()) =~= max);
    assert(text::occurs_at(reason, max, k + y));
}

/// A command is one that a policy can allow at all.
pub open spec fn is_known_action(name: Seq<char>) -> bool {
    name == "rollout_restart"@ || name == "scale"@ || name == "preview_workload_resources"@ || name
        == "apply_workload_resources"@ || name == "self_update"@ || name == "update_agent"@ || name
        == "diagnose_postgresql"@ || name == "drain_node"@
}

/// A command acts on a workload.
pub open spec fn acts_on_workload(name: Seq<char>) -> bool {
    name == "rollout_restart"@ || name == "scale"@ || name == "preview_workload_resources"@ || name
        == "apply_workload_resources"@
}

/// A workload is of a kind that a policy can allow at all.
pub open spec fn is_known_kind(name: Seq<char>) -> bool {
    name == "Deployment"@ || name == "StatefulSet"@ || name == "DaemonSet"@
}

/// A policy allows a command: it has a name; its status is not too old and says that it is ready;
/// the namespace, where there is one, is among its effective ones, or is the agent's own and the
/// agent is to be updated; it names the command, and nothing that is not known; where the command
/// acts on a workload, it names the kind of workload, and nothing that is not known; and the change
/// of resources, where the command makes one, keeps to its limits.
pub open spec fn policy_allows(
    policy: SentinellaHubActionPolicyView,
    namespace: Option<Seq<char>>,
    command_kind: Seq<char>,
    target_kind: Option<Seq<char>>,
    resource_spec: Option<WorkloadResourcesSpecView>,
    now: u128,
    stale_after_ms: u128,
) -> bool {
    &&& policy.metadata.name is Some
    &&& policy.status matches Some(status) && {
        &&& status.last_reconciled_at_ms matches Some(at) && now <= at + stale_after_ms
        &&& exists|i: int|
            0 <= i < status.conditions.len() && (#[trigger] status.conditions[i]).type_ == "Ready"@ && text::ascii_lower(
                status.conditions[i].status,
            ) == text::ascii_lower("true"@)
        &&& namespace matches Some(ns) ==> status.effective_namespaces.contains(ns) || (command_kind
            == "update_agent"@ && ns == "sentinella"@)
    }
    &&& policy.spec.allowed_actions.contains(command_kind)
    &&& forall|i: int|
        0 <= i < policy.spec.allowed_actions.len() ==> is_known_action(#[trigger] policy.spec.allowed_actions[i])
    &&& acts_on_workload(command_kind) ==> {
        &&& target_kind matches Some(kind) && policy.spec.allowed_resources.contains(kind)
        &&& forall|i: int|
            0 <= i < policy.spec.allowed_resources.len() ==> is_known_kind(#[trigger] policy.spec.allowed_resources[i])
    }
    &&& command_kind == "preview_workload_resources"@ || command_kind == "apply_workload_resources"@ ==> (
    resource_spec matches Some(spec) && keeps_to_limits(policy.spec.limits, spec))
}

/// The names that policies may use are the known ones.
pub proof fn lemma_known_names(name: Seq<char>)
    ensures
        supported_actions().contains(name) <==> is_known_action(name),
        workload_actions().contains(name) <==> acts_on_workload(name),
        supported_resources().contains(name) <==> is_known_kind(name),
{
    let a = supported_actions();
    assert(a[0] == "rollout_restart"@ && a[1] == "scale"@ && a[2] == "preview_workload_resources"@ && a[3]
        == "apply_workload_resources"@ && a[4] == "self_update"@ && a[5] == "update_agent"@ && a[6]
        == "diagnose_postgresql"@ && a[7] == "drain_node"@);
    let w = workload_actions();
    assert(w[0] == "rollout_restart"@ && w[1] == "scale"@ && w[2] == "preview_workload_resources"@ && w[3]
        == "apply_workload_resources"@);
    let k = supported_resources();
    assert(k[0] == "Deployment"@ && k[1] == "StatefulSet"@ && k[2] == "DaemonSet"@);
}

/// A list of names is taken exactly where it is not empty and holds known names alone.
pub proof fn lemma_all_known(names: Seq<Seq<char>>)
    ensures
        all_known(names, supported_actions()) <==> names.len() > 0 && forall|i: int|
            0 <= i < names.len() ==> is_known_action(#[trigger] names[i]),
        all_known(names, supported_resources()) <==> names.len() > 0 && forall|i: int|
            0 <= i < names.len() ==> is_known_kind(#[trigger] names[i]),
{
    let action = |n: Seq<char>| supported_actions().contains(n);
    let kind = |n: Seq<char>| supported_resources().contains(n);
    assert forall|i: int| 0 <= i < names.len() implies action(#[trigger] names[i]) == is_known_action(names[i])
        && kind(names[i]) == is_known_kind(names[i]) by {
        lemma_known_names(names[i]);
    }
    if names.all(action) {
        assert forall|i: int| 0 <= i < names.len() implies is_known_action(#[trigger] names[i]) by {
            assert(action(names[i]));
        }
    }
    if names.all(kind) {
        assert forall|i: int| 0 <= i < names.len() implies is_known_kind(#[trigger] names[i]) by {
            assert(kind(names[i]));
        }
    }
}

/// A policy accepts a command exactly where it allows it.
pub proof fn lemma_policy_accepts_what_it_allows(
    policy: SentinellaHubActionPolicyView,
    namespace: Option<Seq<char>>,
    command_kind: Seq<char>,
    target_kind: Option<Seq<char>>,
    resource_spec: Option<WorkloadResourcesSpecView>,
    now: u128,
    stale_after_ms: u128,
)
    ensures
        command_verdict(policy, namespace, command_kind, target_kind, resource_spec, now, stale_after_ms) is Accept
            <==> policy_allows(policy, namespace, command_kind, target_kind, resource_spec, now, stale_after_ms),
{
    lemma_all_known(policy.spec.allowed_actions);
    lemma_all_known(policy.spec.allowed_resources);
    lemma_known_names(command_kind);
    if let Some(spec) = resource_spec {
        lemma_limits_refuse_only_what_exceeds(policy.spec.limits, spec);
    }
    if let Some(status) = policy.status {
        let ready = |c: SentinellaHubActionPolicyConditionView|
            c.type_ == "Ready"@ && text::ascii_lower(c.status) == text::ascii_lower("true"@);
        assert(condition_holds(status.conditions, "Ready"@) == status.conditions.any(ready));
        if exists|i: int|
            0 <= i < status.conditions.len() && (#[trigger] status.conditions[i]).type_ == "Ready"@ && text::ascii_lower(
                status.conditions[i].status,
            ) == text::ascii_lower("true"@) {
            let i = choose|i: int|
                0 <= i < status.conditions.len() && (#[trigger] status.conditions[i]).type_ == "Ready"@ && text::ascii_lower(
                    status.conditions[i].status,
                ) == text::ascii_lower("true"@);
            assert(ready(status.conditions[i]));
        }
        if status.conditions.any(ready) {
            let i = choose|i: int| 0 <= i < status.conditions.len() && ready(status.conditions[i]);
            assert(status.conditions[i].type_ == "Ready"@);
        }
    }
    if policy.spec.allowed_actions.contains(command_kind) {
        let i = choose|i: int|
            0 <= i < policy.spec.allowed_actions.len() && policy.spec.allowed_actions[i] == command_kind;
        assert(policy.spec.allowed_actions.len() > 0);
    }
    if target_kind is Some && policy.spec.allowed_resources.contains(target_kind->0) {
        let i = choose|i: int|
            0 <= i < policy.spec.allowed_resources.len() && policy.spec.allowed_resources[i] == target_kind->0;
        assert(policy.spec.allowed_resources.len() > 0);
    }
}

/// A command in a namespace is refused exactly where no policy allows it; so is one on the cluster.
/// What is refused is refused with a text that names the namespace or the command.
pub proof fn lemma_refused_unless_some_policy_allows(
    policies: Seq<SentinellaHubActionPolicyView>,
    namespace: Seq<char>,
    command_kind: Seq<char>,
    target_kind: Option<Seq<char>>,
    resource_spec: Option<WorkloadResourcesSpecView>,
    now: u128,
    stale_after_ms: u128,
)
    ensures
        command_refusal(policies, namespace, command_kind, target_kind, resource_spec, now, stale_after_ms) is None
            <==> exists|i: int|
            0 <= i < policies.len() && policy_allows(
                #[trigger] policies[i],
                Some(namespace),
                command_kind,
                target_kind,
                resource_spec,
                now,
                stale_after_ms,
            ),
        cluster_refusal(policies, command_kind, now, stale_after_ms) is None <==> exists|i: int|
            0 <= i < policies.len() && policy_allows(
                #[trigger] policies[i],
                None,
                command_kind,
                None,
                None,
                now,
                stale_after_ms,
            ),
        command_refusal(policies, namespace, command_kind, target_kind, resource_spec, now, stale_after_ms) matches Some(
            reason,
        ) ==> text::has_prefix(reason, "namespace "@ + namespace),
        cluster_refusal(policies, command_kind, now, stale_after_ms) matches Some(reason) ==> text::has_prefix(
            reason,
            "cluster action "@ + command_kind,
        ),
{
    let verdict = |p: SentinellaHubActionPolicyView|
        command_verdict(p, Some(namespace), command_kind, target_kind, resource_spec, now, stale_after_ms);
    views::lemma_first_that_is_there(policies, |p: SentinellaHubActionPolicyView| verdict(p) is Accept);
    let wide = |p: SentinellaHubActionPolicyView|
        command_verdict(p, None, command_kind, None, None, now, stale_after_ms);
    views::lemma_first_that_is_there(policies, |p: SentinellaHubActionPolicyView| wide(p) is Accept);
    assert forall|i: int| 0 <= i < policies.len() implies (verdict(#[trigger] policies[i]) is Accept <==> policy_allows(
        policies[i],
        Some(namespace),
        command_kind,
        target_kind,
        resource_spec,
        now,
        stale_after_ms,
    )) && (wide(policies[i]) is Accept <==> policy_allows(
        policies[i],
        None,
        command_kind,
        None,
        None,
        now,
        stale_after_ms,
    )) by {
        lemma_policy_accepts_what_it_allows(
            policies[i],
            Some(namespace),
            command_kind,
            target_kind,
            resource_spec,
            now,
            stale_after_ms,
        );
        lemma_policy_accepts_what_it_allows(policies[i], None, command_kind, None, None, now, stale_after_ms);
    }
    if let Some(reason) = command_refusal(
        policies,
        namespace,
        command_kind,
        target_kind,
        resource_spec,
        now,
        stale_after_ms,
    ) {
        let head = "namespace "@ + namespace;
        assert(reason.subrange(0, head.len() as int) =~= head);
    }
    if let Some(reason) = cluster_refusal(policies, command_kind, now, stale_after_ms) {
        let head = "cluster action "@ + command_kind;
        assert(reason.subrange(0, head.len() as int) =~= head);
    }
}

/// A status is too old three polls after it was made, and one without a time always is.
pub proof fn lemma_status_grows_old(at: u128, now: u128, poll_interval_secs: u64)
    ensures
        is_stale(None, now, stale_after(poll_interval_secs)),
        poll_interval_secs * 3 <= u64::MAX ==> (is_stale(Some(at), now, stale_after(poll_interval_secs)) <==> now - at
            > poll_interval_secs * 3000),
        !is_stale(Some(now), now, stale_after(poll_interval_secs)),
{
}

/// A policy's limits are in order exactly where each limit that is set can be read.
pub proof fn lemma_limits_in_order(limits: SentinellaHubActionPolicyLimitsView)
    ensures
        limits_valid(None),
        limits_valid(Some(limits)) <==> !(limits.max_cpu_limit is Some && quantity::cpu_quantity(limits.max_cpu_limit->0) is None)
            && !(limits.max_memory_limit is Some && quantity::memory_quantity(limits.max_memory_limit->0) is None),
{
}

/// Where a policy is looked for by namespace alone, one is taken only where its status is neither
/// marked nor too old, says that it is ready, and holds the namespace; and every such policy is.
pub proof fn lemma_ready_policy_is_taken(
    policy: SentinellaHubActionPolicyView,
    namespace: Seq<char>,
    now: u128,
    stale_after_ms: u128,
)
    ensures
        ready_verdict(policy, namespace, now, stale_after_ms) is Accept <==> {
            &&& policy.metadata.name is Some
            &&& policy.status matches Some(status) && {
                &&& !status.stale
                &&& status.last_reconciled_at_ms matches Some(at) && now <= at + stale_after_ms
                &&& condition_holds(status.conditions, "Ready"@)
                &&& status.effective_namespaces.contains(namespace)
            }
        },
{
}

} // verus!
