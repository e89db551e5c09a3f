//! Signs of operational maturity: a descheduler, autoscalers and scheduled jobs.
use crate::cluster;
use crate::json_value;
use crate::json_value::{JsonNode, text_at};
use crate::model::{
    DeschedulerInfo, DeschedulerInfoView, ScheduledJobInfo, ScheduledJobInfoView, VpaInfo, VpaInfoView,
};
use crate::objects;
use crate::objects::{CronJob, CronJobView, Deployment, DeploymentView, meta_precedes};
use crate::order;
use crate::order::{sort_distinct, sort_in_order, str_eq};
use crate::pairs;
use crate::pairs::opt_pair_value;
use crate::text::owned;
use crate::views;
use crate::views::{any_item, DeepClone, find_item, map_items, opt_str};
use vstd::prelude::*;

verus! {

/// The namespace of the descheduler operator of OpenShift.
pub const DESCHEDULER_NS: &'static str = "openshift-kube-descheduler-operator";

/// The scheduled jobs in the order of a snapshot.
pub fn sort_cronjobs_for_snapshot(cronjobs: &mut Vec<CronJob>)
    ensures
        final(cronjobs).deep_view() == order::in_order(old(cronjobs).deep_view(), objects::by_place(|c: CronJobView| c.metadata)),
{
    let mut all: Vec<CronJob> = Vec::new();
    std::mem::swap(&mut all, cronjobs);
    let precedes = |a: &CronJob, b: &CronJob| -> (r: bool)
        ensures
            r == objects::meta_le(a.deep_view().metadata, b.deep_view().metadata),
        { meta_precedes(&a.metadata, &b.metadata) };
    *cronjobs = sort_in_order(all, precedes, Ghost(objects::by_place(|c: CronJobView| c.metadata)));
}

// ----------------------------------------------------------------- descheduler

/// A deployment is named like a descheduler.
pub open spec fn is_descheduler(deployment: DeploymentView) -> bool {
    let name = views::text_or(deployment.metadata.name, ""@);
    name == "descheduler"@ || name == "openshift-descheduler"@ || name == "kube-descheduler"@
}

/// A deployment stands in the namespace of the descheduler operator.
pub open spec fn in_descheduler_namespace(deployment: DeploymentView) -> bool {
    deployment.metadata.namespace == Some(DESCHEDULER_NS@)
}

/// The strategy that a descheduler's selector tells.
pub open spec fn strategy_of(deployment: DeploymentView) -> Option<Seq<char>> {
    match deployment.spec {
        Some(spec) => match pairs::opt_value_of(spec.selector.match_labels, "descheduler"@) {
            Some(strategy) => Some(strategy),
            None => pairs::opt_value_of(spec.selector.match_labels, "app"@),
        },
        None => None,
    }
}

/// What the deployments tell of a descheduler: the first one that is named like it, or else that
/// its operator's namespace holds one.
pub open spec fn descheduler_info(deployments: Seq<DeploymentView>) -> DeschedulerInfoView {
    match views::first_that(deployments, |d: DeploymentView| is_descheduler(d)) {
        Some(deployment) => DeschedulerInfoView {
            installed: true,
            detected_by: Some("deployment"@),
            namespace: deployment.metadata.namespace,
            strategy: strategy_of(deployment),
            schedule: None,
        },
        None => if deployments.any(|d: DeploymentView| in_descheduler_namespace(d)) {
            DeschedulerInfoView {
                installed: true,
                detected_by: Some("namespace"@),
                namespace: Some(DESCHEDULER_NS@),
                strategy: None,
                schedule: None,
            }
        } else {
            DeschedulerInfoView {
                installed: false,
                detected_by: None,
                namespace: None,
                strategy: None,
                schedule: None,
            }
        },
    }
}

fn descheduler_strategy(deployment: &Deployment) -> (r: Option<String>)
    ensures
        r.deep_view() == strategy_of(deployment.deep_view()),
{
    match &deployment.spec {
        Some(spec) => match opt_pair_value(&spec.selector.match_labels, "descheduler") {
            Some(strategy) => Some(strategy),
            None => opt_pair_value(&spec.selector.match_labels, "app"),
        },
        None => None,
    }
}

/// What the deployments tell of a descheduler.
pub fn detect_descheduler(deployments: &Vec<Deployment>) -> (r: DeschedulerInfo)
    ensures
        r.deep_view() == descheduler_info(deployments.deep_view()),
{
    let named = |d: &Deployment| -> (r: bool)
        ensures
            r == is_descheduler(d.deep_view()),
        {
            let name = opt_str(&d.metadata.name, "");
            str_eq(name, "descheduler") || str_eq(name, "openshift-descheduler") || str_eq(name, "kube-descheduler")
        };
    let placed = |d: &Deployment| -> (r: bool)
        ensures
            r == in_descheduler_namespace(d.deep_view()),
        {
            match &d.metadata.namespace {
                Some(namespace) => str_eq(namespace.as_str(), DESCHEDULER_NS),
                None => false,
            }
        };
    if let Some(i) = find_item(deployments, named, Ghost(|d: DeploymentView| is_descheduler(d))) {
        return DeschedulerInfo {
            installed: true,
            detected_by: Some(owned("deployment")),
            namespace: deployments[i].metadata.namespace.deep_clone(),
            strategy: descheduler_strategy(&deployments[i]),
            schedule: None,
        };
    }
    if any_item(deployments, placed, Ghost(|d: DeploymentView| in_descheduler_namespace(d))) {
        DeschedulerInfo {
            installed: true,
            detected_by: Some(owned("namespace")),
            namespace: Some(owned(DESCHEDULER_NS)),
            strategy: None,
            schedule: None,
        }
    } else {
        DeschedulerInfo { installed: false, detected_by: None, namespace: None, strategy: None, schedule: None }
    }
}

// ----------------------------------------------------------------- autoscalers

/// The mode in which an autoscaler updates pods.
pub open spec fn update_mode_in(contents: Map<Seq<char>, JsonNode>) -> Seq<char> {
    views::text_or(json_value::text_in(contents, "/spec/updatePolicy/updateMode"@), "Auto"@)
}

/// What the autoscalers tell: how many there are, and their modes, each once.
pub open spec fn autoscaler_info(objects: Seq<Map<Seq<char>, JsonNode>>) -> VpaInfoView {
    VpaInfoView {
        installed: objects.len() > 0,
        objects_count: objects.len() as usize,
        update_modes: order::distinct_texts(objects.map_values(|c: Map<Seq<char>, JsonNode>| update_mode_in(c))),
    }
}

/// What the autoscalers tell.
pub fn build_vpa_info(vpa_objects: &Vec<serde_json::Value>) -> (r: VpaInfo)
    ensures
        r.deep_view() == autoscaler_info(cluster::contents_of(vpa_objects@)),
{
    let mut modes: Vec<String> = Vec::new();
    let mut i: usize = 0;
    while i < vpa_objects.len()
        invariant
            i <= vpa_objects.len(),
            modes.len() == i,
            forall|j: int|
                0 <= j < i ==> (#[trigger] modes@[j])@ == update_mode_in(json_value::json_contents(vpa_objects@[j])),
        decreases vpa_objects.len() - i,
    {
        let mode = match text_at(&vpa_objects[i], "/spec/updatePolicy/updateMode") {
            Some(mode) => owned(mode),
            None => owned("Auto"),
        };
        modes.push(mode);
        i += 1;
    }
    assert(modes.deep_view() =~= cluster::contents_of(vpa_objects@).map_values(
        |c: Map<Seq<char>, JsonNode>| update_mode_in(c),
    ));
    VpaInfo {
        installed: vpa_objects.len() > 0,
        objects_count: vpa_objects.len(),
        update_modes: sort_distinct(modes),
    }
}

// -------------------------------------------------------------- scheduled jobs

/// What a snapshot shows of a scheduled job.
pub open spec fn scheduled_job_info(job: CronJobView) -> ScheduledJobInfoView {
    ScheduledJobInfoView {
        namespace: views::text_or(job.metadata.namespace, ""@),
        name: views::text_or(job.metadata.name, ""@),
        schedule: match job.spec {
            Some(spec) => spec.schedule,
            None => ""@,
        },
        suspend: match job.spec {
            Some(spec) => spec.suspend == Some(true),
            None => false,
        },
        last_schedule_time: job.last_schedule_time,
        last_successful_time: job.last_successful_time,
    }
}

/// What a snapshot shows of a scheduled job.
pub fn map_scheduled_job(job: &CronJob) -> (r: ScheduledJobInfo)
    ensures
        r.deep_view() == scheduled_job_info(job.deep_view()),
{
    let (schedule, suspend) = match &job.spec {
        Some(spec) => (spec.schedule.clone(), match spec.suspend {
            Some(suspend) => suspend,
            None => false,
        }),
        None => (owned(""), false),
    };
    ScheduledJobInfo {
        namespace: owned(opt_str(&job.metadata.namespace, "")),
        name: owned(opt_str(&job.metadata.name, "")),
        schedule,
        suspend,
        last_schedule_time: job.last_schedule_time.deep_clone(),
        last_successful_time: job.last_successful_time.deep_clone(),
    }
}

/// What a snapshot shows of the scheduled jobs: all of them, by namespace and name.
pub open spec fn scheduled_job_infos(jobs: Seq<CronJobView>) -> Seq<ScheduledJobInfoView> {
    order::in_order(jobs, objects::by_place(|c: CronJobView| c.metadata)).map_values(|c: CronJobView| scheduled_job_info(c))
}

/// What a snapshot shows of the scheduled jobs: all of them, by namespace and name.
pub fn map_scheduled_jobs(jobs: Vec<CronJob>) -> (r: Vec<ScheduledJobInfo>)
    ensures
        r.deep_view() == scheduled_job_infos(jobs.deep_view()),
{
    let mut jobs = jobs;
    sort_cronjobs_for_snapshot(&mut jobs);
    let image = |c: &CronJob| -> (r: ScheduledJobInfo)
        ensures
            r.deep_view() == scheduled_job_info(c.deep_view()),
        { map_scheduled_job(c) };
    map_items(&jobs, image, Ghost(|c: CronJobView| scheduled_job_info(c)))
}

// ------------------------------------------------------------- what it is for

/// A descheduler is found exactly where a deployment has one of its names, or stands in its
/// operator's namespace; how it was found is told, and of a deployment the namespace.
pub proof fn lemma_descheduler_is_found(deployments: Seq<DeploymentView>)
    ensures
        ({
            let found = descheduler_info(deployments);
            let by_name = exists|i: int| 0 <= i < deployments.len() && has_descheduler_name(#[trigger] deployments[i]);
            let by_place = exists|i: int|
                0 <= i < deployments.len() && (#[trigger] deployments[i]).metadata.namespace == Some(
                    "openshift-kube-descheduler-operator"@,
                );
            &&& found.installed <==> by_name || by_place
            &&& by_name ==> found.detected_by == Some("deployment"@) && exists|i: int|
                0 <= i < deployments.len() && has_descheduler_name(#[trigger] deployments[i]) && found.namespace
                    == deployments[i].metadata.namespace
            &&& !by_name && by_place ==> found.detected_by == Some("namespace"@)
            &&& !by_name && !by_place ==> found.detected_by is None && found.namespace is None
        }),
{
    let named = |d: DeploymentView| is_descheduler(d);
    let stands_there = |d: DeploymentView| in_descheduler_namespace(d);
    reveal_strlit("descheduler");
    reveal_strlit("openshift-descheduler");
    reveal_strlit("kube-descheduler");
    reveal_strlit("");
    assert("descheduler"@.len() == 11 && "openshift-descheduler"@.len() == 21 && "kube-descheduler"@.len() == 16
        && ""@.len() == 0);
    views::lemma_first_that_is_there(deployments, named);
    if exists|i: int| 0 <= i < deployments.len() && has_descheduler_name(#[trigger] deployments[i]) {
        let i = choose|i: int| 0 <= i < deployments.len() && has_descheduler_name(#[trigger] deployments[i]);
        assert(named(deployments[i]));
    }
    if let Some(d) = views::first_that(deployments, named) {
        let i = choose|i: int|
            0 <= i < deployments.len() && (#[trigger] deployments[i]) == d && named(deployments[i]) && forall|j: int|
                0 <= j < i ==> !named(#[trigger] deployments[j]);
        assert(has_descheduler_name(deployments[i]));
    }
    if exists|i: int|
        0 <= i < deployments.len() && (#[trigger] deployments[i]).metadata.namespace == Some(
            "openshift-kube-descheduler-operator"@,
        ) {
        let i = choose|i: int|
            0 <= i < deployments.len() && (#[trigger] deployments[i]).metadata.namespace == Some(
                "openshift-kube-descheduler-operator"@,
            );
        assert(stands_there(deployments[i]));
    }
    if deployments.any(stands_there) {
        let i = choose|i: int| 0 <= i < deployments.len() && stands_there(deployments[i]);
        assert(deployments[i].metadata.namespace == Some("openshift-kube-descheduler-operator"@));
    }
}

/// A deployment has a name that deschedulers have.
pub open spec fn has_descheduler_name(deployment: DeploymentView) -> bool {
    deployment.metadata.name == Some("descheduler"@) || deployment.metadata.name == Some("openshift-descheduler"@)
        || deployment.metadata.name == Some("kube-descheduler"@)
}

/// Autoscalers are counted, and each mode in which one works is told; one that names none works by
/// itself. Every scheduled job is shown, with its schedule and whether it rests.
pub proof fn lemma_autoscalers_and_jobs_are_told(
    objects: Seq<Map<Seq<char>, JsonNode>>,
    jobs: Seq<CronJobView>,
    job: CronJobView,
    i: int,
)
    ensures
        objects.len() <= usize::MAX ==> autoscaler_info(objects).objects_count == objects.len(),
        autoscaler_info(objects).installed <==> objects.len() > 0,
        0 <= i < objects.len() ==> autoscaler_info(objects).update_modes.contains(
            if json_value::text_in(objects[i], "/spec/updatePolicy/updateMode"@) is Some {
                json_value::text_in(objects[i], "/spec/updatePolicy/updateMode"@)->0
            } else {
                "Auto"@
            },
        ),
        scheduled_job_infos(jobs).len() == jobs.len(),
        0 <= i < jobs.len() ==> scheduled_job_infos(jobs).contains(scheduled_job_info(jobs[i])),
        job.metadata.name matches Some(n) ==> scheduled_job_info(job).name == n,
        job.metadata.namespace matches Some(n) ==> scheduled_job_info(job).namespace == n,
        job.spec matches Some(spec) ==> scheduled_job_info(job).schedule == spec.schedule && (scheduled_job_info(
            job,
        ).suspend <==> spec.suspend == Some(true)),
        scheduled_job_info(job).last_schedule_time == job.last_schedule_time,
        scheduled_job_info(job).last_successful_time == job.last_successful_time,
{
    let modes = objects.map_values(|c: Map<Seq<char>, JsonNode>| update_mode_in(c));
    order::lemma_distinct_texts(modes);
    if 0 <= i < objects.len() {
        assert(modes.contains(modes[i]));
    }
    let le = objects::by_place(|c: CronJobView| c.metadata);
    order::lemma_in_order_has(jobs, le, job);
    if 0 <= i < jobs.len() {
        order::lemma_in_order_has(jobs, le, jobs[i]);
        let sorted = order::in_order(jobs, le);
        let k = choose|k: int| 0 <= k < sorted.len() && sorted[k] == jobs[i];
        assert(scheduled_job_infos(jobs)[k] == scheduled_job_info(jobs[i]));
    }
}

} // verus!
