//! What failures of the cluster's interfaces are told as.
use crate::model::{MetricsStatus, MetricsStatusView, SnapshotApiStatus, SnapshotApiStatusView};
use crate::text;
use crate::text::{contains, owned, to_lowercase};
use crate::views::DeepClone;
use vstd::prelude::*;

verus! {

/// Why the cluster did not answer as it was asked to.
#[derive(Clone, Debug, PartialEq, Eq)]
pub enum KubeFailure {
    /// It refused, with a code and a reason.
    Api(u16, String),
    /// It could not be asked, as the text says.
    Kube(String),
    /// Something else went wrong.
    Foreign,
}

/// The view of [`KubeFailure`].
pub enum KubeFailureView {
    Api(u16, Seq<char>),
    Kube(Seq<char>),
    Foreign,
}

impl DeepView for KubeFailure {
    type V = KubeFailureView;

    open spec fn deep_view(&self) -> KubeFailureView {
        match self {
            KubeFailure::Api(a, b) => KubeFailureView::Api(a.deep_view(), b.deep_view()),
            KubeFailure::Kube(a) => KubeFailureView::Kube(a.deep_view()),
            KubeFailure::Foreign => KubeFailureView::Foreign,
        }
    }
}

impl DeepClone for KubeFailure {
    fn deep_clone(&self) -> (copy: Self) {
        match self {
            KubeFailure::Api(a, b) => KubeFailure::Api(a.deep_clone(), b.deep_clone()),
            KubeFailure::Kube(a) => KubeFailure::Kube(a.deep_clone()),
            KubeFailure::Foreign => KubeFailure::Foreign,
        }
    }
}

/// What came of listing something.
#[derive(Clone, Debug, PartialEq, Eq)]
pub enum ProbeOutcome {
    /// So many were found.
    Found(usize),
    Failed(KubeFailure),
}

/// The view of [`ProbeOutcome`].
pub enum ProbeOutcomeView {
    Found(usize),
    Failed(KubeFailureView),
}

impl DeepView for ProbeOutcome {
    type V = ProbeOutcomeView;

    open spec fn deep_view(&self) -> ProbeOutcomeView {
        match self {
            ProbeOutcome::Found(a) => ProbeOutcomeView::Found(a.deep_view()),
            ProbeOutcome::Failed(a) => ProbeOutcomeView::Failed(a.deep_view()),
        }
    }
}

impl DeepClone for ProbeOutcome {
    fn deep_clone(&self) -> (copy: Self) {
        match self {
            ProbeOutcome::Found(a) => ProbeOutcome::Found(a.deep_clone()),
            ProbeOutcome::Failed(a) => ProbeOutcome::Failed(a.deep_clone()),
        }
    }
}

/// What follows from the first list of pod metrics.
#[derive(Clone, Debug, PartialEq, Eq)]
pub enum MetricsProbe {
    /// The older version of the interface is asked.
    TryOlder,
    Settled(MetricsStatus),
}

/// The view of [`MetricsProbe`].
pub enum MetricsProbeView {
    TryOlder,
    Settled(MetricsStatusView),
}

impl DeepView for MetricsProbe {
    type V = MetricsProbeView;

    open spec fn deep_view(&self) -> MetricsProbeView {
        match self {
            MetricsProbe::TryOlder => MetricsProbeView::TryOlder,
            MetricsProbe::Settled(a) => MetricsProbeView::Settled(a.deep_view()),
        }
    }
}

impl DeepClone for MetricsProbe {
    fn deep_clone(&self) -> (copy: Self) {
        match self {
            MetricsProbe::TryOlder => MetricsProbe::TryOlder,
            MetricsProbe::Settled(a) => MetricsProbe::Settled(a.deep_clone()),
        }
    }
}

/// What follows from the list of snapshot classes.
#[derive(Clone, Debug, PartialEq, Eq)]
pub enum SnapshotProbe {
    /// The snapshots are listed too.
    ListSnapshots,
    Settled(SnapshotApiStatus),
}

/// The view of [`SnapshotProbe`].
pub enum SnapshotProbeView {
    ListSnapshots,
    Settled(SnapshotApiStatusView),
}

impl DeepView for SnapshotProbe {
    type V = SnapshotProbeView;

    open spec fn deep_view(&self) -> SnapshotProbeView {
        match self {
            SnapshotProbe::ListSnapshots => SnapshotProbeView::ListSnapshots,
            SnapshotProbe::Settled(a) => SnapshotProbeView::Settled(a.deep_view()),
        }
    }
}

impl DeepClone for SnapshotProbe {
    fn deep_clone(&self) -> (copy: Self) {
        match self {
            SnapshotProbe::ListSnapshots => SnapshotProbe::ListSnapshots,
            SnapshotProbe::Settled(a) => SnapshotProbe::Settled(a.deep_clone()),
        }
    }
}

/// What was asked for is not there.
pub open spec fn not_found(failure: KubeFailureView) -> bool {
    failure matches KubeFailureView::Api(code, _) && code == 404
}

/// Whether what was asked for is not there.
pub fn is_not_found(failure: &KubeFailure) -> (r: bool)
    ensures
        r == not_found(failure.deep_view()),
{
    match failure {
        KubeFailure::Api(code, _) => *code == 404,
        _ => false,
    }
}

/// What kept the cluster from being asked, by the words of the message.
pub open spec fn transient_reason(message: Seq<char>) -> Seq<char> {
    let words = text::lowercase(message);
    if text::contains_text(words, "timeout"@) || text::contains_text(words, "timed out"@) {
        "transient: timeout"@
    } else if text::contains_text(words, "connection refused"@) {
        "transient: connection refused"@
    } else if text::contains_text(words, "dns"@) || text::contains_text(words, "name resolution"@) {
        "transient: dns"@
    } else if text::contains_text(words, "tls"@) || text::contains_text(words, "certificate"@) {
        "transient: tls"@
    } else {
        "transient: io"@
    }
}

/// What kept the cluster from being asked, by the words of the message.
pub fn classify_transient_error(message: &str) -> (r: (&'static str, &'static str))
    ensures
        r.0@ == "error"@,
        r.1@ == transient_reason(message@),
{
    let words = to_lowercase(message);
    let words = words.as_str();
    let reason = if contains(words, "timeout") || contains(words, "timed out") {
        "transient: timeout"
    } else if contains(words, "connection refused") {
        "transient: connection refused"
    } else if contains(words, "dns") || contains(words, "name resolution") {
        "transient: dns"
    } else if contains(words, "tls") || contains(words, "certificate") {
        "transient: tls"
    } else {
        "transient: io"
    };
    ("error", reason)
}

/// The state that a failure of the metrics interface is told as, and why.
pub open spec fn metrics_failure(failure: KubeFailureView) -> (Seq<char>, Seq<char>) {
    match failure {
        KubeFailureView::Api(code, _) => if code == 403 {
            ("forbidden"@, "ServiceAccount missing metrics.k8s.io RBAC"@)
        } else if code == 404 {
            ("missing"@, "metrics-server not installed"@)
        } else if code == 503 {
            ("unavailable"@, "metrics-server registered but not ready"@)
        } else if code == 504 {
            ("unavailable"@, "metrics-server timeout"@)
        } else {
            ("error"@, "kube API error"@)
        },
        KubeFailureView::Kube(message) => ("error"@, transient_reason(message)),
        KubeFailureView::Foreign => ("error"@, "transient: io"@),
    }
}

/// The state that a failure of the metrics interface is told as, and why.
pub fn classify_metrics_error(failure: &KubeFailure) -> (r: (&'static str, &'static str))
    ensures
        (r.0@, r.1@) == metrics_failure(failure.deep_view()),
{
    match failure {
        KubeFailure::Api(code, _) => if *code == 403 {
            ("forbidden", "ServiceAccount missing metrics.k8s.io RBAC")
        } else if *code == 404 {
            ("missing", "metrics-server not installed")
        } else if *code == 503 {
            ("unavailable", "metrics-server registered but not ready")
        } else if *code == 504 {
            ("unavailable", "metrics-server timeout")
        } else {
            ("error", "kube API error")
        },
        KubeFailure::Kube(message) => classify_transient_error(message.as_str()),
        KubeFailure::Foreign => ("error", "transient: io"),
    }
}

/// The state that a failure of the snapshot interface is told as, and why.
pub open spec fn snapshot_failure(failure: KubeFailureView) -> (Seq<char>, Seq<char>) {
    match failure {
        KubeFailureView::Api(code, _) => if code == 403 {
            ("forbidden"@, "ServiceAccount missing snapshot.storage.k8s.io RBAC"@)
        } else if code == 404 {
            ("missing"@, "CSI snapshot CRDs not installed"@)
        } else if code == 503 {
            ("unavailable"@, "CSI snapshot API registered but not ready"@)
        } else if code == 504 {
            ("unavailable"@, "CSI snapshot API timeout"@)
        } else {
            ("error"@, "kube API error"@)
        },
        KubeFailureView::Kube(message) => ("error"@, transient_reason(message)),
        KubeFailureView::Foreign => ("error"@, "transient: io"@),
    }
}

/// The state that a failure of the snapshot interface is told as, and why.
pub fn classify_snapshot_api_error(failure: &KubeFailure) -> (r: (&'static str, &'static str))
    ensures
        (r.0@, r.1@) == snapshot_failure(failure.deep_view()),
{
    match failure {
        KubeFailure::Api(code, _) => if *code == 403 {
            ("forbidden", "ServiceAccount missing snapshot.storage.k8s.io RBAC")
        } else if *code == 404 {
            ("missing", "CSI snapshot CRDs not installed")
        } else if *code == 503 {
            ("unavailable", "CSI snapshot API registered but not ready")
        } else if *code == 504 {
            ("unavailable", "CSI snapshot API timeout")
        } else {
            ("error", "kube API error")
        },
        KubeFailure::Kube(message) => classify_transient_error(message.as_str()),
        KubeFailure::Foreign => ("error", "transient: io"),
    }
}

/// A reason, where there is one.
pub open spec fn reason_of(reason: Seq<char>) -> Option<Seq<char>> {
    if reason.len() == 0 {
        None
    } else {
        Some(reason)
    }
}

pub(crate) fn reason_from(reason: &str) -> (r: Option<String>)
    ensures
        r.deep_view() == reason_of(reason@),
{
    if reason.is_empty() {
        None
    } else {
        Some(owned(reason))
    }
}

/// How the metrics interface is.
pub open spec fn metrics_status(
    state: Seq<char>,
    reason: Seq<char>,
    source: Seq<char>,
    pod_metrics_count: usize,
    last_attempt_at_ms: u128,
) -> MetricsStatusView {
    MetricsStatusView { state, reason: reason_of(reason), source, pod_metrics_count, last_attempt_at_ms }
}

/// How the metrics interface is.
pub fn status_from(
    state: &'static str,
    reason: &'static str,
    source: &'static str,
    pod_metrics_count: usize,
    last_attempt_at_ms: u128,
) -> (r: MetricsStatus)
    ensures
        r.deep_view() == metrics_status(state@, reason@, source@, pod_metrics_count, last_attempt_at_ms),
{
    MetricsStatus { state, reason: reason_from(reason), source, pod_metrics_count, last_attempt_at_ms }
}

/// What follows from the first list of pod metrics: the older version of the interface is asked
/// where this one is not there.
pub open spec fn metrics_first(outcome: ProbeOutcomeView, now_ms: u128) -> MetricsProbeView {
    match outcome {
        ProbeOutcomeView::Found(count) => MetricsProbeView::Settled(
            metrics_status("ok"@, ""@, "metrics.k8s.io/v1"@, count, now_ms),
        ),
        ProbeOutcomeView::Failed(failure) => if not_found(failure) {
            MetricsProbeView::TryOlder
        } else {
            let (state, reason) = metrics_failure(failure);
            MetricsProbeView::Settled(metrics_status(state, reason, "metrics.k8s.io/v1"@, 0, now_ms))
        },
    }
}

/// What follows from the first list of pod metrics.
pub fn settle_first_metrics_probe(outcome: &ProbeOutcome, now_ms: u128) -> (r: MetricsProbe)
    ensures
        r.deep_view() == metrics_first(outcome.deep_view(), now_ms),
{
    match outcome {
        ProbeOutcome::Found(count) => MetricsProbe::Settled(
            status_from("ok", "", "metrics.k8s.io/v1", *count, now_ms),
        ),
        ProbeOutcome::Failed(failure) => if is_not_found(failure) {
            MetricsProbe::TryOlder
        } else {
            let (state, reason) = classify_metrics_error(failure);
            MetricsProbe::Settled(status_from(state, reason, "metrics.k8s.io/v1", 0, now_ms))
        },
    }
}

/// How the metrics interface is, by the older version of it.
pub open spec fn metrics_second(outcome: ProbeOutcomeView, now_ms: u128) -> MetricsStatusView {
    match outcome {
        ProbeOutcomeView::Found(count) => metrics_status("ok"@, ""@, "metrics.k8s.io/v1beta1"@, count, now_ms),
        ProbeOutcomeView::Failed(failure) => {
            let (state, reason) = metrics_failure(failure);
            metrics_status(state, reason, "metrics.k8s.io/v1beta1"@, 0, now_ms)
        },
    }
}

/// How the metrics interface is, by the older version of it.
pub fn settle_second_metrics_probe(outcome: &ProbeOutcome, now_ms: u128) -> (r: MetricsStatus)
    ensures
        r.deep_view() == metrics_second(outcome.deep_view(), now_ms),
{
    match outcome {
        ProbeOutcome::Found(count) => status_from("ok", "", "metrics.k8s.io/v1beta1", *count, now_ms),
        ProbeOutcome::Failed(failure) => {
            let (state, reason) = classify_metrics_error(failure);
            status_from(state, reason, "metrics.k8s.io/v1beta1", 0, now_ms)
        },
    }
}

/// How the snapshot interface is.
pub open spec fn snapshot_status(
    state: Seq<char>,
    reason: Seq<char>,
    source: Seq<char>,
    volumesnapshotclasses_count: usize,
    volumesnapshots_count: usize,
    last_attempt_at_ms: u128,
) -> SnapshotApiStatusView {
    SnapshotApiStatusView {
        state,
        reason: reason_of(reason),
        source,
        volumesnapshotclasses_count,
        volumesnapshots_count,
        last_attempt_at_ms,
    }
}

/// How the snapshot interface is.
pub fn status_snapshot_from(
    state: &'static str,
    reason: &'static str,
    source: &'static str,
    volumesnapshotclasses_count: usize,
    volumesnapshots_count: usize,
    last_attempt_at_ms: u128,
) -> (r: SnapshotApiStatus)
    ensures
        r.deep_view() == snapshot_status(
            state@,
            reason@,
            source@,
            volumesnapshotclasses_count,
            volumesnapshots_count,
            last_attempt_at_ms,
        ),
{
    SnapshotApiStatus {
        state,
        reason: reason_from(reason),
        source,
        volumesnapshotclasses_count,
        volumesnapshots_count,
        last_attempt_at_ms,
    }
}

/// What follows from the list of snapshot classes: the snapshots are listed where it worked.
pub open spec fn snapshot_first(outcome: ProbeOutcomeView, now_ms: u128) -> SnapshotProbeView {
    match outcome {
        ProbeOutcomeView::Found(_) => SnapshotProbeView::ListSnapshots,
        ProbeOutcomeView::Failed(failure) => {
            let (state, reason) = snapshot_failure(failure);
            SnapshotProbeView::Settled(
                snapshot_status(state, reason, "snapshot.storage.k8s.io/v1"@, 0, 0, now_ms),
            )
        },
    }
}

/// What follows from the list of snapshot classes.
pub fn settle_snapshot_classes_probe(outcome: &ProbeOutcome, now_ms: u128) -> (r: SnapshotProbe)
    ensures
        r.deep_view() == snapshot_first(outcome.deep_view(), now_ms),
{
    match outcome {
        ProbeOutcome::Found(_) => SnapshotProbe::ListSnapshots,
        ProbeOutcome::Failed(failure) => {
            let (state, reason) = classify_snapshot_api_error(failure);
            SnapshotProbe::Settled(
                status_snapshot_from(state, reason, "snapshot.storage.k8s.io/v1", 0, 0, now_ms),
            )
        },
    }
}

/// How the snapshot interface is where it answers.
pub fn settle_snapshots_probe(classes: usize, snapshots: usize, now_ms: u128) -> (r: SnapshotApiStatus)
    ensures
        r.deep_view() == snapshot_status(
            "ok"@,
            ""@,
            "snapshot.storage.k8s.io/v1"@,
            classes,
            snapshots,
            now_ms,
        ),
{
    status_snapshot_from("ok", "", "snapshot.storage.k8s.io/v1", classes, snapshots, now_ms)
}

// ------------------------------------------------------------- what it is for

/// What the cluster answers to a probe tells the state of an interface: that it may not be read,
/// that it is not there, that it is not ready, or that something else went wrong.
pub proof fn lemma_states_by_answer(code: u16, message: Seq<char>, failure: KubeFailureView)
    ensures
        failure matches KubeFailureView::Api(code, _) ==> {
            &&& code == 403 ==> metrics_failure(failure).0 == "forbidden"@ && snapshot_failure(failure).0 == "forbidden"@
            &&& code == 404 ==> metrics_failure(failure).0 == "missing"@ && snapshot_failure(failure).0 == "missing"@
            &&& code == 503 || code == 504 ==> metrics_failure(failure).0 == "unavailable"@ && snapshot_failure(failure).0
                == "unavailable"@
            &&& code != 403 && code != 404 && code != 503 && code != 504 ==> metrics_failure(failure).0 == "error"@
                && snapshot_failure(failure).0 == "error"@
        },
        failure !is Api ==> metrics_failure(failure).0 == "error"@ && snapshot_failure(failure).0 == "error"@,
        not_found(failure) <==> (failure matches KubeFailureView::Api(code, _) && code == 404),
        failure matches KubeFailureView::Kube(words) ==> text::contains_text(text::lowercase(words), "timed out"@)
            ==> metrics_failure(failure).1 == "transient: timeout"@,
        failure matches KubeFailureView::Kube(words) ==> text::contains_text(text::lowercase(words), "connection refused"@)
            && !text::contains_text(text::lowercase(words), "timeout"@) && !text::contains_text(text::lowercase(words), "timed out"@)
            ==> metrics_failure(failure).1 == "transient: connection refused"@,
        failure is Foreign ==> metrics_failure(failure).1 == "transient: io"@,
{
}

/// The interface for pod metrics is there with as many as were found, by its first version or its
/// older one; the older one is tried only where the first is not known. A failure counts none.
pub proof fn lemma_metrics_are_probed(count: usize, failure: KubeFailureView, now_ms: u128)
    ensures
        metrics_first(ProbeOutcomeView::Found(count), now_ms) matches MetricsProbeView::Settled(status) && status.state
            == "ok"@ && status.pod_metrics_count == count && status.reason is None && status.source
            == "metrics.k8s.io/v1"@ && status.last_attempt_at_ms == now_ms,
        metrics_first(ProbeOutcomeView::Failed(failure), now_ms) is TryOlder <==> (failure matches KubeFailureView::Api(
            code,
            _,
        ) && code == 404),
        metrics_first(ProbeOutcomeView::Failed(failure), now_ms) matches MetricsProbeView::Settled(status)
            ==> status.state == metrics_failure(failure).0 && status.pod_metrics_count == 0,
        ({
            let found = metrics_second(ProbeOutcomeView::Found(count), now_ms);
            let failed = metrics_second(ProbeOutcomeView::Failed(failure), now_ms);
            &&& found.state == "ok"@ && found.pod_metrics_count == count && found.source == "metrics.k8s.io/v1beta1"@
                && found.reason is None
            &&& failed.state == metrics_failure(failure).0 && failed.pod_metrics_count == 0
        }),
{
    reveal_strlit("");
}

/// The snapshots are listed exactly where their classes can be; else the state of the interface is
/// told, with none counted.
pub proof fn lemma_snapshots_are_probed(count: usize, failure: KubeFailureView, now_ms: u128)
    ensures
        snapshot_first(ProbeOutcomeView::Found(count), now_ms) is ListSnapshots,
        snapshot_first(ProbeOutcomeView::Failed(failure), now_ms) matches SnapshotProbeView::Settled(status)
            && status.state == snapshot_failure(failure).0 && status.volumesnapshotclasses_count == 0
            && status.volumesnapshots_count == 0 && status.source == "snapshot.storage.k8s.io/v1"@,
{
}

} // verus!
