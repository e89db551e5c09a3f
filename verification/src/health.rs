//! What the agent says of its health.
use crate::order::str_eq;
use crate::views::DeepClone;
use vstd::prelude::*;

verus! {

/// Whether the agent needs the stream of events to be ready, and whether that is there.
#[derive(Clone, Debug, PartialEq, Eq)]
pub struct Readiness {
    pub dependency_required: bool,
    pub dependency_ready: bool,
}

/// The view of [`Readiness`].
pub struct ReadinessView {
    pub dependency_required: bool,
    pub dependency_ready: bool,
}

impl DeepView for Readiness {
    type V = ReadinessView;

    open spec fn deep_view(&self) -> ReadinessView {
        ReadinessView {
            dependency_required: self.dependency_required.deep_view(),
            dependency_ready: self.dependency_ready.deep_view(),
        }
    }
}

impl DeepClone for Readiness {
    fn deep_clone(&self) -> (copy: Self) {
        Readiness {
            dependency_required: self.dependency_required.deep_clone(),
            dependency_ready: self.dependency_ready.deep_clone(),
        }
    }
}

/// An answer to a request about the agent's health.
#[derive(Clone, Debug, PartialEq, Eq)]
pub struct HealthReply {
    pub status: u16,
    pub body: HealthBody,
}

/// The view of [`HealthReply`].
pub struct HealthReplyView {
    pub status: u16,
    pub body: HealthBodyView,
}

impl DeepView for HealthReply {
    type V = HealthReplyView;

    open spec fn deep_view(&self) -> HealthReplyView {
        HealthReplyView {
            status: self.status.deep_view(),
            body: self.body.deep_view(),
        }
    }
}

impl DeepClone for HealthReply {
    fn deep_clone(&self) -> (copy: Self) {
        HealthReply {
            status: self.status.deep_clone(),
            body: self.body.deep_clone(),
        }
    }
}

/// What the answer holds.
#[derive(Clone, Debug, PartialEq, Eq)]
pub enum HealthBody {
    Text(&'static str),
    /// The metrics as they are.
    Metrics,
}

/// The view of [`HealthBody`].
pub enum HealthBodyView {
    Text(Seq<char>),
    Metrics,
}

impl DeepView for HealthBody {
    type V = HealthBodyView;

    open spec fn deep_view(&self) -> HealthBodyView {
        match self {
            HealthBody::Text(a) => HealthBodyView::Text(a.deep_view()),
            HealthBody::Metrics => HealthBodyView::Metrics,
        }
    }
}

impl DeepClone for HealthBody {
    fn deep_clone(&self) -> (copy: Self) {
        match self {
            HealthBody::Text(a) => HealthBody::Text(a.deep_clone()),
            HealthBody::Metrics => HealthBody::Metrics,
        }
    }
}

impl Readiness {
    /// Nothing is needed, so the agent is ready.
    pub fn new() -> (r: Self)
        ensures
            r.deep_view() == (ReadinessView { dependency_required: false, dependency_ready: true }),
    {
        Readiness { dependency_required: false, dependency_ready: true }
    }
}

/// Says whether the agent needs the stream of events to be ready.
pub fn set_dependency_required(readiness: &mut Readiness, required: bool)
    ensures
        final(readiness).deep_view() == (ReadinessView {
            dependency_required: required,
            ..old(readiness).deep_view()
        }),
{
    readiness.dependency_required = required;
}

/// Says whether the stream of events is there.
pub fn set_dependency_ready(readiness: &mut Readiness, ready: bool)
    ensures
        final(readiness).deep_view() == (ReadinessView { dependency_ready: ready, ..old(readiness).deep_view() }),
{
    readiness.dependency_ready = ready;
}

/// What is answered to a request.
pub open spec fn health_answer(path: Seq<char>, readiness: ReadinessView) -> HealthReplyView {
    if path == "/healthz"@ || path == "/livez"@ {
        HealthReplyView { status: 200, body: HealthBodyView::Text("ok"@) }
    } else if path == "/readyz"@ {
        if readiness.dependency_required && !readiness.dependency_ready {
            HealthReplyView { status: 503, body: HealthBodyView::Text("dependency stream not ready"@) }
        } else {
            HealthReplyView { status: 200, body: HealthBodyView::Text("ok"@) }
        }
    } else if path == "/metrics"@ {
        HealthReplyView { status: 200, body: HealthBodyView::Metrics }
    } else {
        HealthReplyView { status: 404, body: HealthBodyView::Text("not found"@) }
    }
}

/// What is answered to a request.
pub fn health_reply(path: &str, readiness: &Readiness) -> (r: HealthReply)
    ensures
        r.deep_view() == health_answer(path@, readiness.deep_view()),
{
    if str_eq(path, "/healthz") || str_eq(path, "/livez") {
        HealthReply { status: 200, body: HealthBody::Text("ok") }
    } else if str_eq(path, "/readyz") {
        if readiness.dependency_required && !readiness.dependency_ready {
            HealthReply { status: 503, body: HealthBody::Text("dependency stream not ready") }
        } else {
            HealthReply { status: 200, body: HealthBody::Text("ok") }
        }
    } else if str_eq(path, "/metrics") {
        HealthReply { status: 200, body: HealthBody::Metrics }
    } else {
        HealthReply { status: 404, body: HealthBody::Text("not found") }
    }
}

/// An agent that does not need the stream of events is always ready, and one that is ready stays
/// so until the stream is said to be gone.
pub proof fn lemma_ready_without_need(readiness: ReadinessView)
    ensures
        !readiness.dependency_required || readiness.dependency_ready ==> health_answer("/readyz"@, readiness).status
            == 200,
        readiness.dependency_required && !readiness.dependency_ready ==> health_answer("/readyz"@, readiness).status
            == 503,
{
    reveal_strlit("/readyz");
    reveal_strlit("/healthz");
    reveal_strlit("/livez");
    assert("/readyz"@[1] == 'r' && "/healthz"@[1] == 'h' && "/livez"@[1] == 'l');
}

// ------------------------------------------------------------- what it is for

/// The agent always says that it lives. It says that it is ready unless it needs the stream of
/// events and has it not; it shows its metrics, and knows no other path.
pub proof fn lemma_probes_are_answered(path: Seq<char>, readiness: ReadinessView)
    ensures
        path == "/livez"@ || path == "/healthz"@ ==> health_answer(path, readiness).status == 200,
        path == "/readyz"@ ==> (health_answer(path, readiness).status == 200 <==> !readiness.dependency_required
            || readiness.dependency_ready),
        path == "/readyz"@ && readiness.dependency_required && !readiness.dependency_ready ==> health_answer(
            path,
            readiness,
        ).status == 503,
        path == "/metrics"@ ==> health_answer(path, readiness).status == 200 && health_answer(
            path,
            readiness,
        ).body is Metrics,
        path != "/livez"@ && path != "/healthz"@ && path != "/readyz"@ && path != "/metrics"@ ==> health_answer(
            path,
            readiness,
        ).status == 404,
{
    reveal_strlit("/livez");
    reveal_strlit("/healthz");
    reveal_strlit("/readyz");
    reveal_strlit("/metrics");
    assert("/livez"@.len() == 6 && "/healthz"@.len() == 8 && "/readyz"@.len() == 7 && "/metrics"@.len() == 8
        && "/healthz"@[1] != "/metrics"@[1]);
}

} // verus!
