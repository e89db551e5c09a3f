//! Talking to the hub: where requests go, and what follows from the answers.
use crate::config::Config;
use crate::model::SnapshotCreated;
use crate::text;
use crate::text::{cut, decimal, owned, starts_with, text2, text4, text6, trim};
use crate::views;
use crate::views::{DeepClone, opt_str};
use vstd::prelude::*;

verus! {

/// How long an attempt to send a snapshot waits, by its number.
pub const SEND_DELAYS_SECS: [u64; 3] = [0, 2, 5];

/// How much of a body is shown.
pub const MAX_PREVIEW_CHARS: usize = 200;

/// An answer of the hub.
#[derive(Clone, Debug, PartialEq, Eq)]
pub struct HttpReply {
    pub status: u16,
    /// The status as it is shown.
    pub status_text: String,
    pub content_type: String,
    pub body: Option<String>,
}

/// The view of [`HttpReply`].
pub struct HttpReplyView {
    pub status: u16,
    pub status_text: Seq<char>,
    pub content_type: Seq<char>,
    pub body: Option<Seq<char>>,
}

impl DeepView for HttpReply {
    type V = HttpReplyView;

    open spec fn deep_view(&self) -> HttpReplyView {
        HttpReplyView {
            status: self.status.deep_view(),
            status_text: self.status_text.deep_view(),
            content_type: self.content_type.deep_view(),
            body: self.body.deep_view(),
        }
    }
}

impl DeepClone for HttpReply {
    fn deep_clone(&self) -> (copy: Self) {
        HttpReply {
            status: self.status.deep_clone(),
            status_text: self.status_text.deep_clone(),
            content_type: self.content_type.deep_clone(),
            body: self.body.deep_clone(),
        }
    }
}

/// What came of a request to the hub.
#[derive(Clone, Debug, PartialEq, Eq)]
pub enum HttpOutcome {
    Replied(HttpReply),
    /// Nothing came in time.
    TimedOut(String),
    Failed(String),
}

/// The view of [`HttpOutcome`].
pub enum HttpOutcomeView {
    Replied(HttpReplyView),
    TimedOut(Seq<char>),
    Failed(Seq<char>),
}

impl DeepView for HttpOutcome {
    type V = HttpOutcomeView;

    open spec fn deep_view(&self) -> HttpOutcomeView {
        match self {
            HttpOutcome::Replied(a) => HttpOutcomeView::Replied(a.deep_view()),
            HttpOutcome::TimedOut(a) => HttpOutcomeView::TimedOut(a.deep_view()),
            HttpOutcome::Failed(a) => HttpOutcomeView::Failed(a.deep_view()),
        }
    }
}

impl DeepClone for HttpOutcome {
    fn deep_clone(&self) -> (copy: Self) {
        match self {
            HttpOutcome::Replied(a) => HttpOutcome::Replied(a.deep_clone()),
            HttpOutcome::TimedOut(a) => HttpOutcome::TimedOut(a.deep_clone()),
            HttpOutcome::Failed(a) => HttpOutcome::Failed(a.deep_clone()),
        }
    }
}

/// The routes of the hub: those that it had first, and those of its API.
#[derive(Clone, Copy, Debug, PartialEq, Eq)]
pub enum RouteFamily {
    Legacy,
    Api,
}

impl DeepView for RouteFamily {
    type V = RouteFamily;

    open spec fn deep_view(&self) -> RouteFamily {
        *self
    }
}

impl DeepClone for RouteFamily {
    fn deep_clone(&self) -> (copy: Self) {
        *self
    }
}

/// What follows from an attempt to send a snapshot.
#[derive(Clone, Debug, PartialEq, Eq)]
pub enum SendStep {
    /// Another attempt, the given number of them having been made, after so many seconds.
    Again(usize, u64, String),
    Sent,
    Failed(String),
}

/// The view of [`SendStep`].
pub enum SendStepView {
    Again(usize, u64, Seq<char>),
    Sent,
    Failed(Seq<char>),
}

impl DeepView for SendStep {
    type V = SendStepView;

    open spec fn deep_view(&self) -> SendStepView {
        match self {
            SendStep::Again(a, b, c) => SendStepView::Again(a.deep_view(), b.deep_view(), c.deep_view()),
            SendStep::Sent => SendStepView::Sent,
            SendStep::Failed(a) => SendStepView::Failed(a.deep_view()),
        }
    }
}

impl DeepClone for SendStep {
    fn deep_clone(&self) -> (copy: Self) {
        match self {
            SendStep::Again(a, b, c) => SendStep::Again(a.deep_clone(), b.deep_clone(), c.deep_clone()),
            SendStep::Sent => SendStep::Sent,
            SendStep::Failed(a) => SendStep::Failed(a.deep_clone()),
        }
    }
}

/// What follows from asking for commands.
#[derive(Clone, Debug, PartialEq, Eq)]
pub enum PollStep {
    /// There are none.
    Empty,
    /// The body is to be read.
    Decode(String),
    Failed(String),
}

/// The view of [`PollStep`].
pub enum PollStepView {
    Empty,
    Decode(Seq<char>),
    Failed(Seq<char>),
}

impl DeepView for PollStep {
    type V = PollStepView;

    open spec fn deep_view(&self) -> PollStepView {
        match self {
            PollStep::Empty => PollStepView::Empty,
            PollStep::Decode(a) => PollStepView::Decode(a.deep_view()),
            PollStep::Failed(a) => PollStepView::Failed(a.deep_view()),
        }
    }
}

impl DeepClone for PollStep {
    fn deep_clone(&self) -> (copy: Self) {
        match self {
            PollStep::Empty => PollStep::Empty,
            PollStep::Decode(a) => PollStep::Decode(a.deep_clone()),
            PollStep::Failed(a) => PollStep::Failed(a.deep_clone()),
        }
    }
}

/// How the key to the hub looks.
#[derive(Clone, Copy, Debug, PartialEq, Eq)]
pub enum KeyState {
    Missing,
    Unexpected,
    Fine,
}

impl DeepView for KeyState {
    type V = KeyState;

    open spec fn deep_view(&self) -> KeyState {
        *self
    }
}

impl DeepClone for KeyState {
    fn deep_clone(&self) -> (copy: Self) {
        *self
    }
}

// ------------------------------------------------------------------- addresses

/// Where the routes of a family begin.
pub open spec fn route_prefix(family: RouteFamily) -> Seq<char> {
    match family {
        RouteFamily::Legacy => "/v1"@,
        RouteFamily::Api => "/api/v1"@,
    }
}

/// Where the hub keeps a cluster.
pub open spec fn cluster_url(hub_url: Seq<char>, cluster_id: Seq<char>, family: RouteFamily) -> Seq<char> {
    hub_url + route_prefix(family) + "/clusters/"@ + cluster_id
}

fn prefix_of(family: RouteFamily) -> (r: &'static str)
    ensures
        r@ == route_prefix(family),
{
    match family {
        RouteFamily::Legacy => "/v1",
        RouteFamily::Api => "/api/v1",
    }
}

/// Where the hub keeps the cluster.
pub fn cluster_status_url(cfg: &Config, family: RouteFamily) -> (r: String)
    ensures
        r@ == cluster_url(cfg.hub_url@, cfg.cluster_id@, family),
{
    text4(cfg.hub_url.as_str(), prefix_of(family), "/clusters/", cfg.cluster_id.as_str())
}

/// Where snapshots are sent.
pub fn inventory_url(cfg: &Config, family: RouteFamily) -> (r: String)
    ensures
        r@ == match family {
            RouteFamily::Legacy => cluster_url(cfg.hub_url@, cfg.cluster_id@, family) + "/inventory"@,
            RouteFamily::Api => cfg.hub_url@ + "/api/v1/agent/ingest"@,
        },
{
    match family {
        RouteFamily::Legacy => text2(cluster_status_url(cfg, family).as_str(), "/inventory"),
        RouteFamily::Api => text2(cfg.hub_url.as_str(), "/api/v1/agent/ingest"),
    }
}

/// Where commands are asked for, with the time that the hub may take to have some.
pub fn poll_url(cfg: &Config, family: RouteFamily) -> (r: String)
    ensures
        r@ == cluster_url(cfg.hub_url@, cfg.cluster_id@, family) + "/commands/poll?wait="@ + text::decimal_of(
            cfg.poll_wait as nat,
        ) + "s"@,
{
    text4(
        cluster_status_url(cfg, family).as_str(),
        "/commands/poll?wait=",
        decimal(cfg.poll_wait as u128).as_str(),
        "s",
    )
}

/// Where the result of a command is sent.
pub fn ack_url(cfg: &Config, family: RouteFamily, command_id: &str) -> (r: String)
    ensures
        r@ == cluster_url(cfg.hub_url@, cfg.cluster_id@, family) + "/commands/"@ + command_id@ + "/ack"@,
{
    text4(cluster_status_url(cfg, family).as_str(), "/commands/", command_id, "/ack")
}

/// The other family of routes.
pub open spec fn other_family(family: RouteFamily) -> RouteFamily {
    match family {
        RouteFamily::Legacy => RouteFamily::Api,
        RouteFamily::Api => RouteFamily::Legacy,
    }
}

/// Where a request goes next: to the other family of routes, once, where the hub does not know the
/// route.
pub open spec fn route_next(family: RouteFamily, switched: bool, outcome: HttpOutcomeView) -> Option<RouteFamily> {
    match outcome {
        HttpOutcomeView::Replied(reply) if reply.status == 404 && !switched => Some(other_family(family)),
        _ => None,
    }
}

/// Where a request goes next: to the other family of routes, once, where the hub does not know the
/// route.
pub fn alternate_route(family: RouteFamily, switched: bool, outcome: &HttpOutcome) -> (r: Option<RouteFamily>)
    ensures
        r == route_next(family, switched, outcome.deep_view()),
{
    match outcome {
        HttpOutcome::Replied(reply) => if reply.status == 404 && !switched {
            match family {
                RouteFamily::Legacy => Some(RouteFamily::Api),
                RouteFamily::Api => Some(RouteFamily::Legacy),
            }
        } else {
            None
        },
        _ => None,
    }
}

/// A request goes to the other family of routes only where the hub does not know the first, and
/// then once.
pub proof fn lemma_routes_are_tried_once(family: RouteFamily, switched: bool, outcome: HttpOutcomeView)
    ensures
        switched ==> route_next(family, switched, outcome) is None,
        route_next(family, switched, outcome) is Some ==> {
            &&& route_next(family, switched, outcome)->0 != family
            &&& (outcome matches HttpOutcomeView::Replied(reply) && reply.status == 404)
        },
{
}

/// How long an answer to a request for commands is waited for, in seconds: somewhat longer than
/// the hub may take.
pub fn poll_timeout_secs(cfg: &Config) -> (r: u64)
    requires
        cfg.poll_wait <= u64::MAX - 10,
    ensures
        r == cfg.poll_wait + 10,
{
    cfg.poll_wait + 10
}

/// How a key looks.
pub open spec fn key_state(key: Option<Seq<char>>) -> KeyState {
    match key {
        Some(key) => if text::has_prefix(key, "shub_"@) {
            KeyState::Fine
        } else {
            KeyState::Unexpected
        },
        None => KeyState::Missing,
    }
}

/// How the key to the hub looks.
pub fn check_api_key(cfg: &Config) -> (r: KeyState)
    ensures
        r == key_state(cfg.api_key.deep_view()),
{
    match &cfg.api_key {
        Some(key) => if starts_with(key.as_str(), "shub_") {
            KeyState::Fine
        } else {
            KeyState::Unexpected
        },
        None => KeyState::Missing,
    }
}

// --------------------------------------------------------------------- previews

/// The beginning of a body, as it is shown.
pub open spec fn preview_of(body: Seq<char>) -> Seq<char> {
    let shown = text::trimmed(body);
    if shown.len() > MAX_PREVIEW_CHARS {
        shown.subrange(0, MAX_PREVIEW_CHARS as int) + "..."@
    } else {
        shown
    }
}

/// The beginning of a body, as it is shown.
pub fn body_preview(body: &str) -> (r: String)
    ensures
        r@ == preview_of(body@),
{
    let shown = trim(body);
    if shown.unicode_len() > MAX_PREVIEW_CHARS {
        text2(cut(shown, 0, MAX_PREVIEW_CHARS), "...")
    } else {
        owned(shown)
    }
}

/// The beginning of a body, where it may be shown.
pub open spec fn opt_preview(body: Option<Seq<char>>) -> Seq<char> {
    match body {
        Some(body) => preview_of(body),
        None => "<disabled>"@,
    }
}

/// The beginning of a body, where it may be shown.
pub fn body_preview_opt(body: Option<&str>) -> (r: String)
    ensures
        r@ == opt_preview(body.deep_view()),
{
    match body {
        Some(body) => body_preview(body),
        None => owned("<disabled>"),
    }
}

fn preview_reply(reply: &HttpReply) -> (r: String)
    ensures
        r@ == opt_preview(reply.body.deep_view()),
{
    match &reply.body {
        Some(body) => body_preview(body.as_str()),
        None => owned("<disabled>"),
    }
}

/// A status says that the request was granted.
pub open spec fn is_success(status: u16) -> bool {
    200 <= status < 300
}

/// A status says that the request was wrong, so that sending it again is of no use.
pub open spec fn is_final_rejection(status: u16) -> bool {
    400 <= status < 500 && status != 408 && status != 429
}

/// What an answer is shown as.
pub open spec fn shown_reply(reply: HttpReplyView) -> Seq<char> {
    reply.status_text + " (content_type="@ + reply.content_type + ", body_preview="@ + opt_preview(reply.body) + ")"@
}

fn show_reply(reply: &HttpReply) -> (r: String)
    ensures
        r@ == shown_reply(reply.deep_view()),
{
    text6(
        reply.status_text.as_str(),
        " (content_type=",
        reply.content_type.as_str(),
        ", body_preview=",
        preview_reply(reply).as_str(),
        ")",
    )
}

// --------------------------------------------------------------- sending snapshots

/// What is said of an attempt that did not settle the matter.
pub open spec fn attempt_failure(attempt: nat, outcome: HttpOutcomeView) -> Seq<char> {
    match outcome {
        HttpOutcomeView::Replied(reply) => "attempt "@ + text::decimal_of(attempt + 1) + " status "@ + reply.status_text,
        HttpOutcomeView::TimedOut(error) => "attempt "@ + text::decimal_of(attempt + 1) + " error: "@ + error,
        HttpOutcomeView::Failed(error) => "attempt "@ + text::decimal_of(attempt + 1) + " error: "@ + error,
    }
}

fn describe_attempt(attempt: usize, outcome: &HttpOutcome) -> (r: String)
    requires
        attempt < 3,
    ensures
        r@ == attempt_failure(attempt as nat, outcome.deep_view()),
{
    let number = decimal(attempt as u128 + 1);
    match outcome {
        HttpOutcome::Replied(reply) => text4(
            "attempt ",
            number.as_str(),
            " status ",
            reply.status_text.as_str(),
        ),
        HttpOutcome::TimedOut(error) => text4("attempt ", number.as_str(), " error: ", error.as_str()),
        HttpOutcome::Failed(error) => text4("attempt ", number.as_str(), " error: ", error.as_str()),
    }
}

/// What follows from an attempt to send a snapshot: it is over where the hub took it or said that
/// it is wrong, or where this was the last attempt.
pub open spec fn send_next(attempt: nat, outcome: HttpOutcomeView) -> SendStepView {
    if outcome matches HttpOutcomeView::Replied(reply) && is_success(reply.status) {
        SendStepView::Sent
    } else if outcome matches HttpOutcomeView::Replied(reply) && is_final_rejection(reply.status) {
        SendStepView::Failed("hub rejected snapshot: "@ + shown_reply(outcome->Replied_0))
    } else if attempt + 1 < SEND_DELAYS_SECS@.len() {
        SendStepView::Again(
            (attempt + 1) as usize,
            SEND_DELAYS_SECS@[attempt as int + 1],
            attempt_failure(attempt, outcome),
        )
    } else {
        SendStepView::Failed(attempt_failure(attempt, outcome))
    }
}

/// What follows from an attempt to send a snapshot.
pub fn send_step(attempt: usize, outcome: &HttpOutcome) -> (r: SendStep)
    requires
        attempt < 3,
    ensures
        r.deep_view() == send_next(attempt as nat, outcome.deep_view()),
{
    if let HttpOutcome::Replied(reply) = outcome {
        if 200 <= reply.status && reply.status < 300 {
            return SendStep::Sent;
        }
        if 400 <= reply.status && reply.status < 500 && reply.status != 408 && reply.status != 429 {
            return SendStep::Failed(text2("hub rejected snapshot: ", show_reply(reply).as_str()));
        }
    }
    let message = describe_attempt(attempt, outcome);
    if attempt < 2 {
        let delays = SEND_DELAYS_SECS;
        SendStep::Again(attempt + 1, delays[attempt + 1], message)
    } else {
        SendStep::Failed(message)
    }
}

/// A snapshot is sent at most three times, and never again once the hub took it or said that it is
/// wrong.
pub proof fn lemma_sending_ends(attempt: nat, outcome: HttpOutcomeView)
    ensures
        send_next(attempt, outcome) matches SendStepView::Again(next, _, _) ==> next == attempt + 1 && next < 3,
        outcome matches HttpOutcomeView::Replied(reply) ==> {
            &&& is_success(reply.status) ==> send_next(attempt, outcome) is Sent
            &&& is_final_rejection(reply.status) ==> send_next(attempt, outcome) is Failed
        },
        send_next(attempt, outcome) is Sent ==> (outcome matches HttpOutcomeView::Replied(reply) && is_success(
            reply.status,
        )),
{
}

/// What is warned of where the hub had the cluster already.
pub fn duplicate_warning(created: &SnapshotCreated) -> (r: Option<&'static str>)
    ensures
        r.deep_view() == (if created.already_existed {
            Some("the hub already had this cluster: it may be registered twice"@)
        } else {
            None
        }),
{
    if created.already_existed {
        Some("the hub already had this cluster: it may be registered twice")
    } else {
        None
    }
}

// ----------------------------------------------------------------- asking for commands

/// What follows from asking for commands: where nothing came in time, or nothing at all, there are
/// none.
pub open spec fn poll_next(outcome: HttpOutcomeView) -> PollStepView {
    match outcome {
        HttpOutcomeView::TimedOut(_) => PollStepView::Empty,
        HttpOutcomeView::Failed(error) => PollStepView::Failed(error),
        HttpOutcomeView::Replied(reply) => if reply.status == 204 {
            PollStepView::Empty
        } else if !is_success(reply.status) {
            PollStepView::Failed("poll status "@ + shown_reply(with_body(reply)))
        } else if views::text_or(reply.body, ""@).len() == 0 {
            PollStepView::Empty
        } else {
            PollStepView::Decode(views::text_or(reply.body, ""@))
        },
    }
}

/// An answer whose body is there, if only as an empty one.
pub open spec fn with_body(reply: HttpReplyView) -> HttpReplyView {
    HttpReplyView { body: Some(views::text_or(reply.body, ""@)), ..reply }
}

/// What follows from asking for commands.
pub fn poll_step(outcome: &HttpOutcome) -> (r: PollStep)
    ensures
        r.deep_view() == poll_next(outcome.deep_view()),
{
    match outcome {
        HttpOutcome::TimedOut(_) => PollStep::Empty,
        HttpOutcome::Failed(error) => PollStep::Failed(owned(error.as_str())),
        HttpOutcome::Replied(reply) => if reply.status == 204 {
            PollStep::Empty
        } else if !(200 <= reply.status && reply.status < 300) {
            let shown = HttpReply { body: Some(owned(opt_str(&reply.body, ""))), ..reply.deep_clone() };
            PollStep::Failed(text2("poll status ", show_reply(&shown).as_str()))
        } else if opt_str(&reply.body, "").unicode_len() == 0 {
            PollStep::Empty
        } else {
            PollStep::Decode(owned(opt_str(&reply.body, "")))
        },
    }
}

/// What is said where the commands cannot be read.
pub fn decode_failure(error: &str, reply: &HttpReply) -> (r: String)
    ensures
        r@ == "error decoding response body: "@ + error@ + " (status="@ + reply.deep_view().status_text
            + ", content_type="@ + reply.deep_view().content_type + ", body_preview="@ + preview_of(
            views::text_or(reply.deep_view().body, ""@),
        ) + ")"@,
{
    let preview = body_preview(opt_str(&reply.body, ""));
    let head = text4("error decoding response body: ", error, " (status=", reply.status_text.as_str());
    text6(
        head.as_str(),
        ", content_type=",
        reply.content_type.as_str(),
        ", body_preview=",
        preview.as_str(),
        ")",
    )
}

/// What is warned of where the hub did not take the result of a command.
pub fn ack_warning(reply: &HttpReply) -> (r: Option<String>)
    ensures
        r.deep_view() == (if is_success(reply.status) {
            None
        } else {
            Some("ack returned "@ + shown_reply(reply.deep_view()))
        }),
{
    if 200 <= reply.status && reply.status < 300 {
        None
    } else {
        Some(text2("ack returned ", show_reply(reply).as_str()))
    }
}

/// What is said where the hub did not tell what it knows of the cluster.
pub fn cluster_status_refusal(reply: &HttpReply) -> (r: Option<String>)
    ensures
        r.deep_view() == (if is_success(reply.status) {
            None
        } else {
            Some("cluster status "@ + shown_reply(reply.deep_view()))
        }),
{
    if 200 <= reply.status && reply.status < 300 {
        None
    } else {
        Some(text2("cluster status ", show_reply(reply).as_str()))
    }
}

// ------------------------------------------------------------- what it is for

/// A snapshot is taken where the hub answers with success, given up where the hub says that it is
/// wrong, and else sent again: after two seconds, then after five, and then no more.
pub proof fn lemma_snapshot_is_sent_again(attempt: nat, outcome: HttpOutcomeView)
    ensures
        ({
            let status = if outcome is Replied {
                outcome->Replied_0.status as int
            } else {
                0
            };
            let next = send_next(attempt, outcome);
            let wrong = 400 <= status < 500 && status != 408 && status != 429;
            &&& next is Sent <==> 200 <= status < 300
            &&& wrong ==> next is Failed
            &&& !(200 <= status < 300) && !wrong && attempt == 0 ==> (next matches SendStepView::Again(n, delay, _) && n == 1
                && delay == 2)
            &&& !(200 <= status < 300) && !wrong && attempt == 1 ==> (next matches SendStepView::Again(n, delay, _) && n == 2
                && delay == 5)
            &&& !(200 <= status < 300) && attempt >= 2 ==> next is Failed
        }),
{
}

/// Asking for commands gives none where nothing came in time, where the hub says that there is
/// nothing, and where it says nothing; else what it says is read, and any other answer is a failure.
pub proof fn lemma_commands_are_asked_for(outcome: HttpOutcomeView)
    ensures
        outcome is TimedOut ==> poll_next(outcome) is Empty,
        outcome matches HttpOutcomeView::Failed(error) ==> poll_next(outcome) == PollStepView::Failed(error),
        outcome matches HttpOutcomeView::Replied(reply) ==> {
            let said = reply.body is Some && reply.body->0.len() > 0;
            &&& reply.status == 204 ==> poll_next(outcome) is Empty
            &&& 200 <= reply.status < 300 && reply.status != 204 && !said ==> poll_next(outcome) is Empty
            &&& 200 <= reply.status < 300 && reply.status != 204 && said ==> poll_next(outcome) == PollStepView::Decode(
                reply.body->0,
            )
            &&& !(200 <= reply.status < 300) ==> (poll_next(outcome) matches PollStepView::Failed(message)
                && text::contains_text(message, reply.status_text))
        },
{
    reveal_strlit("");
    assert(""@.len() == 0);
    if let HttpOutcomeView::Replied(reply) = outcome {
        if !(200 <= reply.status < 300) {
            let message = "poll status "@ + shown_reply(with_body(reply));
            let at = "poll status "@.len() as int;
            assert(message.subrange(at, at + reply.status_text.len()) =~= reply.status_text);
            assert(text::occurs_at(message, reply.status_text, at));
        }
    }
}

/// A cluster's route is below the hub's URL, with the prefix of its family; the other family is
/// tried where the hub does not know the route, and only once.
pub proof fn lemma_routes_of_a_cluster(
    hub_url: Seq<char>,
    cluster_id: Seq<char>,
    family: RouteFamily,
    switched: bool,
    outcome: HttpOutcomeView,
)
    ensures
        cluster_url(hub_url, cluster_id, RouteFamily::Legacy) == hub_url + "/v1"@ + "/clusters/"@ + cluster_id,
        cluster_url(hub_url, cluster_id, RouteFamily::Api) == hub_url + "/api/v1"@ + "/clusters/"@ + cluster_id,
        route_next(family, switched, outcome) is Some <==> !switched && (outcome matches HttpOutcomeView::Replied(
            reply,
        ) && reply.status == 404),
        route_next(family, switched, outcome) matches Some(next) ==> next != family,
{
}

/// What is shown of a body is its beginning, without white space at its ends: at most two hundred
/// characters, marked where it was cut.
pub proof fn lemma_bodies_are_shown_in_part(body: Seq<char>, key: Seq<char>)
    ensures
        text::trimmed(body).len() <= 200 ==> preview_of(body) == text::trimmed(body),
        text::trimmed(body).len() > 200 ==> preview_of(body) == text::trimmed(body).take(200) + "..."@,
        opt_preview(None) == "<disabled>"@,
        opt_preview(Some(body)) == preview_of(body),
        key_state(None) == KeyState::Missing,
        key_state(Some("shub_"@ + key)) == KeyState::Fine,
        key_state(Some(key)) == KeyState::Fine ==> text::has_prefix(key, "shub_"@),
        key_state(Some(key)) != KeyState::Missing,
{
    let long = "shub_"@ + key;
    assert(long.subrange(0, "shub_"@.len() as int) =~= "shub_"@);
    assert(text::trimmed(body).len() > 200 ==> text::trimmed(body).subrange(0, 200) =~= text::trimmed(body).take(200));
}

} // verus!
