//! The streams of observed events, and what is kept of them.
use std::collections::VecDeque;
use crate::config::Config;
use crate::dependency;
use crate::dependency::{DEP_WINDOW_SECONDS, LineOutcomeView, MAX_TETRAGON_LINES};
use crate::json_value;
use crate::json_value::{array_value, JsonNode, number_value, object_value, text_value, write_json};
use crate::order;
use crate::order::{sort_texts, str_eq};
use crate::text;
use crate::text::{contains, decimal, list_has, owned, text2, text3, to_ascii_lowercase};
use crate::views;
use crate::views::{any_item, DeepClone, filter_cloned, filter_map_items, map_items};
use vstd::prelude::*;

verus! {

/// How many events are kept.
pub const MAX_BUFFERED_EVENTS: usize = 20_000;

/// How many streams are discovered.
pub const MAX_DISCOVERED_ENDPOINTS: usize = 16;

/// The name of the stream from the configured address.
pub const FALLBACK_STREAM_KEY: &'static str = "__fallback__";

/// An event as it was put down, and when.
#[derive(Clone, Debug, PartialEq, Eq)]
pub struct BufferedLine {
    pub line: String,
    pub recorded_at_ms: u128,
}

/// The view of [`BufferedLine`].
pub struct BufferedLineView {
    pub line: Seq<char>,
    pub recorded_at_ms: u128,
}

impl DeepView for BufferedLine {
    type V = BufferedLineView;

    open spec fn deep_view(&self) -> BufferedLineView {
        BufferedLineView {
            line: self.line.deep_view(),
            recorded_at_ms: self.recorded_at_ms.deep_view(),
        }
    }
}

impl DeepClone for BufferedLine {
    fn deep_clone(&self) -> (copy: Self) {
        BufferedLine {
            line: self.line.deep_clone(),
            recorded_at_ms: self.recorded_at_ms.deep_clone(),
        }
    }
}

/// Where the address of a stream comes from.
#[derive(Clone, Copy, Debug, PartialEq, Eq)]
pub enum StreamSource {
    Discovered,
    Fallback,
}

impl DeepView for StreamSource {
    type V = StreamSource;

    open spec fn deep_view(&self) -> StreamSource {
        *self
    }
}

impl DeepClone for StreamSource {
    fn deep_clone(&self) -> (copy: Self) {
        *self
    }
}

/// A stream of events.
#[derive(Clone, Debug, PartialEq, Eq)]
pub struct StreamEntry {
    pub key: String,
    pub source: StreamSource,
    pub connected: bool,
}

/// The view of [`StreamEntry`].
pub struct StreamEntryView {
    pub key: Seq<char>,
    pub source: StreamSource,
    pub connected: bool,
}

impl DeepView for StreamEntry {
    type V = StreamEntryView;

    open spec fn deep_view(&self) -> StreamEntryView {
        StreamEntryView {
            key: self.key.deep_view(),
            source: self.source.deep_view(),
            connected: self.connected.deep_view(),
        }
    }
}

impl DeepClone for StreamEntry {
    fn deep_clone(&self) -> (copy: Self) {
        StreamEntry {
            key: self.key.deep_clone(),
            source: self.source.deep_clone(),
            connected: self.connected.deep_clone(),
        }
    }
}

/// What is to be done about the streams.
#[derive(Clone, Debug, PartialEq, Eq)]
pub struct StreamPlan {
    /// The streams that end.
    pub stop: Vec<String>,
    /// The addresses of the streams that begin.
    pub start: Vec<String>,
    /// Whether the stream from the configured address begins.
    pub start_fallback: bool,
}

/// The view of [`StreamPlan`].
pub struct StreamPlanView {
    pub stop: Seq<Seq<char>>,
    pub start: Seq<Seq<char>>,
    pub start_fallback: bool,
}

impl DeepView for StreamPlan {
    type V = StreamPlanView;

    open spec fn deep_view(&self) -> StreamPlanView {
        StreamPlanView {
            stop: self.stop.deep_view(),
            start: self.start.deep_view(),
            start_fallback: self.start_fallback.deep_view(),
        }
    }
}

impl DeepClone for StreamPlan {
    fn deep_clone(&self) -> (copy: Self) {
        StreamPlan {
            stop: self.stop.deep_clone(),
            start: self.start.deep_clone(),
            start_fallback: self.start_fallback.deep_clone(),
        }
    }
}

/// A place where events can be had.
#[derive(Clone, Debug, PartialEq, Eq)]
pub struct DiscoveredEndpoint {
    pub ready: Option<bool>,
    /// What kind of object it belongs to, where it belongs to one.
    pub target: Option<EndpointTarget>,
    /// The addresses; nothing for one that is none.
    pub addresses: Vec<Option<String>>,
}

/// The view of [`DiscoveredEndpoint`].
pub struct DiscoveredEndpointView {
    pub ready: Option<bool>,
    pub target: Option<EndpointTargetView>,
    pub addresses: Seq<Option<Seq<char>>>,
}

impl DeepView for DiscoveredEndpoint {
    type V = DiscoveredEndpointView;

    open spec fn deep_view(&self) -> DiscoveredEndpointView {
        DiscoveredEndpointView {
            ready: self.ready.deep_view(),
            target: self.target.deep_view(),
            addresses: self.addresses.deep_view(),
        }
    }
}

impl DeepClone for DiscoveredEndpoint {
    fn deep_clone(&self) -> (copy: Self) {
        DiscoveredEndpoint {
            ready: self.ready.deep_clone(),
            target: self.target.deep_clone(),
            addresses: self.addresses.deep_clone(),
        }
    }
}

/// What a place where events can be had belongs to.
#[derive(Clone, Debug, PartialEq, Eq)]
pub struct EndpointTarget {
    pub kind: Option<String>,
}

/// The view of [`EndpointTarget`].
pub struct EndpointTargetView {
    pub kind: Option<Seq<char>>,
}

impl DeepView for EndpointTarget {
    type V = EndpointTargetView;

    open spec fn deep_view(&self) -> EndpointTargetView {
        EndpointTargetView {
            kind: self.kind.deep_view(),
        }
    }
}

impl DeepClone for EndpointTarget {
    fn deep_clone(&self) -> (copy: Self) {
        EndpointTarget {
            kind: self.kind.deep_clone(),
        }
    }
}

/// Places where events can be had, with the ports there.
#[derive(Clone, Debug, PartialEq, Eq)]
pub struct DiscoveredSlice {
    pub ports: Vec<Option<i32>>,
    pub endpoints: Vec<DiscoveredEndpoint>,
}

/// The view of [`DiscoveredSlice`].
pub struct DiscoveredSliceView {
    pub ports: Seq<Option<i32>>,
    pub endpoints: Seq<DiscoveredEndpointView>,
}

impl DeepView for DiscoveredSlice {
    type V = DiscoveredSliceView;

    open spec fn deep_view(&self) -> DiscoveredSliceView {
        DiscoveredSliceView {
            ports: self.ports.deep_view(),
            endpoints: self.endpoints.deep_view(),
        }
    }
}

impl DeepClone for DiscoveredSlice {
    fn deep_clone(&self) -> (copy: Self) {
        DiscoveredSlice {
            ports: self.ports.deep_clone(),
            endpoints: self.endpoints.deep_clone(),
        }
    }
}

/// The ends of a connection.
#[derive(Clone, Debug, PartialEq, Eq)]
pub struct SockArgument {
    pub saddr: String,
    pub daddr: String,
    pub protocol: String,
    pub dport: u32,
}

/// The view of [`SockArgument`].
pub struct SockArgumentView {
    pub saddr: Seq<char>,
    pub daddr: Seq<char>,
    pub protocol: Seq<char>,
    pub dport: u32,
}

impl DeepView for SockArgument {
    type V = SockArgumentView;

    open spec fn deep_view(&self) -> SockArgumentView {
        SockArgumentView {
            saddr: self.saddr.deep_view(),
            daddr: self.daddr.deep_view(),
            protocol: self.protocol.deep_view(),
            dport: self.dport.deep_view(),
        }
    }
}

impl DeepClone for SockArgument {
    fn deep_clone(&self) -> (copy: Self) {
        SockArgument {
            saddr: self.saddr.deep_clone(),
            daddr: self.daddr.deep_clone(),
            protocol: self.protocol.deep_clone(),
            dport: self.dport.deep_clone(),
        }
    }
}

/// An argument of a kernel function.
#[derive(Clone, Debug, PartialEq, Eq)]
pub enum KprobeArgument {
    Sock(SockArgument),
    Int(i32),
    Other,
}

/// The view of [`KprobeArgument`].
pub enum KprobeArgumentView {
    Sock(SockArgumentView),
    Int(i32),
    Other,
}

impl DeepView for KprobeArgument {
    type V = KprobeArgumentView;

    open spec fn deep_view(&self) -> KprobeArgumentView {
        match self {
            KprobeArgument::Sock(a) => KprobeArgumentView::Sock(a.deep_view()),
            KprobeArgument::Int(a) => KprobeArgumentView::Int(a.deep_view()),
            KprobeArgument::Other => KprobeArgumentView::Other,
        }
    }
}

impl DeepClone for KprobeArgument {
    fn deep_clone(&self) -> (copy: Self) {
        match self {
            KprobeArgument::Sock(a) => KprobeArgument::Sock(a.deep_clone()),
            KprobeArgument::Int(a) => KprobeArgument::Int(a.deep_clone()),
            KprobeArgument::Other => KprobeArgument::Other,
        }
    }
}

/// A call of a kernel function.
#[derive(Clone, Debug, PartialEq, Eq)]
pub struct KprobeEvent {
    pub function_name: String,
    pub args: Vec<KprobeArgument>,
    pub time: Option<EventTime>,
}

/// The view of [`KprobeEvent`].
pub struct KprobeEventView {
    pub function_name: Seq<char>,
    pub args: Seq<KprobeArgumentView>,
    pub time: Option<EventTimeView>,
}

impl DeepView for KprobeEvent {
    type V = KprobeEventView;

    open spec fn deep_view(&self) -> KprobeEventView {
        KprobeEventView {
            function_name: self.function_name.deep_view(),
            args: self.args.deep_view(),
            time: self.time.deep_view(),
        }
    }
}

impl DeepClone for KprobeEvent {
    fn deep_clone(&self) -> (copy: Self) {
        KprobeEvent {
            function_name: self.function_name.deep_clone(),
            args: self.args.deep_clone(),
            time: self.time.deep_clone(),
        }
    }
}

/// When an event was, in seconds and nanoseconds.
#[derive(Clone, Debug, PartialEq, Eq)]
pub struct EventTime {
    pub seconds: i64,
    pub nanos: i32,
}

/// The view of [`EventTime`].
pub struct EventTimeView {
    pub seconds: i64,
    pub nanos: i32,
}

impl DeepView for EventTime {
    type V = EventTimeView;

    open spec fn deep_view(&self) -> EventTimeView {
        EventTimeView {
            seconds: self.seconds.deep_view(),
            nanos: self.nanos.deep_view(),
        }
    }
}

impl DeepClone for EventTime {
    fn deep_clone(&self) -> (copy: Self) {
        EventTime {
            seconds: self.seconds.deep_clone(),
            nanos: self.nanos.deep_clone(),
        }
    }
}

/// How the streams begin.
#[derive(Clone, Debug, PartialEq, Eq)]
pub struct StreamStart {
    pub dependency_required: bool,
    pub dependency_ready: bool,
    pub start: bool,
}

/// The view of [`StreamStart`].
pub struct StreamStartView {
    pub dependency_required: bool,
    pub dependency_ready: bool,
    pub start: bool,
}

impl DeepView for StreamStart {
    type V = StreamStartView;

    open spec fn deep_view(&self) -> StreamStartView {
        StreamStartView {
            dependency_required: self.dependency_required.deep_view(),
            dependency_ready: self.dependency_ready.deep_view(),
            start: self.start.deep_view(),
        }
    }
}

impl DeepClone for StreamStart {
    fn deep_clone(&self) -> (copy: Self) {
        StreamStart {
            dependency_required: self.dependency_required.deep_clone(),
            dependency_ready: self.dependency_ready.deep_clone(),
            start: self.start.deep_clone(),
        }
    }
}

/// How many streams there are, and how many of them are connected.
#[derive(Clone, Copy, Debug, Default, PartialEq, Eq)]
pub struct CoverageSnapshot {
    pub observed_endpoints: usize,
    pub connected_endpoints: usize,
    pub unavailable_endpoints: usize,
}

// ------------------------------------------------------------------ the events

/// The events that were put down.
pub struct EventBuffer {
    pub lines: VecDeque<BufferedLine>,
}

/// The events without those, at the front, that are too old.
pub open spec fn pruned(lines: Seq<BufferedLineView>, cutoff_ms: u128) -> Seq<BufferedLineView>
    decreases lines.len(),
{
    if lines.len() > 0 && lines[0].recorded_at_ms < cutoff_ms {
        pruned(lines.drop_first(), cutoff_ms)
    } else {
        lines
    }
}

/// The time before which events are too old.
pub open spec fn cutoff(now_ms: u128) -> u128 {
    if now_ms >= DEP_WINDOW_SECONDS * 1000 {
        (now_ms - DEP_WINDOW_SECONDS * 1000) as u128
    } else {
        0
    }
}

/// The events with one more. Those that are too old are gone, and the oldest one where there are
/// as many as are kept.
pub open spec fn with_event(lines: Seq<BufferedLineView>, line: Seq<char>, now_ms: u128) -> Seq<BufferedLineView> {
    let kept = pruned(lines, cutoff(now_ms));
    let added = BufferedLineView { line, recorded_at_ms: now_ms };
    if kept.len() >= MAX_BUFFERED_EVENTS {
        kept.drop_first().push(added)
    } else {
        kept.push(added)
    }
}

/// The events, each on a line.
pub open spec fn body_of(lines: Seq<BufferedLineView>) -> Seq<char>
    decreases lines.len(),
{
    if lines.len() == 0 {
        seq![]
    } else {
        body_of(lines.drop_last()) + lines.last().line + "\n"@
    }
}

impl EventBuffer {
    /// The events, oldest first.
    pub open spec fn events(self) -> Seq<BufferedLineView> {
        self.lines@.map_values(|l: BufferedLine| l.deep_view())
    }

    /// Nothing was put down.
    pub fn new() -> (r: Self)
        ensures
            r.events() == Seq::<BufferedLineView>::empty(),
    {
        let r = EventBuffer { lines: VecDeque::new() };
        assert(r.events() =~= Seq::<BufferedLineView>::empty());
        r
    }

    fn prune(&mut self, now_ms: u128)
        ensures
            final(self).events() == pruned(old(self).events(), cutoff(now_ms)),
    {
        let cutoff_ms: u128 = now_ms.saturating_sub(60_000);
        let ghost before = self.events();
        loop
            invariant
                cutoff_ms == cutoff(now_ms),
                pruned(before, cutoff_ms) == pruned(self.events(), cutoff_ms),
            ensures
                self.events() == pruned(before, cutoff_ms),
            decreases self.lines@.len(),
        {
            if self.lines.len() == 0 {
                break;
            }
            assert(self.events()[0] == self.lines@[0].deep_view());
            if self.lines[0].recorded_at_ms >= cutoff_ms {
                break;
            }
            let ghost all = self.events();
            self.lines.pop_front();
            assert(self.events() =~= all.drop_first());
        }
    }

    /// Puts an event down.
    pub fn push(&mut self, line: String, now_ms: u128)
        ensures
            final(self).events() == with_event(old(self).events(), line@, now_ms),
    {
        self.prune(now_ms);
        let ghost kept = self.events();
        if self.lines.len() >= MAX_BUFFERED_EVENTS {
            self.lines.pop_front();
            assert(self.events() =~= kept.drop_first());
        }
        let ghost rest = self.events();
        let added = BufferedLine { line, recorded_at_ms: now_ms };
        let ghost shown = added.deep_view();
        self.lines.push_back(added);
        assert(self.events() =~= rest.push(shown));
    }

    /// The events of the last window, each on a line.
    pub fn snapshot_ndjson(&mut self, now_ms: u128) -> (r: String)
        ensures
            final(self).events() == pruned(old(self).events(), cutoff(now_ms)),
            r@ == body_of(pruned(old(self).events(), cutoff(now_ms))),
    {
        self.prune(now_ms);
        let ghost all = self.events();
        let mut body = String::new();
        let mut i: usize = 0;
        let total: usize = self.lines.len();
        assert(all.take(0) =~= Seq::<BufferedLineView>::empty());
        while i < total
            invariant
                i <= total,
                total == self.lines@.len(),
                all == self.events(),
                body@ == body_of(all.take(i as int)),
            decreases total - i,
        {
            proof {
                assert(all.take(i + 1).drop_last() =~= all.take(i as int));
                assert(all.take(i + 1).last() == self.lines@[i as int].deep_view());
            }
            body.append(self.lines[i].line.as_str());
            body.append("\n");
            i += 1;
        }
        assert(all.take(total as int) =~= all);
        body
    }
}

/// The events of the last window, each on a line; none where there are no streams.
pub fn snapshot_ndjson(buffer: &mut Option<EventBuffer>, now_ms: u128) -> (r: String)
    ensures
        match *old(buffer) {
            None => r@ == Seq::<char>::empty() && *final(buffer) is None,
            Some(events) => {
                &&& r@ == body_of(pruned(events.events(), cutoff(now_ms)))
                &&& *final(buffer) is Some
                &&& (*final(buffer))->0.events() == pruned(events.events(), cutoff(now_ms))
            },
        },
{
    match buffer {
        None => String::new(),
        Some(events) => events.snapshot_ndjson(now_ms),
    }
}

proof fn lemma_pruned_is_suffix(lines: Seq<BufferedLineView>, cutoff_ms: u128)
    ensures
        pruned(lines, cutoff_ms).len() <= lines.len(),
        pruned(lines, cutoff_ms) == lines.skip(lines.len() - pruned(lines, cutoff_ms).len()),
        pruned(lines, cutoff_ms).len() > 0 ==> pruned(lines, cutoff_ms)[0].recorded_at_ms >= cutoff_ms,
    decreases lines.len(),
{
    if lines.len() > 0 && lines[0].recorded_at_ms < cutoff_ms {
        lemma_pruned_is_suffix(lines.drop_first(), cutoff_ms);
        let rest = pruned(lines.drop_first(), cutoff_ms);
        assert(lines.drop_first().skip(lines.len() - 1 - rest.len()) =~= lines.skip(lines.len() - rest.len()));
    } else {
        assert(lines.skip(0) =~= lines);
    }
}

/// The events were put down one after the other.
pub open spec fn in_time(lines: Seq<BufferedLineView>) -> bool {
    forall|i: int, j: int|
        0 <= i <= j < lines.len() ==> (#[trigger] lines[i]).recorded_at_ms <= (#[trigger] lines[j]).recorded_at_ms
}

/// However many events come, no more are kept than may be, the latest is among them, and none is
/// older than the window, as long as the clock does not go back.
pub proof fn lemma_buffer_is_bounded(lines: Seq<BufferedLineView>, line: Seq<char>, now_ms: u128)
    requires
        lines.len() <= MAX_BUFFERED_EVENTS,
        in_time(lines),
        forall|i: int| 0 <= i < lines.len() ==> (#[trigger] lines[i]).recorded_at_ms <= now_ms,
    ensures
        ({
            let after = with_event(lines, line, now_ms);
            &&& after.len() <= MAX_BUFFERED_EVENTS
            &&& after.last() == (BufferedLineView { line, recorded_at_ms: now_ms })
            &&& in_time(after)
            &&& forall|i: int| 0 <= i < after.len() ==> cutoff(now_ms) <= (#[trigger] after[i]).recorded_at_ms <= now_ms
        }),
{
    lemma_pruned_is_suffix(lines, cutoff(now_ms));
    let kept = pruned(lines, cutoff(now_ms));
    let gone = lines.len() - kept.len();
    assert forall|i: int| 0 <= i < kept.len() implies #[trigger] kept[i] == lines[gone + i] by {}
}

// ------------------------------------------------------------------ the streams

/// The streams that there are, each under a name of its own.
pub struct StreamTable {
    pub streams: Vec<StreamEntry>,
    pub dependency_required: bool,
}

/// No two streams have the same name.
pub open spec fn distinct_keys(streams: Seq<StreamEntryView>) -> bool {
    forall|i: int, j: int|
        0 <= i < j < streams.len() ==> (#[trigger] streams[i]).key != (#[trigger] streams[j]).key
}

/// There is a stream of a name.
pub open spec fn has_stream(streams: Seq<StreamEntryView>, key: Seq<char>) -> bool {
    streams.any(|s: StreamEntryView| s.key == key)
}

/// The streams without one of a name.
pub open spec fn without_stream(streams: Seq<StreamEntryView>, key: Seq<char>) -> Seq<StreamEntryView> {
    streams.filter(|s: StreamEntryView| s.key != key)
}

/// The streams with one of a name set to be connected or not.
pub open spec fn with_connected(streams: Seq<StreamEntryView>, key: Seq<char>, connected: bool) -> Seq<StreamEntryView> {
    streams.map_values(
        |s: StreamEntryView|
            if s.key == key {
                StreamEntryView { connected, ..s }
            } else {
                s
            },
    )
}

/// How many streams are connected.
pub open spec fn connected_count(streams: Seq<StreamEntryView>) -> nat {
    streams.filter(|s: StreamEntryView| s.connected).len()
}

/// How many streams there are, and how many of them are connected.
pub open spec fn coverage_of(streams: Seq<StreamEntryView>) -> CoverageSnapshot {
    CoverageSnapshot {
        observed_endpoints: streams.len() as usize,
        connected_endpoints: connected_count(streams) as usize,
        unavailable_endpoints: (streams.len() - connected_count(streams)) as usize,
    }
}

/// What is ready by the streams: what needs none, and what has one that is connected.
pub open spec fn ready_by(streams: Seq<StreamEntryView>, dependency_required: bool) -> bool {
    !dependency_required || connected_count(streams) > 0
}

proof fn lemma_connected_count(streams: Seq<StreamEntryView>)
    ensures
        connected_count(streams) <= streams.len(),
{
    streams.lemma_filter_len(|s: StreamEntryView| s.connected);
}

impl StreamTable {
    /// No stream has the name of another.
    pub open spec fn well_formed(self) -> bool {
        distinct_keys(self.streams.deep_view())
    }

    /// There are no streams.
    pub fn new(dependency_required: bool) -> (r: Self)
        ensures
            r.well_formed(),
            r.streams.deep_view() == Seq::<StreamEntryView>::empty(),
            r.dependency_required == dependency_required,
    {
        let streams: Vec<StreamEntry> = Vec::new();
        assert(streams.deep_view() =~= Seq::<StreamEntryView>::empty());
        StreamTable { streams, dependency_required }
    }

    /// How many streams there are, and how many of them are connected.
    pub fn coverage_snapshot(&self) -> (r: CoverageSnapshot)
        ensures
            r == coverage_of(self.streams.deep_view()),
    {
        let connected = |s: &StreamEntry| -> (b: bool)
            ensures
                b == s.deep_view().connected,
            { s.connected };
        let up = filter_cloned(&self.streams, connected, Ghost(|s: StreamEntryView| s.connected));
        proof {
            lemma_connected_count(self.streams.deep_view());
            assert(up.deep_view().len() == up@.len());
        }
        let observed_endpoints: usize = self.streams.len();
        let connected_endpoints: usize = up.len();
        CoverageSnapshot {
            observed_endpoints,
            connected_endpoints,
            unavailable_endpoints: observed_endpoints - connected_endpoints,
        }
    }

    /// Whether what needs the events is ready.
    pub fn dependency_ready(&self) -> (r: bool)
        ensures
            r == ready_by(self.streams.deep_view(), self.dependency_required),
    {
        !self.dependency_required || self.any_connected()
    }

    fn any_connected(&self) -> (r: bool)
        ensures
            r == (connected_count(self.streams.deep_view()) > 0),
    {
        let connected = |s: &StreamEntry| -> (b: bool)
            ensures
                b == s.deep_view().connected,
            { s.connected };
        let up = filter_cloned(&self.streams, connected, Ghost(|s: StreamEntryView| s.connected));
        assert(up.deep_view().len() == up@.len());
        up.len() > 0
    }

    /// Whether there is a stream of a name.
    pub fn stream_exists(&self, key: &str) -> (r: bool)
        ensures
            r == has_stream(self.streams.deep_view(), key@),
    {
        let same = |s: &StreamEntry| -> (b: bool)
            ensures
                b == (s.deep_view().key == key@),
            { str_eq(s.key.as_str(), key) };
        any_item(&self.streams, same, Ghost(|s: StreamEntryView| s.key == key@))
    }

    /// Takes a stream in; one that had its name is gone.
    pub fn register_stream(&mut self, entry: StreamEntry)
        requires
            old(self).well_formed(),
        ensures
            final(self).well_formed(),
            final(self).dependency_required == old(self).dependency_required,
            final(self).streams.deep_view() == without_stream(old(self).streams.deep_view(), entry.deep_view().key).push(
                entry.deep_view(),
            ),
    {
        let ghost before = self.streams.deep_view();
        let ghost added = entry.deep_view();
        let other = |s: &StreamEntry| -> (b: bool)
            ensures
                b == (s.deep_view().key != entry.deep_view().key),
            { !str_eq(s.key.as_str(), entry.key.as_str()) };
        let mut streams = filter_cloned(&self.streams, other, Ghost(|s: StreamEntryView| s.key != entry.deep_view().key));
        let ghost kept = streams.deep_view();
        streams.push(entry);
        assert(streams.deep_view() =~= kept.push(added));
        proof {
            lemma_filter_distinct(before, added.key);
            let f = |s: StreamEntryView| s.key != added.key;
            assert forall|i: int| 0 <= i < kept.len() implies (#[trigger] kept[i]).key != added.key by {
                before.lemma_filter_pred(f, i);
            }
        }
        self.streams = streams;
    }

    /// Says whether a stream is connected; whether it was, before. A stream that is not there was not.
    pub fn set_stream_connected(&mut self, key: &str, connected: bool) -> (r: bool)
        requires
            old(self).well_formed(),
        ensures
            final(self).well_formed(),
            final(self).dependency_required == old(self).dependency_required,
            final(self).streams.deep_view() == with_connected(old(self).streams.deep_view(), key@, connected),
            r == old(self).streams.deep_view().any(|s: StreamEntryView| s.key == key@ && s.connected),
    {
        let ghost before = self.streams.deep_view();
        let was = |s: &StreamEntry| -> (b: bool)
            ensures
                b == (s.deep_view().key == key@ && s.deep_view().connected),
            { s.connected && str_eq(s.key.as_str(), key) };
        let was_connected = any_item(&self.streams, was, Ghost(|s: StreamEntryView| s.key == key@ && s.connected));
        let ghost f = |s: StreamEntryView|
            if s.key == key@ {
                StreamEntryView { connected, ..s }
            } else {
                s
            };
        let set = |s: &StreamEntry| -> (r: StreamEntry)
            ensures
                r.deep_view() == (if s.deep_view().key == key@ {
                    StreamEntryView { connected, ..s.deep_view() }
                } else {
                    s.deep_view()
                }),
            {
                if str_eq(s.key.as_str(), key) {
                    StreamEntry { connected, ..s.deep_clone() }
                } else {
                    s.deep_clone()
                }
            };
        self.streams = map_items(
            &self.streams,
            set,
            Ghost(
                |s: StreamEntryView|
                    if s.key == key@ {
                        StreamEntryView { connected, ..s }
                    } else {
                        s
                    },
            ),
        );
        proof {
            let after = self.streams.deep_view();
            assert(after =~= before.map_values(f));
            assert forall|i: int, j: int| 0 <= i < j < after.len() implies (#[trigger] after[i]).key != (
            #[trigger] after[j]).key by {
                assert(before[i].key != before[j].key);
            }
        }
        was_connected
    }

    /// Takes a stream out; whether it was there.
    pub fn remove_stream(&mut self, key: &str) -> (r: bool)
        requires
            old(self).well_formed(),
        ensures
            final(self).well_formed(),
            final(self).dependency_required == old(self).dependency_required,
            final(self).streams.deep_view() == without_stream(old(self).streams.deep_view(), key@),
            r == has_stream(old(self).streams.deep_view(), key@),
    {
        let there = self.stream_exists(key);
        let ghost before = self.streams.deep_view();
        let other = |s: &StreamEntry| -> (b: bool)
            ensures
                b == (s.deep_view().key != key@),
            { !str_eq(s.key.as_str(), key) };
        self.streams = filter_cloned(&self.streams, other, Ghost(|s: StreamEntryView| s.key != key@));
        proof {
            lemma_filter_distinct(before, key@);
        }
        there
    }
}

proof fn lemma_filter_distinct(streams: Seq<StreamEntryView>, key: Seq<char>)
    requires
        distinct_keys(streams),
    ensures
        distinct_keys(without_stream(streams, key)),
    decreases streams.len(),
{
    reveal(Seq::filter);
    if streams.len() > 0 {
        let rest = streams.drop_last();
        lemma_filter_distinct(rest, key);
        let f = |s: StreamEntryView| s.key != key;
        let kept = rest.filter(f);
        if f(streams.last()) {
            assert(streams.filter(f) =~= kept.push(streams.last()));
            assert forall|i: int| 0 <= i < kept.len() implies (#[trigger] kept[i]).key != streams.last().key by {
                assert(kept.contains(kept[i]));
                rest.lemma_filter_contains_rev(f, kept[i]);
                let k = choose|k: int| 0 <= k < rest.len() && rest[k] == kept[i];
                assert(streams[k].key != streams[streams.len() - 1].key);
            }
        }
    }
}

/// How many streams there are, and how many of them are connected; none where nothing was begun.
pub fn coverage_snapshot(table: &Option<StreamTable>) -> (r: CoverageSnapshot)
    ensures
        match *table {
            Some(table) => r == coverage_of(table.streams.deep_view()),
            None => r == (CoverageSnapshot {
                observed_endpoints: 0,
                connected_endpoints: 0,
                unavailable_endpoints: 0,
            }),
        },
{
    match table {
        Some(table) => table.coverage_snapshot(),
        None => CoverageSnapshot { observed_endpoints: 0, connected_endpoints: 0, unavailable_endpoints: 0 },
    }
}

// ----------------------------------------------------------------- discovery

/// The port of a slice: the first that it names, or else the configured one.
pub open spec fn slice_port(ports: Seq<Option<i32>>, grpc_port: u16) -> u16
    decreases ports.len(),
{
    if ports.len() == 0 {
        grpc_port
    } else {
        match ports[0] {
            Some(port) => (port as int % 65536) as u16,
            None => slice_port(ports.drop_first(), grpc_port),
        }
    }
}

fn low_bits(port: i32) -> (r: u16)
    ensures
        r == (port as int % 65536) as u16,
{
    let wide: i64 = port as i64 + 0x8000_0000;
    assert((port as int + 0x8000_0000) % 65536 == port as int % 65536);
    (wide % 65536) as u16
}

fn port_of_slice(ports: &Vec<Option<i32>>, grpc_port: u16) -> (r: u16)
    ensures
        r == slice_port(ports@, grpc_port),
{
    let ghost all = ports@;
    let mut i: usize = 0;
    assert(all.skip(0) =~= all);
    while i < ports.len()
        invariant
            i <= ports.len(),
            all == ports@,
            slice_port(all, grpc_port) == slice_port(all.skip(i as int), grpc_port),
        decreases ports.len() - i,
    {
        if let Some(port) = ports[i] {
            return low_bits(port);
        }
        assert(all.skip(i as int).drop_first() =~= all.skip(i + 1));
        i += 1;
    }
    grpc_port
}

/// Events can be had from a place that is not said to be unready, and that belongs to a pod where it
/// belongs to something.
pub open spec fn is_usable(endpoint: DiscoveredEndpointView) -> bool {
    &&& endpoint.ready != Some(false)
    &&& endpoint.target matches Some(target) ==> target.kind == Some("Pod"@)
}

fn endpoint_is_usable(endpoint: &DiscoveredEndpoint) -> (r: bool)
    ensures
        r == is_usable(endpoint.deep_view()),
{
    let unready = match endpoint.ready {
        Some(ready) => !ready,
        None => false,
    };
    if unready {
        return false;
    }
    match &endpoint.target {
        Some(target) => match &target.kind {
            Some(kind) => str_eq(kind.as_str(), "Pod"),
            None => false,
        },
        None => true,
    }
}

/// An address with its port.
pub open spec fn address_with_port(address: Seq<char>, port: u16) -> Seq<char> {
    address + ":"@ + text::decimal_of(port as nat)
}

/// The addresses, with those of a list that are new, as far as there is room.
pub open spec fn with_addresses(
    found: Seq<Seq<char>>,
    addresses: Seq<Option<Seq<char>>>,
    port: u16,
) -> Seq<Seq<char>>
    decreases addresses.len(),
{
    if addresses.len() == 0 {
        found
    } else {
        let before = with_addresses(found, addresses.drop_last(), port);
        match addresses.last() {
            Some(address) => if before.len() >= MAX_DISCOVERED_ENDPOINTS || before.contains(
                address_with_port(address, port),
            ) {
                before
            } else {
                before.push(address_with_port(address, port))
            },
            None => before,
        }
    }
}

/// The addresses, with those of places of a slice that are new.
pub open spec fn with_endpoints(
    found: Seq<Seq<char>>,
    endpoints: Seq<DiscoveredEndpointView>,
    port: u16,
) -> Seq<Seq<char>>
    decreases endpoints.len(),
{
    if endpoints.len() == 0 {
        found
    } else {
        let before = with_endpoints(found, endpoints.drop_last(), port);
        if is_usable(endpoints.last()) {
            with_addresses(before, endpoints.last().addresses, port)
        } else {
            before
        }
    }
}

/// The addresses of the places of all slices, in the order in which they are found.
pub open spec fn found_addresses(slices: Seq<DiscoveredSliceView>, grpc_port: u16) -> Seq<Seq<char>>
    decreases slices.len(),
{
    if slices.len() == 0 {
        seq![]
    } else {
        with_endpoints(
            found_addresses(slices.drop_last(), grpc_port),
            slices.last().endpoints,
            slice_port(slices.last().ports, grpc_port),
        )
    }
}

fn add_addresses(found: &mut Vec<String>, addresses: &Vec<Option<String>>, port: u16)
    ensures
        final(found).deep_view() == with_addresses(old(found).deep_view(), addresses.deep_view(), port),
{
    let ghost start = found.deep_view();
    let ghost all = addresses.deep_view();
    let number = decimal(port as u128);
    let mut i: usize = 0;
    assert(with_addresses(start, all.take(0), port) =~= start);
    while i < addresses.len()
        invariant
            i <= addresses.len(),
            all == addresses.deep_view(),
            number@ == text::decimal_of(port as nat),
            found.deep_view() == with_addresses(start, all.take(i as int), port),
        decreases addresses.len() - i,
    {
        let ghost before = found.deep_view();
        proof {
            assert(all.take(i + 1).drop_last() =~= all.take(i as int));
            assert(all.take(i + 1).last() == addresses@[i as int].deep_view());
        }
        if let Some(address) = &addresses[i] {
            let shown = text3(address.as_str(), ":", number.as_str());
            if found.len() < MAX_DISCOVERED_ENDPOINTS && !list_has(found, shown.as_str()) {
                let ghost added = shown@;
                found.push(shown);
                assert(found.deep_view() =~= before.push(added));
            }
        }
        i += 1;
    }
    assert(all.take(addresses.len() as int) =~= all);
}

fn add_endpoints(found: &mut Vec<String>, endpoints: &Vec<DiscoveredEndpoint>, port: u16)
    ensures
        final(found).deep_view() == with_endpoints(old(found).deep_view(), endpoints.deep_view(), port),
{
    let ghost start = found.deep_view();
    let ghost all = endpoints.deep_view();
    let mut i: usize = 0;
    assert(with_endpoints(start, all.take(0), port) =~= start);
    while i < endpoints.len()
        invariant
            i <= endpoints.len(),
            all == endpoints.deep_view(),
            found.deep_view() == with_endpoints(start, all.take(i as int), port),
        decreases endpoints.len() - i,
    {
        proof {
            assert(all.take(i + 1).drop_last() =~= all.take(i as int));
            assert(all.take(i + 1).last() == endpoints@[i as int].deep_view());
        }
        if endpoint_is_usable(&endpoints[i]) {
            add_addresses(found, &endpoints[i].addresses, port);
        }
        i += 1;
    }
    assert(all.take(endpoints.len() as int) =~= all);
}

/// The addresses from which events can be had, in order.
pub fn discover_addresses(slices: &Vec<DiscoveredSlice>, grpc_port: u16) -> (r: Vec<String>)
    ensures
        r.deep_view() == order::sorted_texts(found_addresses(slices.deep_view(), grpc_port)),
{
    let ghost all = slices.deep_view();
    let mut found: Vec<String> = Vec::new();
    let mut i: usize = 0;
    assert(found.deep_view() =~= found_addresses(all.take(0), grpc_port));
    while i < slices.len()
        invariant
            i <= slices.len(),
            all == slices.deep_view(),
            found.deep_view() == found_addresses(all.take(i as int), grpc_port),
        decreases slices.len() - i,
    {
        proof {
            assert(all.take(i + 1).drop_last() =~= all.take(i as int));
            assert(all.take(i + 1).last() == slices@[i as int].deep_view());
            assert(slices@[i as int].ports.deep_view() =~= slices@[i as int].ports@);
        }
        let port: u16 = port_of_slice(&slices[i].ports, grpc_port);
        add_endpoints(&mut found, &slices[i].endpoints, port);
        i += 1;
    }
    assert(all.take(slices.len() as int) =~= all);
    sort_texts(found)
}

proof fn lemma_addresses_bounded(found: Seq<Seq<char>>, addresses: Seq<Option<Seq<char>>>, port: u16)
    requires
        found.len() <= MAX_DISCOVERED_ENDPOINTS,
    ensures
        with_addresses(found, addresses, port).len() <= MAX_DISCOVERED_ENDPOINTS,
    decreases addresses.len(),
{
    if addresses.len() > 0 {
        lemma_addresses_bounded(found, addresses.drop_last(), port);
    }
}

proof fn lemma_endpoints_bounded(found: Seq<Seq<char>>, endpoints: Seq<DiscoveredEndpointView>, port: u16)
    requires
        found.len() <= MAX_DISCOVERED_ENDPOINTS,
    ensures
        with_endpoints(found, endpoints, port).len() <= MAX_DISCOVERED_ENDPOINTS,
    decreases endpoints.len(),
{
    if endpoints.len() > 0 {
        lemma_endpoints_bounded(found, endpoints.drop_last(), port);
        lemma_addresses_bounded(
            with_endpoints(found, endpoints.drop_last(), port),
            endpoints.last().addresses,
            port,
        );
    }
}

/// No more streams are discovered than may be.
pub proof fn lemma_discovery_is_bounded(slices: Seq<DiscoveredSliceView>, grpc_port: u16)
    ensures
        order::sorted_texts(found_addresses(slices, grpc_port)).len() <= MAX_DISCOVERED_ENDPOINTS,
    decreases slices.len(),
{
    order::lemma_in_order_keeps_items(
        found_addresses(slices, grpc_port),
        |a: Seq<char>, b: Seq<char>| order::text_le(a, b),
    );
    if slices.len() > 0 {
        lemma_discovery_is_bounded(slices.drop_last(), grpc_port);
        order::lemma_in_order_keeps_items(
            found_addresses(slices.drop_last(), grpc_port),
            |a: Seq<char>, b: Seq<char>| order::text_le(a, b),
        );
        lemma_endpoints_bounded(
            found_addresses(slices.drop_last(), grpc_port),
            slices.last().endpoints,
            slice_port(slices.last().ports, grpc_port),
        );
    }
}

/// The name of a stream that was discovered and is no longer.
pub open spec fn lost_key(stream: StreamEntryView, endpoints: Seq<Seq<char>>) -> Option<Seq<char>> {
    if stream.source == StreamSource::Discovered && !endpoints.contains(stream.key) {
        Some(stream.key)
    } else {
        None
    }
}

/// The stream from the configured address is there.
pub open spec fn has_fallback(streams: Seq<StreamEntryView>) -> bool {
    streams.any(|s: StreamEntryView| s.key == FALLBACK_STREAM_KEY@ && s.source == StreamSource::Fallback)
}

/// What is to be done about the streams, given the addresses that were discovered. Where there are
/// some, the streams are those: others end, and so does the one from the configured address. Where
/// there are none, the streams stay, and the one from the configured address begins if it is needed.
pub open spec fn stream_plan(streams: Seq<StreamEntryView>, endpoints: Seq<Seq<char>>) -> StreamPlanView {
    if endpoints.len() == 0 {
        StreamPlanView { stop: seq![], start: seq![], start_fallback: streams.len() == 0 }
    } else {
        StreamPlanView {
            stop: order::sorted_texts(streams.filter_map(|s: StreamEntryView| lost_key(s, endpoints))) + (if has_fallback(
                streams,
            ) {
                seq![FALLBACK_STREAM_KEY@]
            } else {
                seq![]
            }),
            start: endpoints.filter(|e: Seq<char>| !has_stream(streams, e)),
            start_fallback: false,
        }
    }
}

/// What is to be done about the streams, given the addresses that were discovered.
pub fn plan_streams(table: &StreamTable, endpoints: &Vec<String>) -> (r: StreamPlan)
    ensures
        r.deep_view() == stream_plan(table.streams.deep_view(), endpoints.deep_view()),
{
    let none: Vec<String> = Vec::new();
    let nothing: Vec<String> = Vec::new();
    assert(none.deep_view() =~= seq![]);
    assert(nothing.deep_view() =~= seq![]);
    if endpoints.len() == 0 {
        return StreamPlan { stop: none, start: nothing, start_fallback: table.streams.len() == 0 };
    }
    let lost = |s: &StreamEntry| -> (r: Option<String>)
        ensures
            r.deep_view() == lost_key(s.deep_view(), endpoints.deep_view()),
        {
            if matches!(s.source, StreamSource::Discovered) && !list_has(endpoints, s.key.as_str()) {
                Some(owned(s.key.as_str()))
            } else {
                None
            }
        };
    let mut stop = sort_texts(
        filter_map_items(
            &table.streams,
            lost,
            Ghost(|s: StreamEntryView| lost_key(s, endpoints.deep_view())),
        ),
    );
    let ghost ended = stop.deep_view();
    let fallback = |s: &StreamEntry| -> (b: bool)
        ensures
            b == (s.deep_view().key == FALLBACK_STREAM_KEY@ && s.deep_view().source == StreamSource::Fallback),
        { matches!(s.source, StreamSource::Fallback) && str_eq(s.key.as_str(), FALLBACK_STREAM_KEY) };
    if any_item(
        &table.streams,
        fallback,
        Ghost(|s: StreamEntryView| s.key == FALLBACK_STREAM_KEY@ && s.source == StreamSource::Fallback),
    ) {
        stop.push(owned(FALLBACK_STREAM_KEY));
        assert(stop.deep_view() =~= ended + seq![FALLBACK_STREAM_KEY@]);
    } else {
        assert(stop.deep_view() =~= ended + Seq::<Seq<char>>::empty());
    }
    let new = |e: &String| -> (b: bool)
        ensures
            b == !has_stream(table.streams.deep_view(), e.deep_view()),
        { !table.stream_exists(e.as_str()) };
    let start = filter_cloned(
        endpoints,
        new,
        Ghost(|e: Seq<char>| !has_stream(table.streams.deep_view(), e)),
    );
    StreamPlan { stop, start, start_fallback: false }
}

/// Whether the stream from the configured address begins after the discovery failed: the first time
/// in any case, later where there are no streams; never twice.
pub fn fall_back_after_failure(table: &StreamTable, first: bool) -> (r: bool)
    ensures
        r == ((first || table.streams.deep_view().len() == 0) && !has_stream(
            table.streams.deep_view(),
            FALLBACK_STREAM_KEY@,
        )),
{
    assert(table.streams.deep_view().len() == table.streams@.len());
    (first || table.streams.len() == 0) && !table.stream_exists(FALLBACK_STREAM_KEY)
}

/// How the streams begin.
pub open spec fn start_of(collect: bool, required: bool) -> StreamStartView {
    StreamStartView {
        dependency_required: collect && required,
        dependency_ready: !(collect && required),
        start: collect,
    }
}

/// How the streams begin: not at all where no events are collected.
pub fn init_streams(cfg: &Config) -> (r: StreamStart)
    ensures
        r.deep_view() == start_of(cfg.collect_dependencies_tetragon, cfg.tetragon_required_for_readiness),
{
    let dependency_required = cfg.collect_dependencies_tetragon && cfg.tetragon_required_for_readiness;
    StreamStart {
        dependency_required,
        dependency_ready: !dependency_required,
        start: cfg.collect_dependencies_tetragon,
    }
}

/// Where a stream is asked for.
pub open spec fn channel_url(address: Seq<char>) -> Seq<char> {
    if text::contains_text(address, "://"@) {
        address
    } else {
        "http://"@ + address
    }
}

/// Where a stream is asked for.
pub fn grpc_endpoint(address: &str) -> (r: String)
    ensures
        r@ == channel_url(address@),
{
    if contains(address, "://") {
        owned(address)
    } else {
        text2("http://", address)
    }
}

/// Whether a refusal says that what is asked for is there already.
pub fn already_exists_like(message: &str) -> (r: bool)
    ensures
        r == text::contains_text(text::ascii_lower(message@), "exists"@),
{
    contains(to_ascii_lowercase(message).as_str(), "exists")
}

// ------------------------------------------------------------------ what is put down

/// Milliseconds since the Unix epoch; nothing before it.
pub open spec fn event_ms(time: EventTimeView) -> Option<u128> {
    if time.seconds < 0 {
        None
    } else {
        Some(
            (time.seconds * 1000 + (if time.nanos > 0 {
                time.nanos as int
            } else {
                0
            }) / 1_000_000) as u128,
        )
    }
}

/// Milliseconds since the Unix epoch; nothing before it.
pub fn timestamp_ms(time: &EventTime) -> (r: Option<u128>)
    ensures
        r == event_ms(time.deep_view()),
{
    if time.seconds < 0 {
        return None;
    }
    let nanos: u128 = if time.nanos > 0 {
        time.nanos as u128
    } else {
        0
    };
    Some(time.seconds as u128 * 1000 + nanos / 1_000_000)
}

/// The first argument that describes a connection.
pub open spec fn first_sock(args: Seq<KprobeArgumentView>) -> Option<SockArgumentView>
    decreases args.len(),
{
    if args.len() == 0 {
        None
    } else if args[0] is Sock {
        Some(args[0]->Sock_0)
    } else {
        first_sock(args.drop_first())
    }
}

fn sock_arg<'a>(args: &'a Vec<KprobeArgument>) -> (r: Option<&'a SockArgument>)
    ensures
        r.deep_view() == first_sock(args.deep_view()),
{
    let ghost all = args.deep_view();
    let mut i: usize = 0;
    assert(all.skip(0) =~= all);
    while i < args.len()
        invariant
            i <= args.len(),
            all == args.deep_view(),
            first_sock(all) == first_sock(all.skip(i as int)),
        decreases args.len() - i,
    {
        assert(all.skip(i as int)[0] == args@[i as int].deep_view());
        if let KprobeArgument::Sock(sock) = &args[i] {
            return Some(sock);
        }
        assert(all.skip(i as int).drop_first() =~= all.skip(i + 1));
        i += 1;
    }
    None
}

/// How many bytes a call sends, by its second argument.
pub open spec fn sent_bytes(args: Seq<KprobeArgumentView>) -> int {
    if args.len() > 1 && (args[1] matches KprobeArgumentView::Int(n) && n > 0) {
        args[1]->Int_0 as int
    } else {
        0
    }
}

fn int_arg(args: &Vec<KprobeArgument>) -> (r: u64)
    ensures
        r == sent_bytes(args.deep_view()),
{
    if args.len() > 1 {
        assert(args.deep_view()[1] == args@[1].deep_view());
        if let KprobeArgument::Int(n) = &args[1] {
            if *n > 0 {
                return *n as u64;
            }
        }
    }
    0
}

/// When an event was; `now_ms` stands for a time that it does not name.
pub open spec fn event_time(event: KprobeEventView, now_ms: u128) -> u128 {
    match event.time {
        Some(time) => event_ms(time).unwrap_or(now_ms),
        None => now_ms,
    }
}

/// An event is put down: it is a call that sends or closes on a connection.
pub open spec fn is_put_down(event: KprobeEventView) -> bool {
    (event.function_name == "tcp_sendmsg"@ || event.function_name == "tcp_close"@) && first_sock(event.args) is Some
}

/// The time of an event can be put down, where the event is.
pub open spec fn has_time(event: KprobeEventView, now_ms: u128) -> bool {
    is_put_down(event) ==> event_time(event, now_ms) <= u64::MAX
}

/// A connection as it is put down.
pub open spec fn sock_contents(sock: SockArgumentView) -> Map<Seq<char>, JsonNode> {
    json_value::object_of(
        seq![
            ("saddr"@, json_value::leaf(JsonNode::Text(sock.saddr))),
            ("daddr"@, json_value::leaf(JsonNode::Text(sock.daddr))),
            ("protocol"@, json_value::leaf(JsonNode::Text(sock.protocol))),
            ("dport"@, json_value::leaf(JsonNode::Unsigned(sock.dport as u64))),
        ],
    )
}

/// The arguments of a call as they are put down: the connection, and how many bytes are sent.
pub open spec fn argument_contents(event: KprobeEventView) -> Seq<Map<Seq<char>, JsonNode>> {
    let sock = json_value::object_of(seq![("sock_arg"@, sock_contents(first_sock(event.args)->0))]);
    if event.function_name == "tcp_sendmsg"@ {
        seq![sock, json_value::object_of(seq![("int_arg"@, json_value::leaf(JsonNode::Unsigned(sent_bytes(event.args) as u64)))])]
    } else {
        seq![sock]
    }
}

/// A call as it is put down.
pub open spec fn call_contents(event: KprobeEventView, now_ms: u128) -> Map<Seq<char>, JsonNode> {
    json_value::object_of(
        seq![
            ("function_name"@, json_value::leaf(JsonNode::Text(event.function_name))),
            ("timestamp_unix_ms"@, json_value::leaf(JsonNode::Unsigned(event_time(event, now_ms) as u64))),
            ("args"@, json_value::array_of(argument_contents(event))),
        ],
    )
}

/// An event as it is put down.
pub open spec fn event_contents(event: KprobeEventView, now_ms: u128) -> Option<Map<Seq<char>, JsonNode>> {
    if is_put_down(event) {
        Some(json_value::object_of(seq![("process_kprobe"@, call_contents(event, now_ms))]))
    } else {
        None
    }
}

proof fn lemma_event_names()
    ensures
        json_value::are_member_names(seq!["saddr"@, "daddr"@, "protocol"@, "dport"@]),
        json_value::are_member_names(seq!["sock_arg"@]),
        json_value::are_member_names(seq!["int_arg"@]),
        json_value::are_member_names(seq!["function_name"@, "timestamp_unix_ms"@, "args"@]),
        json_value::are_member_names(seq!["process_kprobe"@]),
        "saddr"@.len() == 5,
        "daddr"@.len() == 5,
        "protocol"@.len() == 8,
        "dport"@.len() == 5,
        "sock_arg"@.len() == 8,
        "int_arg"@.len() == 7,
        "function_name"@.len() == 13,
        "timestamp_unix_ms"@.len() == 17,
        "args"@.len() == 4,
        "process_kprobe"@.len() == 14,
{
    reveal_strlit("saddr");
    reveal_strlit("daddr");
    reveal_strlit("protocol");
    reveal_strlit("dport");
    reveal_strlit("sock_arg");
    reveal_strlit("int_arg");
    reveal_strlit("function_name");
    reveal_strlit("timestamp_unix_ms");
    reveal_strlit("args");
    reveal_strlit("process_kprobe");
    assert("saddr"@[0] == 's' && "daddr"@[0] == 'd' && "daddr"@[1] == 'a' && "dport"@[1] == 'p');
}

/// The parts of an event that is put down are found under their names.
pub proof fn lemma_event_parts(event: KprobeEventView, now_ms: u128)
    requires
        is_put_down(event),
    ensures
        ({
            let document = event_contents(event, now_ms)->0;
            let call = call_contents(event, now_ms);
            let args = json_value::array_of(argument_contents(event));
            let sock = sock_contents(first_sock(event.args)->0);
            &&& document.contains_key(seq![]) && document[seq![]] == JsonNode::Object
            &&& json_value::below(document, "/"@ + "process_kprobe"@) == call
            &&& forall|p: Seq<char>| #[trigger]
                document.contains_key(p) && p.len() > 0 ==> json_value::at_or_below(p, "/"@ + "process_kprobe"@)
            &&& call.contains_key(seq![])
            &&& json_value::below(call, "/"@ + "function_name"@) == json_value::leaf(JsonNode::Text(event.function_name))
            &&& json_value::below(call, "/"@ + "timestamp_unix_ms"@) == json_value::leaf(
                JsonNode::Unsigned(event_time(event, now_ms) as u64),
            )
            &&& json_value::below(call, "/"@ + "args"@) == args
            &&& args.contains_key(seq![]) && args[seq![]] == JsonNode::Array(argument_contents(event).len())
            &&& json_value::below(json_value::below(args, "/"@ + text::decimal_of(0)), "/"@ + "sock_arg"@) == sock
            &&& event.function_name == "tcp_sendmsg"@ ==> json_value::below(
                json_value::below(args, "/"@ + text::decimal_of(1)),
                "/"@ + "int_arg"@,
            ) == json_value::leaf(JsonNode::Unsigned(sent_bytes(event.args) as u64))
            &&& sock.contains_key(seq![])
            &&& json_value::below(sock, "/"@ + "saddr"@) == json_value::leaf(JsonNode::Text(first_sock(event.args)->0.saddr))
            &&& json_value::below(sock, "/"@ + "daddr"@) == json_value::leaf(JsonNode::Text(first_sock(event.args)->0.daddr))
            &&& json_value::below(sock, "/"@ + "protocol"@) == json_value::leaf(JsonNode::Text(first_sock(event.args)->0.protocol))
            &&& json_value::below(sock, "/"@ + "dport"@) == json_value::leaf(JsonNode::Unsigned(first_sock(event.args)->0.dport as u64))
        }),
        json_value::is_plain_document(event_contents(event, now_ms)->0, 100),
{
    lemma_event_names();
    let sock = first_sock(event.args)->0;
    let of_sock = seq![
        ("saddr"@, json_value::leaf(JsonNode::Text(sock.saddr))),
        ("daddr"@, json_value::leaf(JsonNode::Text(sock.daddr))),
        ("protocol"@, json_value::leaf(JsonNode::Text(sock.protocol))),
        ("dport"@, json_value::leaf(JsonNode::Unsigned(sock.dport as u64))),
    ];
    assert(json_value::names_of(of_sock) =~= seq!["saddr"@, "daddr"@, "protocol"@, "dport"@]);
    json_value::lemma_object_of(of_sock);
    json_value::lemma_object_is_plain(of_sock, 0, 9);
    assert(of_sock[0].0 == "saddr"@ && of_sock[1].0 == "daddr"@ && of_sock[2].0 == "protocol"@ && of_sock[3].0 == "dport"@);
    let of_first = seq![("sock_arg"@, sock_contents(sock))];
    assert(json_value::names_of(of_first) =~= seq!["sock_arg"@]);
    json_value::lemma_object_of(of_first);
    json_value::lemma_object_is_plain(of_first, 9, 18);
    assert(of_first[0].0 == "sock_arg"@);
    let of_second = seq![("int_arg"@, json_value::leaf(JsonNode::Unsigned(sent_bytes(event.args) as u64)))];
    assert(json_value::names_of(of_second) =~= seq!["int_arg"@]);
    json_value::lemma_object_of(of_second);
    json_value::lemma_object_is_plain(of_second, 0, 18);
    assert(of_second[0].0 == "int_arg"@);
    let items = argument_contents(event);
    assert(items[0] == json_value::object_of(of_first));
    assert(items.len() > 1 ==> items[1] == json_value::object_of(of_second));
    json_value::lemma_array_of(items);
    json_value::lemma_array_is_plain(items, 18, 21);
    let of_call = seq![
        ("function_name"@, json_value::leaf(JsonNode::Text(event.function_name))),
        ("timestamp_unix_ms"@, json_value::leaf(JsonNode::Unsigned(event_time(event, now_ms) as u64))),
        ("args"@, json_value::array_of(items)),
    ];
    assert(json_value::names_of(of_call) =~= seq!["function_name"@, "timestamp_unix_ms"@, "args"@]);
    json_value::lemma_object_of(of_call);
    json_value::lemma_object_is_plain(of_call, 21, 39);
    assert(of_call[0].0 == "function_name"@ && of_call[1].0 == "timestamp_unix_ms"@ && of_call[2].0 == "args"@);
    let of_all = seq![("process_kprobe"@, call_contents(event, now_ms))];
    assert(json_value::names_of(of_all) =~= seq!["process_kprobe"@]);
    json_value::lemma_object_of(of_all);
    json_value::lemma_object_is_plain(of_all, 39, 100);
    assert(of_all[0].0 == "process_kprobe"@);
}

/// When an event was; `now_ms` stands for a time that it does not name.
fn event_time_ms(event: &KprobeEvent, now_ms: u128) -> (r: u128)
    ensures
        r == event_time(event.deep_view(), now_ms),
{
    match &event.time {
        Some(time) => match timestamp_ms(time) {
            Some(at) => at,
            None => now_ms,
        },
        None => now_ms,
    }
}

/// Whether the time of an event can be put down, where the event is.
pub fn event_time_fits(event: &KprobeEvent, now_ms: u128) -> (r: bool)
    ensures
        r == has_time(event.deep_view(), now_ms),
{
    let told = str_eq(event.function_name.as_str(), "tcp_sendmsg") || str_eq(event.function_name.as_str(), "tcp_close");
    !told || sock_arg(&event.args).is_none() || event_time_ms(event, now_ms) <= u64::MAX as u128
}

/// A connection as it is put down.
fn sock_value(sock: &SockArgument) -> (r: serde_json::Value)
    ensures
        json_value::json_contents(r) == sock_contents(sock.deep_view()),
{
    let members = vec![
        ("saddr", text_value(sock.saddr.as_str())),
        ("daddr", text_value(sock.daddr.as_str())),
        ("protocol", text_value(sock.protocol.as_str())),
        ("dport", number_value(sock.dport as u64)),
    ];
    proof {
        lemma_event_names();
        assert(members@.map_values(|m: (&str, serde_json::Value)| m.0@) =~= seq!["saddr"@, "daddr"@, "protocol"@, "dport"@]);
        assert(members@.map_values(|m: (&str, serde_json::Value)| (m.0@, json_value::json_contents(m.1))) =~= seq![
            ("saddr"@, json_value::leaf(JsonNode::Text(sock.saddr@))),
            ("daddr"@, json_value::leaf(JsonNode::Text(sock.daddr@))),
            ("protocol"@, json_value::leaf(JsonNode::Text(sock.protocol@))),
            ("dport"@, json_value::leaf(JsonNode::Unsigned(sock.dport as u64))),
        ]);
    }
    object_value(members)
}

fn one_member_value(name: &str, value: serde_json::Value) -> (r: serde_json::Value)
    requires
        json_value::are_member_names(seq![name@]),
    ensures
        json_value::json_contents(r) == json_value::object_of(seq![(name@, json_value::json_contents(value))]),
{
    let members = vec![(name, value)];
    assert(members@.map_values(|m: (&str, serde_json::Value)| m.0@) =~= seq![name@]);
    assert(members@.map_values(|m: (&str, serde_json::Value)| (m.0@, json_value::json_contents(m.1))) =~= seq![
        (name@, json_value::json_contents(value)),
    ]);
    object_value(members)
}

/// An event as a line of JSON; nothing of other events than those that are put down. Read again,
/// the line gives the flow that the event stands for.
pub fn event_line(event: &KprobeEvent, now_ms: u128) -> (r: Option<String>)
    requires
        has_time(event.deep_view(), now_ms),
    ensures
        r.deep_view() == (match event_contents(event.deep_view(), now_ms) {
            Some(contents) => json_value::document_text(contents),
            None => None,
        }),
        r is Some <==> is_put_down(event.deep_view()),
        r matches Some(line) ==> json_value::json_document(line@) == event_contents(event.deep_view(), now_ms),
        r matches Some(line) ==> !line@.contains('\n') && text::is_trimmed(line@),
        r matches Some(line) ==> forall|i: int, later_ms: u128|
            i < MAX_TETRAGON_LINES ==> #[trigger] dependency::line_outcome(i, line@, later_ms) == LineOutcomeView::Record(
                dependency::event_record(event.deep_view(), now_ms)->0,
            ),
{
    let ghost e = event.deep_view();
    let sends = str_eq(event.function_name.as_str(), "tcp_sendmsg");
    if !sends && !str_eq(event.function_name.as_str(), "tcp_close") {
        return None;
    }
    let sock = match sock_arg(&event.args) {
        Some(sock) => sock,
        None => {
            return None;
        },
    };
    proof {
        lemma_event_names();
    }
    let mut args: Vec<serde_json::Value> = Vec::new();
    args.push(one_member_value("sock_arg", sock_value(sock)));
    if sends {
        args.push(one_member_value("int_arg", number_value(int_arg(&event.args))));
    }
    assert(args@.map_values(|v: serde_json::Value| json_value::json_contents(v)) =~= argument_contents(e));
    let at: u64 = event_time_ms(event, now_ms) as u64;
    let members = vec![
        ("function_name", text_value(event.function_name.as_str())),
        ("timestamp_unix_ms", number_value(at)),
        ("args", array_value(args)),
    ];
    assert(members@.map_values(|m: (&str, serde_json::Value)| m.0@) =~= seq![
        "function_name"@,
        "timestamp_unix_ms"@,
        "args"@,
    ]);
    assert(members@.map_values(|m: (&str, serde_json::Value)| (m.0@, json_value::json_contents(m.1))) =~= seq![
        ("function_name"@, json_value::leaf(JsonNode::Text(e.function_name))),
        ("timestamp_unix_ms"@, json_value::leaf(JsonNode::Unsigned(at))),
        ("args"@, json_value::array_of(argument_contents(e))),
    ]);
    let document = one_member_value("process_kprobe", object_value(members));
    proof {
        lemma_event_parts(e, now_ms);
        assert(!Seq::<char>::empty().contains('~'));
        assert(json_value::is_object_at(json_value::json_contents(document), seq![]));
    }
    let r = write_json(&document);
    proof {
        let line = r->0@;
        text::lemma_is_trimmed(line);
        assert forall|i: int, later_ms: u128| i < MAX_TETRAGON_LINES implies #[trigger] dependency::line_outcome(i, line, later_ms)
            == LineOutcomeView::Record(dependency::event_record(e, now_ms)->0) by {
            dependency::lemma_event_reads_back(e, now_ms, later_ms);
        }
    }
    r
}

// ------------------------------------------------------------- what it is for

/// Pruning drops only events from before the window, and from the oldest on.
pub proof fn lemma_only_old_events_go(lines: Seq<BufferedLineView>, cutoff_ms: u128, i: int)
    requires
        in_time(lines),
        0 <= i < lines.len(),
    ensures
        pruned(lines, cutoff_ms).contains(lines[i]) || lines[i].recorded_at_ms < cutoff_ms,
        lines[i].recorded_at_ms < cutoff_ms ==> pruned(lines, cutoff_ms).len() < lines.len(),
    decreases lines.len(),
{
    if lines[0].recorded_at_ms < cutoff_ms {
        let rest = lines.drop_first();
        assert(in_time(rest));
        lemma_pruned_is_suffix(rest, cutoff_ms);
        if i > 0 {
            assert(rest[i - 1] == lines[i]);
            lemma_only_old_events_go(rest, cutoff_ms, i - 1);
        }
    }
}

/// The window reaches back one minute, and no further than to the beginning of time.
pub proof fn lemma_window_reaches_back(now_ms: u128)
    ensures
        now_ms >= 60_000 ==> cutoff(now_ms) + 60_000 == now_ms,
        now_ms < 60_000 ==> cutoff(now_ms) == 0,
{
}

/// The body holds each line, and ends each.
pub proof fn lemma_body_holds_each_line(lines: Seq<BufferedLineView>, i: int)
    requires
        0 <= i < lines.len(),
    ensures
        text::contains_text(body_of(lines), lines[i].line + "\n"@),
    decreases lines.len(),
{
    let rest = lines.drop_last();
    let before = body_of(rest);
    let whole = body_of(lines);
    let ended = lines[i].line + "\n"@;
    if i == lines.len() - 1 {
        assert(whole.subrange(before.len() as int, (before.len() + ended.len()) as int) =~= ended);
        assert(text::occurs_at(whole, ended, before.len() as int));
    } else {
        assert(rest[i] == lines[i]);
        lemma_body_holds_each_line(rest, i);
        text::lemma_held_in_longer(seq![], before, lines.last().line + "\n"@, ended);
        assert(seq![] + before + (lines.last().line + "\n"@) =~= whole);
    }
}

/// A stream that ends is gone, and only that one; marking a stream touches no other.
pub proof fn lemma_streams_are_told_apart(streams: Seq<StreamEntryView>, key: Seq<char>, connected: bool, entry: StreamEntryView, i: int)
    ensures
        without_stream(streams, key).contains(entry) <==> streams.contains(entry) && entry.key != key,
        has_stream(streams, key) <==> exists|k: int| 0 <= k < streams.len() && (#[trigger] streams[k]).key == key,
        with_connected(streams, key, connected).len() == streams.len(),
        0 <= i < streams.len() && streams[i].key != key ==> with_connected(streams, key, connected)[i] == streams[i],
        0 <= i < streams.len() && streams[i].key == key ==> with_connected(streams, key, connected)[i] == (StreamEntryView {
            connected,
            ..streams[i]
        }),
{
    views::lemma_filter_has(streams, |s: StreamEntryView| s.key != key, entry);
    let named = |s: StreamEntryView| s.key == key;
    if exists|k: int| 0 <= k < streams.len() && (#[trigger] streams[k]).key == key {
        let k = choose|k: int| 0 <= k < streams.len() && (#[trigger] streams[k]).key == key;
        assert(named(streams[k]));
    }
    if streams.any(named) {
        let k = choose|k: int| 0 <= k < streams.len() && named(streams[k]);
        assert(streams[k].key == key);
    }
}

/// The agent is ready where it needs no stream or some stream is connected; each stream counts as
/// connected or as unavailable, and never as both.
pub proof fn lemma_ready_where_a_stream_is_connected(streams: Seq<StreamEntryView>, dependency_required: bool)
    requires
        streams.len() <= usize::MAX,
    ensures
        ready_by(streams, dependency_required) <==> !dependency_required || exists|i: int|
            0 <= i < streams.len() && (#[trigger] streams[i]).connected,
        coverage_of(streams).observed_endpoints == streams.len(),
        coverage_of(streams).connected_endpoints + coverage_of(streams).unavailable_endpoints == streams.len(),
        coverage_of(streams).connected_endpoints > 0 <==> exists|i: int|
            0 <= i < streams.len() && (#[trigger] streams[i]).connected,
{
    let on = |s: StreamEntryView| s.connected;
    let kept = streams.filter(on);
    streams.filter_lemma(on);
    if kept.len() > 0 {
        let s = kept[0];
        assert(kept.contains(s));
        views::lemma_filter_has(streams, on, s);
        let i = choose|i: int| 0 <= i < streams.len() && streams[i] == s;
        assert(streams[i].connected);
    }
    if exists|i: int| 0 <= i < streams.len() && (#[trigger] streams[i]).connected {
        let i = choose|i: int| 0 <= i < streams.len() && (#[trigger] streams[i]).connected;
        assert(streams.contains(streams[i]));
        views::lemma_filter_has(streams, on, streams[i]);
        assert(kept.len() > 0);
    }
}

/// An endpoint is used unless it says that it is not ready, and only where it is a pod.
pub proof fn lemma_usable_endpoints(endpoint: DiscoveredEndpointView, ports: Seq<Option<i32>>, grpc_port: u16)
    ensures
        endpoint.ready == Some(false) ==> !is_usable(endpoint),
        endpoint.ready != Some(false) && endpoint.target is None ==> is_usable(endpoint),
        endpoint.target is Some && endpoint.ready != Some(false) ==> (is_usable(endpoint) <==> endpoint.target->0.kind
            == Some("Pod"@)),
        ports.len() == 0 ==> slice_port(ports, grpc_port) == grpc_port,
        ports.len() > 0 && ports[0] is Some && 0 <= ports[0]->0 < 65536 ==> slice_port(ports, grpc_port) == ports[0]->0,
{
}

/// Streams are stopped that lost their endpoint, streams are started for the endpoints that have
/// none, and the fallback runs only where nothing was found and nothing runs.
pub proof fn lemma_streams_follow_endpoints(streams: Seq<StreamEntryView>, endpoints: Seq<Seq<char>>, endpoint: Seq<char>, i: int)
    ensures
        ({
            let plan = stream_plan(streams, endpoints);
            &&& plan.start_fallback <==> endpoints.len() == 0 && streams.len() == 0
            &&& plan.start.contains(endpoint) <==> endpoints.contains(endpoint) && forall|k: int|
                0 <= k < streams.len() ==> (#[trigger] streams[k]).key != endpoint
            &&& endpoints.len() == 0 ==> plan.stop.len() == 0
            &&& endpoints.len() > 0 && 0 <= i < streams.len() && streams[i].source == StreamSource::Discovered
                && !endpoints.contains(streams[i].key) ==> plan.stop.contains(streams[i].key)
            &&& endpoints.len() > 0 && 0 <= i < streams.len() && streams[i].source == StreamSource::Fallback
                && streams[i].key == "__fallback__"@ ==> plan.stop.contains("__fallback__"@)
            &&& endpoints.contains(endpoint) && endpoint != "__fallback__"@ ==> !plan.stop.contains(endpoint)
        }),
{
    let fresh = |e: Seq<char>| !has_stream(streams, e);
    views::lemma_filter_has(endpoints, fresh, endpoint);
    let any: StreamEntryView = arbitrary();
    lemma_streams_are_told_apart(streams, endpoint, true, any, 0);
    let f = |s: StreamEntryView| lost_key(s, endpoints);
    let lost = streams.filter_map(f);
    let sorted = order::sorted_texts(lost);
    let tail = if has_fallback(streams) {
        seq!["__fallback__"@]
    } else {
        seq![]
    };
    let stop = sorted + tail;
    if endpoints.len() > 0 && 0 <= i < streams.len() {
        if streams[i].source == StreamSource::Discovered && !endpoints.contains(streams[i].key) {
            views::lemma_filter_map_has(streams, f, i);
            order::lemma_sorted_has(lost, streams[i].key);
            let k = choose|k: int| 0 <= k < sorted.len() && sorted[k] == streams[i].key;
            assert(stop[k] == streams[i].key);
        }
        if streams[i].source == StreamSource::Fallback && streams[i].key == "__fallback__"@ {
            let own = |s: StreamEntryView| s.key == FALLBACK_STREAM_KEY@ && s.source == StreamSource::Fallback;
            assert(own(streams[i]));
            assert(streams.any(own));
            assert(stop[sorted.len() as int] == "__fallback__"@);
        }
    }
    if endpoints.contains(endpoint) && endpoint != "__fallback__"@ && stream_plan(streams, endpoints).stop.contains(endpoint) {
        assert(endpoints.len() > 0);
        let k = choose|k: int| 0 <= k < stop.len() && stop[k] == endpoint;
        assert(k < sorted.len());
        assert(sorted[k] == endpoint);
        order::lemma_sorted_has(lost, endpoint);
        streams.lemma_filter_map_contains(f, endpoint);
        let s = choose|s: StreamEntryView| #[trigger] streams.contains(s) && f(s) == Some(endpoint);
        assert(!endpoints.contains(s.key));
    }
}

/// An address without a scheme gets one, and one that has it keeps it; events are put down where
/// they are sends or closes of a socket, at their own time or else now.
pub proof fn lemma_events_are_put_down(event: KprobeEventView, address: Seq<char>, time: EventTimeView, now_ms: u128)
    ensures
        text::contains_text(address, "://"@) ==> channel_url(address) == address,
        !text::contains_text(address, "://"@) ==> channel_url(address) == "http://"@ + address,
        is_put_down(event) <==> (event.function_name == "tcp_sendmsg"@ || event.function_name == "tcp_close"@)
            && first_sock(event.args) is Some,
        event_contents(event, now_ms) is Some <==> is_put_down(event),
        event.time is None ==> event_time(event, now_ms) == now_ms,
        event.time == Some(time) && time.seconds >= 0 && 0 <= time.nanos < 1_000_000_000 ==> {
            &&& event_time(event, now_ms) / 1000 == time.seconds
            &&& (event_time(event, now_ms) % 1000) * 1_000_000 <= time.nanos
            &&& time.nanos < (event_time(event, now_ms) % 1000) * 1_000_000 + 1_000_000
        },
        event.time == Some(time) && time.seconds < 0 ==> event_time(event, now_ms) == now_ms,
        event.args.len() > 1 && (event.args[1] matches KprobeArgumentView::Int(n) && n >= 0) ==> sent_bytes(event.args)
            == event.args[1]->Int_0,
        sent_bytes(event.args) >= 0,
        event.args.len() <= 1 ==> sent_bytes(event.args) == 0,
{
}

/// The first socket among the arguments counts.
pub proof fn lemma_first_socket_counts(args: Seq<KprobeArgumentView>, i: int)
    requires
        0 <= i < args.len(),
        args[i] is Sock,
        forall|j: int| 0 <= j < i ==> !((#[trigger] args[j]) is Sock),
    ensures
        first_sock(args) == Some(args[i]->Sock_0),
    decreases args.len(),
{
    if i > 0 {
        assert(!(args[0] is Sock));
        let rest = args.drop_first();
        assert forall|j: int| 0 <= j < i - 1 implies !((#[trigger] rest[j]) is Sock) by {
            assert(rest[j] == args[j + 1]);
        }
        lemma_first_socket_counts(rest, i - 1);
    }
}

} // verus!
