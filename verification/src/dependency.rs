//! The traffic between workloads, as Tetragon observes it.
//!
//! Each observed event is a line of JSON. Lines that describe a flow are added up to edges
//! between endpoints; the number of lines, of edges, and of targets per source is capped.
use crate::json_value;
use crate::json_value::{array_len_at, JsonNode, part_at, read_json, text_at, unsigned_at};
use crate::model::{
    DependencyEdge, DependencyEdgeView, DependencyEndpoint, DependencyEndpointView, DependencyInventory,
    DependencyInventoryView,
};
use crate::objects::{
    ObjectMeta, ObjectMetaView, OwnerReference, OwnerReferenceView, Pod, PodView, Service, ServiceView,
};
use crate::order;
use crate::order::{opt_str_eq, opt_str_le, sort_in_order, str_eq, str_le};
use crate::tetragon;
use crate::tetragon::{CoverageSnapshot, KprobeEventView, SockArgumentView};
use crate::text;
use crate::text::{
    decimal, lines, owned, parse_unsigned, strip_prefix, text3, to_lowercase, to_uppercase, trim,
};
use crate::views;
use crate::views::{DeepClone, filter_map_items, map_items, opt_str};
use vstd::prelude::*;

verus! {

/// How many lines of a window are read.
pub const MAX_TETRAGON_LINES: usize = 20_000;

/// How many edges a snapshot holds.
pub const MAX_DEP_EDGES_PER_SNAPSHOT: usize = 2_000;

/// How many targets a source has in a snapshot.
pub const MAX_DEP_FANOUT_PER_SOURCE: usize = 200;

/// The length of a window.
pub const DEP_WINDOW_SECONDS: u64 = 60;

/// What a flow says of one of its ends.
#[derive(Clone, Debug, PartialEq, Eq)]
pub struct DependencyEndpointHint {
    pub namespace: Option<String>,
    pub pod_name: Option<String>,
    pub workload_kind: Option<String>,
    pub workload_name: Option<String>,
}

/// The view of [`DependencyEndpointHint`].
pub struct DependencyEndpointHintView {
    pub namespace: Option<Seq<char>>,
    pub pod_name: Option<Seq<char>>,
    pub workload_kind: Option<Seq<char>>,
    pub workload_name: Option<Seq<char>>,
}

impl DeepView for DependencyEndpointHint {
    type V = DependencyEndpointHintView;

    open spec fn deep_view(&self) -> DependencyEndpointHintView {
        DependencyEndpointHintView {
            namespace: self.namespace.deep_view(),
            pod_name: self.pod_name.deep_view(),
            workload_kind: self.workload_kind.deep_view(),
            workload_name: self.workload_name.deep_view(),
        }
    }
}

impl DeepClone for DependencyEndpointHint {
    fn deep_clone(&self) -> (copy: Self) {
        DependencyEndpointHint {
            namespace: self.namespace.deep_clone(),
            pod_name: self.pod_name.deep_clone(),
            workload_kind: self.workload_kind.deep_clone(),
            workload_name: self.workload_name.deep_clone(),
        }
    }
}

/// One observed flow.
#[derive(Clone, Debug, PartialEq, Eq)]
pub struct TetragonDependencyRecord {
    pub src_ip: String,
    pub dst_ip: String,
    pub src_endpoint: Option<DependencyEndpointHint>,
    pub dst_endpoint: Option<DependencyEndpointHint>,
    pub protocol: String,
    pub destination_port: u16,
    pub bytes: u64,
    pub packets: u64,
    pub connections: u64,
    pub timestamp_unix_ms: u128,
}

/// The view of [`TetragonDependencyRecord`].
pub struct TetragonDependencyRecordView {
    pub src_ip: Seq<char>,
    pub dst_ip: Seq<char>,
    pub src_endpoint: Option<DependencyEndpointHintView>,
    pub dst_endpoint: Option<DependencyEndpointHintView>,
    pub protocol: Seq<char>,
    pub destination_port: u16,
    pub bytes: u64,
    pub packets: u64,
    pub connections: u64,
    pub timestamp_unix_ms: u128,
}

impl DeepView for TetragonDependencyRecord {
    type V = TetragonDependencyRecordView;

    open spec fn deep_view(&self) -> TetragonDependencyRecordView {
        TetragonDependencyRecordView {
            src_ip: self.src_ip.deep_view(),
            dst_ip: self.dst_ip.deep_view(),
            src_endpoint: self.src_endpoint.deep_view(),
            dst_endpoint: self.dst_endpoint.deep_view(),
            protocol: self.protocol.deep_view(),
            destination_port: self.destination_port.deep_view(),
            bytes: self.bytes.deep_view(),
            packets: self.packets.deep_view(),
            connections: self.connections.deep_view(),
            timestamp_unix_ms: self.timestamp_unix_ms.deep_view(),
        }
    }
}

impl DeepClone for TetragonDependencyRecord {
    fn deep_clone(&self) -> (copy: Self) {
        TetragonDependencyRecord {
            src_ip: self.src_ip.deep_clone(),
            dst_ip: self.dst_ip.deep_clone(),
            src_endpoint: self.src_endpoint.deep_clone(),
            dst_endpoint: self.dst_endpoint.deep_clone(),
            protocol: self.protocol.deep_clone(),
            destination_port: self.destination_port.deep_clone(),
            bytes: self.bytes.deep_clone(),
            packets: self.packets.deep_clone(),
            connections: self.connections.deep_clone(),
            timestamp_unix_ms: self.timestamp_unix_ms.deep_clone(),
        }
    }
}

/// What tells endpoints apart.
#[derive(Clone, Debug, PartialEq, Eq)]
pub struct EndpointKey {
    pub kind: String,
    pub namespace: Option<String>,
    pub name: Option<String>,
    pub workload_kind: Option<String>,
    pub workload_name: Option<String>,
    pub ip: Option<String>,
}

/// The view of [`EndpointKey`].
pub struct EndpointKeyView {
    pub kind: Seq<char>,
    pub namespace: Option<Seq<char>>,
    pub name: Option<Seq<char>>,
    pub workload_kind: Option<Seq<char>>,
    pub workload_name: Option<Seq<char>>,
    pub ip: Option<Seq<char>>,
}

impl DeepView for EndpointKey {
    type V = EndpointKeyView;

    open spec fn deep_view(&self) -> EndpointKeyView {
        EndpointKeyView {
            kind: self.kind.deep_view(),
            namespace: self.namespace.deep_view(),
            name: self.name.deep_view(),
            workload_kind: self.workload_kind.deep_view(),
            workload_name: self.workload_name.deep_view(),
            ip: self.ip.deep_view(),
        }
    }
}

impl DeepClone for EndpointKey {
    fn deep_clone(&self) -> (copy: Self) {
        EndpointKey {
            kind: self.kind.deep_clone(),
            namespace: self.namespace.deep_clone(),
            name: self.name.deep_clone(),
            workload_kind: self.workload_kind.deep_clone(),
            workload_name: self.workload_name.deep_clone(),
            ip: self.ip.deep_clone(),
        }
    }
}

/// What tells edges apart.
#[derive(Clone, Debug, PartialEq, Eq)]
pub struct DependencyEdgeKey {
    pub from: EndpointKey,
    pub to: EndpointKey,
    pub protocol: String,
    pub destination_port: u16,
    pub direction: String,
}

/// The view of [`DependencyEdgeKey`].
pub struct DependencyEdgeKeyView {
    pub from: EndpointKeyView,
    pub to: EndpointKeyView,
    pub protocol: Seq<char>,
    pub destination_port: u16,
    pub direction: Seq<char>,
}

impl DeepView for DependencyEdgeKey {
    type V = DependencyEdgeKeyView;

    open spec fn deep_view(&self) -> DependencyEdgeKeyView {
        DependencyEdgeKeyView {
            from: self.from.deep_view(),
            to: self.to.deep_view(),
            protocol: self.protocol.deep_view(),
            destination_port: self.destination_port.deep_view(),
            direction: self.direction.deep_view(),
        }
    }
}

impl DeepClone for DependencyEdgeKey {
    fn deep_clone(&self) -> (copy: Self) {
        DependencyEdgeKey {
            from: self.from.deep_clone(),
            to: self.to.deep_clone(),
            protocol: self.protocol.deep_clone(),
            destination_port: self.destination_port.deep_clone(),
            direction: self.direction.deep_clone(),
        }
    }
}

/// What has been seen on an edge.
#[derive(Clone, Debug, PartialEq, Eq)]
pub struct DependencyEdgeAgg {
    pub bytes: u64,
    pub packets: u64,
    pub connections: u64,
    pub first_seen_unix_ms: u128,
    pub last_seen_unix_ms: u128,
}

/// The view of [`DependencyEdgeAgg`].
pub struct DependencyEdgeAggView {
    pub bytes: u64,
    pub packets: u64,
    pub connections: u64,
    pub first_seen_unix_ms: u128,
    pub last_seen_unix_ms: u128,
}

impl DeepView for DependencyEdgeAgg {
    type V = DependencyEdgeAggView;

    open spec fn deep_view(&self) -> DependencyEdgeAggView {
        DependencyEdgeAggView {
            bytes: self.bytes.deep_view(),
            packets: self.packets.deep_view(),
            connections: self.connections.deep_view(),
            first_seen_unix_ms: self.first_seen_unix_ms.deep_view(),
            last_seen_unix_ms: self.last_seen_unix_ms.deep_view(),
        }
    }
}

impl DeepClone for DependencyEdgeAgg {
    fn deep_clone(&self) -> (copy: Self) {
        DependencyEdgeAgg {
            bytes: self.bytes.deep_clone(),
            packets: self.packets.deep_clone(),
            connections: self.connections.deep_clone(),
            first_seen_unix_ms: self.first_seen_unix_ms.deep_clone(),
            last_seen_unix_ms: self.last_seen_unix_ms.deep_clone(),
        }
    }
}

/// An edge with what has been seen on it.
#[derive(Clone, Debug, PartialEq, Eq)]
pub struct DependencyEntry {
    /// What tells the edge apart.
    pub key: DependencyEdgeKey,
    /// The endpoints as they were resolved for the first flow.
    pub from: DependencyEndpoint,
    pub to: DependencyEndpoint,
    pub seen: DependencyEdgeAgg,
}

/// The view of [`DependencyEntry`].
pub struct DependencyEntryView {
    pub key: DependencyEdgeKeyView,
    pub from: DependencyEndpointView,
    pub to: DependencyEndpointView,
    pub seen: DependencyEdgeAggView,
}

impl DeepView for DependencyEntry {
    type V = DependencyEntryView;

    open spec fn deep_view(&self) -> DependencyEntryView {
        DependencyEntryView {
            key: self.key.deep_view(),
            from: self.from.deep_view(),
            to: self.to.deep_view(),
            seen: self.seen.deep_view(),
        }
    }
}

impl DeepClone for DependencyEntry {
    fn deep_clone(&self) -> (copy: Self) {
        DependencyEntry {
            key: self.key.deep_clone(),
            from: self.from.deep_clone(),
            to: self.to.deep_clone(),
            seen: self.seen.deep_clone(),
        }
    }
}

/// The address of a pod.
#[derive(Clone, Debug, PartialEq, Eq)]
pub struct PodIpInfo {
    pub namespace: String,
    pub pod_name: String,
    pub workload_kind: Option<String>,
    pub workload_name: Option<String>,
    pub ip: String,
}

/// The view of [`PodIpInfo`].
pub struct PodIpInfoView {
    pub namespace: Seq<char>,
    pub pod_name: Seq<char>,
    pub workload_kind: Option<Seq<char>>,
    pub workload_name: Option<Seq<char>>,
    pub ip: Seq<char>,
}

impl DeepView for PodIpInfo {
    type V = PodIpInfoView;

    open spec fn deep_view(&self) -> PodIpInfoView {
        PodIpInfoView {
            namespace: self.namespace.deep_view(),
            pod_name: self.pod_name.deep_view(),
            workload_kind: self.workload_kind.deep_view(),
            workload_name: self.workload_name.deep_view(),
            ip: self.ip.deep_view(),
        }
    }
}

impl DeepClone for PodIpInfo {
    fn deep_clone(&self) -> (copy: Self) {
        PodIpInfo {
            namespace: self.namespace.deep_clone(),
            pod_name: self.pod_name.deep_clone(),
            workload_kind: self.workload_kind.deep_clone(),
            workload_name: self.workload_name.deep_clone(),
            ip: self.ip.deep_clone(),
        }
    }
}

/// The address of a service.
#[derive(Clone, Debug, PartialEq, Eq)]
pub struct ServiceIpInfo {
    pub namespace: String,
    pub service_name: String,
    pub ip: String,
}

/// The view of [`ServiceIpInfo`].
pub struct ServiceIpInfoView {
    pub namespace: Seq<char>,
    pub service_name: Seq<char>,
    pub ip: Seq<char>,
}

impl DeepView for ServiceIpInfo {
    type V = ServiceIpInfoView;

    open spec fn deep_view(&self) -> ServiceIpInfoView {
        ServiceIpInfoView {
            namespace: self.namespace.deep_view(),
            service_name: self.service_name.deep_view(),
            ip: self.ip.deep_view(),
        }
    }
}

impl DeepClone for ServiceIpInfo {
    fn deep_clone(&self) -> (copy: Self) {
        ServiceIpInfo {
            namespace: self.namespace.deep_clone(),
            service_name: self.service_name.deep_clone(),
            ip: self.ip.deep_clone(),
        }
    }
}

/// The edges of a window so far, in the order in which they were first seen, and counts of the lines left out.
#[derive(Clone, Debug, PartialEq, Eq)]
pub struct DependencyAggregate {
    pub entries: Vec<DependencyEntry>,
    pub parse_failures: u64,
    pub dropped_for_line_cap: u64,
    pub dropped_edges: u64,
    pub skipped_for_fanout: u64,
}

/// The view of [`DependencyAggregate`].
pub struct DependencyAggregateView {
    pub entries: Seq<DependencyEntryView>,
    pub parse_failures: u64,
    pub dropped_for_line_cap: u64,
    pub dropped_edges: u64,
    pub skipped_for_fanout: u64,
}

impl DeepView for DependencyAggregate {
    type V = DependencyAggregateView;

    open spec fn deep_view(&self) -> DependencyAggregateView {
        DependencyAggregateView {
            entries: self.entries.deep_view(),
            parse_failures: self.parse_failures.deep_view(),
            dropped_for_line_cap: self.dropped_for_line_cap.deep_view(),
            dropped_edges: self.dropped_edges.deep_view(),
            skipped_for_fanout: self.skipped_for_fanout.deep_view(),
        }
    }
}

impl DeepClone for DependencyAggregate {
    fn deep_clone(&self) -> (copy: Self) {
        DependencyAggregate {
            entries: self.entries.deep_clone(),
            parse_failures: self.parse_failures.deep_clone(),
            dropped_for_line_cap: self.dropped_for_line_cap.deep_clone(),
            dropped_edges: self.dropped_edges.deep_clone(),
            skipped_for_fanout: self.skipped_for_fanout.deep_clone(),
        }
    }
}

/// The inventory of a window, with the numbers that the metrics count.
#[derive(Clone, Debug, PartialEq, Eq)]
pub struct DependencyCollection {
    pub inventory: DependencyInventory,
    pub parse_failures: u64,
    pub dropped_events: u64,
    pub skipped_events: u64,
}

/// The view of [`DependencyCollection`].
pub struct DependencyCollectionView {
    pub inventory: DependencyInventoryView,
    pub parse_failures: u64,
    pub dropped_events: u64,
    pub skipped_events: u64,
}

impl DeepView for DependencyCollection {
    type V = DependencyCollectionView;

    open spec fn deep_view(&self) -> DependencyCollectionView {
        DependencyCollectionView {
            inventory: self.inventory.deep_view(),
            parse_failures: self.parse_failures.deep_view(),
            dropped_events: self.dropped_events.deep_view(),
            skipped_events: self.skipped_events.deep_view(),
        }
    }
}

impl DeepClone for DependencyCollection {
    fn deep_clone(&self) -> (copy: Self) {
        DependencyCollection {
            inventory: self.inventory.deep_clone(),
            parse_failures: self.parse_failures.deep_clone(),
            dropped_events: self.dropped_events.deep_clone(),
            skipped_events: self.skipped_events.deep_clone(),
        }
    }
}

// ------------------------------------------------------------- reading a line

/// The text at the first of the pointers that leads to one.
pub open spec fn first_text(contents: Map<Seq<char>, JsonNode>, pointers: Seq<Seq<char>>) -> Option<Seq<char>>
    decreases pointers.len(),
{
    if pointers.len() == 0 {
        None
    } else if json_value::text_in(contents, pointers[0]) is Some {
        json_value::text_in(contents, pointers[0])
    } else {
        first_text(contents, pointers.drop_first())
    }
}

/// The text at the first of the pointers that leads to one.
pub fn get_string_path<'a>(value: &'a serde_json::Value, pointers: &Vec<&'static str>) -> (r: Option<&'a str>)
    ensures
        r.deep_view() == first_text(json_value::json_contents(*value), pointers.deep_view()),
{
    let ghost all = pointers.deep_view();
    let mut i: usize = 0;
    assert(all.skip(0) =~= all);
    while i < pointers.len()
        invariant
            i <= pointers.len(),
            all == pointers.deep_view(),
            first_text(json_value::json_contents(*value), all) == first_text(json_value::json_contents(*value), all.skip(i as int)),
        decreases pointers.len() - i,
    {
        let found = text_at(value, pointers[i]);
        assert(all.skip(i as int)[0] == pointers@[i as int].deep_view());
        if found.is_some() {
            return found;
        }
        assert(all.skip(i as int).drop_first() =~= all.skip(i + 1));
        i += 1;
    }
    None
}

/// The number at the first of the pointers that leads to one.
pub open spec fn first_unsigned(contents: Map<Seq<char>, JsonNode>, pointers: Seq<Seq<char>>) -> Option<u64>
    decreases pointers.len(),
{
    if pointers.len() == 0 {
        None
    } else if json_value::unsigned_in(contents, pointers[0]) is Some {
        json_value::unsigned_in(contents, pointers[0])
    } else {
        first_unsigned(contents, pointers.drop_first())
    }
}

/// The number at the first of the pointers that leads to one.
pub fn get_u64_path(value: &serde_json::Value, pointers: &Vec<&'static str>) -> (r: Option<u64>)
    ensures
        r == first_unsigned(json_value::json_contents(*value), pointers.deep_view()),
{
    let ghost all = pointers.deep_view();
    let mut i: usize = 0;
    assert(all.skip(0) =~= all);
    while i < pointers.len()
        invariant
            i <= pointers.len(),
            all == pointers.deep_view(),
            first_unsigned(json_value::json_contents(*value), all) == first_unsigned(json_value::json_contents(*value), all.skip(i as int)),
        decreases pointers.len() - i,
    {
        let found = unsigned_at(value, pointers[i]);
        assert(all.skip(i as int)[0] == pointers@[i as int].deep_view());
        if found.is_some() {
            return found;
        }
        assert(all.skip(i as int).drop_first() =~= all.skip(i + 1));
        i += 1;
    }
    None
}

/// The number at a pointer, written as a number or as a text.
pub open spec fn number_in(contents: Map<Seq<char>, JsonNode>, pointer: Seq<char>) -> Option<u128> {
    match json_value::unsigned_in(contents, pointer) {
        Some(n) => Some(n as u128),
        None => match json_value::text_in(contents, pointer) {
            Some(text) => match text::unsigned_value(text::trimmed(text), u128::MAX as nat) {
                Some(n) => Some(n as u128),
                None => None,
            },
            None => None,
        },
    }
}

/// The number at the first of the pointers that leads to one, written as a number or as a text.
pub open spec fn first_number(contents: Map<Seq<char>, JsonNode>, pointers: Seq<Seq<char>>) -> Option<u128>
    decreases pointers.len(),
{
    if pointers.len() == 0 {
        None
    } else if number_in(contents, pointers[0]) is Some {
        number_in(contents, pointers[0])
    } else {
        first_number(contents, pointers.drop_first())
    }
}

fn number_at(value: &serde_json::Value, pointer: &str) -> (r: Option<u128>)
    ensures
        r == number_in(json_value::json_contents(*value), pointer@),
{
    match unsigned_at(value, pointer) {
        Some(n) => Some(n as u128),
        None => match text_at(value, pointer) {
            Some(text) => parse_unsigned(trim(text), u128::MAX),
            None => None,
        },
    }
}

/// The number at the first of the pointers that leads to one, written as a number or as a text.
pub fn get_u128_path(value: &serde_json::Value, pointers: &Vec<&'static str>) -> (r: Option<u128>)
    ensures
        r == first_number(json_value::json_contents(*value), pointers.deep_view()),
{
    let ghost all = pointers.deep_view();
    let mut i: usize = 0;
    assert(all.skip(0) =~= all);
    while i < pointers.len()
        invariant
            i <= pointers.len(),
            all == pointers.deep_view(),
            first_number(json_value::json_contents(*value), all) == first_number(json_value::json_contents(*value), all.skip(i as int)),
        decreases pointers.len() - i,
    {
        let found = number_at(value, pointers[i]);
        assert(all.skip(i as int)[0] == pointers@[i as int].deep_view());
        if found.is_some() {
            return found;
        }
        assert(all.skip(i as int).drop_first() =~= all.skip(i + 1));
        i += 1;
    }
    None
}

/// An IPv4 address that is written as an IPv6 one is meant as the former.
pub open spec fn plain_ip(ip: Seq<char>) -> Seq<char> {
    if text::has_prefix(ip, "::ffff:"@) {
        text::after_prefix(ip, "::ffff:"@)
    } else {
        ip
    }
}

/// An address without the prefix of mapped IPv4 addresses.
pub fn normalize_tetragon_ip(ip: &str) -> (r: String)
    ensures
        r@ == plain_ip(ip@),
{
    match strip_prefix(ip, "::ffff:") {
        Some(rest) => owned(rest),
        None => owned(ip),
    }
}

/// The name of a protocol: trimmed, in lower case, without the prefix of the kernel's names.
pub open spec fn plain_protocol(protocol: Seq<char>) -> Seq<char> {
    let name = text::lowercase(text::trimmed(protocol));
    if text::has_prefix(name, "ipproto_"@) {
        text::after_prefix(name, "ipproto_"@)
    } else {
        name
    }
}

/// The name of a protocol: trimmed, in lower case, without the prefix of the kernel's names.
pub fn normalize_tetragon_protocol(protocol: &str) -> (r: String)
    ensures
        r@ == plain_protocol(protocol@),
{
    let name = to_lowercase(trim(protocol));
    match strip_prefix(name.as_str(), "ipproto_") {
        Some(rest) => owned(rest),
        None => name,
    }
}

/// A port number; the low 16 bits of what is written, 0 where nothing is.
pub open spec fn port_of(number: Option<u64>) -> u16 {
    match number {
        Some(n) => (n % 65536) as u16,
        None => 0,
    }
}

fn port_from(number: Option<u64>) -> (r: u16)
    ensures
        r == port_of(number),
{
    match number {
        Some(n) => (n % 65536) as u16,
        None => 0,
    }
}

/// Where a record says when it was made.
pub open spec fn timestamp_pointers() -> Seq<Seq<char>> {
    seq!["/timestamp_unix_ms"@, "/time_unix_ms"@, "/flow/timestamp_unix_ms"@]
}

fn read_timestamp(value: &serde_json::Value, now_ms: u128) -> (r: u128)
    ensures
        r == first_number(json_value::json_contents(*value), timestamp_pointers()).unwrap_or(now_ms),
{
    let pointers = vec!["/timestamp_unix_ms", "/time_unix_ms", "/flow/timestamp_unix_ms"];
    assert(pointers.deep_view() =~= timestamp_pointers());
    match get_u128_path(value, &pointers) {
        Some(n) => n,
        None => now_ms,
    }
}

/// The flow that a summary record describes.
pub open spec fn flow_record(c: Map<Seq<char>, JsonNode>, now_ms: u128) -> Option<TetragonDependencyRecordView> {
    let source = first_text(c, seq!["/src_ip"@, "/flow/src_ip"@, "/flow/ip/source"@]);
    let target = first_text(c, seq!["/dst_ip"@, "/flow/dst_ip"@, "/flow/ip/destination"@]);
    if source is None || target is None {
        None
    } else {
        Some(
            TetragonDependencyRecordView {
                src_ip: plain_ip(source->0),
                dst_ip: plain_ip(target->0),
                src_endpoint: None,
                dst_endpoint: None,
                protocol: plain_protocol(views::text_or(first_text(c, seq!["/protocol"@, "/flow/protocol"@]), "UNKNOWN"@)),
                destination_port: port_of(
                    first_unsigned(
                        c,
                        seq!["/destination_port"@, "/dst_port"@, "/flow/dst_port"@, "/flow/l4/dst_port"@],
                    ),
                ),
                bytes: first_unsigned(c, seq!["/bytes"@, "/flow/bytes"@, "/summary/bytes"@]).unwrap_or(0),
                packets: first_unsigned(c, seq!["/packets"@, "/flow/packets"@, "/summary/packets"@]).unwrap_or(0),
                connections: first_unsigned(
                    c,
                    seq!["/connections"@, "/flow/connections"@, "/summary/connections"@],
                ).unwrap_or(1),
                timestamp_unix_ms: first_number(c, timestamp_pointers()).unwrap_or(now_ms),
            },
        )
    }
}

/// The flow that a summary record describes; `now_ms` stands for a time that it does not name.
pub fn parse_tetragon_flow_record(value: &serde_json::Value, now_ms: u128) -> (r: Option<TetragonDependencyRecord>)
    ensures
        r.deep_view() == flow_record(json_value::json_contents(*value), now_ms),
{
    let at_source = vec!["/src_ip", "/flow/src_ip", "/flow/ip/source"];
    let at_target = vec!["/dst_ip", "/flow/dst_ip", "/flow/ip/destination"];
    let at_protocol = vec!["/protocol", "/flow/protocol"];
    let at_port = vec!["/destination_port", "/dst_port", "/flow/dst_port", "/flow/l4/dst_port"];
    let at_bytes = vec!["/bytes", "/flow/bytes", "/summary/bytes"];
    let at_packets = vec!["/packets", "/flow/packets", "/summary/packets"];
    let at_connections = vec!["/connections", "/flow/connections", "/summary/connections"];
    assert(at_source.deep_view() =~= seq!["/src_ip"@, "/flow/src_ip"@, "/flow/ip/source"@]);
    assert(at_target.deep_view() =~= seq!["/dst_ip"@, "/flow/dst_ip"@, "/flow/ip/destination"@]);
    assert(at_protocol.deep_view() =~= seq!["/protocol"@, "/flow/protocol"@]);
    assert(at_port.deep_view() =~= seq![
        "/destination_port"@,
        "/dst_port"@,
        "/flow/dst_port"@,
        "/flow/l4/dst_port"@,
    ]);
    assert(at_bytes.deep_view() =~= seq!["/bytes"@, "/flow/bytes"@, "/summary/bytes"@]);
    assert(at_packets.deep_view() =~= seq!["/packets"@, "/flow/packets"@, "/summary/packets"@]);
    assert(at_connections.deep_view() =~= seq!["/connections"@, "/flow/connections"@, "/summary/connections"@]);
    let source = match get_string_path(value, &at_source) {
        Some(ip) => ip,
        None => {
            return None;
        },
    };
    let target = match get_string_path(value, &at_target) {
        Some(ip) => ip,
        None => {
            return None;
        },
    };
    let protocol = match get_string_path(value, &at_protocol) {
        Some(name) => name,
        None => "UNKNOWN",
    };
    Some(
        TetragonDependencyRecord {
            src_ip: normalize_tetragon_ip(source),
            dst_ip: normalize_tetragon_ip(target),
            src_endpoint: None,
            dst_endpoint: None,
            protocol: normalize_tetragon_protocol(protocol),
            destination_port: port_from(get_u64_path(value, &at_port)),
            bytes: get_u64_path(value, &at_bytes).unwrap_or(0),
            packets: get_u64_path(value, &at_packets).unwrap_or(0),
            connections: get_u64_path(value, &at_connections).unwrap_or(1),
            timestamp_unix_ms: read_timestamp(value, now_ms),
        },
    )
}

/// The place of a probe's argument that describes a socket.
pub open spec fn sock_pointer(i: int) -> Seq<char> {
    "/args/"@ + text::decimal_of(i as nat) + "/sock_arg"@
}

/// The first of a probe's arguments, from one on, that describes a socket.
pub open spec fn sock_argument(probe: Map<Seq<char>, JsonNode>, from: int, count: int) -> Option<int>
    decreases count - from,
{
    if from >= count {
        None
    } else if json_value::node_at(probe, sock_pointer(from)) is Some {
        Some(from)
    } else {
        sock_argument(probe, from + 1, count)
    }
}

/// Bytes, packets and connections that an event of a kernel function stands for; nothing of
/// other functions.
pub open spec fn probe_counts(function_name: Seq<char>, sent: Option<u64>) -> Option<(u64, u64, u64)> {
    if function_name == "tcp_sendmsg"@ {
        Some((sent.unwrap_or(0), 1, 0))
    } else if function_name == "tcp_close"@ {
        Some((0, 0, 1))
    } else {
        None
    }
}

/// The flow that an event of a kernel probe describes, given the probe's part of the record.
pub open spec fn probe_record(probe: Map<Seq<char>, JsonNode>, now_ms: u128) -> Option<TetragonDependencyRecordView> {
    match (json_value::text_in(probe, "/function_name"@), json_value::array_len_in(probe, "/args"@)) {
        (Some(function_name), Some(count)) => match sock_argument(probe, 0, count as int) {
            Some(i) => {
                let sock = json_value::below(probe, sock_pointer(i));
                let source = first_text(sock, seq!["/saddr"@, "/src_ip"@]);
                let target = first_text(sock, seq!["/daddr"@, "/dst_ip"@]);
                match (probe_counts(function_name, json_value::unsigned_in(probe, "/args/1/int_arg"@)), source, target) {
                    (Some(counts), Some(source), Some(target)) => Some(
                        TetragonDependencyRecordView {
                            src_ip: plain_ip(source),
                            dst_ip: plain_ip(target),
                            src_endpoint: None,
                            dst_endpoint: None,
                            protocol: plain_protocol(views::text_or(first_text(sock, seq!["/protocol"@]), "UNKNOWN"@)),
                            destination_port: port_of(first_unsigned(sock, seq!["/dport"@])),
                            bytes: counts.0,
                            packets: counts.1,
                            connections: counts.2,
                            timestamp_unix_ms: first_number(probe, timestamp_pointers()).unwrap_or(now_ms),
                        },
                    ),
                    _ => None,
                }
            },
            None => None,
        },
        _ => None,
    }
}

/// The flow that an event of a kernel probe describes.
pub open spec fn kprobe_record(c: Map<Seq<char>, JsonNode>, now_ms: u128) -> Option<TetragonDependencyRecordView> {
    if json_value::node_at(c, "/process_kprobe"@) is Some {
        probe_record(json_value::below(c, "/process_kprobe"@), now_ms)
    } else {
        None
    }
}

fn count_probe(function_name: &str, sent: Option<u64>) -> (r: Option<(u64, u64, u64)>)
    ensures
        r == probe_counts(function_name@, sent),
{
    if str_eq(function_name, "tcp_sendmsg") {
        Some((sent.unwrap_or(0), 1, 0))
    } else if str_eq(function_name, "tcp_close") {
        Some((0, 0, 1))
    } else {
        None
    }
}

fn find_sock_argument<'a>(probe: &'a serde_json::Value, count: usize) -> (r: Option<&'a serde_json::Value>)
    ensures
        match r {
            Some(sock) => sock_argument(json_value::json_contents(*probe), 0, count as int) is Some && json_value::json_contents(*sock) == json_value::below(
                json_value::json_contents(*probe),
                sock_pointer(sock_argument(json_value::json_contents(*probe), 0, count as int)->0),
            ),
            None => sock_argument(json_value::json_contents(*probe), 0, count as int) is None,
        },
{
    let mut i: usize = 0;
    while i < count
        invariant
            i <= count,
            sock_argument(json_value::json_contents(*probe), 0, count as int) == sock_argument(
                json_value::json_contents(*probe),
                i as int,
                count as int,
            ),
        decreases count - i,
    {
        let number = decimal(i as u128);
        let pointer = text3("/args/", number.as_str(), "/sock_arg");
        let found = part_at(probe, pointer.as_str());
        if found.is_some() {
            return found;
        }
        i += 1;
    }
    None
}

/// The flow that an event of a kernel probe describes; `now_ms` stands for a time that it does
/// not name.
pub fn parse_tetragon_kprobe_record(value: &serde_json::Value, now_ms: u128) -> (r: Option<TetragonDependencyRecord>)
    ensures
        r.deep_view() == kprobe_record(json_value::json_contents(*value), now_ms),
{
    let probe = match part_at(value, "/process_kprobe") {
        Some(part) => part,
        None => {
            return None;
        },
    };
    let function_name = match text_at(probe, "/function_name") {
        Some(name) => name,
        None => {
            return None;
        },
    };
    let count: usize = match array_len_at(probe, "/args") {
        Some(n) => n,
        None => {
            return None;
        },
    };
    let sock = match find_sock_argument(probe, count) {
        Some(part) => part,
        None => {
            return None;
        },
    };
    let counts = match count_probe(function_name, unsigned_at(probe, "/args/1/int_arg")) {
        Some(counts) => counts,
        None => {
            return None;
        },
    };
    let at_source = vec!["/saddr", "/src_ip"];
    let at_target = vec!["/daddr", "/dst_ip"];
    let at_protocol = vec!["/protocol"];
    let at_port = vec!["/dport"];
    assert(at_source.deep_view() =~= seq!["/saddr"@, "/src_ip"@]);
    assert(at_target.deep_view() =~= seq!["/daddr"@, "/dst_ip"@]);
    assert(at_protocol.deep_view() =~= seq!["/protocol"@]);
    assert(at_port.deep_view() =~= seq!["/dport"@]);
    let source = match get_string_path(sock, &at_source) {
        Some(ip) => ip,
        None => {
            return None;
        },
    };
    let target = match get_string_path(sock, &at_target) {
        Some(ip) => ip,
        None => {
            return None;
        },
    };
    let protocol = match get_string_path(sock, &at_protocol) {
        Some(name) => name,
        None => "UNKNOWN",
    };
    Some(
        TetragonDependencyRecord {
            src_ip: normalize_tetragon_ip(source),
            dst_ip: normalize_tetragon_ip(target),
            src_endpoint: None,
            dst_endpoint: None,
            protocol: normalize_tetragon_protocol(protocol),
            destination_port: port_from(get_u64_path(sock, &at_port)),
            bytes: counts.0,
            packets: counts.1,
            connections: counts.2,
            timestamp_unix_ms: read_timestamp(probe, now_ms),
        },
    )
}

/// The flow that a record describes, as a summary or as an event of a kernel probe.
pub open spec fn record_of(c: Map<Seq<char>, JsonNode>, now_ms: u128) -> Option<TetragonDependencyRecordView> {
    if flow_record(c, now_ms) is Some {
        flow_record(c, now_ms)
    } else {
        kprobe_record(c, now_ms)
    }
}

/// The flow that a record describes, as a summary or as an event of a kernel probe.
pub fn parse_tetragon_record(value: &serde_json::Value, now_ms: u128) -> (r: Option<TetragonDependencyRecord>)
    ensures
        r.deep_view() == record_of(json_value::json_contents(*value), now_ms),
{
    match parse_tetragon_flow_record(value, now_ms) {
        Some(record) => Some(record),
        None => parse_tetragon_kprobe_record(value, now_ms),
    }
}

// ------------------------------------------------------------- the endpoints

/// The address of a pod that has one.
pub open spec fn pod_address(pod: PodView) -> Option<PodIpInfoView> {
    match pod.status {
        Some(status) => match status.pod_ip {
            Some(ip) => if ip.len() > 0 {
                Some(
                    PodIpInfoView {
                        namespace: views::text_or(pod.metadata.namespace, ""@),
                        pod_name: views::text_or(pod.metadata.name, ""@),
                        workload_kind: match first_owner(pod.metadata) {
                            Some(owner) => Some(owner.kind),
                            None => None,
                        },
                        workload_name: match first_owner(pod.metadata) {
                            Some(owner) => Some(owner.name),
                            None => None,
                        },
                        ip,
                    },
                )
            } else {
                None
            },
            None => None,
        },
        None => None,
    }
}

/// The first owner of an object.
pub open spec fn first_owner(metadata: ObjectMetaView) -> Option<OwnerReferenceView> {
    match metadata.owner_references {
        Some(owners) => if owners.len() > 0 {
            Some(owners[0])
        } else {
            None
        },
        None => None,
    }
}

/// The first owner of an object.
pub fn owner_of(metadata: &ObjectMeta) -> (r: Option<&OwnerReference>)
    ensures
        r.deep_view() == first_owner(metadata.deep_view()),
{
    match &metadata.owner_references {
        Some(owners) => if owners.len() > 0 {
            Some(&owners[0])
        } else {
            None
        },
        None => None,
    }
}

/// The addresses of the pods that have one, in the order of the pods.
pub fn build_pod_ip_index(pods: &Vec<Pod>) -> (r: Vec<PodIpInfo>)
    ensures
        r.deep_view() == pods.deep_view().filter_map(|p: PodView| pod_address(p)),
{
    let address = |pod: &Pod| -> (r: Option<PodIpInfo>)
        ensures
            r.deep_view() == pod_address(pod.deep_view()),
        {
            match &pod.status {
                Some(status) => match &status.pod_ip {
                    Some(ip) => if !ip.as_str().is_empty() {
                        let owner = owner_of(&pod.metadata);
                        Some(
                            PodIpInfo {
                                namespace: owned(opt_str(&pod.metadata.namespace, "")),
                                pod_name: owned(opt_str(&pod.metadata.name, "")),
                                workload_kind: match owner {
                                    Some(owner) => Some(owned(owner.kind.as_str())),
                                    None => None,
                                },
                                workload_name: match owner {
                                    Some(owner) => Some(owned(owner.name.as_str())),
                                    None => None,
                                },
                                ip: owned(ip.as_str()),
                            },
                        )
                    } else {
                        None
                    },
                    None => None,
                },
                None => None,
            }
        };
    filter_map_items(pods, address, Ghost(|p: PodView| pod_address(p)))
}

/// The address of a service that has one.
pub open spec fn service_address(service: ServiceView) -> Option<ServiceIpInfoView> {
    match service.spec {
        Some(spec) => match spec.cluster_ip {
            Some(ip) => if ip.len() > 0 && ip != "None"@ {
                Some(
                    ServiceIpInfoView {
                        namespace: views::text_or(service.metadata.namespace, ""@),
                        service_name: views::text_or(service.metadata.name, ""@),
                        ip,
                    },
                )
            } else {
                None
            },
            None => None,
        },
        None => None,
    }
}

/// The addresses of the services that have one, in the order of the services.
pub fn build_service_ip_index(services: &Vec<Service>) -> (r: Vec<ServiceIpInfo>)
    ensures
        r.deep_view() == services.deep_view().filter_map(|s: ServiceView| service_address(s)),
{
    let address = |service: &Service| -> (r: Option<ServiceIpInfo>)
        ensures
            r.deep_view() == service_address(service.deep_view()),
        {
            match &service.spec {
                Some(spec) => match &spec.cluster_ip {
                    Some(ip) => if !ip.as_str().is_empty() && !str_eq(ip.as_str(), "None") {
                        Some(
                            ServiceIpInfo {
                                namespace: owned(opt_str(&service.metadata.namespace, "")),
                                service_name: owned(opt_str(&service.metadata.name, "")),
                                ip: owned(ip.as_str()),
                            },
                        )
                    } else {
                        None
                    },
                    None => None,
                },
                None => None,
            }
        };
    filter_map_items(services, address, Ghost(|s: ServiceView| service_address(s)))
}

/// The pod that an address belongs to: the last one that is listed with it.
pub open spec fn pod_at(pods: Seq<PodIpInfoView>, ip: Seq<char>) -> Option<PodIpInfoView>
    decreases pods.len(),
{
    if pods.len() == 0 {
        None
    } else if pods.last().ip == ip {
        Some(pods.last())
    } else {
        pod_at(pods.drop_last(), ip)
    }
}

fn find_pod<'a>(pods: &'a Vec<PodIpInfo>, ip: &str) -> (r: Option<&'a PodIpInfo>)
    ensures
        r.deep_view() == pod_at(pods.deep_view(), ip@),
{
    let ghost all = pods.deep_view();
    let mut n: usize = pods.len();
    assert(all.take(n as int) =~= all);
    while n > 0
        invariant
            n <= pods.len(),
            all == pods.deep_view(),
            pod_at(all, ip@) == pod_at(all.take(n as int), ip@),
        decreases n,
    {
        let pod = &pods[n - 1];
        assert(all.take(n as int).last() == pod.deep_view());
        if str_eq(pod.ip.as_str(), ip) {
            return Some(pod);
        }
        assert(all.take(n as int).drop_last() =~= all.take(n - 1));
        n -= 1;
    }
    None
}

/// The service that an address belongs to: the last one that is listed with it.
pub open spec fn service_at(services: Seq<ServiceIpInfoView>, ip: Seq<char>) -> Option<ServiceIpInfoView>
    decreases services.len(),
{
    if services.len() == 0 {
        None
    } else if services.last().ip == ip {
        Some(services.last())
    } else {
        service_at(services.drop_last(), ip)
    }
}

fn find_service<'a>(services: &'a Vec<ServiceIpInfo>, ip: &str) -> (r: Option<&'a ServiceIpInfo>)
    ensures
        r.deep_view() == service_at(services.deep_view(), ip@),
{
    let ghost all = services.deep_view();
    let mut n: usize = services.len();
    assert(all.take(n as int) =~= all);
    while n > 0
        invariant
            n <= services.len(),
            all == services.deep_view(),
            service_at(all, ip@) == service_at(all.take(n as int), ip@),
        decreases n,
    {
        let service = &services[n - 1];
        assert(all.take(n as int).last() == service.deep_view());
        if str_eq(service.ip.as_str(), ip) {
            return Some(service);
        }
        assert(all.take(n as int).drop_last() =~= all.take(n - 1));
        n -= 1;
    }
    None
}

/// The endpoint behind an address: the pod or the service that has it, else what the hint says,
/// else an unknown one.
pub open spec fn endpoint_at(
    ip: Seq<char>,
    hint: Option<DependencyEndpointHintView>,
    pods: Seq<PodIpInfoView>,
    services: Seq<ServiceIpInfoView>,
) -> DependencyEndpointView {
    match (pod_at(pods, ip), service_at(services, ip), hint) {
        (Some(pod), _, _) => DependencyEndpointView {
            kind: "pod"@,
            namespace: Some(pod.namespace),
            name: Some(pod.pod_name),
            workload_kind: pod.workload_kind,
            workload_name: pod.workload_name,
            ip: Some(pod.ip),
        },
        (None, Some(service), _) => DependencyEndpointView {
            kind: "service"@,
            namespace: Some(service.namespace),
            name: Some(service.service_name),
            workload_kind: None,
            workload_name: None,
            ip: Some(service.ip),
        },
        (None, None, Some(hint)) if hint.namespace is Some || hint.pod_name is Some || hint.workload_kind is Some
            || hint.workload_name is Some => DependencyEndpointView {
            kind: "pod"@,
            namespace: hint.namespace,
            name: hint.pod_name,
            workload_kind: hint.workload_kind,
            workload_name: hint.workload_name,
            ip: Some(ip),
        },
        _ => DependencyEndpointView {
            kind: "unknown"@,
            namespace: None,
            name: None,
            workload_kind: None,
            workload_name: None,
            ip: Some(ip),
        },
    }
}

/// The endpoint behind an address.
pub fn resolve_endpoint(
    ip: &str,
    hint: &Option<DependencyEndpointHint>,
    pods: &Vec<PodIpInfo>,
    services: &Vec<ServiceIpInfo>,
) -> (r: DependencyEndpoint)
    ensures
        r.deep_view() == endpoint_at(ip@, hint.deep_view(), pods.deep_view(), services.deep_view()),
{
    if let Some(pod) = find_pod(pods, ip) {
        return DependencyEndpoint {
            kind: owned("pod"),
            namespace: Some(owned(pod.namespace.as_str())),
            name: Some(owned(pod.pod_name.as_str())),
            workload_kind: pod.workload_kind.deep_clone(),
            workload_name: pod.workload_name.deep_clone(),
            ip: Some(owned(pod.ip.as_str())),
        };
    }
    if let Some(service) = find_service(services, ip) {
        return DependencyEndpoint {
            kind: owned("service"),
            namespace: Some(owned(service.namespace.as_str())),
            name: Some(owned(service.service_name.as_str())),
            workload_kind: None,
            workload_name: None,
            ip: Some(owned(service.ip.as_str())),
        };
    }
    if let Some(hint) = hint {
        if hint.namespace.is_some() || hint.pod_name.is_some() || hint.workload_kind.is_some()
            || hint.workload_name.is_some() {
            return DependencyEndpoint {
                kind: owned("pod"),
                namespace: hint.namespace.deep_clone(),
                name: hint.pod_name.deep_clone(),
                workload_kind: hint.workload_kind.deep_clone(),
                workload_name: hint.workload_name.deep_clone(),
                ip: Some(owned(ip)),
            };
        }
    }
    DependencyEndpoint {
        kind: owned("unknown"),
        namespace: None,
        name: None,
        workload_kind: None,
        workload_name: None,
        ip: Some(owned(ip)),
    }
}

/// An optional text in lower case.
pub open spec fn opt_lowercase(text: Option<Seq<char>>) -> Option<Seq<char>> {
    match text {
        Some(s) => Some(text::lowercase(s)),
        None => None,
    }
}

fn opt_to_lowercase(text: &Option<String>) -> (r: Option<String>)
    ensures
        r.deep_view() == opt_lowercase(text.deep_view()),
{
    match text {
        Some(s) => Some(to_lowercase(s.as_str())),
        None => None,
    }
}

/// What tells an endpoint apart: its names, in lower case, and its address.
pub open spec fn endpoint_key(endpoint: DependencyEndpointView) -> EndpointKeyView {
    EndpointKeyView {
        kind: text::lowercase(endpoint.kind),
        namespace: opt_lowercase(endpoint.namespace),
        name: opt_lowercase(endpoint.name),
        workload_kind: opt_lowercase(endpoint.workload_kind),
        workload_name: opt_lowercase(endpoint.workload_name),
        ip: endpoint.ip,
    }
}

/// What tells an endpoint apart: its names, in lower case, and its address.
pub fn normalize_endpoint_key(endpoint: &DependencyEndpoint) -> (r: EndpointKey)
    ensures
        r.deep_view() == endpoint_key(endpoint.deep_view()),
{
    EndpointKey {
        kind: to_lowercase(endpoint.kind.as_str()),
        namespace: opt_to_lowercase(&endpoint.namespace),
        name: opt_to_lowercase(&endpoint.name),
        workload_kind: opt_to_lowercase(&endpoint.workload_kind),
        workload_name: opt_to_lowercase(&endpoint.workload_name),
        ip: endpoint.ip.deep_clone(),
    }
}

// ----------------------------------------------------------------- the orders

/// One endpoint may precede another: by kind, namespace, name, workload and address.
pub open spec fn endpoint_le(a: EndpointKeyView, b: EndpointKeyView) -> bool {
    if a.kind != b.kind {
        order::text_le(a.kind, b.kind)
    } else if a.namespace != b.namespace {
        order::opt_text_le(a.namespace, b.namespace)
    } else if a.name != b.name {
        order::opt_text_le(a.name, b.name)
    } else if a.workload_kind != b.workload_kind {
        order::opt_text_le(a.workload_kind, b.workload_kind)
    } else if a.workload_name != b.workload_name {
        order::opt_text_le(a.workload_name, b.workload_name)
    } else {
        order::opt_text_le(a.ip, b.ip)
    }
}

fn endpoint_precedes(a: &EndpointKey, b: &EndpointKey) -> (r: bool)
    ensures
        r == endpoint_le(a.deep_view(), b.deep_view()),
{
    if !str_eq(a.kind.as_str(), b.kind.as_str()) {
        str_le(a.kind.as_str(), b.kind.as_str())
    } else if !opt_str_eq(&a.namespace, &b.namespace) {
        opt_str_le(&a.namespace, &b.namespace)
    } else if !opt_str_eq(&a.name, &b.name) {
        opt_str_le(&a.name, &b.name)
    } else if !opt_str_eq(&a.workload_kind, &b.workload_kind) {
        opt_str_le(&a.workload_kind, &b.workload_kind)
    } else if !opt_str_eq(&a.workload_name, &b.workload_name) {
        opt_str_le(&a.workload_name, &b.workload_name)
    } else {
        opt_str_le(&a.ip, &b.ip)
    }
}

fn same_endpoint(a: &EndpointKey, b: &EndpointKey) -> (r: bool)
    ensures
        r == (a.deep_view() == b.deep_view()),
{
    str_eq(a.kind.as_str(), b.kind.as_str()) && opt_str_eq(&a.namespace, &b.namespace) && opt_str_eq(&a.name, &b.name)
        && opt_str_eq(&a.workload_kind, &b.workload_kind) && opt_str_eq(&a.workload_name, &b.workload_name)
        && opt_str_eq(&a.ip, &b.ip)
}

/// One key may precede another: by source, target, protocol, port and direction.
pub open spec fn edge_key_le(a: DependencyEdgeKeyView, b: DependencyEdgeKeyView) -> bool {
    if a.from != b.from {
        endpoint_le(a.from, b.from)
    } else if a.to != b.to {
        endpoint_le(a.to, b.to)
    } else if a.protocol != b.protocol {
        order::text_le(a.protocol, b.protocol)
    } else if a.destination_port != b.destination_port {
        a.destination_port < b.destination_port
    } else {
        order::text_le(a.direction, b.direction)
    }
}

fn edge_key_precedes(a: &DependencyEdgeKey, b: &DependencyEdgeKey) -> (r: bool)
    ensures
        r == edge_key_le(a.deep_view(), b.deep_view()),
{
    if !same_endpoint(&a.from, &b.from) {
        endpoint_precedes(&a.from, &b.from)
    } else if !same_endpoint(&a.to, &b.to) {
        endpoint_precedes(&a.to, &b.to)
    } else if !str_eq(a.protocol.as_str(), b.protocol.as_str()) {
        str_le(a.protocol.as_str(), b.protocol.as_str())
    } else if a.destination_port != b.destination_port {
        a.destination_port < b.destination_port
    } else {
        str_le(a.direction.as_str(), b.direction.as_str())
    }
}

fn same_edge(a: &DependencyEdgeKey, b: &DependencyEdgeKey) -> (r: bool)
    ensures
        r == (a.deep_view() == b.deep_view()),
{
    a.destination_port == b.destination_port && same_endpoint(&a.to, &b.to) && same_endpoint(&a.from, &b.from)
        && str_eq(a.protocol.as_str(), b.protocol.as_str()) && str_eq(a.direction.as_str(), b.direction.as_str())
}

/// What an edge is ordered by.
pub open spec fn edge_rank(edge: DependencyEdgeView) -> DependencyEdgeKeyView {
    DependencyEdgeKeyView {
        from: endpoint_key(edge.from),
        to: endpoint_key(edge.to),
        protocol: text::uppercase(edge.protocol),
        destination_port: edge.destination_port,
        direction: text::lowercase(edge.direction),
    }
}

/// One edge may precede another in a snapshot.
pub open spec fn edge_le(a: DependencyEdgeView, b: DependencyEdgeView) -> bool {
    edge_key_le(edge_rank(a), edge_rank(b))
}

fn rank_edge(edge: &DependencyEdge) -> (r: DependencyEdgeKey)
    ensures
        r.deep_view() == edge_rank(edge.deep_view()),
{
    DependencyEdgeKey {
        from: normalize_endpoint_key(&edge.from),
        to: normalize_endpoint_key(&edge.to),
        protocol: to_uppercase(edge.protocol.as_str()),
        destination_port: edge.destination_port,
        direction: to_lowercase(edge.direction.as_str()),
    }
}

/// The edges in the order of a snapshot; equal ones stay as they were.
pub fn sort_dependency_edges(edges: Vec<DependencyEdge>) -> (r: Vec<DependencyEdge>)
    ensures
        r.deep_view() == order::in_order(edges.deep_view(), |a: DependencyEdgeView, b: DependencyEdgeView| edge_le(a, b)),
{
    let precedes = |a: &DependencyEdge, b: &DependencyEdge| -> (r: bool)
        ensures
            r == edge_le(a.deep_view(), b.deep_view()),
        { edge_key_precedes(&rank_edge(a), &rank_edge(b)) };
    sort_in_order(edges, precedes, Ghost(|a: DependencyEdgeView, b: DependencyEdgeView| edge_le(a, b)))
}

// -------------------------------------------------------------- adding up

/// What a line of a window is.
#[derive(Clone, Debug, PartialEq, Eq)]
pub enum LineOutcome {
    /// A line beyond those that are read.
    Capped,
    Blank,
    /// A line that describes no flow.
    Unreadable,
    Record(TetragonDependencyRecord),
}

/// What a line of a window is.
pub enum LineOutcomeView {
    Capped,
    Blank,
    Unreadable,
    Record(TetragonDependencyRecordView),
}

impl DeepView for LineOutcome {
    type V = LineOutcomeView;

    open spec fn deep_view(&self) -> LineOutcomeView {
        match self {
            LineOutcome::Capped => LineOutcomeView::Capped,
            LineOutcome::Blank => LineOutcomeView::Blank,
            LineOutcome::Unreadable => LineOutcomeView::Unreadable,
            LineOutcome::Record(record) => LineOutcomeView::Record(record.deep_view()),
        }
    }
}

/// What a line is, by its number in the window.
pub open spec fn line_outcome(line_index: int, line: Seq<char>, now_ms: u128) -> LineOutcomeView {
    if line_index >= MAX_TETRAGON_LINES {
        LineOutcomeView::Capped
    } else if text::trimmed(line).len() == 0 {
        LineOutcomeView::Blank
    } else {
        match json_value::json_document(text::trimmed(line)) {
            Some(contents) => match record_of(contents, now_ms) {
                Some(record) => LineOutcomeView::Record(record),
                None => LineOutcomeView::Unreadable,
            },
            None => LineOutcomeView::Unreadable,
        }
    }
}

/// What a line is, by its number in the window.
pub fn read_line(line_index: usize, line: &str, now_ms: u128) -> (r: LineOutcome)
    ensures
        r.deep_view() == line_outcome(line_index as int, line@, now_ms),
{
    if line_index >= MAX_TETRAGON_LINES {
        return LineOutcome::Capped;
    }
    let line = trim(line);
    if line.is_empty() {
        return LineOutcome::Blank;
    }
    match read_json(line) {
        Some(value) => match parse_tetragon_record(&value, now_ms) {
            Some(record) => LineOutcome::Record(record),
            None => LineOutcome::Unreadable,
        },
        None => LineOutcome::Unreadable,
    }
}

/// What tells the edge apart that a flow between two endpoints belongs to.
pub open spec fn flow_key(
    from: DependencyEndpointView,
    to: DependencyEndpointView,
    record: TetragonDependencyRecordView,
) -> DependencyEdgeKeyView {
    DependencyEdgeKeyView {
        from: endpoint_key(from),
        to: endpoint_key(to),
        protocol: text::uppercase(record.protocol),
        destination_port: record.destination_port,
        direction: "egress"@,
    }
}

fn key_of_flow(from: &DependencyEndpoint, to: &DependencyEndpoint, record: &TetragonDependencyRecord) -> (r:
    DependencyEdgeKey)
    ensures
        r.deep_view() == flow_key(from.deep_view(), to.deep_view(), record.deep_view()),
{
    DependencyEdgeKey {
        from: normalize_endpoint_key(from),
        to: normalize_endpoint_key(to),
        protocol: to_uppercase(record.protocol.as_str()),
        destination_port: record.destination_port,
        direction: owned("egress"),
    }
}

/// The sum of two counts, or the largest count where it does not fit.
pub open spec fn capped_sum(a: u64, b: u64) -> u64 {
    if a + b > u64::MAX {
        u64::MAX
    } else {
        (a + b) as u64
    }
}

/// What has been seen on an edge, with one more flow.
pub open spec fn seen_with(
    seen: DependencyEdgeAggView,
    record: TetragonDependencyRecordView,
) -> DependencyEdgeAggView {
    DependencyEdgeAggView {
        bytes: capped_sum(seen.bytes, record.bytes),
        packets: capped_sum(seen.packets, record.packets),
        connections: capped_sum(seen.connections, record.connections),
        first_seen_unix_ms: if record.timestamp_unix_ms < seen.first_seen_unix_ms {
            record.timestamp_unix_ms
        } else {
            seen.first_seen_unix_ms
        },
        last_seen_unix_ms: if record.timestamp_unix_ms > seen.last_seen_unix_ms {
            record.timestamp_unix_ms
        } else {
            seen.last_seen_unix_ms
        },
    }
}

/// What has been seen on an edge with its first flow.
pub open spec fn seen_first(record: TetragonDependencyRecordView) -> DependencyEdgeAggView {
    DependencyEdgeAggView {
        bytes: record.bytes,
        packets: record.packets,
        connections: record.connections,
        first_seen_unix_ms: record.timestamp_unix_ms,
        last_seen_unix_ms: record.timestamp_unix_ms,
    }
}

/// The place of an edge among the entries.
pub open spec fn entry_place(entries: Seq<DependencyEntryView>, key: DependencyEdgeKeyView) -> Option<int>
    decreases entries.len(),
{
    if entries.len() == 0 {
        None
    } else if entries.last().key == key {
        Some(entries.len() - 1)
    } else {
        entry_place(entries.drop_last(), key)
    }
}

proof fn lemma_entry_place(entries: Seq<DependencyEntryView>, key: DependencyEdgeKeyView)
    ensures
        match entry_place(entries, key) {
            Some(i) => 0 <= i < entries.len() && entries[i].key == key,
            None => forall|i: int| 0 <= i < entries.len() ==> (#[trigger] entries[i]).key != key,
        },
    decreases entries.len(),
{
    if entries.len() > 0 && entries.last().key != key {
        lemma_entry_place(entries.drop_last(), key);
        assert forall|i: int| 0 <= i < entries.len() && entry_place(entries, key) is None implies (
        #[trigger] entries[i]).key != key by {
            if i < entries.len() - 1 {
                assert(entries.drop_last()[i] == entries[i]);
            }
        }
    }
}

fn find_entry(entries: &Vec<DependencyEntry>, key: &DependencyEdgeKey) -> (r: Option<usize>)
    ensures
        match r {
            Some(i) => i < entries.len() && entry_place(entries.deep_view(), key.deep_view()) == Some(i as int),
            None => entry_place(entries.deep_view(), key.deep_view()) is None,
        },
{
    let ghost all = entries.deep_view();
    let mut n: usize = entries.len();
    assert(all.take(n as int) =~= all);
    while n > 0
        invariant
            n <= entries.len(),
            all == entries.deep_view(),
            entry_place(all, key.deep_view()) == entry_place(all.take(n as int), key.deep_view()),
        decreases n,
    {
        assert(all.take(n as int).last() == entries@[n - 1].deep_view());
        if same_edge(&entries[n - 1].key, key) {
            return Some(n - 1);
        }
        assert(all.take(n as int).drop_last() =~= all.take(n - 1));
        n -= 1;
    }
    None
}

/// The targets of a source among the entries, each once.
pub open spec fn targets_of(entries: Seq<DependencyEntryView>, source: EndpointKeyView) -> Seq<EndpointKeyView>
    decreases entries.len(),
{
    if entries.len() == 0 {
        seq![]
    } else {
        let before = targets_of(entries.drop_last(), source);
        let key = entries.last().key;
        if key.from == source && !before.contains(key.to) {
            before.push(key.to)
        } else {
            before
        }
    }
}

fn lists_endpoint(list: &Vec<EndpointKey>, key: &EndpointKey) -> (r: bool)
    ensures
        r == list.deep_view().contains(key.deep_view()),
{
    let mut i: usize = 0;
    while i < list.len()
        invariant
            i <= list.len(),
            forall|j: int| 0 <= j < i ==> (#[trigger] list.deep_view()[j]) != key.deep_view(),
        decreases list.len() - i,
    {
        if same_endpoint(&list[i], key) {
            assert(list.deep_view()[i as int] == key.deep_view());
            return true;
        }
        i += 1;
    }
    false
}

fn collect_targets(entries: &Vec<DependencyEntry>, source: &EndpointKey) -> (r: Vec<EndpointKey>)
    ensures
        r.deep_view() == targets_of(entries.deep_view(), source.deep_view()),
{
    let ghost all = entries.deep_view();
    let mut targets: Vec<EndpointKey> = Vec::new();
    let mut i: usize = 0;
    assert(targets.deep_view() =~= targets_of(all.take(0), source.deep_view()));
    while i < entries.len()
        invariant
            i <= entries.len(),
            all == entries.deep_view(),
            targets.deep_view() == targets_of(all.take(i as int), source.deep_view()),
        decreases entries.len() - i,
    {
        let ghost before = targets.deep_view();
        let key = &entries[i].key;
        proof {
            assert(all.take(i + 1).drop_last() =~= all.take(i as int));
            assert(all.take(i + 1).last() == entries@[i as int].deep_view());
        }
        if same_endpoint(&key.from, source) && !lists_endpoint(&targets, &key.to) {
            targets.push(key.to.deep_clone());
            assert(targets.deep_view() =~= before.push(key.to.deep_view()));
        }
        i += 1;
    }
    assert(all.take(entries.len() as int) =~= all);
    targets
}

/// The aggregate of a window of which nothing has been read.
pub open spec fn empty_aggregate() -> DependencyAggregateView {
    DependencyAggregateView {
        entries: seq![],
        parse_failures: 0,
        dropped_for_line_cap: 0,
        dropped_edges: 0,
        skipped_for_fanout: 0,
    }
}

/// How many lines an aggregate has left out.
pub open spec fn left_out(aggregate: DependencyAggregateView) -> int {
    aggregate.parse_failures + aggregate.dropped_for_line_cap + aggregate.dropped_edges + aggregate.skipped_for_fanout
}

/// An aggregate with one more flow between two endpoints. A flow on a new edge is dropped where the
/// edges are at their cap, and skipped where its source has as many targets as it may have and this
/// is another. An edge keeps the endpoints of its first flow.
pub open spec fn with_flow(
    aggregate: DependencyAggregateView,
    from: DependencyEndpointView,
    to: DependencyEndpointView,
    record: TetragonDependencyRecordView,
) -> DependencyAggregateView {
    let key = flow_key(from, to, record);
    match entry_place(aggregate.entries, key) {
        Some(i) => DependencyAggregateView {
            entries: aggregate.entries.update(
                i,
                DependencyEntryView {
                    seen: seen_with(aggregate.entries[i].seen, record),
                    ..aggregate.entries[i]
                },
            ),
            ..aggregate
        },
        None => {
            let targets = targets_of(aggregate.entries, key.from);
            if aggregate.entries.len() >= MAX_DEP_EDGES_PER_SNAPSHOT {
                DependencyAggregateView { dropped_edges: (aggregate.dropped_edges + 1) as u64, ..aggregate }
            } else if targets.len() >= MAX_DEP_FANOUT_PER_SOURCE && !targets.contains(key.to) {
                DependencyAggregateView { skipped_for_fanout: (aggregate.skipped_for_fanout + 1) as u64, ..aggregate }
            } else {
                DependencyAggregateView {
                    entries: aggregate.entries.push(DependencyEntryView { key, from, to, seen: seen_first(record) }),
                    ..aggregate
                }
            }
        },
    }
}

/// An aggregate with one more line.
pub open spec fn with_line(
    aggregate: DependencyAggregateView,
    outcome: LineOutcomeView,
    pods: Seq<PodIpInfoView>,
    services: Seq<ServiceIpInfoView>,
) -> DependencyAggregateView {
    match outcome {
        LineOutcomeView::Capped => DependencyAggregateView {
            dropped_for_line_cap: (aggregate.dropped_for_line_cap + 1) as u64,
            ..aggregate
        },
        LineOutcomeView::Blank => aggregate,
        LineOutcomeView::Unreadable => DependencyAggregateView {
            parse_failures: (aggregate.parse_failures + 1) as u64,
            ..aggregate
        },
        LineOutcomeView::Record(record) => with_flow(
            aggregate,
            endpoint_at(record.src_ip, record.src_endpoint, pods, services),
            endpoint_at(record.dst_ip, record.dst_endpoint, pods, services),
            record,
        ),
    }
}

impl DependencyAggregate {
    /// The aggregate of a window of which nothing has been read.
    pub fn new() -> (r: Self)
        ensures
            r.deep_view() == empty_aggregate(),
    {
        let entries: Vec<DependencyEntry> = Vec::new();
        assert(entries.deep_view() =~= seq![]);
        DependencyAggregate {
            entries,
            parse_failures: 0,
            dropped_for_line_cap: 0,
            dropped_edges: 0,
            skipped_for_fanout: 0,
        }
    }

    fn add_flow(&mut self, from: DependencyEndpoint, to: DependencyEndpoint, record: &TetragonDependencyRecord)
        requires
            left_out(old(self).deep_view()) < u64::MAX,
        ensures
            final(self).deep_view() == with_flow(
                old(self).deep_view(),
                from.deep_view(),
                to.deep_view(),
                record.deep_view(),
            ),
    {
        let key = key_of_flow(&from, &to, record);
        let ghost before = self.entries.deep_view();
        proof {
            lemma_entry_place(before, key.deep_view());
        }
        match find_entry(&self.entries, &key) {
            Some(i) => {
                let seen = DependencyEdgeAgg {
                    bytes: self.entries[i].seen.bytes.saturating_add(record.bytes),
                    packets: self.entries[i].seen.packets.saturating_add(record.packets),
                    connections: self.entries[i].seen.connections.saturating_add(record.connections),
                    first_seen_unix_ms: if record.timestamp_unix_ms < self.entries[i].seen.first_seen_unix_ms {
                        record.timestamp_unix_ms
                    } else {
                        self.entries[i].seen.first_seen_unix_ms
                    },
                    last_seen_unix_ms: if record.timestamp_unix_ms > self.entries[i].seen.last_seen_unix_ms {
                        record.timestamp_unix_ms
                    } else {
                        self.entries[i].seen.last_seen_unix_ms
                    },
                };
                let entry = DependencyEntry {
                    key,
                    from: self.entries[i].from.deep_clone(),
                    to: self.entries[i].to.deep_clone(),
                    seen,
                };
                let ghost updated = entry.deep_view();
                assert(before[i as int] == self.entries@[i as int].deep_view());
                assert(updated.seen == seen_with(before[i as int].seen, record.deep_view()));
                self.entries.set(i, entry);
                assert(self.entries.deep_view() =~= before.update(i as int, updated));
            },
            None => {
                if self.entries.len() >= MAX_DEP_EDGES_PER_SNAPSHOT {
                    self.dropped_edges = self.dropped_edges + 1;
                    return;
                }
                let targets = collect_targets(&self.entries, &key.from);
                if targets.len() >= MAX_DEP_FANOUT_PER_SOURCE && !lists_endpoint(&targets, &key.to) {
                    self.skipped_for_fanout = self.skipped_for_fanout + 1;
                    return;
                }
                let entry = DependencyEntry {
                    key,
                    from,
                    to,
                    seen: DependencyEdgeAgg {
                        bytes: record.bytes,
                        packets: record.packets,
                        connections: record.connections,
                        first_seen_unix_ms: record.timestamp_unix_ms,
                        last_seen_unix_ms: record.timestamp_unix_ms,
                    },
                };
                let ghost added = entry.deep_view();
                self.entries.push(entry);
                assert(self.entries.deep_view() =~= before.push(added));
            },
        }
    }

    /// Takes one more line in.
    pub fn add_line(&mut self, outcome: &LineOutcome, pods: &Vec<PodIpInfo>, services: &Vec<ServiceIpInfo>)
        requires
            left_out(old(self).deep_view()) < u64::MAX,
        ensures
            final(self).deep_view() == with_line(
                old(self).deep_view(),
                outcome.deep_view(),
                pods.deep_view(),
                services.deep_view(),
            ),
    {
        match outcome {
            LineOutcome::Capped => {
                self.dropped_for_line_cap = self.dropped_for_line_cap + 1;
            },
            LineOutcome::Blank => {},
            LineOutcome::Unreadable => {
                self.parse_failures = self.parse_failures + 1;
            },
            LineOutcome::Record(record) => {
                let from = resolve_endpoint(record.src_ip.as_str(), &record.src_endpoint, pods, services);
                let to = resolve_endpoint(record.dst_ip.as_str(), &record.dst_endpoint, pods, services);
                self.add_flow(from, to, record);
            },
        }
    }
}

/// The aggregate of lines that were read.
pub open spec fn aggregate_of(
    outcomes: Seq<LineOutcomeView>,
    pods: Seq<PodIpInfoView>,
    services: Seq<ServiceIpInfoView>,
) -> DependencyAggregateView
    decreases outcomes.len(),
{
    if outcomes.len() == 0 {
        empty_aggregate()
    } else {
        with_line(aggregate_of(outcomes.drop_last(), pods, services), outcomes.last(), pods, services)
    }
}

/// The edge that an entry stands for, with its endpoints as they were resolved.
pub open spec fn edge_of_entry(entry: DependencyEntryView) -> DependencyEdgeView {
    DependencyEdgeView {
        from: entry.from,
        to: entry.to,
        protocol: entry.key.protocol,
        destination_port: entry.key.destination_port,
        direction: entry.key.direction,
        bytes: entry.seen.bytes,
        packets: entry.seen.packets,
        connections: entry.seen.connections,
        first_seen_unix_ms: entry.seen.first_seen_unix_ms,
        last_seen_unix_ms: entry.seen.last_seen_unix_ms,
    }
}

/// One entry may precede another.
pub open spec fn entry_le(a: DependencyEntryView, b: DependencyEntryView) -> bool {
    edge_key_le(a.key, b.key)
}

/// The edges of an aggregate in the order of a snapshot: ordered by what ranks an edge, and
/// where that is the same, by their keys.
pub open spec fn edges_of(entries: Seq<DependencyEntryView>) -> Seq<DependencyEdgeView> {
    order::in_order(
        order::in_order(entries, |a: DependencyEntryView, b: DependencyEntryView| entry_le(a, b)).map_values(
            |e: DependencyEntryView| edge_of_entry(e),
        ),
        |a: DependencyEdgeView, b: DependencyEdgeView| edge_le(a, b),
    )
}

/// The inventory that an aggregate amounts to, with the numbers that the metrics count.
pub open spec fn collection_of(
    aggregate: DependencyAggregateView,
    coverage: CoverageSnapshot,
) -> DependencyCollectionView {
    let dropped_events = capped_sum(aggregate.dropped_edges, aggregate.dropped_for_line_cap);
    let dropped = capped_sum(dropped_events, aggregate.skipped_for_fanout);
    DependencyCollectionView {
        inventory: DependencyInventoryView {
            edges: edges_of(aggregate.entries),
            source: "tetragon_grpc"@,
            window_seconds: DEP_WINDOW_SECONDS,
            truncated: dropped > 0,
            dropped_edges: dropped,
            observed_endpoints: coverage.observed_endpoints,
            connected_endpoints: coverage.connected_endpoints,
            unavailable_endpoints: coverage.unavailable_endpoints,
        },
        parse_failures: aggregate.parse_failures,
        dropped_events,
        skipped_events: aggregate.skipped_for_fanout,
    }
}

/// The inventory where no traffic is observed.
pub open spec fn no_dependencies() -> DependencyCollectionView {
    DependencyCollectionView {
        inventory: DependencyInventoryView {
            edges: seq![],
            source: "tetragon_grpc"@,
            window_seconds: DEP_WINDOW_SECONDS,
            truncated: false,
            dropped_edges: 0,
            observed_endpoints: 0,
            connected_endpoints: 0,
            unavailable_endpoints: 0,
        },
        parse_failures: 0,
        dropped_events: 0,
        skipped_events: 0,
    }
}

/// The inventory that an aggregate amounts to, with the numbers that the metrics count.
pub fn summarize_dependencies(aggregate: DependencyAggregate, coverage: CoverageSnapshot) -> (r: DependencyCollection)
    ensures
        r.deep_view() == collection_of(aggregate.deep_view(), coverage),
{
    let precedes = |a: &DependencyEntry, b: &DependencyEntry| -> (r: bool)
        ensures
            r == entry_le(a.deep_view(), b.deep_view()),
        { edge_key_precedes(&a.key, &b.key) };
    let entries = sort_in_order(
        aggregate.entries,
        precedes,
        Ghost(|a: DependencyEntryView, b: DependencyEntryView| entry_le(a, b)),
    );
    let to_edge = |entry: &DependencyEntry| -> (r: DependencyEdge)
        ensures
            r.deep_view() == edge_of_entry(entry.deep_view()),
        {
            DependencyEdge {
                from: entry.from.deep_clone(),
                to: entry.to.deep_clone(),
                protocol: entry.key.protocol.deep_clone(),
                destination_port: entry.key.destination_port,
                direction: entry.key.direction.deep_clone(),
                bytes: entry.seen.bytes,
                packets: entry.seen.packets,
                connections: entry.seen.connections,
                first_seen_unix_ms: entry.seen.first_seen_unix_ms,
                last_seen_unix_ms: entry.seen.last_seen_unix_ms,
            }
        };
    let edges = map_items(&entries, to_edge, Ghost(|e: DependencyEntryView| edge_of_entry(e)));
    let dropped_events = aggregate.dropped_edges.saturating_add(aggregate.dropped_for_line_cap);
    let dropped = dropped_events.saturating_add(aggregate.skipped_for_fanout);
    DependencyCollection {
        inventory: DependencyInventory {
            edges: sort_dependency_edges(edges),
            source: "tetragon_grpc",
            window_seconds: DEP_WINDOW_SECONDS,
            truncated: dropped > 0,
            dropped_edges: dropped,
            observed_endpoints: coverage.observed_endpoints,
            connected_endpoints: coverage.connected_endpoints,
            unavailable_endpoints: coverage.unavailable_endpoints,
        },
        parse_failures: aggregate.parse_failures,
        dropped_events,
        skipped_events: aggregate.skipped_for_fanout,
    }
}

/// What the lines of a window are.
pub open spec fn outcomes_of(lines: Seq<Seq<char>>, now_ms: u128) -> Seq<LineOutcomeView> {
    lines.map(|i: int, line: Seq<char>| line_outcome(i, line, now_ms))
}

/// Each line is left out at most once.
proof fn lemma_left_out(
    outcomes: Seq<LineOutcomeView>,
    pods: Seq<PodIpInfoView>,
    services: Seq<ServiceIpInfoView>,
)
    requires
        outcomes.len() <= u64::MAX,
    ensures
        left_out(aggregate_of(outcomes, pods, services)) <= outcomes.len(),
    decreases outcomes.len(),
{
    if outcomes.len() > 0 {
        lemma_left_out(outcomes.drop_last(), pods, services);
    }
}

/// The dependencies of a window: its lines are read and added up to edges between the endpoints
/// that the pods and services are. `now_ms` stands for the times that the lines do not name.
pub fn collect_dependency_inventory(
    enabled: bool,
    body: &str,
    pods: &Vec<Pod>,
    services: &Vec<Service>,
    coverage: CoverageSnapshot,
    now_ms: u128,
) -> (r: DependencyCollection)
    ensures
        !enabled ==> r.deep_view() == no_dependencies(),
        enabled ==> r.deep_view() == collection_of(
            aggregate_of(
                outcomes_of(text::lines_of(body@), now_ms),
                pods.deep_view().filter_map(|p: PodView| pod_address(p)),
                services.deep_view().filter_map(|s: ServiceView| service_address(s)),
            ),
            coverage,
        ),
{
    if !enabled {
        let edges: Vec<DependencyEdge> = Vec::new();
        assert(edges.deep_view() =~= seq![]);
        return DependencyCollection {
            inventory: DependencyInventory {
                edges,
                source: "tetragon_grpc",
                window_seconds: DEP_WINDOW_SECONDS,
                truncated: false,
                dropped_edges: 0,
                observed_endpoints: 0,
                connected_endpoints: 0,
                unavailable_endpoints: 0,
            },
            parse_failures: 0,
            dropped_events: 0,
            skipped_events: 0,
        };
    }
    let pod_index = build_pod_ip_index(pods);
    let service_index = build_service_ip_index(services);
    let lines = lines(body);
    let ghost outcomes = outcomes_of(text::lines_of(body@), now_ms);
    let mut aggregate = DependencyAggregate::new();
    let mut i: usize = 0;
    while i < lines.len()
        invariant
            i <= lines.len(),
            lines.deep_view() == text::lines_of(body@),
            outcomes == outcomes_of(text::lines_of(body@), now_ms),
            aggregate.deep_view() == aggregate_of(
                outcomes.take(i as int),
                pod_index.deep_view(),
                service_index.deep_view(),
            ),
        decreases lines.len() - i,
    {
        proof {
            lemma_left_out(outcomes.take(i as int), pod_index.deep_view(), service_index.deep_view());
            assert(outcomes.take(i + 1).drop_last() =~= outcomes.take(i as int));
        }
        let outcome = read_line(i, lines[i], now_ms);
        assert(lines.deep_view()[i as int] == lines@[i as int].deep_view());
        assert(outcomes.take(i + 1).last() == outcome.deep_view());
        aggregate.add_line(&outcome, &pod_index, &service_index);
        i += 1;
    }
    assert(outcomes.take(lines.len() as int) =~= outcomes);
    summarize_dependencies(aggregate, coverage)
}

// -------------------------------------------------------------------- laws

proof fn lemma_endpoint_le(a: EndpointKeyView, b: EndpointKeyView, c: EndpointKeyView)
    ensures
        endpoint_le(a, b) || endpoint_le(b, a),
        endpoint_le(a, b) && endpoint_le(b, a) ==> a == b,
        endpoint_le(a, b) && endpoint_le(b, c) ==> endpoint_le(a, c),
{
    order::lemma_text_le(a.kind, b.kind, c.kind);
    order::lemma_text_le(b.kind, c.kind, a.kind);
    order::lemma_opt_text_le(a.namespace, b.namespace, c.namespace);
    order::lemma_opt_text_le(b.namespace, c.namespace, a.namespace);
    order::lemma_opt_text_le(a.name, b.name, c.name);
    order::lemma_opt_text_le(b.name, c.name, a.name);
    order::lemma_opt_text_le(a.workload_kind, b.workload_kind, c.workload_kind);
    order::lemma_opt_text_le(b.workload_kind, c.workload_kind, a.workload_kind);
    order::lemma_opt_text_le(a.workload_name, b.workload_name, c.workload_name);
    order::lemma_opt_text_le(b.workload_name, c.workload_name, a.workload_name);
    order::lemma_opt_text_le(a.ip, b.ip, c.ip);
}

proof fn lemma_edge_key_le(a: DependencyEdgeKeyView, b: DependencyEdgeKeyView, c: DependencyEdgeKeyView)
    ensures
        edge_key_le(a, b) || edge_key_le(b, a),
        edge_key_le(a, b) && edge_key_le(b, c) ==> edge_key_le(a, c),
{
    lemma_endpoint_le(a.from, b.from, c.from);
    lemma_endpoint_le(b.from, c.from, a.from);
    lemma_endpoint_le(a.to, b.to, c.to);
    lemma_endpoint_le(b.to, c.to, a.to);
    order::lemma_text_le(a.protocol, b.protocol, c.protocol);
    order::lemma_text_le(b.protocol, c.protocol, a.protocol);
    order::lemma_text_le(a.direction, b.direction, c.direction);
}

/// The edges of a snapshot stand in order, and there is one for each entry of the window.
pub proof fn lemma_edges_in_order(entries: Seq<DependencyEntryView>)
    ensures
        order::is_sorted(edges_of(entries), |a: DependencyEdgeView, b: DependencyEdgeView| edge_le(a, b)),
        edges_of(entries).to_multiset() == entries.map_values(
            |e: DependencyEntryView| edge_of_entry(e),
        ).to_multiset(),
{
    let le = |a: DependencyEdgeView, b: DependencyEdgeView| edge_le(a, b);
    let before = |a: DependencyEntryView, b: DependencyEntryView| entry_le(a, b);
    let edge = |e: DependencyEntryView| edge_of_entry(e);
    assert forall|a: DependencyEdgeView, b: DependencyEdgeView| #[trigger] le(a, b) || le(b, a) by {
        lemma_edge_key_le(edge_rank(a), edge_rank(b), edge_rank(a));
    }
    assert forall|a: DependencyEdgeView, b: DependencyEdgeView, c: DependencyEdgeView| #[trigger]
        le(a, b) && #[trigger] le(b, c) implies le(a, c) by {
        lemma_edge_key_le(edge_rank(a), edge_rank(b), edge_rank(c));
    }
    let ordered = order::in_order(entries, before);
    order::lemma_in_order_sorted(ordered.map_values(edge), le);
    order::lemma_in_order_keeps_items(ordered.map_values(edge), le);
    order::lemma_in_order_keeps_items(entries, before);
    lemma_images_keep_items(ordered, entries, edge);
}

/// The same items in another order have the same images in another order.
proof fn lemma_images_keep_items<A, B>(a: Seq<A>, b: Seq<A>, f: spec_fn(A) -> B)
    requires
        a.to_multiset() == b.to_multiset(),
    ensures
        a.map_values(f).to_multiset() == b.map_values(f).to_multiset(),
    decreases a.len(),
{
    broadcast use vstd::seq_lib::group_to_multiset_ensures;

    assert(a.len() == a.to_multiset().len());
    assert(b.len() == b.to_multiset().len());
    if a.len() > 0 {
        let x = a[0];
        assert(a.to_multiset().count(x) > 0) by {
            assert(a.contains(x));
        }
        assert(b.contains(x));
        let k = b.index_of(x);
        let shorter = a.remove(0);
        let other = b.remove(k);
        vstd::seq_lib::to_multiset_remove(a, 0);
        vstd::seq_lib::to_multiset_remove(b, k);
        lemma_images_keep_items(shorter, other, f);
        let fa = a.map_values(f);
        let fb = b.map_values(f);
        vstd::seq_lib::to_multiset_remove(fa, 0);
        vstd::seq_lib::to_multiset_remove(fb, k);
        assert(fa.remove(0) =~= shorter.map_values(f));
        assert(fb.remove(k) =~= other.map_values(f));
        assert(fa.to_multiset().count(f(x)) > 0) by {
            assert(fa[0] == f(x));
            assert(fa.contains(f(x)));
        }
        assert(fb.to_multiset().count(f(x)) > 0) by {
            assert(fb[k] == f(x));
            assert(fb.contains(f(x)));
        }
        assert(fa.to_multiset() =~= fa.to_multiset().remove(f(x)).insert(f(x)));
        assert(fb.to_multiset() =~= fb.to_multiset().remove(f(x)).insert(f(x)));
    } else {
        assert(a.map_values(f) =~= b.map_values(f));
    }
}

/// What every window keeps to: so many edges, each once and told apart by its own endpoints, and so
/// many targets of a source.
pub open spec fn within_caps(entries: Seq<DependencyEntryView>) -> bool {
    &&& entries.len() <= MAX_DEP_EDGES_PER_SNAPSHOT
    &&& forall|i: int|
        0 <= i < entries.len() ==> (#[trigger] entries[i]).key.from == endpoint_key(entries[i].from)
            && entries[i].key.to == endpoint_key(entries[i].to)
    &&& forall|i: int, j: int|
        0 <= i < j < entries.len() ==> (#[trigger] entries[i]).key != (#[trigger] entries[j]).key
    &&& forall|source: EndpointKeyView|
        (#[trigger] targets_of(entries, source)).len() <= MAX_DEP_FANOUT_PER_SOURCE
}

proof fn lemma_targets_by_keys(a: Seq<DependencyEntryView>, b: Seq<DependencyEntryView>, source: EndpointKeyView)
    requires
        a.len() == b.len(),
        forall|i: int| 0 <= i < a.len() ==> (#[trigger] a[i]).key == b[i].key,
    ensures
        targets_of(a, source) == targets_of(b, source),
    decreases a.len(),
{
    if a.len() > 0 {
        assert forall|i: int| 0 <= i < a.drop_last().len() implies (#[trigger] a.drop_last()[i]).key
            == b.drop_last()[i].key by {
            assert(a[i].key == b[i].key);
        }
        lemma_targets_by_keys(a.drop_last(), b.drop_last(), source);
        assert(a[a.len() - 1].key == b[b.len() - 1].key);
    }
}

proof fn lemma_line_keeps_caps(
    aggregate: DependencyAggregateView,
    outcome: LineOutcomeView,
    pods: Seq<PodIpInfoView>,
    services: Seq<ServiceIpInfoView>,
)
    requires
        within_caps(aggregate.entries),
    ensures
        within_caps(with_line(aggregate, outcome, pods, services).entries),
{
    if let LineOutcomeView::Record(record) = outcome {
        let from = endpoint_at(record.src_ip, record.src_endpoint, pods, services);
        let to = endpoint_at(record.dst_ip, record.dst_endpoint, pods, services);
        let key = flow_key(from, to, record);
        let old_entries = aggregate.entries;
        let new_entries = with_line(aggregate, outcome, pods, services).entries;
        lemma_entry_place(old_entries, key);
        assert forall|source: EndpointKeyView| (#[trigger] targets_of(new_entries, source)).len()
            <= MAX_DEP_FANOUT_PER_SOURCE by {
            assert(targets_of(old_entries, source).len() <= MAX_DEP_FANOUT_PER_SOURCE);
            if new_entries.len() == old_entries.len() {
                lemma_targets_by_keys(old_entries, new_entries, source);
            } else {
                assert(new_entries.drop_last() =~= old_entries);
            }
        }
    }
}

proof fn lemma_aggregate_within_caps(
    outcomes: Seq<LineOutcomeView>,
    pods: Seq<PodIpInfoView>,
    services: Seq<ServiceIpInfoView>,
)
    ensures
        within_caps(aggregate_of(outcomes, pods, services).entries),
    decreases outcomes.len(),
{
    if outcomes.len() > 0 {
        lemma_aggregate_within_caps(outcomes.drop_last(), pods, services);
        lemma_line_keeps_caps(
            aggregate_of(outcomes.drop_last(), pods, services),
            outcomes.last(),
            pods,
            services,
        );
    }
}

/// However many lines a window has, its edges are each there once and stay within the caps, and
/// each line is left out at most once.
pub proof fn lemma_window_within_caps(
    outcomes: Seq<LineOutcomeView>,
    pods: Seq<PodIpInfoView>,
    services: Seq<ServiceIpInfoView>,
)
    requires
        outcomes.len() <= u64::MAX,
    ensures
        within_caps(aggregate_of(outcomes, pods, services).entries),
        left_out(aggregate_of(outcomes, pods, services)) <= outcomes.len(),
{
    lemma_left_out(outcomes, pods, services);
    lemma_aggregate_within_caps(outcomes, pods, services);
}

/// What tells an edge of a snapshot apart.
pub open spec fn edge_identity(edge: DependencyEdgeView) -> DependencyEdgeKeyView {
    DependencyEdgeKeyView {
        from: endpoint_key(edge.from),
        to: endpoint_key(edge.to),
        protocol: edge.protocol,
        destination_port: edge.destination_port,
        direction: edge.direction,
    }
}

/// No two edges of a snapshot share source, target, protocol, port and direction, not even where
/// the letter case of their names is left aside.
pub proof fn lemma_edges_are_distinct(
    outcomes: Seq<LineOutcomeView>,
    pods: Seq<PodIpInfoView>,
    services: Seq<ServiceIpInfoView>,
    i: int,
    j: int,
)
    ensures
        ({
            let edges = edges_of(aggregate_of(outcomes, pods, services).entries);
            0 <= i < j < edges.len() ==> {
                &&& edge_identity(edges[i]) != edge_identity(edges[j])
                &&& !(edges[i].from == edges[j].from && edges[i].to == edges[j].to && edges[i].protocol
                    == edges[j].protocol && edges[i].destination_port == edges[j].destination_port
                    && edges[i].direction == edges[j].direction)
            }
        }),
{
    let entries = aggregate_of(outcomes, pods, services).entries;
    lemma_aggregate_within_caps(outcomes, pods, services);
    lemma_edges_in_order(entries);
    let edge = |e: DependencyEntryView| edge_of_entry(e);
    let identity = |e: DependencyEdgeView| edge_identity(e);
    let edges = edges_of(entries);
    let unordered = entries.map_values(edge);
    let ids = unordered.map_values(identity);
    assert forall|k: int| 0 <= k < entries.len() implies #[trigger] ids[k] == entries[k].key by {
        assert(unordered[k] == edge_of_entry(entries[k]));
    }
    assert(ids.no_duplicates());
    lemma_images_keep_items(edges, unordered, identity);
    ids.lemma_multiset_has_no_duplicates();
    edges.map_values(identity).lemma_multiset_has_no_duplicates_conv();
    if 0 <= i < j < edges.len() {
        assert(edges.map_values(identity)[i] == edge_identity(edges[i]));
        assert(edges.map_values(identity)[j] == edge_identity(edges[j]));
    }
}

/// A flow that is taken in never lowers a count, and widens the time in which its edge was seen
/// to hold its own.
pub proof fn lemma_flow_adds_up(seen: DependencyEdgeAggView, record: TetragonDependencyRecordView)
    ensures
        seen_with(seen, record).bytes >= seen.bytes,
        seen_with(seen, record).packets >= seen.packets,
        seen_with(seen, record).connections >= seen.connections,
        seen_with(seen, record).first_seen_unix_ms <= record.timestamp_unix_ms <= seen_with(
            seen,
            record,
        ).last_seen_unix_ms,
        seen_with(seen, record).first_seen_unix_ms <= seen.first_seen_unix_ms,
        seen.last_seen_unix_ms <= seen_with(seen, record).last_seen_unix_ms,
{
}

// --------------------------------------------------------- events that are put down

/// The flow that an event stands for.
pub open spec fn event_record(event: KprobeEventView, now_ms: u128) -> Option<TetragonDependencyRecordView> {
    match (tetragon::first_sock(event.args), probe_counts(event.function_name, Some(tetragon::sent_bytes(event.args) as u64))) {
        (Some(sock), Some(counts)) => Some(
            TetragonDependencyRecordView {
                src_ip: plain_ip(sock.saddr),
                dst_ip: plain_ip(sock.daddr),
                src_endpoint: None,
                dst_endpoint: None,
                protocol: plain_protocol(sock.protocol),
                destination_port: port_of(Some(sock.dport as u64)),
                bytes: counts.0,
                packets: counts.1,
                connections: counts.2,
                timestamp_unix_ms: tetragon::event_time(event, now_ms),
            },
        ),
        _ => None,
    }
}

proof fn lemma_pointer_texts()
    ensures
        "/"@ + "process_kprobe"@ == "/process_kprobe"@,
        "/"@ + "function_name"@ == "/function_name"@,
        "/"@ + "timestamp_unix_ms"@ == "/timestamp_unix_ms"@,
        "/"@ + "args"@ == "/args"@,
        "/args"@ + ("/"@ + text::decimal_of(0)) + ("/"@ + "sock_arg"@) == sock_pointer(0),
        "/args"@ + ("/"@ + text::decimal_of(1)) + ("/"@ + "int_arg"@) == "/args/1/int_arg"@,
        "/"@ + "saddr"@ == "/saddr"@,
        "/"@ + "daddr"@ == "/daddr"@,
        "/"@ + "protocol"@ == "/protocol"@,
        "/"@ + "dport"@ == "/dport"@,
        !"/process_kprobe"@.contains('~') && !"/function_name"@.contains('~') && !"/timestamp_unix_ms"@.contains('~'),
        !"/args"@.contains('~') && !"/args/1/int_arg"@.contains('~') && !sock_pointer(0).contains('~'),
        !"/saddr"@.contains('~') && !"/daddr"@.contains('~') && !"/protocol"@.contains('~') && !"/dport"@.contains('~'),
{
    reveal_strlit("/");
    reveal_strlit("process_kprobe");
    reveal_strlit("/process_kprobe");
    reveal_strlit("function_name");
    reveal_strlit("/function_name");
    reveal_strlit("timestamp_unix_ms");
    reveal_strlit("/timestamp_unix_ms");
    reveal_strlit("args");
    reveal_strlit("/args");
    reveal_strlit("/args/");
    reveal_strlit("sock_arg");
    reveal_strlit("/sock_arg");
    reveal_strlit("int_arg");
    reveal_strlit("/args/1/int_arg");
    reveal_strlit("saddr");
    reveal_strlit("/saddr");
    reveal_strlit("daddr");
    reveal_strlit("/daddr");
    reveal_strlit("protocol");
    reveal_strlit("/protocol");
    reveal_strlit("dport");
    reveal_strlit("/dport");
    assert("/"@ + "process_kprobe"@ =~= "/process_kprobe"@);
    assert("/"@ + "function_name"@ =~= "/function_name"@);
    assert("/"@ + "timestamp_unix_ms"@ =~= "/timestamp_unix_ms"@);
    assert("/"@ + "args"@ =~= "/args"@);
    assert("/args"@ + ("/"@ + text::decimal_of(0)) + ("/"@ + "sock_arg"@) =~= sock_pointer(0));
    assert("/args"@ + ("/"@ + text::decimal_of(1)) + ("/"@ + "int_arg"@) =~= "/args/1/int_arg"@);
    assert("/"@ + "saddr"@ =~= "/saddr"@);
    assert("/"@ + "daddr"@ =~= "/daddr"@);
    assert("/"@ + "protocol"@ =~= "/protocol"@);
    assert("/"@ + "dport"@ =~= "/dport"@);
}

/// Nothing of the record of a flow stands in a document with a call alone.
proof fn lemma_no_source(contents: Map<Seq<char>, JsonNode>)
    requires
        forall|p: Seq<char>| #[trigger]
            contents.contains_key(p) && p.len() > 0 ==> json_value::at_or_below(p, "/process_kprobe"@),
    ensures
        first_text(contents, seq!["/src_ip"@, "/flow/src_ip"@, "/flow/ip/source"@]) is None,
{
    reveal_strlit("/process_kprobe");
    reveal_strlit("/src_ip");
    reveal_strlit("/flow/src_ip");
    reveal_strlit("/flow/ip/source");
    reveal_strlit("/");
    assert("/src_ip"@.len() == 7 && "/flow/src_ip"@.len() == 12 && "/flow/ip/source"@.len() == 15);
    assert("/process_kprobe"@.len() == 15);
    assert("/flow/ip/source"@[1] != "/process_kprobe"@[1]);
    assert(!contents.contains_key("/src_ip"@));
    assert(!contents.contains_key("/flow/src_ip"@));
    assert(!contents.contains_key("/flow/ip/source"@));
    let all = seq!["/src_ip"@, "/flow/src_ip"@, "/flow/ip/source"@];
    assert(all.drop_first() =~= seq!["/flow/src_ip"@, "/flow/ip/source"@]);
    assert(all.drop_first().drop_first() =~= seq!["/flow/ip/source"@]);
    assert(all.drop_first().drop_first().drop_first() =~= seq![]);
    reveal_with_fuel(first_text, 4);
}

proof fn lemma_part_is_leaf(contents: Map<Seq<char>, JsonNode>, place: Seq<char>, node: JsonNode)
    requires
        json_value::below(contents, place) == json_value::leaf(node),
        !place.contains('~'),
    ensures
        json_value::node_at(contents, place) == Some(node),
{
    json_value::lemma_part_root(contents, place);
}

proof fn lemma_sock_texts(contents: Map<Seq<char>, JsonNode>, sock: SockArgumentView)
    requires
        json_value::below(contents, "/saddr"@) == json_value::leaf(JsonNode::Text(sock.saddr)),
        json_value::below(contents, "/daddr"@) == json_value::leaf(JsonNode::Text(sock.daddr)),
        json_value::below(contents, "/protocol"@) == json_value::leaf(JsonNode::Text(sock.protocol)),
        json_value::below(contents, "/dport"@) == json_value::leaf(JsonNode::Unsigned(sock.dport as u64)),
    ensures
        first_text(contents, seq!["/saddr"@, "/src_ip"@]) == Some(sock.saddr),
        first_text(contents, seq!["/daddr"@, "/dst_ip"@]) == Some(sock.daddr),
        first_text(contents, seq!["/protocol"@]) == Some(sock.protocol),
        first_unsigned(contents, seq!["/dport"@]) == Some(sock.dport as u64),
{
    lemma_pointer_texts();
    lemma_part_is_leaf(contents, "/saddr"@, JsonNode::Text(sock.saddr));
    lemma_part_is_leaf(contents, "/daddr"@, JsonNode::Text(sock.daddr));
    lemma_part_is_leaf(contents, "/protocol"@, JsonNode::Text(sock.protocol));
    lemma_part_is_leaf(contents, "/dport"@, JsonNode::Unsigned(sock.dport as u64));
    assert(seq!["/saddr"@, "/src_ip"@][0] == "/saddr"@);
    assert(seq!["/daddr"@, "/dst_ip"@][0] == "/daddr"@);
    assert(seq!["/protocol"@][0] == "/protocol"@);
    assert(seq!["/dport"@][0] == "/dport"@);
}

proof fn lemma_call_texts(contents: Map<Seq<char>, JsonNode>, function_name: Seq<char>, at: u64)
    requires
        json_value::below(contents, "/function_name"@) == json_value::leaf(JsonNode::Text(function_name)),
        json_value::below(contents, "/timestamp_unix_ms"@) == json_value::leaf(JsonNode::Unsigned(at)),
    ensures
        json_value::text_in(contents, "/function_name"@) == Some(function_name),
        first_number(contents, timestamp_pointers()) == Some(at as u128),
{
    lemma_pointer_texts();
    lemma_part_is_leaf(contents, "/function_name"@, JsonNode::Text(function_name));
    lemma_part_is_leaf(contents, "/timestamp_unix_ms"@, JsonNode::Unsigned(at));
    assert(timestamp_pointers()[0] == "/timestamp_unix_ms"@);
}

proof fn lemma_arguments_read_back(event: KprobeEventView, now_ms: u128)
    requires
        tetragon::is_put_down(event),
    ensures
        ({
            let call = tetragon::call_contents(event, now_ms);
            &&& json_value::array_len_in(call, "/args"@) == Some(tetragon::argument_contents(event).len())
            &&& json_value::node_at(call, sock_pointer(0)) is Some
            &&& json_value::below(call, sock_pointer(0)) == tetragon::sock_contents(tetragon::first_sock(event.args)->0)
            &&& event.function_name == "tcp_sendmsg"@ ==> json_value::unsigned_in(call, "/args/1/int_arg"@) == Some(
                tetragon::sent_bytes(event.args) as u64,
            )
        }),
{
    tetragon::lemma_event_parts(event, now_ms);
    lemma_pointer_texts();
    reveal_strlit("/");
    let call = tetragon::call_contents(event, now_ms);
    json_value::lemma_part_root(call, "/args"@);
    json_value::lemma_below_below(call, "/args"@, "/"@ + text::decimal_of(0));
    json_value::lemma_below_below(call, "/args"@ + ("/"@ + text::decimal_of(0)), "/"@ + "sock_arg"@);
    json_value::lemma_part_root(call, sock_pointer(0));
    if event.function_name == "tcp_sendmsg"@ {
        json_value::lemma_below_below(call, "/args"@, "/"@ + text::decimal_of(1));
        json_value::lemma_below_below(call, "/args"@ + ("/"@ + text::decimal_of(1)), "/"@ + "int_arg"@);
        json_value::lemma_part_root(call, "/args/1/int_arg"@);
    }
}

proof fn lemma_document_reads_back(event: KprobeEventView, now_ms: u128, later_ms: u128)
    requires
        tetragon::is_put_down(event),
    ensures
        record_of(tetragon::event_contents(event, now_ms)->0, later_ms) == probe_record(tetragon::call_contents(event, now_ms), later_ms),
{
    tetragon::lemma_event_parts(event, now_ms);
    lemma_pointer_texts();
    let document = tetragon::event_contents(event, now_ms)->0;
    lemma_no_source(document);
    json_value::lemma_part_root(document, "/process_kprobe"@);
}

/// An event that was put down and is read again gives the flow that the event stands for.
pub proof fn lemma_event_reads_back(event: KprobeEventView, now_ms: u128, later_ms: u128)
    requires
        tetragon::has_time(event, now_ms),
    ensures
        tetragon::event_contents(event, now_ms) is Some <==> event_record(event, now_ms) is Some,
        tetragon::event_contents(event, now_ms) matches Some(contents) ==> record_of(contents, later_ms) == event_record(
            event,
            now_ms,
        ),
{
    if tetragon::is_put_down(event) {
        lemma_document_reads_back(event, now_ms, later_ms);
        tetragon::lemma_event_parts(event, now_ms);
        lemma_pointer_texts();
        lemma_call_texts(tetragon::call_contents(event, now_ms), event.function_name, tetragon::event_time(event, now_ms) as u64);
        lemma_arguments_read_back(event, now_ms);
        lemma_sock_texts(tetragon::sock_contents(tetragon::first_sock(event.args)->0), tetragon::first_sock(event.args)->0);
        assert(sock_argument(tetragon::call_contents(event, now_ms), 0, tetragon::argument_contents(event).len() as int) == Some(0int));
    }
}

// ------------------------------------------------------------- what it is for

/// A service can be reached at an address: it has a cluster IP that is neither empty nor the word
/// that headless services have there.
pub open spec fn is_reached_at(service: ServiceView, ip: Seq<char>) -> bool {
    service.spec matches Some(spec) && spec.cluster_ip == Some(ip) && ip.len() > 0 && ip != "None"@
}

/// A pod can be reached at an address: its status names it, and it is not empty.
pub open spec fn pod_is_reached_at(pod: PodView, ip: Seq<char>) -> bool {
    pod.status matches Some(status) && status.pod_ip == Some(ip) && ip.len() > 0
}

/// The index of services holds each service that can be reached, under its address and with its
/// namespace and name, and no others.
pub proof fn lemma_service_index(services: Seq<ServiceView>)
    ensures
        ({
            let index = services.filter_map(|s: ServiceView| service_address(s));
            &&& forall|i: int, ip: Seq<char>|
                0 <= i < services.len() && #[trigger] is_reached_at(services[i], ip) ==> exists|k: int|
                    0 <= k < index.len() && (#[trigger] index[k]).ip == ip && (services[i].metadata.namespace matches Some(
                        n,
                    ) ==> index[k].namespace == n) && (services[i].metadata.name matches Some(n) ==> index[k].service_name
                        == n)
            &&& forall|k: int|
                0 <= k < index.len() ==> exists|i: int|
                    0 <= i < services.len() && is_reached_at(#[trigger] services[i], (#[trigger] index[k]).ip) && (
                    services[i].metadata.namespace matches Some(n) ==> index[k].namespace == n) && (
                    services[i].metadata.name matches Some(n) ==> index[k].service_name == n)
        }),
{
    let f = |s: ServiceView| service_address(s);
    let index = services.filter_map(f);
    assert forall|i: int, ip: Seq<char>| 0 <= i < services.len() && #[trigger] is_reached_at(services[i], ip) implies exists|
        k: int,
    |
        0 <= k < index.len() && (#[trigger] index[k]).ip == ip && (services[i].metadata.namespace matches Some(n)
            ==> index[k].namespace == n) && (services[i].metadata.name matches Some(n) ==> index[k].service_name == n) by {
        views::lemma_filter_map_has(services, f, i);
        let k = choose|k: int| 0 <= k < index.len() && index[k] == f(services[i])->0;
        assert(index[k].ip == ip);
    }
    assert forall|k: int| 0 <= k < index.len() implies exists|i: int|
        0 <= i < services.len() && is_reached_at(#[trigger] services[i], (#[trigger] index[k]).ip) && (
        services[i].metadata.namespace matches Some(n) ==> index[k].namespace == n) && (
        services[i].metadata.name matches Some(n) ==> index[k].service_name == n) by {
        assert(index.contains(index[k]));
        services.lemma_filter_map_contains(f, index[k]);
        let s = choose|s: ServiceView| #[trigger] services.contains(s) && f(s) == Some(index[k]);
        let i = choose|i: int| 0 <= i < services.len() && services[i] == s;
        assert(is_reached_at(services[i], index[k].ip));
    }
}

/// The index of pods holds each pod that can be reached, under its address and with its namespace,
/// its name and its first owner, and no others.
pub proof fn lemma_pod_index(pods: Seq<PodView>)
    ensures
        ({
            let index = pods.filter_map(|p: PodView| pod_address(p));
            &&& forall|i: int, ip: Seq<char>|
                0 <= i < pods.len() && #[trigger] pod_is_reached_at(pods[i], ip) ==> exists|k: int|
                    0 <= k < index.len() && (#[trigger] index[k]).ip == ip && is_entry_of(index[k], pods[i])
            &&& forall|k: int|
                0 <= k < index.len() ==> exists|i: int|
                    0 <= i < pods.len() && pod_is_reached_at(#[trigger] pods[i], (#[trigger] index[k]).ip)
                        && is_entry_of(index[k], pods[i])
        }),
{
    let f = |p: PodView| pod_address(p);
    let index = pods.filter_map(f);
    assert forall|i: int, ip: Seq<char>| 0 <= i < pods.len() && #[trigger] pod_is_reached_at(pods[i], ip) implies exists|
        k: int,
    | 0 <= k < index.len() && (#[trigger] index[k]).ip == ip && is_entry_of(index[k], pods[i]) by {
        views::lemma_filter_map_has(pods, f, i);
        let k = choose|k: int| 0 <= k < index.len() && index[k] == f(pods[i])->0;
        assert(index[k].ip == ip && is_entry_of(index[k], pods[i]));
    }
    assert forall|k: int| 0 <= k < index.len() implies exists|i: int|
        0 <= i < pods.len() && pod_is_reached_at(#[trigger] pods[i], (#[trigger] index[k]).ip) && is_entry_of(
            index[k],
            pods[i],
        ) by {
        assert(index.contains(index[k]));
        pods.lemma_filter_map_contains(f, index[k]);
        let p = choose|p: PodView| #[trigger] pods.contains(p) && f(p) == Some(index[k]);
        let i = choose|i: int| 0 <= i < pods.len() && pods[i] == p;
        assert(pod_is_reached_at(pods[i], index[k].ip) && is_entry_of(index[k], pods[i]));
    }
}

/// An entry of the index of pods tells of a pod its namespace, its name and its first owner.
pub open spec fn is_entry_of(entry: PodIpInfoView, pod: PodView) -> bool {
    &&& pod.metadata.namespace matches Some(n) ==> entry.namespace == n
    &&& pod.metadata.name matches Some(n) ==> entry.pod_name == n
    &&& if pod.metadata.owner_references is Some && pod.metadata.owner_references->0.len() > 0 {
        entry.workload_kind == Some(pod.metadata.owner_references->0[0].kind) && entry.workload_name == Some(
            pod.metadata.owner_references->0[0].name,
        )
    } else {
        entry.workload_kind is None && entry.workload_name is None
    }
}

proof fn lemma_found_by_address(pods: Seq<PodIpInfoView>, services: Seq<ServiceIpInfoView>, ip: Seq<char>)
    ensures
        pod_at(pods, ip) is Some <==> exists|i: int| 0 <= i < pods.len() && (#[trigger] pods[i]).ip == ip,
        pod_at(pods, ip) matches Some(p) ==> pods.contains(p) && p.ip == ip,
        service_at(services, ip) is Some <==> exists|i: int| 0 <= i < services.len() && (#[trigger] services[i]).ip == ip,
        service_at(services, ip) matches Some(s) ==> services.contains(s) && s.ip == ip,
    decreases pods.len() + services.len(),
{
    if pods.len() > 0 {
        let rest = pods.drop_last();
        lemma_found_by_address(rest, services, ip);
        assert(pods[pods.len() - 1] == pods.last());
        if pods.last().ip != ip {
            if exists|i: int| 0 <= i < pods.len() && (#[trigger] pods[i]).ip == ip {
                let i = choose|i: int| 0 <= i < pods.len() && (#[trigger] pods[i]).ip == ip;
                assert(rest[i] == pods[i]);
            }
            if let Some(p) = pod_at(rest, ip) {
                let i = choose|i: int| 0 <= i < rest.len() && rest[i] == p;
                assert(pods[i] == p);
            }
        }
    }
    if services.len() > 0 {
        let rest = services.drop_last();
        lemma_found_by_address(pods, rest, ip);
        assert(services[services.len() - 1] == services.last());
        if services.last().ip != ip {
            if exists|i: int| 0 <= i < services.len() && (#[trigger] services[i]).ip == ip {
                let i = choose|i: int| 0 <= i < services.len() && (#[trigger] services[i]).ip == ip;
                assert(rest[i] == services[i]);
            }
            if let Some(s) = service_at(rest, ip) {
                let i = choose|i: int| 0 <= i < rest.len() && rest[i] == s;
                assert(services[i] == s);
            }
        }
    }
}

/// An address leads to a pod that has it; to a service that has it where no pod does; to what the
/// flow itself tells where neither does; and else to nothing that is known. The address is kept.
pub proof fn lemma_endpoint_by_address(
    ip: Seq<char>,
    hint: Option<DependencyEndpointHintView>,
    pods: Seq<PodIpInfoView>,
    services: Seq<ServiceIpInfoView>,
)
    ensures
        ({
            let endpoint = endpoint_at(ip, hint, pods, services);
            let a_pod = exists|i: int| 0 <= i < pods.len() && (#[trigger] pods[i]).ip == ip;
            let a_service = exists|i: int| 0 <= i < services.len() && (#[trigger] services[i]).ip == ip;
            let told = hint matches Some(h) && (h.namespace is Some || h.pod_name is Some || h.workload_kind is Some
                || h.workload_name is Some);
            &&& endpoint.ip == Some(ip)
            &&& a_pod ==> endpoint.kind == "pod"@ && exists|i: int|
                0 <= i < pods.len() && (#[trigger] pods[i]).ip == ip && endpoint.namespace == Some(pods[i].namespace)
                    && endpoint.name == Some(pods[i].pod_name) && endpoint.workload_kind == pods[i].workload_kind
                    && endpoint.workload_name == pods[i].workload_name
            &&& !a_pod && a_service ==> endpoint.kind == "service"@ && endpoint.workload_kind is None
                && endpoint.workload_name is None && exists|i: int|
                0 <= i < services.len() && (#[trigger] services[i]).ip == ip && endpoint.namespace == Some(
                    services[i].namespace,
                ) && endpoint.name == Some(services[i].service_name)
            &&& !a_pod && !a_service && told ==> endpoint.kind == "pod"@ && endpoint.namespace == hint->0.namespace
                && endpoint.name == hint->0.pod_name && endpoint.workload_kind == hint->0.workload_kind
                && endpoint.workload_name == hint->0.workload_name
            &&& !a_pod && !a_service && !told ==> endpoint.kind == "unknown"@ && endpoint.namespace is None
                && endpoint.name is None && endpoint.workload_kind is None && endpoint.workload_name is None
        }),
{
    lemma_found_by_address(pods, services, ip);
    if let Some(p) = pod_at(pods, ip) {
        let i = choose|i: int| 0 <= i < pods.len() && pods[i] == p;
        assert(pods[i].ip == ip);
    } else if let Some(s) = service_at(services, ip) {
        let i = choose|i: int| 0 <= i < services.len() && services[i] == s;
        assert(services[i].ip == ip);
    }
}

proof fn lemma_pod_is_indexed(pods: Seq<PodView>, ip: Seq<char>)
    ensures
        ({
            let index = pods.filter_map(|p: PodView| pod_address(p));
            (exists|k: int| 0 <= k < index.len() && (#[trigger] index[k]).ip == ip) <==> exists|i: int|
                0 <= i < pods.len() && pod_is_reached_at(#[trigger] pods[i], ip)
        }),
{
    let index = pods.filter_map(|p: PodView| pod_address(p));
    lemma_pod_index(pods);
    if exists|k: int| 0 <= k < index.len() && (#[trigger] index[k]).ip == ip {
        let k = choose|k: int| 0 <= k < index.len() && (#[trigger] index[k]).ip == ip;
        let i = choose|i: int|
            0 <= i < pods.len() && pod_is_reached_at(#[trigger] pods[i], index[k].ip) && is_entry_of(index[k], pods[i]);
        assert(pod_is_reached_at(pods[i], ip));
    }
    if exists|i: int| 0 <= i < pods.len() && pod_is_reached_at(#[trigger] pods[i], ip) {
        let i = choose|i: int| 0 <= i < pods.len() && pod_is_reached_at(#[trigger] pods[i], ip);
        assert(pod_is_reached_at(pods[i], ip));
    }
}

proof fn lemma_service_is_indexed(services: Seq<ServiceView>, ip: Seq<char>)
    ensures
        ({
            let index = services.filter_map(|s: ServiceView| service_address(s));
            (exists|k: int| 0 <= k < index.len() && (#[trigger] index[k]).ip == ip) <==> exists|i: int|
                0 <= i < services.len() && is_reached_at(#[trigger] services[i], ip)
        }),
{
    let index = services.filter_map(|s: ServiceView| service_address(s));
    lemma_service_index(services);
    if exists|k: int| 0 <= k < index.len() && (#[trigger] index[k]).ip == ip {
        let k = choose|k: int| 0 <= k < index.len() && (#[trigger] index[k]).ip == ip;
        let i = choose|i: int|
            0 <= i < services.len() && is_reached_at(#[trigger] services[i], index[k].ip) && (
            services[i].metadata.namespace matches Some(n) ==> index[k].namespace == n) && (
            services[i].metadata.name matches Some(n) ==> index[k].service_name == n);
        assert(is_reached_at(services[i], ip));
    }
    if exists|i: int| 0 <= i < services.len() && is_reached_at(#[trigger] services[i], ip) {
        let i = choose|i: int| 0 <= i < services.len() && is_reached_at(#[trigger] services[i], ip);
        assert(is_reached_at(services[i], ip));
    }
}

/// A flow to the cluster IP of a listed service, which no listed pod has, ends at an endpoint of
/// kind service; one to the address of a listed pod ends at an endpoint of kind pod; and any other
/// at one that is not known.
pub proof fn lemma_flow_finds_its_service(pods: Seq<PodView>, services: Seq<ServiceView>, ip: Seq<char>)
    ensures
        ({
            let endpoint = endpoint_at(
                ip,
                None,
                pods.filter_map(|p: PodView| pod_address(p)),
                services.filter_map(|s: ServiceView| service_address(s)),
            );
            let a_pod = exists|i: int| 0 <= i < pods.len() && pod_is_reached_at(#[trigger] pods[i], ip);
            let a_service = exists|i: int| 0 <= i < services.len() && is_reached_at(#[trigger] services[i], ip);
            &&& a_pod ==> endpoint.kind == "pod"@
            &&& !a_pod && a_service ==> endpoint.kind == "service"@
            &&& !a_pod && !a_service ==> endpoint.kind == "unknown"@
        }),
{
    lemma_pod_is_indexed(pods, ip);
    lemma_service_is_indexed(services, ip);
    lemma_endpoint_by_address(
        ip,
        None,
        pods.filter_map(|p: PodView| pod_address(p)),
        services.filter_map(|s: ServiceView| service_address(s)),
    );
}

/// An address in the form of IPv6 that stands for one of IPv4 is that one, and any other is left as
/// it is. A port is the number that it is, where it is one; the name of a protocol loses at most the
/// kernel's prefix.
pub proof fn lemma_addresses_are_plain(ip: Seq<char>, protocol: Seq<char>, port: u64)
    ensures
        plain_ip("::ffff:"@ + ip) == ip,
        plain_ip(ip) == ip || ip == "::ffff:"@ + plain_ip(ip),
        text::has_prefix(ip, "::ffff:"@) ==> plain_ip(ip).len() < ip.len(),
        port < 65536 ==> port_of(Some(port)) == port,
        port_of(None) == 0,
        plain_protocol(protocol) == text::lowercase(text::trimmed(protocol)) && !text::has_prefix(
            text::lowercase(text::trimmed(protocol)),
            "ipproto_"@,
        ) || "ipproto_"@ + plain_protocol(protocol) == text::lowercase(text::trimmed(protocol)),
{
    reveal_strlit("::ffff:");
    let long = "::ffff:"@ + ip;
    assert(long.subrange(0, 7) =~= "::ffff:"@);
    assert(long.subrange(7, long.len() as int) =~= ip);
    if text::has_prefix(ip, "::ffff:"@) {
        assert(ip =~= "::ffff:"@ + plain_ip(ip));
    }
    let name = text::lowercase(text::trimmed(protocol));
    if text::has_prefix(name, "ipproto_"@) {
        assert(name =~= "ipproto_"@ + plain_protocol(protocol));
    }
}

/// A summary of a flow is read with its own addresses, port, counts and time; without an address
/// for both ends there is none, and a flow that does not count its connections is one.
pub proof fn lemma_flow_is_read(c: Map<Seq<char>, JsonNode>, now_ms: u128)
    ensures
        json_value::text_in(c, "/src_ip"@) is Some && json_value::text_in(c, "/dst_ip"@) is Some ==> (flow_record(c, now_ms) matches Some(r) && {
            &&& r.src_ip == plain_ip(json_value::text_in(c, "/src_ip"@)->0)
            &&& r.dst_ip == plain_ip(json_value::text_in(c, "/dst_ip"@)->0)
            &&& json_value::text_in(c, "/protocol"@) matches Some(p) ==> r.protocol == plain_protocol(p)
            &&& json_value::unsigned_in(c, "/destination_port"@) matches Some(n) ==> n < 65536 ==> r.destination_port == n
            &&& json_value::unsigned_in(c, "/bytes"@) matches Some(n) ==> r.bytes == n
            &&& json_value::unsigned_in(c, "/packets"@) matches Some(n) ==> r.packets == n
            &&& json_value::unsigned_in(c, "/connections"@) matches Some(n) ==> r.connections == n
            &&& json_value::unsigned_in(c, "/timestamp_unix_ms"@) matches Some(n) ==> r.timestamp_unix_ms == n
            &&& json_value::unsigned_in(c, "/bytes"@) is None && json_value::unsigned_in(c, "/flow/bytes"@) is None && json_value::unsigned_in(
                c,
                "/summary/bytes"@,
            ) is None ==> r.bytes == 0
            &&& json_value::unsigned_in(c, "/connections"@) is None && json_value::unsigned_in(c, "/flow/connections"@) is None && json_value::unsigned_in(
                c,
                "/summary/connections"@,
            ) is None ==> r.connections == 1
            &&& r.src_endpoint is None && r.dst_endpoint is None
        }),
        json_value::text_in(c, "/src_ip"@) is None && json_value::text_in(c, "/flow/src_ip"@) is None && json_value::text_in(c, "/flow/ip/source"@) is None
            ==> flow_record(c, now_ms) is None,
        json_value::text_in(c, "/dst_ip"@) is None && json_value::text_in(c, "/flow/dst_ip"@) is None && json_value::text_in(c, "/flow/ip/destination"@) is None
            ==> flow_record(c, now_ms) is None,
        flow_record(c, now_ms) is Some ==> record_of(c, now_ms) == flow_record(c, now_ms),
{
    reveal_with_fuel(first_text, 4);
    reveal_with_fuel(first_unsigned, 4);
    lemma_three_pointers("/src_ip"@, "/flow/src_ip"@, "/flow/ip/source"@);
    lemma_three_pointers("/dst_ip"@, "/flow/dst_ip"@, "/flow/ip/destination"@);
    lemma_three_pointers("/bytes"@, "/flow/bytes"@, "/summary/bytes"@);
    lemma_three_pointers("/packets"@, "/flow/packets"@, "/summary/packets"@);
    lemma_three_pointers("/connections"@, "/flow/connections"@, "/summary/connections"@);
    assert(timestamp_pointers()[0] == "/timestamp_unix_ms"@);
    assert(seq!["/protocol"@, "/flow/protocol"@][0] == "/protocol"@);
    assert(seq!["/destination_port"@, "/dst_port"@, "/flow/dst_port"@, "/flow/l4/dst_port"@][0]
        == "/destination_port"@);
}

proof fn lemma_three_pointers(a: Seq<char>, b: Seq<char>, d: Seq<char>)
    ensures
        seq![a, b, d][0] == a,
        seq![a, b, d].drop_first() == seq![b, d],
        seq![b, d][0] == b,
        seq![b, d].drop_first() == seq![d],
        seq![d][0] == d,
        seq![d].drop_first() == Seq::<Seq<char>>::empty(),
{
    assert(seq![a, b, d].drop_first() =~= seq![b, d]);
    assert(seq![b, d].drop_first() =~= seq![d]);
    assert(seq![d].drop_first() =~= Seq::<Seq<char>>::empty());
}

/// A call that sends counts as a packet with its bytes, one that closes as a connection, and no
/// other call counts.
pub proof fn lemma_calls_are_counted(function_name: Seq<char>, sent: u64)
    ensures
        probe_counts("tcp_sendmsg"@, Some(sent)) == Some((sent, 1u64, 0u64)),
        probe_counts("tcp_close"@, Some(sent)) == Some((0u64, 0u64, 1u64)),
        function_name != "tcp_sendmsg"@ && function_name != "tcp_close"@ ==> probe_counts(function_name, Some(sent)) is None,
{
    reveal_strlit("tcp_sendmsg");
    reveal_strlit("tcp_close");
    assert("tcp_sendmsg"@.len() != "tcp_close"@.len());
}

/// Flows of one edge are added up: their counts are summed as far as they can be, and the time in
/// which the edge was seen is that of the earliest and that of the latest of them.
pub proof fn lemma_flows_are_summed(seen: DependencyEdgeAggView, record: TetragonDependencyRecordView)
    ensures
        ({
            let both = seen_with(seen, record);
            &&& seen.bytes + record.bytes <= u64::MAX ==> both.bytes == seen.bytes + record.bytes
            &&& seen.packets + record.packets <= u64::MAX ==> both.packets == seen.packets + record.packets
            &&& seen.connections + record.connections <= u64::MAX ==> both.connections == seen.connections
                + record.connections
            &&& seen.bytes + record.bytes > u64::MAX ==> both.bytes == u64::MAX
            &&& both.first_seen_unix_ms == seen.first_seen_unix_ms || both.first_seen_unix_ms
                == record.timestamp_unix_ms
            &&& both.last_seen_unix_ms == seen.last_seen_unix_ms || both.last_seen_unix_ms == record.timestamp_unix_ms
        }),
        ({
            let one = seen_first(record);
            one.bytes == record.bytes && one.packets == record.packets && one.connections == record.connections
                && one.first_seen_unix_ms == record.timestamp_unix_ms && one.last_seen_unix_ms == record.timestamp_unix_ms
        }),
{
}

/// A flow is added to the edge that it belongs to and to no other. Where there is none yet, it
/// begins one with its own ends; unless there are two thousand edges, or its source leads to two
/// hundred other targets: then it is left out and counted.
pub proof fn lemma_flow_finds_its_edge(
    aggregate: DependencyAggregateView,
    from: DependencyEndpointView,
    to: DependencyEndpointView,
    record: TetragonDependencyRecordView,
)
    ensures
        ({
            let after = with_flow(aggregate, from, to, record);
            let key = flow_key(from, to, record);
            let known = exists|i: int| 0 <= i < aggregate.entries.len() && (#[trigger] aggregate.entries[i]).key == key;
            let targets = targets_of(aggregate.entries, key.from);
            let begins = !known && aggregate.entries.len() < 2000 && (targets.len() < 200 || targets.contains(key.to));
            &&& known ==> after.entries.len() == aggregate.entries.len() && exists|i: int|
                0 <= i < aggregate.entries.len() && (#[trigger] aggregate.entries[i]).key == key && after.entries[i]
                    == (DependencyEntryView { seen: seen_with(aggregate.entries[i].seen, record), ..aggregate.entries[i] })
                    && forall|j: int|
                    0 <= j < aggregate.entries.len() && j != i ==> after.entries[j] == #[trigger] aggregate.entries[j]
            &&& begins ==> after.entries == aggregate.entries.push(
                DependencyEntryView { key, from, to, seen: seen_first(record) },
            )
            &&& !known && !begins ==> after.entries == aggregate.entries
            &&& known || begins ==> after.dropped_edges == aggregate.dropped_edges && after.skipped_for_fanout
                == aggregate.skipped_for_fanout
            &&& !known && aggregate.entries.len() >= 2000 && aggregate.dropped_edges < u64::MAX ==> after.dropped_edges
                == aggregate.dropped_edges + 1
            &&& !known && !begins && aggregate.entries.len() < 2000 && aggregate.skipped_for_fanout < u64::MAX
                ==> after.skipped_for_fanout == aggregate.skipped_for_fanout + 1
            &&& after.parse_failures == aggregate.parse_failures && after.dropped_for_line_cap
                == aggregate.dropped_for_line_cap
        }),
{
    let key = flow_key(from, to, record);
    lemma_entry_is_found(aggregate.entries, key);
    if let Some(i) = entry_place(aggregate.entries, key) {
        assert(aggregate.entries[i].key == key);
    }
}

proof fn lemma_entry_is_found(entries: Seq<DependencyEntryView>, key: DependencyEdgeKeyView)
    ensures
        entry_place(entries, key) is Some <==> exists|i: int| 0 <= i < entries.len() && (#[trigger] entries[i]).key == key,
        entry_place(entries, key) matches Some(i) ==> 0 <= i < entries.len() && entries[i].key == key,
    decreases entries.len(),
{
    if entries.len() > 0 {
        let rest = entries.drop_last();
        lemma_entry_is_found(rest, key);
        assert(entries[entries.len() - 1] == entries.last());
        if entries.last().key != key && exists|i: int| 0 <= i < entries.len() && (#[trigger] entries[i]).key == key {
            let i = choose|i: int| 0 <= i < entries.len() && (#[trigger] entries[i]).key == key;
            assert(rest[i] == entries[i]);
        }
    }
}

/// What tells an edge apart is where it comes from and goes to, its protocol and its port; it always
/// leads out.
pub proof fn lemma_edges_are_told_apart(
    from: DependencyEndpointView,
    to: DependencyEndpointView,
    a: TetragonDependencyRecordView,
    b: TetragonDependencyRecordView,
    other: DependencyEndpointView,
)
    ensures
        flow_key(from, to, a).destination_port == a.destination_port,
        flow_key(from, to, a).direction == "egress"@,
        flow_key(from, to, a).protocol == text::uppercase(a.protocol),
        a.destination_port != b.destination_port ==> flow_key(from, to, a) != flow_key(from, to, b),
        text::uppercase(a.protocol) != text::uppercase(b.protocol) ==> flow_key(from, to, a) != flow_key(from, to, b),
        a.destination_port == b.destination_port && a.protocol == b.protocol ==> flow_key(from, to, a) == flow_key(
            from,
            to,
            b,
        ),
        from.ip != other.ip ==> flow_key(from, to, a) != flow_key(other, to, a) && flow_key(to, from, a) != flow_key(
            to,
            other,
            a,
        ),
        text::lowercase(from.kind) != text::lowercase(other.kind) ==> flow_key(from, to, a) != flow_key(other, to, a) && flow_key(
            to,
            from,
            a,
        ) != flow_key(to, other, a),
{
}

/// A line beyond the twenty thousandth is left out, an empty one says nothing, and any other is
/// either a flow that is taken in between the ends that it names, or counted as unreadable.
pub proof fn lemma_lines_are_taken_in(
    aggregate: DependencyAggregateView,
    line_index: int,
    line: Seq<char>,
    pods: Seq<PodIpInfoView>,
    services: Seq<ServiceIpInfoView>,
    now_ms: u128,
)
    ensures
        ({
            let outcome = line_outcome(line_index, line, now_ms);
            let after = with_line(aggregate, outcome, pods, services);
            let record = if json_value::json_document(text::trimmed(line)) is Some {
                record_of(json_value::json_document(text::trimmed(line))->0, now_ms)
            } else {
                None
            };
            if line_index >= 20_000 {
                aggregate.dropped_for_line_cap < u64::MAX ==> after == (DependencyAggregateView {
                    dropped_for_line_cap: (aggregate.dropped_for_line_cap + 1) as u64,
                    ..aggregate
                })
            } else if text::trimmed(line).len() == 0 {
                after == aggregate
            } else if record is None {
                aggregate.parse_failures < u64::MAX ==> after == (DependencyAggregateView {
                    parse_failures: (aggregate.parse_failures + 1) as u64,
                    ..aggregate
                })
            } else {
                after == with_flow(
                    aggregate,
                    endpoint_at(record->0.src_ip, record->0.src_endpoint, pods, services),
                    endpoint_at(record->0.dst_ip, record->0.dst_endpoint, pods, services),
                    record->0,
                )
            }
        }),
{
}

/// A snapshot holds an edge for each entry of the window, with the ends and the counts of the entry,
/// and no others; it is marked as cut exactly where something was left out, and says how much.
pub proof fn lemma_snapshot_shows_the_window(aggregate: DependencyAggregateView, coverage: CoverageSnapshot)
    ensures
        ({
            let shown = collection_of(aggregate, coverage);
            let edges = shown.inventory.edges;
            &&& edges.len() == aggregate.entries.len()
            &&& forall|i: int|
                0 <= i < aggregate.entries.len() ==> exists|k: int|
                    0 <= k < edges.len() && is_edge_of(#[trigger] edges[k], #[trigger] aggregate.entries[i])
            &&& forall|k: int|
                0 <= k < edges.len() ==> exists|i: int|
                    0 <= i < aggregate.entries.len() && is_edge_of(#[trigger] edges[k], #[trigger] aggregate.entries[i])
            &&& forall|j: int, k: int|
                0 <= j <= k < edges.len() ==> order::text_le(
                    text::lowercase((#[trigger] edges[j]).from.kind),
                    text::lowercase((#[trigger] edges[k]).from.kind),
                )
            &&& shown.inventory.truncated <==> aggregate.dropped_edges > 0 || aggregate.dropped_for_line_cap > 0
                || aggregate.skipped_for_fanout > 0
            &&& aggregate.dropped_edges + aggregate.dropped_for_line_cap + aggregate.skipped_for_fanout <= u64::MAX
                ==> shown.inventory.dropped_edges == aggregate.dropped_edges + aggregate.dropped_for_line_cap
                + aggregate.skipped_for_fanout
            &&& shown.inventory.source == "tetragon_grpc"@
            &&& shown.inventory.window_seconds == 60
            &&& shown.parse_failures == aggregate.parse_failures
            &&& shown.inventory.observed_endpoints == coverage.observed_endpoints
            &&& shown.inventory.connected_endpoints == coverage.connected_endpoints
            &&& shown.inventory.unavailable_endpoints == coverage.unavailable_endpoints
        }),
        no_dependencies().inventory.edges.len() == 0,
        no_dependencies().inventory.source == "tetragon_grpc"@,
        !no_dependencies().inventory.truncated,
{
    broadcast use vstd::seq_lib::group_to_multiset_ensures;

    let entries = aggregate.entries;
    let edges = edges_of(entries);
    let edge = |e: DependencyEntryView| edge_of_entry(e);
    let images = entries.map_values(edge);
    lemma_edges_in_order(entries);
    assert(edges.len() == edges.to_multiset().len());
    assert(images.len() == images.to_multiset().len());
    assert forall|i: int| 0 <= i < entries.len() implies exists|k: int|
        0 <= k < edges.len() && is_edge_of(#[trigger] edges[k], #[trigger] entries[i]) by {
        assert(images.contains(images[i]));
        assert(edges.to_multiset().count(images[i]) > 0);
        assert(edges.contains(images[i]));
        let k = choose|k: int| 0 <= k < edges.len() && edges[k] == images[i];
        assert(is_edge_of(edges[k], entries[i]));
    }
    assert forall|k: int| 0 <= k < edges.len() implies exists|i: int|
        0 <= i < entries.len() && is_edge_of(#[trigger] edges[k], #[trigger] entries[i]) by {
        assert(edges.contains(edges[k]));
        assert(images.to_multiset().count(edges[k]) > 0);
        assert(images.contains(edges[k]));
        let i = choose|i: int| 0 <= i < images.len() && images[i] == edges[k];
        assert(is_edge_of(edges[k], entries[i]));
    }
    let le = |a: DependencyEdgeView, b: DependencyEdgeView| edge_le(a, b);
    assert forall|j: int, k: int| 0 <= j <= k < edges.len() implies order::text_le(
        text::lowercase((#[trigger] edges[j]).from.kind),
        text::lowercase((#[trigger] edges[k]).from.kind),
    ) by {
        order::lemma_text_le_reflexive(text::lowercase(edges[j].from.kind));
        if j < k {
            assert(le(edges[j], edges[k]));
            let a = edge_rank(edges[j]);
            let b = edge_rank(edges[k]);
            assert(edge_key_le(a, b));
        }
    }
}

/// An edge shows an entry of the window.
pub open spec fn is_edge_of(edge: DependencyEdgeView, entry: DependencyEntryView) -> bool {
    &&& edge.from == entry.from
    &&& edge.to == entry.to
    &&& edge.protocol == entry.key.protocol
    &&& edge.destination_port == entry.key.destination_port
    &&& edge.direction == entry.key.direction
    &&& edge.bytes == entry.seen.bytes
    &&& edge.packets == entry.seen.packets
    &&& edge.connections == entry.seen.connections
    &&& edge.first_seen_unix_ms == entry.seen.first_seen_unix_ms
    &&& edge.last_seen_unix_ms == entry.seen.last_seen_unix_ms
}

/// The targets that a source leads to are those of the edges that begin at it, each once.
pub proof fn lemma_targets_are_those_reached(entries: Seq<DependencyEntryView>, source: EndpointKeyView, to: EndpointKeyView)
    ensures
        targets_of(entries, source).contains(to) <==> exists|i: int|
            0 <= i < entries.len() && (#[trigger] entries[i]).key.from == source && entries[i].key.to == to,
        targets_of(entries, source).no_duplicates(),
    decreases entries.len(),
{
    if entries.len() > 0 {
        let rest = entries.drop_last();
        lemma_targets_are_those_reached(rest, source, to);
        lemma_targets_are_those_reached(rest, source, entries.last().key.to);
        let before = targets_of(rest, source);
        let after = targets_of(entries, source);
        assert(entries[entries.len() - 1] == entries.last());
        if exists|i: int|
            0 <= i < entries.len() && (#[trigger] entries[i]).key.from == source && entries[i].key.to == to {
            let i = choose|i: int|
                0 <= i < entries.len() && (#[trigger] entries[i]).key.from == source && entries[i].key.to == to;
            if i < rest.len() {
                assert(rest[i] == entries[i]);
            } else if !before.contains(to) {
                assert(after[before.len() as int] == to);
            }
            if before.contains(to) {
                let k = choose|k: int| 0 <= k < before.len() && before[k] == to;
                assert(after[k] == to);
            }
        }
        if after.contains(to) {
            let k = choose|k: int| 0 <= k < after.len() && after[k] == to;
            if k < before.len() {
                assert(before[k] == to);
                let i = choose|i: int|
                    0 <= i < rest.len() && (#[trigger] rest[i]).key.from == source && rest[i].key.to == to;
                assert(entries[i] == rest[i]);
            } else {
                assert(entries[entries.len() - 1].key.to == to);
            }
        }
    }
}

} // verus!
