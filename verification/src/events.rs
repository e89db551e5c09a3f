//! The events of the cluster: the most telling ones, with messages that are not too long.
use crate::model::{EventInfo, EventInfoView};
use crate::objects;
use crate::objects::{Event, EventView, meta_precedes, ObjectMetaView, Timestamp, TimestampView};
use crate::order;
use crate::order::{sort_in_order, str_eq};
use crate::text::{cut, owned, text2};
use crate::views;
use crate::views::{cut_list, DeepClone, map_items, opt_str};
use vstd::prelude::*;

verus! {

/// The most events that a snapshot holds.
pub const MAX_EVENTS: usize = 500;

/// The most characters that the message of an event has.
pub const MAX_EVENT_MESSAGE_CHARS: usize = 500;

/// How telling a type of event is.
pub open spec fn rank_of(kind: Option<Seq<char>>) -> u8 {
    if kind == Some("Warning"@) {
        1
    } else {
        0
    }
}

/// How telling a type of event is: warnings are, more than the others.
pub fn event_type_rank(kind: Option<&str>) -> (r: u8)
    ensures
        r == rank_of(kind.deep_view()),
{
    match kind {
        Some(kind) => if str_eq(kind, "Warning") {
            1
        } else {
            0
        },
        None => 0,
    }
}

/// The second of an event: of the event itself, or else when it was last seen, or else when it
/// was first seen.
pub open spec fn second_of(event: EventView) -> i64 {
    match (event.event_time, event.last_timestamp, event.first_timestamp) {
        (Some(time), _, _) => time.seconds,
        (None, Some(time), _) => time.seconds,
        (None, None, Some(time)) => time.seconds,
        (None, None, None) => 0,
    }
}

/// The second of an event.
pub fn event_sort_ts_seconds(event: &Event) -> (r: i64)
    ensures
        r == second_of(event.deep_view()),
{
    match (&event.event_time, &event.last_timestamp, &event.first_timestamp) {
        (Some(time), _, _) => time.seconds,
        (None, Some(time), _) => time.seconds,
        (None, None, Some(time)) => time.seconds,
        (None, None, None) => 0,
    }
}

/// One event may precede another: the more telling one first, then the later one, then by
/// namespace and name.
pub open spec fn event_le(a: EventView, b: EventView) -> bool {
    if rank_of(a.type_) != rank_of(b.type_) {
        rank_of(b.type_) < rank_of(a.type_)
    } else if second_of(a) != second_of(b) {
        second_of(b) < second_of(a)
    } else {
        objects::meta_le(a.metadata, b.metadata)
    }
}

fn rank_event(event: &Event) -> (r: u8)
    ensures
        r == rank_of(event.deep_view().type_),
{
    match &event.type_ {
        Some(kind) => event_type_rank(Some(kind.as_str())),
        None => event_type_rank(None),
    }
}

fn event_precedes(a: &Event, b: &Event) -> (r: bool)
    ensures
        r == event_le(a.deep_view(), b.deep_view()),
{
    let (a_rank, b_rank): (u8, u8) = (rank_event(a), rank_event(b));
    let (a_second, b_second): (i64, i64) = (event_sort_ts_seconds(a), event_sort_ts_seconds(b));
    if a_rank != b_rank {
        b_rank < a_rank
    } else if a_second != b_second {
        b_second < a_second
    } else {
        meta_precedes(&a.metadata, &b.metadata)
    }
}

/// The events in the order of a snapshot.
pub open spec fn events_in_order(events: Seq<EventView>) -> Seq<EventView> {
    order::in_order(events, |a: EventView, b: EventView| event_le(a, b))
}

/// The events in the order of a snapshot.
pub fn sort_events_for_snapshot(events: &mut Vec<Event>)
    ensures
        final(events).deep_view() == events_in_order(old(events).deep_view()),
{
    let mut all: Vec<Event> = Vec::new();
    std::mem::swap(&mut all, events);
    let precedes = |a: &Event, b: &Event| -> (r: bool)
        ensures
            r == event_le(a.deep_view(), b.deep_view()),
        { event_precedes(a, b) };
    *events = sort_in_order(all, precedes, Ghost(|a: EventView, b: EventView| event_le(a, b)));
}

/// A text of at most so many characters; one that is cut ends in dots where they fit.
pub open spec fn cut_text(text: Seq<char>, max: nat) -> Seq<char> {
    if text.len() <= max {
        text
    } else if max >= 3 {
        text.take(max - 3) + "..."@
    } else {
        seq![]
    }
}

/// A text of at most so many characters; one that is cut ends in dots where they fit.
pub fn truncate_chars(input: &str, max_chars: usize) -> (r: String)
    ensures
        r@ == cut_text(input@, max_chars as nat),
        r@.len() <= max_chars,
{
    proof {
        reveal_strlit("...");
        reveal_strlit("");
    }
    if input.unicode_len() <= max_chars {
        return owned(input);
    }
    if max_chars >= 3 {
        let kept = cut(input, 0, max_chars - 3);
        assert(kept@ =~= input@.take(max_chars - 3));
        text2(kept, "...")
    } else {
        let none = owned("");
        assert(none@ =~= seq![]);
        none
    }
}

/// What a moment is shown as.
pub open spec fn shown_time(time: Option<TimestampView>) -> Option<Seq<char>> {
    match time {
        Some(time) => Some(time.text),
        None => None,
    }
}

fn show_time(time: &Option<Timestamp>) -> (r: Option<String>)
    ensures
        r.deep_view() == shown_time(time.deep_view()),
{
    match time {
        Some(time) => Some(time.text.clone()),
        None => None,
    }
}

/// What a snapshot shows of an event.
pub open spec fn event_info(event: EventView) -> EventInfoView {
    EventInfoView {
        namespace: views::text_or(event.metadata.namespace, ""@),
        name: views::text_or(event.metadata.name, ""@),
        type_: event.type_,
        reason: event.reason,
        message: match event.message {
            Some(message) => Some(cut_text(message, MAX_EVENT_MESSAGE_CHARS as nat)),
            None => None,
        },
        count: event.count,
        first_timestamp: shown_time(event.first_timestamp),
        last_timestamp: match event.event_time {
            Some(time) => Some(time.text),
            None => shown_time(event.last_timestamp),
        },
        reporting_controller: event.reporting_component,
        reporting_instance: event.reporting_instance,
        involved_object: event.involved_object,
    }
}

/// What a snapshot shows of an event.
pub fn map_event(event: &Event) -> (r: EventInfo)
    ensures
        r.deep_view() == event_info(event.deep_view()),
{
    let message = match &event.message {
        Some(message) => Some(truncate_chars(message.as_str(), MAX_EVENT_MESSAGE_CHARS)),
        None => None,
    };
    let last_timestamp = match &event.event_time {
        Some(time) => Some(time.text.clone()),
        None => show_time(&event.last_timestamp),
    };
    EventInfo {
        namespace: owned(opt_str(&event.metadata.namespace, "")),
        name: owned(opt_str(&event.metadata.name, "")),
        type_: event.type_.deep_clone(),
        reason: event.reason.deep_clone(),
        message,
        count: event.count,
        first_timestamp: show_time(&event.first_timestamp),
        last_timestamp,
        reporting_controller: event.reporting_component.deep_clone(),
        reporting_instance: event.reporting_instance.deep_clone(),
        involved_object: event.involved_object.deep_clone(),
    }
}

/// What a snapshot shows of the events: the most telling and latest ones.
pub open spec fn event_infos(events: Seq<EventView>) -> Seq<EventInfoView> {
    views::at_most(events_in_order(events), MAX_EVENTS as nat).map_values(
        |e: EventView| event_info(e),
    )
}

/// What a snapshot shows of the events: the most telling and latest ones.
pub fn map_events(events: Vec<Event>) -> (r: Vec<EventInfo>)
    ensures
        r.deep_view() == event_infos(events.deep_view()),
{
    let mut events = events;
    sort_events_for_snapshot(&mut events);
    let kept = cut_list(events, MAX_EVENTS);
    let image = |e: &Event| -> (r: EventInfo)
        ensures
            r.deep_view() == event_info(e.deep_view()),
        { map_event(e) };
    map_items(&kept, image, Ghost(|e: EventView| event_info(e)))
}

/// However many events there are and however long their messages, a snapshot holds a bounded
/// number of bounded messages.
pub proof fn lemma_events_are_bounded(events: Seq<EventView>)
    ensures
        event_infos(events).len() <= MAX_EVENTS,
        forall|i: int|
            0 <= i < event_infos(events).len() && (#[trigger] event_infos(events)[i]).message is Some
                ==> event_infos(events)[i].message->0.len() <= MAX_EVENT_MESSAGE_CHARS,
{
    reveal_strlit("...");
}

/// The events of a snapshot stand in order and none is lost before the cut: no event of another
/// type precedes a warning.
pub proof fn lemma_warnings_come_first(events: Seq<EventView>)
    ensures
        order::is_sorted(events_in_order(events), |a: EventView, b: EventView| event_le(a, b)),
        events_in_order(events).to_multiset() == events.to_multiset(),
        forall|i: int, j: int|
            0 <= i < j < events_in_order(events).len() ==> rank_of((#[trigger] events_in_order(events)[i]).type_)
                >= rank_of((#[trigger] events_in_order(events)[j]).type_),
{
    let le = |a: EventView, b: EventView| event_le(a, b);
    let meta = |m: ObjectMetaView| m;
    objects::lemma_place_ordering(meta);
    let place = objects::by_place(meta);
    assert forall|a: EventView, b: EventView| #[trigger] le(a, b) || le(b, a) by {
        assert(place(a.metadata, b.metadata) || place(b.metadata, a.metadata));
    }
    assert forall|a: EventView, b: EventView, c: EventView| #[trigger] le(a, b) && #[trigger] le(b, c) implies le(
        a,
        c,
    ) by {
        if rank_of(a.type_) == rank_of(b.type_) && rank_of(b.type_) == rank_of(c.type_) && second_of(a)
            == second_of(b) && second_of(b) == second_of(c) {
            assert(place(a.metadata, b.metadata) && place(b.metadata, c.metadata));
        }
    }
    order::lemma_in_order_sorted(events, le);
    order::lemma_in_order_keeps_items(events, le);
    let sorted = events_in_order(events);
    assert forall|i: int, j: int| 0 <= i < j < sorted.len() implies rank_of((#[trigger] sorted[i]).type_) >= rank_of(
        (#[trigger] sorted[j]).type_,
    ) by {
        assert(le(sorted[i], sorted[j]));
    }
}

// ------------------------------------------------------------- what it is for

/// A message that is not too long is shown as it is; a longer one is cut to five hundred characters,
/// with its beginning kept and the cut marked.
pub proof fn lemma_messages_are_cut(event: EventView, message: Seq<char>)
    requires
        event.message == Some(message),
    ensures
        event_info(event).message is Some,
        message.len() <= 500 ==> event_info(event).message == Some(message),
        message.len() > 500 ==> event_info(event).message->0.len() == 500 && event_info(event).message->0.take(497)
            == message.take(497) && event_info(event).message->0.skip(497) == "..."@,
{
    reveal_strlit("...");
    if message.len() > 500 {
        let shown = event_info(event).message->0;
        assert(shown =~= message.take(497) + "..."@);
        assert(shown.take(497) =~= message.take(497));
        assert(shown.skip(497) =~= "..."@);
    }
}

/// Warnings come before other events, and of events alike the later come first; each event that is
/// shown is one of the cluster's, and where there are at most five hundred all of them are.
pub proof fn lemma_latest_events_first(events: Seq<EventView>, a: EventView, b: EventView)
    ensures
        a.type_ == Some("Warning"@) && b.type_ != Some("Warning"@) ==> event_le(a, b) && !event_le(b, a),
        (a.type_ == Some("Warning"@) <==> b.type_ == Some("Warning"@)) && a.event_time is Some && b.event_time is Some
            && a.event_time->0.seconds > b.event_time->0.seconds ==> event_le(a, b) && !event_le(b, a),
        a.event_time is None && a.last_timestamp is Some ==> second_of(a) == a.last_timestamp->0.seconds,
        a.event_time is None && a.last_timestamp is None && a.first_timestamp is Some ==> second_of(a)
            == a.first_timestamp->0.seconds,
        a.event_time is None && a.last_timestamp is None && a.first_timestamp is None ==> second_of(a) == 0,
        events.len() <= 500 ==> event_infos(events).len() == events.len(),
        events.len() > 500 ==> event_infos(events).len() == 500,
        events.len() <= 500 ==> forall|i: int|
            0 <= i < events.len() ==> event_infos(events).contains(event_info(#[trigger] events[i])),
{
    let le = |a: EventView, b: EventView| event_le(a, b);
    let sorted = events_in_order(events);
    order::lemma_in_order_has(events, le, a);
    if events.len() <= 500 {
        assert(views::at_most(sorted, 500) =~= sorted);
        assert forall|i: int| 0 <= i < events.len() implies event_infos(events).contains(event_info(#[trigger] events[i])) by {
            order::lemma_in_order_has(events, le, events[i]);
            let k = choose|k: int| 0 <= k < sorted.len() && sorted[k] == events[i];
            assert(event_infos(events)[k] == event_info(events[i]));
        }
    }
}

/// What is shown of an event is its own.
pub proof fn lemma_event_is_shown(event: EventView)
    ensures
        ({
            let shown = event_info(event);
            &&& event.metadata.namespace matches Some(n) ==> shown.namespace == n
            &&& event.metadata.name matches Some(n) ==> shown.name == n
            &&& shown.type_ == event.type_ && shown.reason == event.reason && shown.count == event.count
            &&& event.message is None ==> shown.message is None
            &&& event.first_timestamp matches Some(t) ==> shown.first_timestamp == Some(t.text)
            &&& event.event_time matches Some(t) ==> shown.last_timestamp == Some(t.text)
            &&& event.event_time is None && event.last_timestamp is Some ==> shown.last_timestamp == Some(event.last_timestamp->0.text)
            &&& shown.involved_object == event.involved_object
        }),
{
}

} // verus!
