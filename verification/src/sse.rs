//! Server-sent events.
use vstd::prelude::*;

use crate::models::views;
use crate::text::{copy_text, text_of};

verus! {

/// An event that a server sent.
#[derive(Debug)]
pub struct ServerSentEvent {
    pub event_type: String,
    pub data: String,
    pub id: Option<String>,
    pub retry: Option<u64>,
}

/// What a `ServerSentEvent` holds.
#[verifier::ext_equal]
pub struct ServerSentEventView {
    pub event_type: Seq<char>,
    pub data: Seq<char>,
    pub id: Option<Seq<char>>,
    pub retry: Option<u64>,
}

impl View for ServerSentEvent {
    type V = ServerSentEventView;

    open spec fn view(&self) -> ServerSentEventView {
        ServerSentEventView {
            event_type: self.event_type@,
            data: self.data@,
            id: text_of(self.id),
            retry: self.retry,
        }
    }
}

impl Clone for ServerSentEvent {
    fn clone(&self) -> (r: Self)
        ensures
            r == *self,
    {
        ServerSentEvent {
            event_type: self.event_type.clone(),
            data: self.data.clone(),
            id: copy_text(&self.id),
            retry: self.retry,
        }
    }
}

/// What stands in a stream: an event, or a comment.
#[derive(Debug)]
pub enum SseItem {
    Event(ServerSentEvent),
    Comment(String),
}

/// The events of a stream, in order, without its comments.
pub open spec fn events_of(items: Seq<SseItem>) -> Seq<ServerSentEventView>
    decreases items.len(),
{
    if items.len() == 0 {
        Seq::empty()
    } else {
        let before = events_of(items.drop_last());
        match items.last() {
            SseItem::Event(e) => before.push(e@),
            SseItem::Comment(_) => before,
        }
    }
}

/// The events of a stream, in order, without its comments.
pub fn sse_events(items: &Vec<SseItem>) -> (r: Vec<ServerSentEvent>)
    ensures
        views(r@) == events_of(items@),
{
    let mut r: Vec<ServerSentEvent> = Vec::new();
    let mut i: usize = 0;
    assert(views(r@) =~= events_of(items@.take(0)));
    while i < items.len()
        invariant
            i <= items.len(),
            views(r@) == events_of(items@.take(i as int)),
        decreases items.len() - i,
    {
        assert(items@.take(i + 1).drop_last() =~= items@.take(i as int));
        match &items[i] {
            SseItem::Event(e) => {
                let ghost before = views(r@);
                r.push(e.clone());
                assert(views(r@) =~= before.push(e@));
            },
            SseItem::Comment(_) => {},
        }
        i = i + 1;
    }
    assert(items@.take(i as int) =~= items@);
    r
}

/// A stream that is read in two parts gives the events of the first, and behind them those of
/// the second.
pub proof fn parts_give_their_events(first: Seq<SseItem>, second: Seq<SseItem>)
    ensures
        events_of(first + second) == events_of(first) + events_of(second),
    decreases second.len(),
{
    let all = first + second;
    if second.len() == 0 {
        assert(all =~= first);
        assert(events_of(first) + events_of(second) =~= events_of(first));
    } else {
        parts_give_their_events(first, second.drop_last());
        assert(all.drop_last() =~= first + second.drop_last());
        assert(events_of(all) =~= events_of(first) + events_of(second));
    }
}

/// A stream of a single event gives that event as it is, whatever it holds, and a stream of a
/// single comment gives none.
pub proof fn single_items(event: ServerSentEvent, comment: String)
    ensures
        events_of(seq![SseItem::Event(event)]) == seq![event@],
        events_of(seq![SseItem::Comment(comment)]) == Seq::<ServerSentEventView>::empty(),
        event@.event_type == event.event_type@,
        event@.data == event.data@,
        event@.id == text_of(event.id),
        event@.retry == event.retry,
{
    reveal_with_fuel(events_of, 2);
    assert(seq![SseItem::Event(event)].drop_last() =~= Seq::empty());
    assert(seq![SseItem::Comment(comment)].drop_last() =~= Seq::empty());
    assert(events_of(seq![SseItem::Event(event)]) =~= seq![event@]);
}

/// How many of the items are events.
pub open spec fn event_count(items: Seq<SseItem>) -> nat
    decreases items.len(),
{
    if items.len() == 0 {
        0
    } else {
        event_count(items.drop_last()) + if items.last() is Event {
            1nat
        } else {
            0nat
        }
    }
}

/// As many events come out of a stream as it holds, and each comes at the place that the events
/// before it leave for it.
pub proof fn every_event_comes_in_its_place(items: Seq<SseItem>, i: int)
    requires
        0 <= i < items.len(),
    ensures
        events_of(items).len() == event_count(items),
        items[i] matches SseItem::Event(e) ==> {
            &&& event_count(items.take(i)) < events_of(items).len()
            &&& events_of(items)[event_count(items.take(i)) as int] == e@
        },
    decreases items.len(),
{
    let head = items.drop_last();
    reveal_with_fuel(event_count, 2);
    reveal_with_fuel(events_of, 2);
    if i == items.len() - 1 {
        assert(items.take(i) =~= head);
        if head.len() > 0 {
            every_event_comes_in_its_place(head, 0);
        }
    } else {
        every_event_comes_in_its_place(head, i);
        assert(head.take(i) =~= items.take(i));
    }
}

} // verus!
