//! What holds of a gRPC session over any course that it takes.
use vstd::prelude::*;

use crate::grpc::{
    closing_status, GrpcEventType, GrpcEventView, CODE_CANCELLED, CODE_OK, CODE_UNKNOWN,
};
use crate::grpc_session::{
    after, giving_up, GrpcActionView, GrpcFailureView, GrpcHeadersView, GrpcInputView, GrpcPhaseView,
    GrpcSessionView,
};

verus! {

/// The session after a series of inputs, and all that was to be done on the way.
pub open spec fn session_run(s: GrpcSessionView, inputs: Seq<GrpcInputView>) -> (
    GrpcSessionView,
    Seq<GrpcActionView>,
)
    decreases inputs.len(),
{
    if inputs.len() == 0 {
        (s, Seq::empty())
    } else {
        let first = after(s, inputs[0]);
        let rest = session_run(first.0, inputs.skip(1));
        (rest.0, first.1 + rest.1)
    }
}

/// The events that actions record, in order.
pub open spec fn recorded(actions: Seq<GrpcActionView>) -> Seq<GrpcEventView>
    decreases actions.len(),
{
    if actions.len() == 0 {
        Seq::empty()
    } else {
        match actions[0] {
            GrpcActionView::Record(e) => seq![e] + recorded(actions.skip(1)),
            _ => recorded(actions.skip(1)),
        }
    }
}

/// How many of the actions are of a kind.
pub open spec fn count(actions: Seq<GrpcActionView>, kind: spec_fn(GrpcActionView) -> bool) -> nat
    decreases actions.len(),
{
    if actions.len() == 0 {
        0
    } else {
        (if kind(actions[0]) {
            1nat
        } else {
            0nat
        }) + count(actions.skip(1), kind)
    }
}

/// Answers to the command that started the session.
pub open spec fn answers() -> spec_fn(GrpcActionView) -> bool {
    |a: GrpcActionView| a is Return || a is Refuse || a is HandOn
}

/// Ends of the stored connection.
pub open spec fn closes() -> spec_fn(GrpcActionView) -> bool {
    |a: GrpcActionView| a is Close
}

/// Ends of listening for messages of the user.
pub open spec fn unlistens() -> spec_fn(GrpcActionView) -> bool {
    |a: GrpcActionView| a is Unlisten
}

/// Whether the command that started the session still waits for its answer.
pub open spec fn unanswered(s: GrpcSessionView) -> bool {
    s.phase is Connecting || s.phase is Locating || s.phase is Rendering
}

/// Whether messages of the user are listened for.
pub open spec fn listened(s: GrpcSessionView) -> bool {
    s.is_listening() || s.phase is Closing
}

proof fn lemma_recorded_of_both(a: Seq<GrpcActionView>, b: Seq<GrpcActionView>)
    ensures
        recorded(a + b) == recorded(a) + recorded(b),
    decreases a.len(),
{
    if a.len() == 0 {
        assert(a + b =~= b);
        assert(recorded(a) + recorded(b) =~= recorded(b));
    } else {
        lemma_recorded_of_both(a.skip(1), b);
        assert((a + b).skip(1) =~= a.skip(1) + b);
        assert(recorded(a + b) =~= recorded(a) + recorded(b));
    }
}

proof fn lemma_count_of_both(
    a: Seq<GrpcActionView>,
    b: Seq<GrpcActionView>,
    kind: spec_fn(GrpcActionView) -> bool,
)
    ensures
        count(a + b, kind) == count(a, kind) + count(b, kind),
    decreases a.len(),
{
    if a.len() == 0 {
        assert(a + b =~= b);
    } else {
        lemma_count_of_both(a.skip(1), b, kind);
        assert((a + b).skip(1) =~= a.skip(1) + b);
    }
}

proof fn lemma_count_of_few(a: Seq<GrpcActionView>, kind: spec_fn(GrpcActionView) -> bool)
    requires
        a.len() <= 5,
    ensures
        count(a, kind) == (if a.len() > 0 && kind(a[0]) {
            1nat
        } else {
            0nat
        }) + (if a.len() > 1 && kind(a[1]) {
            1nat
        } else {
            0nat
        }) + (if a.len() > 2 && kind(a[2]) {
            1nat
        } else {
            0nat
        }) + (if a.len() > 3 && kind(a[3]) {
            1nat
        } else {
            0nat
        }) + (if a.len() > 4 && kind(a[4]) {
            1nat
        } else {
            0nat
        }),
{
    reveal_with_fuel(count, 6);
}

/// A session that is closed does nothing more, whatever still arrives.
pub proof fn closed_is_final(s: GrpcSessionView, inputs: Seq<GrpcInputView>)
    requires
        s.phase is Closed,
    ensures
        session_run(s, inputs) == (s, Seq::<GrpcActionView>::empty()),
    decreases inputs.len(),
{
    if inputs.len() > 0 {
        closed_is_final(s, inputs.skip(1));
        assert(session_run(s, inputs).1 =~= Seq::<GrpcActionView>::empty());
    }
}

/// The command is answered once, when the call goes out or cannot, and never again.
pub proof fn command_is_answered_once(s: GrpcSessionView, inputs: Seq<GrpcInputView>)
    ensures
        count(session_run(s, inputs).1, answers()) == (if unanswered(s) && !unanswered(session_run(s, inputs).0) {
            1nat
        } else {
            0nat
        }),
        unanswered(session_run(s, inputs).0) ==> unanswered(s),
    decreases inputs.len(),
{
    if inputs.len() > 0 {
        let first = after(s, inputs[0]);
        command_is_answered_once(first.0, inputs.skip(1));
        lemma_count_of_both(first.1, session_run(first.0, inputs.skip(1)).1, answers());
        lemma_count_of_few(first.1, answers());
    }
}

/// The stored connection of a call that went out is ended once, when the session closes, and
/// listening stops then.
pub proof fn connection_is_closed_once(s: GrpcSessionView, inputs: Seq<GrpcInputView>)
    requires
        listened(s),
    ensures
        count(session_run(s, inputs).1, closes()) == (if session_run(s, inputs).0.phase is Closed {
            1nat
        } else {
            0nat
        }),
        count(session_run(s, inputs).1, unlistens()) == count(session_run(s, inputs).1, closes()),
        listened(session_run(s, inputs).0) || session_run(s, inputs).0.phase is Closed,
    decreases inputs.len(),
{
    if inputs.len() > 0 {
        let first = after(s, inputs[0]);
        lemma_count_of_both(first.1, session_run(first.0, inputs.skip(1)).1, closes());
        lemma_count_of_both(first.1, session_run(first.0, inputs.skip(1)).1, unlistens());
        lemma_count_of_few(first.1, closes());
        lemma_count_of_few(first.1, unlistens());
        if first.0.phase is Closed {
            closed_is_final(first.0, inputs.skip(1));
        } else {
            connection_is_closed_once(first.0, inputs.skip(1));
        }
    }
}

/// Whether an event belongs to the connection of a session.
pub open spec fn belongs(e: GrpcEventView, s: GrpcSessionView) -> bool {
    e.workspace_id == s.request.workspace_id && e.request_id == s.request.id && e.connection_id
        == s.connection.id
}

/// Every event that is recorded belongs to the connection of the session.
pub proof fn events_belong_to_the_connection(s: GrpcSessionView, inputs: Seq<GrpcInputView>, i: int)
    requires
        0 <= i < session_run(s, inputs).1.len(),
    ensures
        session_run(s, inputs).1[i] matches GrpcActionView::Record(e) ==> belongs(e, s),
    decreases inputs.len(),
{
    let first = after(s, inputs[0]);
    if i >= first.1.len() {
        events_belong_to_the_connection(first.0, inputs.skip(1), i - first.1.len());
    }
}

/// What a stream records for one of its items.
pub open spec fn stream_event(s: GrpcSessionView, item: GrpcInputView) -> GrpcEventView {
    match item {
        GrpcInputView::Received(text) => s.server_message(text),
        GrpcInputView::Broken(status) => s.broken_event(status),
        _ => arbitrary(),
    }
}

/// Whether an input is an item of a stream.
pub open spec fn is_item(input: GrpcInputView) -> bool {
    input is Received || input is Broken
}

/// The status of a stream that came to its end: that of its first break, or that all went well.
pub open spec fn stream_status(items: Seq<GrpcInputView>) -> i32
    decreases items.len(),
{
    if items.len() == 0 {
        CODE_OK
    } else {
        match items[0] {
            GrpcInputView::Broken(status) => status.code,
            _ => stream_status(items.skip(1)),
        }
    }
}

/// A stream records its messages and breaks in the order in which they came, and its end last.
pub proof fn stream_is_recorded_in_order(
    s: GrpcSessionView,
    items: Seq<GrpcInputView>,
    trailers: Seq<(Seq<char>, Seq<char>)>,
)
    requires
        s.phase is Receiving,
        forall|i: int| 0 <= i < items.len() ==> is_item(#[trigger] items[i]),
    ensures
        session_run(s, items.push(GrpcInputView::Ended { trailers })).0 == s.at(GrpcPhaseView::Closing),
        recorded(session_run(s, items.push(GrpcInputView::Ended { trailers })).1) == items.map_values(
            |item: GrpcInputView| stream_event(s, item),
        ).push(s.complete_event(trailers)),
    decreases items.len(),
{
    let end = GrpcInputView::Ended { trailers };
    let all = items.push(end);
    let first = after(s, all[0]);
    let rest = session_run(first.0, all.skip(1));
    let events = |item: GrpcInputView| stream_event(s, item);
    lemma_recorded_of_both(first.1, rest.1);
    reveal_with_fuel(recorded, 3);
    if items.len() == 0 {
        assert(all.skip(1) =~= Seq::empty());
        assert(recorded(first.1) =~= seq![s.complete_event(trailers)]);
        assert(recorded(session_run(s, all).1) =~= items.map_values(events).push(
            s.complete_event(trailers),
        ));
    } else {
        assert(is_item(items[0]));
        assert forall|i: int| 0 <= i < items.skip(1).len() implies is_item(
            #[trigger] items.skip(1)[i],
        ) by {
            assert(is_item(items[i + 1]));
        }
        stream_is_recorded_in_order(s, items.skip(1), trailers);
        assert(all.skip(1) =~= items.skip(1).push(end));
        assert(recorded(first.1) =~= seq![stream_event(s, items[0])]);
        assert(recorded(session_run(s, all).1) =~= items.map_values(events).push(
            s.complete_event(trailers),
        ));
    }
}

proof fn lemma_no_end_before(before: Seq<GrpcEventView>, events: Seq<GrpcEventView>)
    requires
        forall|i: int|
            0 <= i < before.len() ==> (#[trigger] before[i]).event_type
                != GrpcEventType::ConnectionEnd,
    ensures
        closing_status(before + events) == closing_status(events),
    decreases before.len(),
{
    if before.len() == 0 {
        assert(before + events =~= events);
    } else {
        assert((before + events)[0] == before[0]);
        assert((before + events).skip(1) =~= before.skip(1) + events);
        lemma_no_end_before(before.skip(1), events);
    }
}

proof fn lemma_stream_status(s: GrpcSessionView, items: Seq<GrpcInputView>, end: GrpcEventView)
    requires
        forall|i: int| 0 <= i < items.len() ==> is_item(#[trigger] items[i]),
        end.event_type == GrpcEventType::ConnectionEnd,
        end.status == Some(CODE_OK),
    ensures
        closing_status(items.map_values(|item: GrpcInputView| stream_event(s, item)).push(end))
            == stream_status(items),
    decreases items.len(),
{
    let events = |item: GrpcInputView| stream_event(s, item);
    let all = items.map_values(events).push(end);
    if items.len() > 0 {
        assert(is_item(items[0]));
        assert(all[0] == stream_event(s, items[0]));
        assert(all.skip(1) =~= items.skip(1).map_values(events).push(end));
        assert forall|i: int| 0 <= i < items.skip(1).len() implies is_item(
            #[trigger] items.skip(1)[i],
        ) by {
            assert(is_item(items[i + 1]));
        }
        lemma_stream_status(s, items.skip(1), end);
    }
}

/// Whether a session that waits to be closed closes with a status, once the events are read back.
pub open spec fn closes_with(
    s: GrpcSessionView,
    events: Seq<GrpcEventView>,
    status: i32,
    elapsed: u128,
) -> bool {
    after(s, GrpcInputView::EventsListed { events, elapsed }) == (
        s.at(GrpcPhaseView::Closed),
        seq![s.close(status, elapsed), GrpcActionView::Unlisten],
    )
}

/// A stream that came to its end closes with the status of its first break, or as one where all
/// went well, whatever else was recorded before it.
pub proof fn stream_closes_with_its_first_break(
    s: GrpcSessionView,
    before: Seq<GrpcEventView>,
    items: Seq<GrpcInputView>,
    trailers: Seq<(Seq<char>, Seq<char>)>,
    elapsed: u128,
)
    requires
        s.phase is Receiving,
        forall|i: int| 0 <= i < items.len() ==> is_item(#[trigger] items[i]),
        forall|i: int|
            0 <= i < before.len() ==> (#[trigger] before[i]).event_type
                != GrpcEventType::ConnectionEnd,
    ensures
        ({
            let r = session_run(s, items.push(GrpcInputView::Ended { trailers }));
            closes_with(r.0, before + recorded(r.1), stream_status(items), elapsed)
        }),
{
    stream_is_recorded_in_order(s, items, trailers);
    lemma_no_end_before(
        before,
        recorded(session_run(s, items.push(GrpcInputView::Ended { trailers })).1),
    );
    lemma_stream_status(s, items, s.complete_event(trailers));
}

/// The events for the message that went out with a call, where the client does not stream.
pub open spec fn sent_events(s: GrpcSessionView) -> Seq<GrpcEventView> {
    match s.phase {
        GrpcPhaseView::Calling { client_streaming: false, message, .. } => seq![
            s.client_message(message),
        ],
        _ => Seq::empty(),
    }
}

/// A call with a single answer records what went out, the headers, the answer and its end, and
/// closes as a call that went well, whatever was recorded before it.
pub proof fn single_answer_is_recorded(
    s: GrpcSessionView,
    before: Seq<GrpcEventView>,
    headers: GrpcHeadersView,
    answer: Seq<char>,
    elapsed: u128,
)
    requires
        s.phase matches GrpcPhaseView::Calling { server_streaming, .. } && !server_streaming,
        forall|i: int|
            0 <= i < before.len() ==> (#[trigger] before[i]).event_type
                != GrpcEventType::ConnectionEnd,
    ensures
        ({
            let r = session_run(
                s,
                seq![GrpcInputView::Replied(headers), GrpcInputView::Serialized(answer)],
            );
            &&& r.0 == s.at(GrpcPhaseView::Closing)
            &&& recorded(r.1) == sent_events(s) + seq![
                s.headers_event(headers),
                s.server_message(answer),
                s.complete_event(Seq::empty()),
            ]
            &&& closes_with(r.0, before + recorded(r.1), CODE_OK, elapsed)
        }),
{
    let inputs = seq![GrpcInputView::Replied(headers), GrpcInputView::Serialized(answer)];
    let first = after(s, inputs[0]);
    let second = after(first.0, inputs[1]);
    let r = session_run(s, inputs);
    assert(inputs.skip(1)[0] == inputs[1]);
    assert(inputs.skip(1).skip(1) =~= Seq::empty());
    reveal_with_fuel(session_run, 3);
    reveal_with_fuel(recorded, 5);
    assert(r.1 =~= first.1 + second.1);
    lemma_recorded_of_both(first.1, second.1);
    let events = sent_events(s) + seq![s.headers_event(headers), s.server_message(answer)];
    let end = seq![s.complete_event(Seq::empty())];
    assert(recorded(first.1) =~= sent_events(s) + seq![s.headers_event(headers)]);
    assert(recorded(second.1) =~= seq![s.server_message(answer)] + end);
    assert(recorded(r.1) =~= events + end);
    assert(before + recorded(r.1) =~= (before + events) + end);
    lemma_no_end_before(before + events, end);
}

/// A call that failed records what went out and the failure, and closes with the status of the
/// server, or as a failure of unknown kind, whatever was recorded before it.
pub proof fn failure_decides_the_status(
    s: GrpcSessionView,
    before: Seq<GrpcEventView>,
    failure: GrpcFailureView,
    elapsed: u128,
)
    requires
        s.phase is Calling,
        forall|i: int|
            0 <= i < before.len() ==> (#[trigger] before[i]).event_type
                != GrpcEventType::ConnectionEnd,
    ensures
        ({
            let r = session_run(s, seq![GrpcInputView::ReplyFailed(failure)]);
            &&& r.0 == s.at(GrpcPhaseView::Closing)
            &&& recorded(r.1) == sent_events(s) + seq![s.failure_event(failure)]
            &&& closes_with(
                r.0,
                before + recorded(r.1),
                match failure.status {
                    Some(status) => status.code,
                    None => CODE_UNKNOWN,
                },
                elapsed,
            )
        }),
{
    let inputs = seq![GrpcInputView::ReplyFailed(failure)];
    let first = after(s, inputs[0]);
    let r = session_run(s, inputs);
    assert(inputs.skip(1) =~= Seq::empty());
    reveal_with_fuel(session_run, 2);
    reveal_with_fuel(recorded, 4);
    assert(r.1 =~= first.1);
    let end = seq![s.failure_event(failure)];
    assert(recorded(r.1) =~= sent_events(s) + end);
    assert(before + recorded(r.1) =~= (before + sent_events(s)) + end);
    lemma_no_end_before(before + sent_events(s), end);
}

/// A call that the user gives up is recorded and closed as cancelled, at whatever point it is,
/// and nothing that the server still sends is recorded.
pub proof fn giving_up_closes_at_once(
    s: GrpcSessionView,
    elapsed: u128,
    later: Seq<GrpcInputView>,
)
    requires
        s.is_listening(),
    ensures
        session_run(s, seq![GrpcInputView::Cancelled { elapsed }] + later) == (
            s.at(GrpcPhaseView::Closed),
            giving_up(s, elapsed),
        ),
{
    let inputs = seq![GrpcInputView::Cancelled { elapsed }] + later;
    let first = after(s, inputs[0]);
    assert(inputs.skip(1) =~= later);
    closed_is_final(first.0, later);
    assert(session_run(s, inputs).1 =~= first.1);
}

/// A user who gives up while the message is rendered is heard: once the message is there, the
/// call does not go out, and the connection is recorded and closed as cancelled, whatever still
/// arrives.
pub proof fn giving_up_early_is_kept(
    s: GrpcSessionView,
    at: u128,
    message: Seq<char>,
    elapsed: u128,
    later: Seq<GrpcInputView>,
)
    requires
        s.phase is Rendering,
    ensures
        session_run(
            s,
            seq![
                GrpcInputView::Cancelled { elapsed: at },
                GrpcInputView::Rendered { message, elapsed },
            ] + later,
        ) == (s.at(GrpcPhaseView::Closed), s.started() + giving_up(s, elapsed)),
{
    let inputs = seq![
        GrpcInputView::Cancelled { elapsed: at },
        GrpcInputView::Rendered { message, elapsed },
    ] + later;
    let first = after(s, inputs[0]);
    let second = after(first.0, inputs[1]);
    reveal_with_fuel(session_run, 3);
    assert(inputs.skip(1)[0] == inputs[1]);
    assert(inputs.skip(1).skip(1) =~= later);
    closed_is_final(second.0, later);
    assert(session_run(s, inputs).1 =~= s.started() + giving_up(s, elapsed));
}

} // verus!
