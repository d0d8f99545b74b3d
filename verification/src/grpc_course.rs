//! The courses that gRPC calls take, written out from what goes in to what is done.
use vstd::prelude::*;

use crate::grpc::{
    closing_status, kept_millis, GrpcConnectionState, GrpcConnectionView, GrpcEventType,
    GrpcEventView,
};
use crate::grpc_run::session_run;
use crate::grpc_session::{
    after, kind_of_call, opened, target_of, CallKind, GrpcAction, GrpcActionView, GrpcFailure,
    GrpcFailureView, GrpcHeaders, GrpcHeadersView, GrpcInput, GrpcInputView, GrpcPhaseView,
    GrpcSessionView, GrpcStatus, GrpcStatusView, GrpcTarget,
};
use crate::models::{views, GrpcRequestView};
use crate::text::{pairs_of, texts_of};
use crate::uri::addressed;

verus! {

proof fn lemma_run_of_both(s: GrpcSessionView, a: Seq<GrpcInputView>, b: Seq<GrpcInputView>)
    ensures
        session_run(s, a + b) == (
            session_run(session_run(s, a).0, b).0,
            session_run(s, a).1 + session_run(session_run(s, a).0, b).1,
        ),
    decreases a.len(),
{
    if a.len() == 0 {
        assert(a + b =~= b);
        assert(session_run(s, a).1 + session_run(s, b).1 =~= session_run(s, b).1);
    } else {
        let first = after(s, a[0]);
        assert((a + b)[0] == a[0]);
        assert((a + b).skip(1) =~= a.skip(1) + b);
        lemma_run_of_both(first.0, a.skip(1), b);
        assert(session_run(s, a + b).1 =~= session_run(s, a).1 + session_run(
            session_run(s, a).0,
            b,
        ).1);
    }
}

proof fn lemma_run_of_one(s: GrpcSessionView, input: GrpcInputView)
    ensures
        session_run(s, seq![input]) == after(s, input),
{
    reveal_with_fuel(session_run, 2);
    assert(seq![input].skip(1) =~= Seq::empty());
    assert(session_run(s, seq![input]).1 =~= after(s, input).1);
}

proof fn lemma_run_of_two(s: GrpcSessionView, a: GrpcInputView, b: GrpcInputView)
    ensures
        session_run(s, seq![a, b]) == (
            after(after(s, a).0, b).0,
            after(s, a).1 + after(after(s, a).0, b).1,
        ),
{
    assert(seq![a, b] =~= seq![a] + seq![b]);
    lemma_run_of_both(s, seq![a], seq![b]);
    lemma_run_of_one(s, a);
    lemma_run_of_one(after(s, a).0, b);
}

proof fn lemma_run_of_three(
    s: GrpcSessionView,
    a: GrpcInputView,
    b: GrpcInputView,
    c: GrpcInputView,
)
    ensures
        ({
            let x = after(s, a);
            let y = after(x.0, b);
            let z = after(y.0, c);
            session_run(s, seq![a, b, c]) == (z.0, x.1 + y.1 + z.1)
        }),
{
    assert(seq![a, b, c] =~= seq![a, b] + seq![c]);
    lemma_run_of_two(s, a, b);
    lemma_run_of_both(s, seq![a, b], seq![c]);
    lemma_run_of_one(after(after(s, a).0, b).0, c);
}

/// The record of something that happened on the connection of a session.
pub open spec fn note(
    s: GrpcSessionView,
    event_type: GrpcEventType,
    content: Seq<char>,
    metadata: Seq<(Seq<char>, Seq<char>)>,
    error: Option<Seq<char>>,
    status: Option<i32>,
) -> GrpcActionView {
    GrpcActionView::Record(
        GrpcEventView {
            workspace_id: s.request.workspace_id,
            request_id: s.request.id,
            connection_id: s.connection.id,
            event_type,
            content,
            metadata,
            error,
            status,
        },
    )
}

/// A server is reached as its request says: under the request's id, at its address, with the files,
/// the metadata and the setting that were given.
pub proof fn servers_are_reached_as_asked(
    request: GrpcRequestView,
    metadata: Seq<(Seq<char>, Seq<char>)>,
    proto_files: Seq<Seq<char>>,
    validate_certificates: bool,
)
    ensures
        target_of(request, metadata, proto_files, validate_certificates).request_id == request.id,
        target_of(request, metadata, proto_files, validate_certificates).uri == addressed(
            request.url,
        ),
        target_of(request, metadata, proto_files, validate_certificates).proto_files == proto_files,
        target_of(request, metadata, proto_files, validate_certificates).metadata == metadata,
        target_of(request, metadata, proto_files, validate_certificates).validate_certificates
            == validate_certificates,
{
}

/// A session keeps what it was opened with to its end: the request, the metadata, the connection,
/// the service and the method.
pub proof fn sessions_keep_what_they_were_opened_with(
    s: GrpcSessionView,
    inputs: Seq<GrpcInputView>,
)
    ensures
        session_run(s, inputs).0.request == s.request,
        session_run(s, inputs).0.metadata == s.metadata,
        session_run(s, inputs).0.connection == s.connection,
        session_run(s, inputs).0.service == s.service,
        session_run(s, inputs).0.method == s.method,
    decreases inputs.len(),
{
    if inputs.len() > 0 {
        sessions_keep_what_they_were_opened_with(after(s, inputs[0]).0, inputs.skip(1));
    }
}

/// A call streams from the sides that the method streams from.
pub proof fn calls_stream_as_their_method()
    ensures
        kind_of_call(false, false) == CallKind::Unary,
        kind_of_call(false, true) == CallKind::ServerStreaming,
        kind_of_call(true, false) == CallKind::ClientStreaming,
        kind_of_call(true, true) == CallKind::Streaming,
{
}

/// From its opening to its call a session looks the method of the request up, listens under the id
/// of the connection, has the message of the request rendered (an empty one as an empty object),
/// begins the record of the connection with the metadata, answers the command with the id of the
/// connection, and makes the call of the method with the rendered message and the metadata.
pub proof fn course_until_the_call(
    request: GrpcRequestView,
    metadata: Seq<(Seq<char>, Seq<char>)>,
    connection: GrpcConnectionView,
    service: Seq<char>,
    method: Seq<char>,
    client_streaming: bool,
    server_streaming: bool,
    message: Seq<char>,
    elapsed: u128,
)
    ensures
        ({
            let s = opened(request, metadata, connection, service, method);
            let r = session_run(
                s,
                seq![
                    GrpcInputView::Connected,
                    GrpcInputView::MethodFound { client_streaming, server_streaming },
                    GrpcInputView::Rendered { message, elapsed },
                ],
            );
            &&& r.0 == (GrpcSessionView {
                request,
                metadata,
                connection,
                service,
                method,
                phase: GrpcPhaseView::Calling { client_streaming, server_streaming, message },
            })
            &&& r.1 == seq![
                GrpcActionView::FindMethod { service, method },
                GrpcActionView::Listen { channel: "grpc_client_msg_"@ + connection.id },
                GrpcActionView::Render {
                    template: if request.message.len() == 0 {
                        "{}"@
                    } else {
                        request.message
                    },
                },
                GrpcActionView::Record(
                    GrpcEventView {
                        workspace_id: request.workspace_id,
                        request_id: request.id,
                        connection_id: connection.id,
                        event_type: GrpcEventType::ConnectionStart,
                        content: "Connecting to "@ + request.url,
                        metadata,
                        error: None,
                        status: None,
                    },
                ),
                GrpcActionView::Return { connection_id: connection.id },
                GrpcActionView::Call {
                    kind: kind_of_call(client_streaming, server_streaming),
                    service,
                    method,
                    message,
                    metadata,
                },
            ]
        }),
{
    let s = opened(request, metadata, connection, service, method);
    let a = GrpcInputView::Connected;
    let b = GrpcInputView::MethodFound { client_streaming, server_streaming };
    let c = GrpcInputView::Rendered { message, elapsed };
    lemma_run_of_three(s, a, b, c);
    let x = after(s, a);
    let y = after(x.0, b);
    let z = after(y.0, c);
    assert(x.1 + y.1 + z.1 =~= seq![x.1[0], y.1[0], y.1[1], z.1[0], z.1[1], z.1[2]]);
}

/// The message that an action sends, where it makes a call.
pub open spec fn message_sent(a: GrpcActionView) -> Option<Seq<char>> {
    match a {
        GrpcActionView::Call { message, .. } => Some(message),
        _ => None,
    }
}

/// The message of the client that an action records, where it records one.
pub open spec fn message_recorded(a: GrpcActionView) -> Option<Seq<char>> {
    match a {
        GrpcActionView::Record(e) => if e.event_type == GrpcEventType::ClientMessage {
            Some(e.content)
        } else {
            None
        },
        _ => None,
    }
}

/// The rendered message is the one that goes out, in one call and with the service, method and
/// metadata of the session, whoever streams; and where it goes out with the call, what is recorded
/// of it later is the message of that call.
pub proof fn rendered_message_goes_out(
    s: GrpcSessionView,
    client_streaming: bool,
    server_streaming: bool,
    message: Seq<char>,
    elapsed: u128,
    headers: GrpcHeadersView,
    failure: GrpcFailureView,
)
    requires
        s.phase == (GrpcPhaseView::Rendering {
            client_streaming,
            server_streaming,
            given_up: false,
        }),
    ensures
        ({
            let r = after(s, GrpcInputView::Rendered { message, elapsed });
            let n = r.1.len() - 1;
            &&& n >= 0
            &&& forall|i: int| 0 <= i < n ==> message_sent(#[trigger] r.1[i]) is None
            &&& message_sent(r.1[n]) == Some(message)
            &&& r.1[n]->Call_service == s.service
            &&& r.1[n]->Call_method == s.method
            &&& r.1[n]->Call_metadata == s.metadata
            &&& !client_streaming ==> {
                let replied = after(r.0, GrpcInputView::Replied(headers)).1;
                let failed = after(r.0, GrpcInputView::ReplyFailed(failure)).1;
                &&& replied.len() > 0 && message_recorded(replied[0]) == message_sent(r.1[n])
                &&& failed.len() > 0 && message_recorded(failed[0]) == message_sent(r.1[n])
            }
            &&& client_streaming ==> {
                let replied = after(r.0, GrpcInputView::Replied(headers)).1;
                forall|i: int|
                    0 <= i < replied.len() ==> message_recorded(#[trigger] replied[i]) is None
            }
        }),
{
}

/// What is recorded for the message that went out with a call: the message itself, and nothing
/// where the client streams.
pub open spec fn sent_note(
    s: GrpcSessionView,
    client_streaming: bool,
    message: Seq<char>,
) -> Seq<GrpcActionView> {
    if client_streaming {
        Seq::empty()
    } else {
        seq![note(s, GrpcEventType::ClientMessage, message, Seq::empty(), None, None)]
    }
}

/// What is recorded for the headers of an answer.
pub open spec fn headers_note(s: GrpcSessionView, headers: GrpcHeadersView) -> GrpcActionView {
    note(
        s,
        GrpcEventType::Info,
        if headers.count == 0 {
            "Received response"@
        } else {
            "Received response with metadata"@
        },
        headers.entries,
        None,
        None,
    )
}

/// A call with a single answer records what went out, the headers, the answer as text and that all
/// went well; then it reads the events back and closes the connection with the status that they
/// give and the time that has passed.
pub proof fn course_of_a_single_answer(
    s: GrpcSessionView,
    client_streaming: bool,
    message: Seq<char>,
    headers: GrpcHeadersView,
    answer: Seq<char>,
    events: Seq<GrpcEventView>,
    elapsed: u128,
)
    requires
        s.phase == (GrpcPhaseView::Calling { client_streaming, server_streaming: false, message }),
    ensures
        ({
            let r = session_run(
                s,
                seq![
                    GrpcInputView::Replied(headers),
                    GrpcInputView::Serialized(answer),
                    GrpcInputView::EventsListed { events, elapsed },
                ],
            );
            &&& r.0.phase is Closed
            &&& r.1 == sent_note(s, client_streaming, message) + seq![
                headers_note(s, headers),
                GrpcActionView::Serialize,
                note(s, GrpcEventType::ServerMessage, answer, Seq::empty(), None, None),
                note(
                    s,
                    GrpcEventType::ConnectionEnd,
                    "Connection complete"@,
                    Seq::empty(),
                    None,
                    Some(0i32),
                ),
                GrpcActionView::ListEvents { connection_id: s.connection.id },
                GrpcActionView::Close {
                    connection_id: s.connection.id,
                    status: closing_status(events),
                    elapsed: kept_millis(elapsed) as i32,
                },
                GrpcActionView::Unlisten,
            ]
        }),
{
    let a = GrpcInputView::Replied(headers);
    let b = GrpcInputView::Serialized(answer);
    let c = GrpcInputView::EventsListed { events, elapsed };
    lemma_run_of_three(s, a, b, c);
    let x = after(s, a);
    let y = after(x.0, b);
    let z = after(y.0, c);
    assert(x.1 + y.1 + z.1 =~= sent_note(s, client_streaming, message) + seq![
        headers_note(s, headers),
        GrpcActionView::Serialize,
        note(s, GrpcEventType::ServerMessage, answer, Seq::empty(), None, None),
        note(
            s,
            GrpcEventType::ConnectionEnd,
            "Connection complete"@,
            Seq::empty(),
            None,
            Some(0i32),
        ),
        GrpcActionView::ListEvents { connection_id: s.connection.id },
        GrpcActionView::Close {
            connection_id: s.connection.id,
            status: closing_status(events),
            elapsed: kept_millis(elapsed) as i32,
        },
        GrpcActionView::Unlisten,
    ]);
}

/// A call that fails records what went out and the failure: with the code, message and metadata of
/// the server's status, or as unknown with the message of the failure; then it is closed as any
/// other.
pub proof fn course_of_a_failed_call(
    s: GrpcSessionView,
    client_streaming: bool,
    server_streaming: bool,
    message: Seq<char>,
    failure: GrpcFailureView,
    events: Seq<GrpcEventView>,
    elapsed: u128,
)
    requires
        s.phase == (GrpcPhaseView::Calling { client_streaming, server_streaming, message }),
    ensures
        ({
            let r = session_run(
                s,
                seq![
                    GrpcInputView::ReplyFailed(failure),
                    GrpcInputView::EventsListed { events, elapsed },
                ],
            );
            &&& r.0.phase is Closed
            &&& r.1 == sent_note(s, client_streaming, message) + seq![
                match failure.status {
                    Some(status) => note(
                        s,
                        GrpcEventType::ConnectionEnd,
                        "Failed to connect"@,
                        status.metadata,
                        Some(status.message),
                        Some(status.code),
                    ),
                    None => note(
                        s,
                        GrpcEventType::ConnectionEnd,
                        "Failed to connect"@,
                        Seq::empty(),
                        Some(failure.message),
                        Some(2i32),
                    ),
                },
                GrpcActionView::ListEvents { connection_id: s.connection.id },
                GrpcActionView::Close {
                    connection_id: s.connection.id,
                    status: closing_status(events),
                    elapsed: kept_millis(elapsed) as i32,
                },
                GrpcActionView::Unlisten,
            ]
        }),
{
    let a = GrpcInputView::ReplyFailed(failure);
    let b = GrpcInputView::EventsListed { events, elapsed };
    lemma_run_of_two(s, a, b);
    let x = after(s, a);
    let y = after(x.0, b);
    let n = sent_note(s, client_streaming, message).len() as int;
    assert(x.1 + y.1 =~= sent_note(s, client_streaming, message) + seq![
        x.1[n],
        x.1[n + 1],
        y.1[0],
        y.1[1],
    ]);
}

/// A call whose server streams records what went out and the headers, and waits for messages; each
/// message is recorded as text and each break with its code, text and metadata, and the stream goes
/// on; its end is recorded with the trailers, and the call is closed as any other.
pub proof fn course_of_a_stream(
    s: GrpcSessionView,
    client_streaming: bool,
    message: Seq<char>,
    headers: GrpcHeadersView,
    text: Seq<char>,
    broken: GrpcStatusView,
    trailers: Seq<(Seq<char>, Seq<char>)>,
    events: Seq<GrpcEventView>,
    elapsed: u128,
)
    requires
        s.phase == (GrpcPhaseView::Calling { client_streaming, server_streaming: true, message }),
    ensures
        ({
            let r = after(s, GrpcInputView::Replied(headers));
            let end = session_run(
                r.0,
                seq![
                    GrpcInputView::Ended { trailers },
                    GrpcInputView::EventsListed { events, elapsed },
                ],
            );
            &&& r.0.phase is Receiving
            &&& r.1 == sent_note(s, client_streaming, message) + seq![
                headers_note(s, headers),
                GrpcActionView::NextMessage,
            ]
            &&& after(r.0, GrpcInputView::Received(text)) == (
                r.0,
                seq![
                    note(s, GrpcEventType::ServerMessage, text, Seq::empty(), None, None),
                    GrpcActionView::NextMessage,
                ],
            )
            &&& after(r.0, GrpcInputView::Broken(broken)) == (
                r.0,
                seq![
                    note(
                        s,
                        GrpcEventType::ConnectionEnd,
                        broken.text,
                        broken.metadata,
                        None,
                        Some(broken.code),
                    ),
                    GrpcActionView::NextMessage,
                ],
            )
            &&& end.0.phase is Closed
            &&& end.1 == seq![
                note(
                    s,
                    GrpcEventType::ConnectionEnd,
                    "Connection complete"@,
                    trailers,
                    None,
                    Some(0i32),
                ),
                GrpcActionView::ListEvents { connection_id: s.connection.id },
                GrpcActionView::Close {
                    connection_id: s.connection.id,
                    status: closing_status(events),
                    elapsed: kept_millis(elapsed) as i32,
                },
                GrpcActionView::Unlisten,
            ]
        }),
{
    let r = after(s, GrpcInputView::Replied(headers));
    let a = GrpcInputView::Ended { trailers };
    let b = GrpcInputView::EventsListed { events, elapsed };
    assert(r.1 =~= sent_note(s, client_streaming, message) + seq![
        headers_note(s, headers),
        GrpcActionView::NextMessage,
    ]);
    lemma_run_of_two(r.0, a, b);
    let x = after(r.0, a);
    let y = after(x.0, b);
    assert(x.1 + y.1 =~= seq![x.1[0], x.1[1], y.1[0], y.1[1]]);
}

/// What is done for a user who gives up: the connection is recorded and closed as cancelled, after
/// the time that has passed, and no message is listened for any more.
pub open spec fn cancelled_notes(s: GrpcSessionView, elapsed: u128) -> Seq<GrpcActionView> {
    seq![
        note(s, GrpcEventType::ConnectionEnd, "Cancelled"@, Seq::empty(), None, Some(1i32)),
        GrpcActionView::Close {
            connection_id: s.connection.id,
            status: 1i32,
            elapsed: kept_millis(elapsed) as i32,
        },
        GrpcActionView::Unlisten,
    ]
}

/// A user who gives up during a call ends it at once; one who gives up while the message is
/// rendered ends it when the message is there, behind the record of the connection and the answer
/// to the command, and no call goes out.
pub proof fn course_of_giving_up(
    s: GrpcSessionView,
    at: u128,
    message: Seq<char>,
    elapsed: u128,
)
    ensures
        s.phase is Calling || s.phase is Answered || s.phase is Receiving ==> {
            let r = after(s, GrpcInputView::Cancelled { elapsed });
            r.0.phase is Closed && r.1 == cancelled_notes(s, elapsed)
        },
        s.phase is Rendering ==> {
            let r = session_run(
                s,
                seq![
                    GrpcInputView::Cancelled { elapsed: at },
                    GrpcInputView::Rendered { message, elapsed },
                ],
            );
            &&& r.0.phase is Closed
            &&& r.1 == seq![
                note(
                    s,
                    GrpcEventType::ConnectionStart,
                    "Connecting to "@ + s.request.url,
                    s.metadata,
                    None,
                    None,
                ),
                GrpcActionView::Return { connection_id: s.connection.id },
            ] + cancelled_notes(s, elapsed)
        },
{
    let a = GrpcInputView::Cancelled { elapsed: at };
    let b = GrpcInputView::Rendered { message, elapsed };
    lemma_run_of_two(s, a, b);
    let x = after(s, a);
    let y = after(x.0, b);
    if s.phase is Rendering {
        assert(x.1 + y.1 =~= seq![
            note(
                s,
                GrpcEventType::ConnectionStart,
                "Connecting to "@ + s.request.url,
                s.metadata,
                None,
                None,
            ),
            GrpcActionView::Return { connection_id: s.connection.id },
        ] + cancelled_notes(s, elapsed));
    }
}

/// A connection that is not made is stored as it was, closed, with the error and the time that has
/// passed, and the command is answered with its id; a method that is not there refuses the command;
/// a message that is not rendered hands its error on. The session is over in each case.
pub proof fn course_of_an_early_failure(s: GrpcSessionView, error: Seq<char>, elapsed: u128)
    ensures
        s.phase is Connecting ==> {
            let r = after(s, GrpcInputView::ConnectFailed { error, elapsed });
            &&& r.0.phase is Closed
            &&& r.1 == seq![
                GrpcActionView::Store(
                    GrpcConnectionView {
                        id: s.connection.id,
                        workspace_id: s.connection.workspace_id,
                        request_id: s.connection.request_id,
                        url: s.connection.url,
                        status: s.connection.status,
                        elapsed: kept_millis(elapsed) as i32,
                        state: GrpcConnectionState::Closed,
                        error: Some(error),
                        rest: s.connection.rest,
                    },
                ),
                GrpcActionView::Return { connection_id: s.connection.id },
            ]
        },
        s.phase is Locating ==> {
            let r = after(s, GrpcInputView::MethodMissing { error });
            r.0.phase is Closed && r.1 == seq![GrpcActionView::Refuse(error)]
        },
        s.phase is Rendering ==> {
            let r = after(s, GrpcInputView::RenderFailed { error });
            r.0.phase is Closed && r.1 == seq![GrpcActionView::HandOn { error }]
        },
{
}

/// Whether a session waits for an input.
pub open spec fn session_waits_for(s: GrpcSessionView, input: GrpcInputView) -> bool {
    match s.phase {
        GrpcPhaseView::Connecting => input is Connected || input is ConnectFailed,
        GrpcPhaseView::Locating => input is MethodFound || input is MethodMissing,
        GrpcPhaseView::Rendering { .. } => input is Rendered || input is RenderFailed || input
            is Cancelled,
        GrpcPhaseView::Calling { .. } => input is Replied || input is ReplyFailed || input
            is Cancelled,
        GrpcPhaseView::Answered => input is Serialized || input is Cancelled,
        GrpcPhaseView::Receiving => input is Received || input is Broken || input is Ended || input
            is Cancelled,
        GrpcPhaseView::Closing => input is EventsListed,
        GrpcPhaseView::Closed => false,
    }
}

/// What a session does not wait for changes nothing.
pub proof fn session_keeps_waiting(s: GrpcSessionView, input: GrpcInputView)
    requires
        !session_waits_for(s, input),
    ensures
        after(s, input) == (s, Seq::<GrpcActionView>::empty()),
{
}

/// What a server is reached with and what it answers is seen with all that it holds.
pub proof fn answers_are_seen_whole(t: GrpcTarget, h: GrpcHeaders, s: GrpcStatus, f: GrpcFailure)
    ensures
        t@.request_id == t.request_id@,
        t@.uri == t.uri@,
        t@.proto_files == texts_of(t.proto_files@),
        t@.metadata == pairs_of(t.metadata@),
        t@.validate_certificates == t.validate_certificates,
        h@.count == h.count,
        h@.entries == pairs_of(h.entries@),
        s@.code == s.code,
        s@.message == s.message@,
        s@.text == s.text@,
        s@.metadata == pairs_of(s.metadata@),
        f@.message == f.message@,
        f@.status is Some <==> f.status is Some,
        f.status matches Some(x) ==> f@.status == Some(x@),
{
}

/// What a session hears is seen with all that it holds.
pub proof fn inputs_are_seen_whole(i: GrpcInput)
    ensures
        i matches GrpcInput::ConnectFailed { error, elapsed } ==> i@
            == (GrpcInputView::ConnectFailed { error: error@, elapsed }),
        i is Connected <==> i@ is Connected,
        i matches GrpcInput::MethodMissing { error } ==> i@ == (GrpcInputView::MethodMissing {
            error: error@,
        }),
        i matches GrpcInput::MethodFound { client_streaming, server_streaming } ==> i@
            == (GrpcInputView::MethodFound { client_streaming, server_streaming }),
        i matches GrpcInput::Rendered { message, elapsed } ==> i@ == (GrpcInputView::Rendered {
            message: message@,
            elapsed,
        }),
        i matches GrpcInput::RenderFailed { error } ==> i@ == (GrpcInputView::RenderFailed {
            error: error@,
        }),
        i matches GrpcInput::Replied(h) ==> i@ == GrpcInputView::Replied(h@),
        i matches GrpcInput::ReplyFailed(f) ==> i@ == GrpcInputView::ReplyFailed(f@),
        i matches GrpcInput::Serialized(t) ==> i@ == GrpcInputView::Serialized(t@),
        i matches GrpcInput::Received(t) ==> i@ == GrpcInputView::Received(t@),
        i matches GrpcInput::Ended { trailers } ==> i@ == (GrpcInputView::Ended {
            trailers: pairs_of(trailers@),
        }),
        i matches GrpcInput::Broken(s) ==> i@ == GrpcInputView::Broken(s@),
        i matches GrpcInput::EventsListed { events, elapsed } ==> i@
            == (GrpcInputView::EventsListed { events: views(events@), elapsed }),
        i matches GrpcInput::Cancelled { elapsed } ==> i@ == (GrpcInputView::Cancelled { elapsed }),
{
}

/// What a session has done is seen with all that it holds.
pub proof fn actions_are_seen_whole(a: GrpcAction)
    ensures
        a matches GrpcAction::Connect(t) ==> a@ == GrpcActionView::Connect(t@),
        a matches GrpcAction::FindMethod { service, method } ==> a@ == (GrpcActionView::FindMethod {
            service: service@,
            method: method@,
        }),
        a matches GrpcAction::Listen { channel } ==> a@ == (GrpcActionView::Listen {
            channel: channel@,
        }),
        a matches GrpcAction::Render { template } ==> a@ == (GrpcActionView::Render {
            template: template@,
        }),
        a matches GrpcAction::Call { kind, service, method, message, metadata } ==> a@
            == (GrpcActionView::Call {
            kind,
            service: service@,
            method: method@,
            message: message@,
            metadata: pairs_of(metadata@),
        }),
        a is Serialize <==> a@ is Serialize,
        a is NextMessage <==> a@ is NextMessage,
        a matches GrpcAction::ListEvents { connection_id } ==> a@ == (GrpcActionView::ListEvents {
            connection_id: connection_id@,
        }),
        a matches GrpcAction::Record(e) ==> a@ == GrpcActionView::Record(e@),
        a matches GrpcAction::Store(c) ==> a@ == GrpcActionView::Store(c@),
        a matches GrpcAction::Close { connection_id, status, elapsed } ==> a@
            == (GrpcActionView::Close { connection_id: connection_id@, status, elapsed }),
        a is Unlisten <==> a@ is Unlisten,
        a matches GrpcAction::Return { connection_id } ==> a@ == (GrpcActionView::Return {
            connection_id: connection_id@,
        }),
        a matches GrpcAction::Refuse(e) ==> a@ == GrpcActionView::Refuse(e.0@),
        a matches GrpcAction::HandOn { error } ==> a@ == (GrpcActionView::HandOn { error: error@ }),
{
}

} // verus!
