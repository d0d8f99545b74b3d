use yaak_app::grpc::{
    closed_status, elapsed_millis, end_connection, fail_connection, new_connection, GrpcConnection,
    GrpcConnectionState, GrpcEvent, GrpcEventType,
};
use yaak_app::grpc_channel::{ChannelAction, ChannelInput, ClientChannel, IncomingMsg};
use yaak_app::grpc_session::{
    call_kind, grpc_target, CallKind, GrpcAction, GrpcFailure, GrpcHeaders, GrpcInput, GrpcSession, GrpcStatus,
};
use yaak_app::models::GrpcRequest;

fn s(text: &str) -> String {
    text.to_string()
}

fn request() -> GrpcRequest {
    GrpcRequest {
        id: s("gr"),
        workspace_id: s("wk"),
        url: s("localhost:50051"),
        service: Some(s("Greeter")),
        method: Some(s("Hello")),
        message: s("{\"a\":1}"),
        ..Default::default()
    }
}

fn connection(r: &GrpcRequest) -> GrpcConnection {
    GrpcConnection { id: s("conn"), ..new_connection(r) }
}

fn metadata() -> Vec<(String, String)> {
    vec![(s("token"), s("t"))]
}

fn open(r: GrpcRequest) -> (GrpcSession, GrpcAction) {
    let c = connection(&r);
    GrpcSession::open(r, metadata(), c, vec![s("a.proto"), s("b.proto")], true).unwrap()
}

fn calling(client_streaming: bool, server_streaming: bool) -> GrpcSession {
    let (g, _) = open(request());
    let (g, _) = g.step(GrpcInput::Connected);
    let (g, _) = g.step(GrpcInput::MethodFound { client_streaming, server_streaming });
    let (g, _) = g.step(GrpcInput::Rendered { message: s("{\"a\":2}"), elapsed: 1 });
    assert!(g.is_listening());
    g
}

fn event(a: &GrpcAction) -> &GrpcEvent {
    match a {
        GrpcAction::Record(e) => {
            assert_eq!(e.workspace_id, "wk");
            assert_eq!(e.request_id, "gr");
            assert_eq!(e.connection_id, "conn");
            e
        }
        other => panic!("{other:?}"),
    }
}

fn status(code: i32) -> GrpcStatus {
    GrpcStatus {
        code,
        message: s("went wrong"),
        text: s("status: went wrong"),
        metadata: vec![(s("k"), s("v"))],
    }
}

fn stored(event_type: GrpcEventType, status: Option<i32>) -> GrpcEvent {
    GrpcEvent {
        workspace_id: s("wk"),
        request_id: s("gr"),
        connection_id: s("conn"),
        event_type,
        content: String::new(),
        metadata: vec![],
        error: None,
        status,
    }
}

#[test]
fn connection_begins_without_a_status() {
    let c = new_connection(&request());
    assert_eq!(c.id, "");
    assert_eq!(c.workspace_id, "wk");
    assert_eq!(c.request_id, "gr");
    assert_eq!(c.url, "localhost:50051");
    assert_eq!(c.status, -1);
    assert_eq!(c.elapsed, 0);
    assert_eq!(c.state, GrpcConnectionState::Initialized);
    assert_eq!(c.error, None);
}

#[test]
fn connection_ends_with_status_and_time() {
    let c = end_connection(connection(&request()), 5, 77);
    assert_eq!((c.status, c.elapsed, c.state), (5, 77, GrpcConnectionState::Closed));
    assert_eq!(c.id, "conn");
    let f = fail_connection(connection(&request()), s("refused"), 3);
    assert_eq!((f.status, f.elapsed, f.state), (-1, 3, GrpcConnectionState::Closed));
    assert_eq!(f.error, Some(s("refused")));
}

#[test]
fn long_times_wrap_around() {
    for ms in [0u128, 1, 2147483647, 2147483648, 4294967295, 4294967296, 4294967301, u128::MAX] {
        assert_eq!(elapsed_millis(ms), ms as i32);
    }
    assert_eq!(elapsed_millis(2147483648), -2147483648);
    assert_eq!(elapsed_millis(4294967301), 5);
}

#[test]
fn first_end_decides_the_status() {
    assert_eq!(closed_status(&vec![]), 14);
    assert_eq!(closed_status(&vec![stored(GrpcEventType::Info, Some(3))]), 14);
    assert_eq!(closed_status(&vec![stored(GrpcEventType::ConnectionEnd, None), stored(GrpcEventType::ConnectionEnd, Some(0))]), 14);
    assert_eq!(
        closed_status(&vec![
            stored(GrpcEventType::ServerMessage, None),
            stored(GrpcEventType::ConnectionEnd, Some(7)),
            stored(GrpcEventType::ConnectionEnd, Some(0)),
        ]),
        7
    );
}

#[test]
fn calls_are_told_by_who_streams() {
    assert_eq!(call_kind(true, true), CallKind::Streaming);
    assert_eq!(call_kind(true, false), CallKind::ClientStreaming);
    assert_eq!(call_kind(false, true), CallKind::ServerStreaming);
    assert_eq!(call_kind(false, false), CallKind::Unary);
}

#[test]
fn service_and_method_are_required() {
    for r in [
        GrpcRequest { service: None, ..request() },
        GrpcRequest { method: None, ..request() },
        GrpcRequest { service: None, method: None, ..request() },
    ] {
        let c = connection(&r);
        let e = GrpcSession::open(r, metadata(), c, vec![], false).unwrap_err();
        assert_eq!(e.0, "Service and method are required");
    }
}

#[test]
fn session_connects_and_looks_the_method_up() {
    let (g, a) = open(request());
    match &a {
        GrpcAction::Connect(t) => {
            assert_eq!(t.request_id, "gr");
            assert_eq!(t.uri, "http://localhost:50051");
            assert_eq!(t.proto_files, vec!["a.proto", "b.proto"]);
            assert_eq!(t.metadata, metadata());
            assert!(t.validate_certificates);
        }
        other => panic!("{other:?}"),
    }
    let (_, a) = g.step(GrpcInput::Connected);
    assert_eq!(a.len(), 1);
    assert!(matches!(&a[0], GrpcAction::FindMethod { service, method }
        if service == "Greeter" && method == "Hello"));
}

#[test]
fn failed_connection_is_stored_and_answered() {
    let (g, _) = open(request());
    let (g, a) = g.step(GrpcInput::ConnectFailed { error: s("refused"), elapsed: 9 });
    assert_eq!(a.len(), 2);
    match &a[0] {
        GrpcAction::Store(c) => {
            assert_eq!(c.id, "conn");
            assert_eq!(c.status, -1);
            assert_eq!(c.elapsed, 9);
            assert_eq!(c.state, GrpcConnectionState::Closed);
            assert_eq!(c.error, Some(s("refused")));
        }
        other => panic!("{other:?}"),
    }
    assert!(matches!(&a[1], GrpcAction::Return { connection_id } if connection_id == "conn"));
    assert_eq!(g.step(GrpcInput::Connected).1.len(), 0);
}

#[test]
fn missing_method_is_refused() {
    let (g, _) = open(request());
    let (g, _) = g.step(GrpcInput::Connected);
    let (_, a) = g.step(GrpcInput::MethodMissing { error: s("no such method") });
    assert_eq!(a.len(), 1);
    assert!(matches!(&a[0], GrpcAction::Refuse(e) if e.0 == "no such method"));
}

#[test]
fn empty_message_stands_for_an_empty_object() {
    for (message, expected) in [("", "{}"), ("{\"a\":1}", "{\"a\":1}")] {
        let (g, _) = open(GrpcRequest { message: s(message), ..request() });
        let (g, _) = g.step(GrpcInput::Connected);
        let (g, a) =
            g.step(GrpcInput::MethodFound { client_streaming: false, server_streaming: false });
        assert_eq!(a.len(), 2);
        assert!(matches!(&a[0], GrpcAction::Listen { channel } if channel == "grpc_client_msg_conn"));
        assert!(matches!(&a[1], GrpcAction::Render { template } if template == expected));
        let (_, a) = g.step(GrpcInput::RenderFailed { error: s("no variable") });
        assert_eq!(a.len(), 1);
        assert!(matches!(&a[0], GrpcAction::HandOn { error } if error == "no variable"));
    }
}

#[test]
fn call_goes_out_behind_its_first_event() {
    let (g, _) = open(request());
    let (g, _) = g.step(GrpcInput::Connected);
    let (g, _) = g.step(GrpcInput::MethodFound { client_streaming: false, server_streaming: true });
    assert!(!g.is_listening());
    let (_, a) = g.step(GrpcInput::Rendered { message: s("{\"a\":2}"), elapsed: 1 });
    assert_eq!(a.len(), 3);
    let e = event(&a[0]);
    assert_eq!(e.event_type, GrpcEventType::ConnectionStart);
    assert_eq!(e.content, "Connecting to localhost:50051");
    assert_eq!(e.metadata, metadata());
    assert!(matches!(&a[1], GrpcAction::Return { connection_id } if connection_id == "conn"));
    match &a[2] {
        GrpcAction::Call { kind, service, method, message, metadata: m } => {
            assert_eq!(*kind, CallKind::ServerStreaming);
            assert_eq!((service.as_str(), method.as_str()), ("Greeter", "Hello"));
            assert_eq!(message, "{\"a\":2}");
            assert_eq!(*m, metadata());
        }
        other => panic!("{other:?}"),
    }
}

#[test]
fn single_answer_is_recorded_and_closed() {
    let (g, a) = calling(false, false).step(GrpcInput::Replied(GrpcHeaders {
        count: 2,
        entries: vec![(s("h"), s("1"))],
    }));
    assert_eq!(a.len(), 3);
    let sent = event(&a[0]);
    assert_eq!(sent.event_type, GrpcEventType::ClientMessage);
    assert_eq!(sent.content, "{\"a\":2}");
    let headers = event(&a[1]);
    assert_eq!(headers.event_type, GrpcEventType::Info);
    assert_eq!(headers.content, "Received response with metadata");
    assert_eq!(headers.metadata, vec![(s("h"), s("1"))]);
    assert!(matches!(a[2], GrpcAction::Serialize));

    let (g, a) = g.step(GrpcInput::Serialized(s("{\"b\":3}")));
    assert_eq!(a.len(), 3);
    assert_eq!(event(&a[0]).event_type, GrpcEventType::ServerMessage);
    assert_eq!(event(&a[0]).content, "{\"b\":3}");
    let end = event(&a[1]);
    assert_eq!(end.event_type, GrpcEventType::ConnectionEnd);
    assert_eq!(end.content, "Connection complete");
    assert_eq!(end.status, Some(0));
    assert_eq!(end.error, None);
    assert!(matches!(&a[2], GrpcAction::ListEvents { connection_id } if connection_id == "conn"));
    assert!(!g.is_listening());

    let events = vec![stored(GrpcEventType::ConnectionEnd, Some(0))];
    let (g, a) = g.step(GrpcInput::EventsListed { events, elapsed: 12 });
    assert_eq!(a.len(), 2);
    assert!(matches!(&a[0], GrpcAction::Close { connection_id, status: 0, elapsed: 12 }
        if connection_id == "conn"));
    assert!(matches!(a[1], GrpcAction::Unlisten));
    assert_eq!(g.step(GrpcInput::Cancelled { elapsed: 13 }).1.len(), 0);
}

#[test]
fn streaming_client_records_no_message_of_its_own() {
    let (_, a) =
        calling(true, false).step(GrpcInput::Replied(GrpcHeaders { count: 0, entries: vec![] }));
    assert_eq!(a.len(), 2);
    assert_eq!(event(&a[0]).content, "Received response");
    assert!(matches!(a[1], GrpcAction::Serialize));
}

#[test]
fn failed_call_is_recorded_with_its_status() {
    let (g, a) = calling(false, false).step(GrpcInput::ReplyFailed(GrpcFailure {
        message: s("transport"),
        status: Some(status(5)),
    }));
    assert_eq!(a.len(), 3);
    assert_eq!(event(&a[0]).event_type, GrpcEventType::ClientMessage);
    let end = event(&a[1]);
    assert_eq!(end.event_type, GrpcEventType::ConnectionEnd);
    assert_eq!(end.content, "Failed to connect");
    assert_eq!(end.error, Some(s("went wrong")));
    assert_eq!(end.status, Some(5));
    assert_eq!(end.metadata, vec![(s("k"), s("v"))]);
    assert!(matches!(&a[2], GrpcAction::ListEvents { .. }));
    assert!(!g.is_listening());
}

#[test]
fn failed_call_without_a_status_is_unknown() {
    let (_, a) = calling(true, true)
        .step(GrpcInput::ReplyFailed(GrpcFailure { message: s("transport"), status: None }));
    assert_eq!(a.len(), 2);
    let end = event(&a[0]);
    assert_eq!(end.error, Some(s("transport")));
    assert_eq!(end.status, Some(2));
    assert_eq!(end.content, "Failed to connect");
    assert_eq!(end.metadata, vec![]);
}

#[test]
fn stream_is_recorded_until_it_ends() {
    let (g, a) =
        calling(true, true).step(GrpcInput::Replied(GrpcHeaders { count: 0, entries: vec![] }));
    assert_eq!(a.len(), 2);
    assert!(matches!(a[1], GrpcAction::NextMessage));
    let (g, a) = g.step(GrpcInput::Received(s("one")));
    assert_eq!(event(&a[0]).content, "one");
    assert_eq!(event(&a[0]).event_type, GrpcEventType::ServerMessage);
    assert!(matches!(a[1], GrpcAction::NextMessage));
    let (g, a) = g.step(GrpcInput::Broken(status(8)));
    let broken = event(&a[0]);
    assert_eq!(broken.event_type, GrpcEventType::ConnectionEnd);
    assert_eq!(broken.content, "status: went wrong");
    assert_eq!(broken.status, Some(8));
    assert_eq!(broken.error, None);
    assert_eq!(broken.metadata, vec![(s("k"), s("v"))]);
    assert!(matches!(a[1], GrpcAction::NextMessage));
    let (g, a) = g.step(GrpcInput::Ended { trailers: vec![(s("t"), s("1"))] });
    let end = event(&a[0]);
    assert_eq!(end.content, "Connection complete");
    assert_eq!(end.status, Some(0));
    assert_eq!(end.metadata, vec![(s("t"), s("1"))]);
    let events = vec![
        stored(GrpcEventType::ConnectionEnd, Some(8)),
        stored(GrpcEventType::ConnectionEnd, Some(0)),
    ];
    let (_, a) = g.step(GrpcInput::EventsListed { events, elapsed: 1 });
    assert!(matches!(&a[0], GrpcAction::Close { status: 8, .. }));
}

#[test]
fn user_can_give_up_at_any_point_of_a_call() {
    let answered =
        calling(false, false).step(GrpcInput::Replied(GrpcHeaders { count: 0, entries: vec![] })).0;
    let receiving =
        calling(false, true).step(GrpcInput::Replied(GrpcHeaders { count: 0, entries: vec![] })).0;
    for g in [calling(false, false), answered, receiving] {
        let (g, a) = g.step(GrpcInput::Cancelled { elapsed: 4 });
        assert_eq!(a.len(), 3);
        assert_eq!(event(&a[0]).content, "Cancelled");
        assert_eq!(event(&a[0]).event_type, GrpcEventType::ConnectionEnd);
        assert_eq!(event(&a[0]).status, Some(1));
        assert!(matches!(&a[1], GrpcAction::Close { status: 1, elapsed: 4, .. }));
        assert!(matches!(a[2], GrpcAction::Unlisten));
        assert_eq!(g.step(GrpcInput::Received(s("late"))).1.len(), 0);
    }
}

#[test]
fn giving_up_early_is_kept() {
    let (g, _) = open(request());
    let (g, _) = g.step(GrpcInput::Connected);
    let (g, _) = g.step(GrpcInput::MethodFound { client_streaming: false, server_streaming: false });
    let (g, a) = g.step(GrpcInput::Cancelled { elapsed: 3 });
    assert_eq!(a.len(), 0);
    let (g, a) = g.step(GrpcInput::Rendered { message: s("{}"), elapsed: 5 });
    assert_eq!(a.len(), 5);
    assert_eq!(event(&a[0]).event_type, GrpcEventType::ConnectionStart);
    assert!(matches!(&a[1], GrpcAction::Return { connection_id } if connection_id == "conn"));
    assert_eq!(event(&a[2]).content, "Cancelled");
    assert!(matches!(&a[3], GrpcAction::Close { status: 1, elapsed: 5, .. }));
    assert!(matches!(a[4], GrpcAction::Unlisten));
    assert_eq!(g.step(GrpcInput::Replied(GrpcHeaders { count: 0, entries: vec![] })).1.len(), 0);
}

#[test]
fn servers_are_reached_by_their_address() {
    let t = grpc_target(&request(), &metadata(), vec![s("a.proto")], false);
    assert_eq!(t.request_id, "gr");
    assert_eq!(t.uri, "http://localhost:50051");
    assert_eq!(t.proto_files, vec!["a.proto"]);
    assert_eq!(t.metadata, metadata());
    assert!(!t.validate_certificates);
}

#[test]
fn nothing_can_be_given_up_before_the_call() {
    let (g, _) = open(request());
    let (g, a) = g.step(GrpcInput::Cancelled { elapsed: 1 });
    assert_eq!(a.len(), 0);
    assert_eq!(g.step(GrpcInput::Connected).1.len(), 1);
}

fn channel() -> ClientChannel {
    ClientChannel::open(&request(), &connection(&request()))
}

fn message(text: &str) -> ChannelInput {
    ChannelInput::Msg(IncomingMsg::Message(s(text)))
}

#[test]
fn messages_are_taken_while_the_channel_is_open() {
    let mut c = channel();
    assert!(matches!(c.hear(message("one")), ChannelAction::Render { template } if template == "one"));
    assert!(matches!(c.hear(ChannelInput::Unreadable(s("bad"))), ChannelAction::Report { error } if error == "bad"));
    assert!(c.is_open());
    assert!(matches!(c.hear(message("two")), ChannelAction::Render { template } if template == "two"));
}

#[test]
fn nothing_is_heard_after_the_last_message() {
    let mut c = channel();
    assert!(matches!(c.hear(ChannelInput::Msg(IncomingMsg::Commit)), ChannelAction::Finish));
    assert!(!c.is_open());
    assert!(matches!(c.hear(message("late")), ChannelAction::Ignore));
    assert!(matches!(c.hear(ChannelInput::Msg(IncomingMsg::Cancel)), ChannelAction::Ignore));
    assert!(matches!(c.hear(ChannelInput::Unreadable(s("bad"))), ChannelAction::Ignore));
}

#[test]
fn nothing_is_heard_after_giving_up() {
    let mut c = channel();
    assert!(matches!(c.hear(ChannelInput::Msg(IncomingMsg::Cancel)), ChannelAction::GiveUp));
    assert!(!c.is_open());
    assert!(matches!(c.hear(ChannelInput::Msg(IncomingMsg::Cancel)), ChannelAction::Ignore));
    assert!(matches!(c.hear(message("late")), ChannelAction::Ignore));
}

#[test]
fn messages_go_out_unless_they_are_rejected() {
    let c = channel();
    let (e, goes_out) = c.deliver(s("{}"), None);
    assert!(goes_out);
    assert_eq!(e.event_type, GrpcEventType::ClientMessage);
    assert_eq!(e.content, "{}");
    assert_eq!(e.connection_id, "conn");
    let (e, goes_out) = c.deliver(s("{"), Some(s("unexpected end")));
    assert!(!goes_out);
    assert_eq!(e.event_type, GrpcEventType::Error);
    assert_eq!(e.content, "unexpected end");
    assert_eq!(e.request_id, "gr");
}
