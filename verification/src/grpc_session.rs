//! The course of one gRPC call, from the first attempt to connect until the connection is
//! closed. The session decides; whoever drives it carries out its actions in order, and hands
//! back what came of each that has an outcome.
use vstd::prelude::*;

use crate::error::{generic_error, GenericError};
use crate::grpc::{
    closed_status, closing_status, elapsed_millis, fail_connection, kept_millis, not_made,
    GrpcConnection, GrpcConnectionView, GrpcEvent, GrpcEventType, GrpcEventView, CODE_CANCELLED,
    CODE_OK, CODE_UNKNOWN,
};
use crate::models::{views, GrpcRequest, GrpcRequestView};
use crate::text::{copy_pairs, pairs_of, texts_of};
use crate::uri::{addressed, safe_uri};

verus! {

/// The headers of a reply: how many there are, and those of them that are text.
#[derive(Debug)]
pub struct GrpcHeaders {
    pub count: usize,
    pub entries: Vec<(String, String)>,
}

/// What a `GrpcHeaders` holds.
#[verifier::ext_equal]
pub struct GrpcHeadersView {
    pub count: usize,
    pub entries: Seq<(Seq<char>, Seq<char>)>,
}

impl View for GrpcHeaders {
    type V = GrpcHeadersView;

    open spec fn view(&self) -> GrpcHeadersView {
        GrpcHeadersView { count: self.count, entries: pairs_of(self.entries@) }
    }
}

/// A status that the server sent; `text` is how it reads as a whole.
#[derive(Debug)]
pub struct GrpcStatus {
    pub code: i32,
    pub message: String,
    pub text: String,
    pub metadata: Vec<(String, String)>,
}

/// What a `GrpcStatus` holds.
#[verifier::ext_equal]
pub struct GrpcStatusView {
    pub code: i32,
    pub message: Seq<char>,
    pub text: Seq<char>,
    pub metadata: Seq<(Seq<char>, Seq<char>)>,
}

impl View for GrpcStatus {
    type V = GrpcStatusView;

    open spec fn view(&self) -> GrpcStatusView {
        GrpcStatusView {
            code: self.code,
            message: self.message@,
            text: self.text@,
            metadata: pairs_of(self.metadata@),
        }
    }
}

/// Why a call failed: with the status of the server, or without one.
#[derive(Debug)]
pub struct GrpcFailure {
    pub message: String,
    pub status: Option<GrpcStatus>,
}

/// What a `GrpcFailure` holds.
#[verifier::ext_equal]
pub struct GrpcFailureView {
    pub message: Seq<char>,
    pub status: Option<GrpcStatusView>,
}

impl View for GrpcFailure {
    type V = GrpcFailureView;

    open spec fn view(&self) -> GrpcFailureView {
        GrpcFailureView {
            message: self.message@,
            status: match self.status {
                Some(s) => Some(s@),
                None => None,
            },
        }
    }
}

/// What a server is reached with: the request that asks, its address, the files that describe its
/// services, the metadata that goes along, and whether its certificate has to be valid.
#[derive(Debug)]
pub struct GrpcTarget {
    pub request_id: String,
    pub uri: String,
    pub proto_files: Vec<String>,
    pub metadata: Vec<(String, String)>,
    pub validate_certificates: bool,
}

/// What a `GrpcTarget` holds.
#[verifier::ext_equal]
pub struct GrpcTargetView {
    pub request_id: Seq<char>,
    pub uri: Seq<char>,
    pub proto_files: Seq<Seq<char>>,
    pub metadata: Seq<(Seq<char>, Seq<char>)>,
    pub validate_certificates: bool,
}

impl View for GrpcTarget {
    type V = GrpcTargetView;

    open spec fn view(&self) -> GrpcTargetView {
        GrpcTargetView {
            request_id: self.request_id@,
            uri: self.uri@,
            proto_files: texts_of(self.proto_files@),
            metadata: pairs_of(self.metadata@),
            validate_certificates: self.validate_certificates,
        }
    }
}

/// What the server of a rendered request is reached with.
pub open spec fn target_of(
    request: GrpcRequestView,
    metadata: Seq<(Seq<char>, Seq<char>)>,
    proto_files: Seq<Seq<char>>,
    validate_certificates: bool,
) -> GrpcTargetView {
    GrpcTargetView {
        request_id: request.id,
        uri: addressed(request.url),
        proto_files,
        metadata,
        validate_certificates,
    }
}

/// What the server of a rendered request is reached with, to ask for its services or to connect.
pub fn grpc_target(
    request: &GrpcRequest,
    metadata: &Vec<(String, String)>,
    proto_files: Vec<String>,
    validate_certificates: bool,
) -> (t: GrpcTarget)
    ensures
        t@ == target_of(
            request@,
            pairs_of(metadata@),
            texts_of(proto_files@),
            validate_certificates,
        ),
{
    GrpcTarget {
        request_id: request.id.clone(),
        uri: safe_uri(request.url.as_str()),
        proto_files,
        metadata: copy_pairs(metadata),
        validate_certificates,
    }
}

/// Which sides of a call send a stream of messages.
#[derive(Debug, Clone, Copy, PartialEq, Eq, Structural)]
pub enum CallKind {
    Unary,
    ServerStreaming,
    ClientStreaming,
    Streaming,
}

/// How far a session has come: what it waits for.
#[derive(Debug)]
pub enum GrpcPhase {
    Connecting,
    Locating,
    Rendering { client_streaming: bool, server_streaming: bool, given_up: bool },
    Calling { client_streaming: bool, server_streaming: bool, message: String },
    Answered,
    Receiving,
    Closing,
    Closed,
}

/// What a `GrpcPhase` holds.
#[verifier::ext_equal]
pub enum GrpcPhaseView {
    Connecting,
    Locating,
    Rendering { client_streaming: bool, server_streaming: bool, given_up: bool },
    Calling { client_streaming: bool, server_streaming: bool, message: Seq<char> },
    Answered,
    Receiving,
    Closing,
    Closed,
}

impl View for GrpcPhase {
    type V = GrpcPhaseView;

    open spec fn view(&self) -> GrpcPhaseView {
        match self {
            GrpcPhase::Connecting => GrpcPhaseView::Connecting,
            GrpcPhase::Locating => GrpcPhaseView::Locating,
            GrpcPhase::Rendering { client_streaming, server_streaming, given_up } => {
                GrpcPhaseView::Rendering {
                    client_streaming: *client_streaming,
                    server_streaming: *server_streaming,
                    given_up: *given_up,
                }
            },
            GrpcPhase::Calling { client_streaming, server_streaming, message } => {
                GrpcPhaseView::Calling {
                    client_streaming: *client_streaming,
                    server_streaming: *server_streaming,
                    message: message@,
                }
            },
            GrpcPhase::Answered => GrpcPhaseView::Answered,
            GrpcPhase::Receiving => GrpcPhaseView::Receiving,
            GrpcPhase::Closing => GrpcPhaseView::Closing,
            GrpcPhase::Closed => GrpcPhaseView::Closed,
        }
    }
}

/// What came of an action; times are milliseconds since the session began to connect.
#[derive(Debug)]
pub enum GrpcInput {
    /// No connection was made.
    ConnectFailed { error: String, elapsed: u128 },
    /// The connection was made.
    Connected,
    /// The server has no such method.
    MethodMissing { error: String },
    /// The method, and which sides of it stream.
    MethodFound { client_streaming: bool, server_streaming: bool },
    /// The message with its variables filled in.
    Rendered { message: String, elapsed: u128 },
    /// The variables of the message could not be filled in.
    RenderFailed { error: String },
    /// The call was answered.
    Replied(GrpcHeaders),
    /// The call failed.
    ReplyFailed(GrpcFailure),
    /// The single message of the answer, as text.
    Serialized(String),
    /// A message of the stream, as text.
    Received(String),
    /// The stream ended.
    Ended { trailers: Vec<(String, String)> },
    /// The stream broke.
    Broken(GrpcStatus),
    /// The events that are recorded on the connection.
    EventsListed { events: Vec<GrpcEvent>, elapsed: u128 },
    /// The user gave up.
    Cancelled { elapsed: u128 },
}

/// What a `GrpcInput` holds.
#[verifier::ext_equal]
pub enum GrpcInputView {
    ConnectFailed { error: Seq<char>, elapsed: u128 },
    Connected,
    MethodMissing { error: Seq<char> },
    MethodFound { client_streaming: bool, server_streaming: bool },
    Rendered { message: Seq<char>, elapsed: u128 },
    RenderFailed { error: Seq<char> },
    Replied(GrpcHeadersView),
    ReplyFailed(GrpcFailureView),
    Serialized(Seq<char>),
    Received(Seq<char>),
    Ended { trailers: Seq<(Seq<char>, Seq<char>)> },
    Broken(GrpcStatusView),
    EventsListed { events: Seq<GrpcEventView>, elapsed: u128 },
    Cancelled { elapsed: u128 },
}

impl View for GrpcInput {
    type V = GrpcInputView;

    open spec fn view(&self) -> GrpcInputView {
        match self {
            GrpcInput::ConnectFailed { error, elapsed } => GrpcInputView::ConnectFailed {
                error: error@,
                elapsed: *elapsed,
            },
            GrpcInput::Connected => GrpcInputView::Connected,
            GrpcInput::MethodMissing { error } => GrpcInputView::MethodMissing { error: error@ },
            GrpcInput::MethodFound { client_streaming, server_streaming } => GrpcInputView::MethodFound {
                client_streaming: *client_streaming,
                server_streaming: *server_streaming,
            },
            GrpcInput::Rendered { message, elapsed } => GrpcInputView::Rendered {
                message: message@,
                elapsed: *elapsed,
            },
            GrpcInput::RenderFailed { error } => GrpcInputView::RenderFailed { error: error@ },
            GrpcInput::Replied(h) => GrpcInputView::Replied(h@),
            GrpcInput::ReplyFailed(f) => GrpcInputView::ReplyFailed(f@),
            GrpcInput::Serialized(t) => GrpcInputView::Serialized(t@),
            GrpcInput::Received(t) => GrpcInputView::Received(t@),
            GrpcInput::Ended { trailers } => GrpcInputView::Ended { trailers: pairs_of(trailers@) },
            GrpcInput::Broken(s) => GrpcInputView::Broken(s@),
            GrpcInput::EventsListed { events, elapsed } => GrpcInputView::EventsListed {
                events: views(events@),
                elapsed: *elapsed,
            },
            GrpcInput::Cancelled { elapsed } => GrpcInputView::Cancelled { elapsed: *elapsed },
        }
    }
}

/// What is to be done next.
#[derive(Debug)]
pub enum GrpcAction {
    /// Connect to the server.
    Connect(GrpcTarget),
    /// Look the method up on the connection.
    FindMethod { service: String, method: String },
    /// Listen for messages of the user under this name.
    Listen { channel: String },
    /// Fill in the variables of the message.
    Render { template: String },
    /// Make the call; `message` is sent where the client does not stream.
    Call {
        kind: CallKind,
        service: String,
        method: String,
        message: String,
        metadata: Vec<(String, String)>,
    },
    /// Write the single message of the answer as text.
    Serialize,
    /// Wait for the next message of the stream.
    NextMessage,
    /// Read back the events that are recorded on the connection.
    ListEvents { connection_id: String },
    /// Record an event.
    Record(GrpcEvent),
    /// Store the connection as it is here.
    Store(GrpcConnection),
    /// End the stored connection with this status and time.
    Close { connection_id: String, status: i32, elapsed: i32 },
    /// Stop listening for messages of the user.
    Unlisten,
    /// Answer the command with the id of the connection.
    Return { connection_id: String },
    /// Answer the command with an error of its own.
    Refuse(GenericError),
    /// Answer the command with the error that came of the last action, which reads like this.
    HandOn { error: String },
}

/// What a `GrpcAction` holds.
#[verifier::ext_equal]
pub enum GrpcActionView {
    Connect(GrpcTargetView),
    FindMethod { service: Seq<char>, method: Seq<char> },
    Listen { channel: Seq<char> },
    Render { template: Seq<char> },
    Call {
        kind: CallKind,
        service: Seq<char>,
        method: Seq<char>,
        message: Seq<char>,
        metadata: Seq<(Seq<char>, Seq<char>)>,
    },
    Serialize,
    NextMessage,
    ListEvents { connection_id: Seq<char> },
    Record(GrpcEventView),
    Store(GrpcConnectionView),
    Close { connection_id: Seq<char>, status: i32, elapsed: i32 },
    Unlisten,
    Return { connection_id: Seq<char> },
    Refuse(Seq<char>),
    HandOn { error: Seq<char> },
}

impl View for GrpcAction {
    type V = GrpcActionView;

    open spec fn view(&self) -> GrpcActionView {
        match self {
            GrpcAction::Connect(t) => GrpcActionView::Connect(t@),
            GrpcAction::FindMethod { service, method } => GrpcActionView::FindMethod {
                service: service@,
                method: method@,
            },
            GrpcAction::Listen { channel } => GrpcActionView::Listen { channel: channel@ },
            GrpcAction::Render { template } => GrpcActionView::Render { template: template@ },
            GrpcAction::Call { kind, service, method, message, metadata } => GrpcActionView::Call {
                kind: *kind,
                service: service@,
                method: method@,
                message: message@,
                metadata: pairs_of(metadata@),
            },
            GrpcAction::Serialize => GrpcActionView::Serialize,
            GrpcAction::NextMessage => GrpcActionView::NextMessage,
            GrpcAction::ListEvents { connection_id } => GrpcActionView::ListEvents {
                connection_id: connection_id@,
            },
            GrpcAction::Record(e) => GrpcActionView::Record(e@),
            GrpcAction::Store(c) => GrpcActionView::Store(c@),
            GrpcAction::Close { connection_id, status, elapsed } => GrpcActionView::Close {
                connection_id: connection_id@,
                status: *status,
                elapsed: *elapsed,
            },
            GrpcAction::Unlisten => GrpcActionView::Unlisten,
            GrpcAction::Return { connection_id } => GrpcActionView::Return {
                connection_id: connection_id@,
            },
            GrpcAction::Refuse(e) => GrpcActionView::Refuse(e@),
            GrpcAction::HandOn { error } => GrpcActionView::HandOn { error: error@ },
        }
    }
}

/// One gRPC call under way.
#[derive(Debug)]
pub struct GrpcSession {
    request: GrpcRequest,
    metadata: Vec<(String, String)>,
    connection: GrpcConnection,
    service: String,
    method: String,
    phase: GrpcPhase,
}

/// What a `GrpcSession` holds.
#[verifier::ext_equal]
pub struct GrpcSessionView {
    pub request: GrpcRequestView,
    pub metadata: Seq<(Seq<char>, Seq<char>)>,
    pub connection: GrpcConnectionView,
    pub service: Seq<char>,
    pub method: Seq<char>,
    pub phase: GrpcPhaseView,
}

impl View for GrpcSession {
    type V = GrpcSessionView;

    closed spec fn view(&self) -> GrpcSessionView {
        GrpcSessionView {
            request: self.request@,
            metadata: pairs_of(self.metadata@),
            connection: self.connection@,
            service: self.service@,
            method: self.method@,
            phase: self.phase@,
        }
    }
}

impl GrpcSessionView {
    /// The session in another phase.
    pub open spec fn at(self, phase: GrpcPhaseView) -> GrpcSessionView {
        GrpcSessionView { phase, ..self }
    }

    /// An event on the connection, without metadata, error and status.
    pub open spec fn event(self, event_type: GrpcEventType, content: Seq<char>) -> GrpcEventView {
        GrpcEventView {
            workspace_id: self.request.workspace_id,
            request_id: self.request.id,
            connection_id: self.connection.id,
            event_type,
            content,
            metadata: Seq::empty(),
            error: None,
            status: None,
        }
    }

    /// The event that opens the record of a connection.
    pub open spec fn start_event(self) -> GrpcEventView {
        GrpcEventView {
            metadata: self.metadata,
            ..self.event(GrpcEventType::ConnectionStart, "Connecting to "@ + self.request.url)
        }
    }

    /// The event for a message of the client.
    pub open spec fn client_message(self, message: Seq<char>) -> GrpcEventView {
        self.event(GrpcEventType::ClientMessage, message)
    }

    /// The event for a message of the server.
    pub open spec fn server_message(self, message: Seq<char>) -> GrpcEventView {
        self.event(GrpcEventType::ServerMessage, message)
    }

    /// The event for the headers of an answer.
    pub open spec fn headers_event(self, headers: GrpcHeadersView) -> GrpcEventView {
        GrpcEventView {
            metadata: headers.entries,
            ..self.event(
                GrpcEventType::Info,
                if headers.count == 0 {
                    "Received response"@
                } else {
                    "Received response with metadata"@
                },
            )
        }
    }

    /// The event for a call that failed.
    pub open spec fn failure_event(self, failure: GrpcFailureView) -> GrpcEventView {
        let e = self.event(GrpcEventType::ConnectionEnd, "Failed to connect"@);
        match failure.status {
            Some(s) => GrpcEventView {
                error: Some(s.message),
                status: Some(s.code),
                metadata: s.metadata,
                ..e
            },
            None => GrpcEventView {
                error: Some(failure.message),
                status: Some(CODE_UNKNOWN),
                ..e
            },
        }
    }

    /// The event for a connection that ended as it should.
    pub open spec fn complete_event(self, trailers: Seq<(Seq<char>, Seq<char>)>) -> GrpcEventView {
        GrpcEventView {
            metadata: trailers,
            status: Some(CODE_OK),
            ..self.event(GrpcEventType::ConnectionEnd, "Connection complete"@)
        }
    }

    /// The event for a stream that broke.
    pub open spec fn broken_event(self, status: GrpcStatusView) -> GrpcEventView {
        GrpcEventView {
            metadata: status.metadata,
            status: Some(status.code),
            ..self.event(GrpcEventType::ConnectionEnd, status.text)
        }
    }

    /// The event for a call that the user gave up.
    pub open spec fn cancelled_event(self) -> GrpcEventView {
        GrpcEventView {
            status: Some(CODE_CANCELLED),
            ..self.event(GrpcEventType::ConnectionEnd, "Cancelled"@)
        }
    }

    /// The name under which messages of the user arrive.
    pub open spec fn channel(self) -> Seq<char> {
        "grpc_client_msg_"@ + self.connection.id
    }

    /// The message before its variables are filled in: an empty one stands for an empty object.
    pub open spec fn template(self) -> Seq<char> {
        if self.request.message.len() == 0 {
            "{}"@
        } else {
            self.request.message
        }
    }

    /// Whether the call is out and its outcome is still awaited.
    pub open spec fn is_listening(self) -> bool {
        self.phase is Calling || self.phase is Answered || self.phase is Receiving
    }

    /// What is done once the message is rendered: the record of the connection begins, and the
    /// command is answered.
    pub open spec fn started(self) -> Seq<GrpcActionView> {
        seq![
            GrpcActionView::Record(self.start_event()),
            GrpcActionView::Return { connection_id: self.connection.id },
        ]
    }

    /// What is recorded for the message that went out with the call, where the client does not
    /// stream.
    pub open spec fn sent(self) -> Seq<GrpcActionView> {
        match self.phase {
            GrpcPhaseView::Calling { client_streaming, message, .. } => if client_streaming {
                Seq::empty()
            } else {
                seq![GrpcActionView::Record(self.client_message(message))]
            },
            _ => Seq::empty(),
        }
    }

    /// The wish to read back what was recorded.
    pub open spec fn list_events(self) -> GrpcActionView {
        GrpcActionView::ListEvents { connection_id: self.connection.id }
    }

    /// The end of the stored connection.
    pub open spec fn close(self, status: i32, elapsed: u128) -> GrpcActionView {
        GrpcActionView::Close {
            connection_id: self.connection.id,
            status,
            elapsed: kept_millis(elapsed) as i32,
        }
    }
}

/// What is done when the user gives up: it is recorded, the stored connection ends as cancelled,
/// and listening stops.
pub open spec fn giving_up(s: GrpcSessionView, elapsed: u128) -> Seq<GrpcActionView> {
    seq![
        GrpcActionView::Record(s.cancelled_event()),
        s.close(CODE_CANCELLED, elapsed),
        GrpcActionView::Unlisten,
    ]
}

/// The kind of call that a method makes.
pub open spec fn kind_of_call(client_streaming: bool, server_streaming: bool) -> CallKind {
    if client_streaming {
        if server_streaming {
            CallKind::Streaming
        } else {
            CallKind::ClientStreaming
        }
    } else {
        if server_streaming {
            CallKind::ServerStreaming
        } else {
            CallKind::Unary
        }
    }
}

/// The session after what came of an action, and what is to be done next. The user can give up as
/// soon as messages are listened for: while the message is rendered the wish is kept, and takes
/// the place of the call. An input that the session does not wait for changes nothing.
pub open spec fn after(s: GrpcSessionView, input: GrpcInputView) -> (
    GrpcSessionView,
    Seq<GrpcActionView>,
) {
    match (s.phase, input) {
        (GrpcPhaseView::Connecting, GrpcInputView::ConnectFailed { error, elapsed }) => (
            s.at(GrpcPhaseView::Closed),
            seq![
                GrpcActionView::Store(not_made(s.connection, error, kept_millis(elapsed) as i32)),
                GrpcActionView::Return { connection_id: s.connection.id },
            ],
        ),
        (GrpcPhaseView::Connecting, GrpcInputView::Connected) => (
            s.at(GrpcPhaseView::Locating),
            seq![GrpcActionView::FindMethod { service: s.service, method: s.method }],
        ),
        (GrpcPhaseView::Locating, GrpcInputView::MethodMissing { error }) => (
            s.at(GrpcPhaseView::Closed),
            seq![GrpcActionView::Refuse(error)],
        ),
        (
            GrpcPhaseView::Locating,
            GrpcInputView::MethodFound { client_streaming, server_streaming },
        ) => (
            s.at(
                GrpcPhaseView::Rendering { client_streaming, server_streaming, given_up: false },
            ),
            seq![
                GrpcActionView::Listen { channel: s.channel() },
                GrpcActionView::Render { template: s.template() },
            ],
        ),
        (
            GrpcPhaseView::Rendering { client_streaming, server_streaming, given_up },
            GrpcInputView::Rendered { message, elapsed },
        ) => if given_up {
            (s.at(GrpcPhaseView::Closed), s.started() + giving_up(s, elapsed))
        } else {
            (
                s.at(GrpcPhaseView::Calling { client_streaming, server_streaming, message }),
                s.started() + seq![
                    GrpcActionView::Call {
                        kind: kind_of_call(client_streaming, server_streaming),
                        service: s.service,
                        method: s.method,
                        message,
                        metadata: s.metadata,
                    },
                ],
            )
        },
        (
            GrpcPhaseView::Rendering { client_streaming, server_streaming, .. },
            GrpcInputView::Cancelled { .. },
        ) => (
            s.at(GrpcPhaseView::Rendering { client_streaming, server_streaming, given_up: true }),
            Seq::empty(),
        ),
        (GrpcPhaseView::Rendering { .. }, GrpcInputView::RenderFailed { error }) => (
            s.at(GrpcPhaseView::Closed),
            seq![GrpcActionView::HandOn { error }],
        ),
        (GrpcPhaseView::Calling { server_streaming, .. }, GrpcInputView::Replied(headers)) => if server_streaming {
            (
                s.at(GrpcPhaseView::Receiving),
                s.sent() + seq![
                    GrpcActionView::Record(s.headers_event(headers)),
                    GrpcActionView::NextMessage,
                ],
            )
        } else {
            (
                s.at(GrpcPhaseView::Answered),
                s.sent() + seq![
                    GrpcActionView::Record(s.headers_event(headers)),
                    GrpcActionView::Serialize,
                ],
            )
        },
        (GrpcPhaseView::Calling { .. }, GrpcInputView::ReplyFailed(failure)) => (
            s.at(GrpcPhaseView::Closing),
            s.sent() + seq![GrpcActionView::Record(s.failure_event(failure)), s.list_events()],
        ),
        (GrpcPhaseView::Answered, GrpcInputView::Serialized(text)) => (
            s.at(GrpcPhaseView::Closing),
            seq![
                GrpcActionView::Record(s.server_message(text)),
                GrpcActionView::Record(s.complete_event(Seq::empty())),
                s.list_events(),
            ],
        ),
        (GrpcPhaseView::Receiving, GrpcInputView::Received(text)) => (
            s,
            seq![GrpcActionView::Record(s.server_message(text)), GrpcActionView::NextMessage],
        ),
        (GrpcPhaseView::Receiving, GrpcInputView::Ended { trailers }) => (
            s.at(GrpcPhaseView::Closing),
            seq![GrpcActionView::Record(s.complete_event(trailers)), s.list_events()],
        ),
        (GrpcPhaseView::Receiving, GrpcInputView::Broken(status)) => (
            s,
            seq![GrpcActionView::Record(s.broken_event(status)), GrpcActionView::NextMessage],
        ),
        (GrpcPhaseView::Closing, GrpcInputView::EventsListed { events, elapsed }) => (
            s.at(GrpcPhaseView::Closed),
            seq![s.close(closing_status(events), elapsed), GrpcActionView::Unlisten],
        ),
        (_, GrpcInputView::Cancelled { elapsed }) => if s.is_listening() {
            (s.at(GrpcPhaseView::Closed), giving_up(s, elapsed))
        } else {
            (s, Seq::empty())
        },
        _ => (s, Seq::empty()),
    }
}

/// A session that is about to connect.
pub open spec fn opened(
    request: GrpcRequestView,
    metadata: Seq<(Seq<char>, Seq<char>)>,
    connection: GrpcConnectionView,
    service: Seq<char>,
    method: Seq<char>,
) -> GrpcSessionView {
    GrpcSessionView {
        request,
        metadata,
        connection,
        service,
        method,
        phase: GrpcPhaseView::Connecting,
    }
}

impl GrpcSession {
    /// The session for a rendered request whose connection is stored as `connection`, and the
    /// first thing to do. A request without a service or a method is refused.
    pub fn open(
        request: GrpcRequest,
        metadata: Vec<(String, String)>,
        connection: GrpcConnection,
        proto_files: Vec<String>,
        validate_certificates: bool,
    ) -> (r: Result<(GrpcSession, GrpcAction), GenericError>)
        ensures
            match r {
                Ok(p) => {
                    &&& request@.service matches Some(service) && request@.method matches Some(method)
                        && p.0@ == opened(request@, pairs_of(metadata@), connection@, service, method)
                    &&& p.1@ == GrpcActionView::Connect(
                        target_of(
                            request@,
                            pairs_of(metadata@),
                            texts_of(proto_files@),
                            validate_certificates,
                        ),
                    )
                },
                Err(e) => {
                    &&& request@.service is None || request@.method is None
                    &&& e@ == "Service and method are required"@
                },
            },
    {
        let (service, method) = match (&request.service, &request.method) {
            (Some(service), Some(method)) => (service.clone(), method.clone()),
            _ => return Err(generic_error("Service and method are required")),
        };
        let target = grpc_target(&request, &metadata, proto_files, validate_certificates);
        let phase = GrpcPhase::Connecting;
        let session = GrpcSession { request, metadata, connection, service, method, phase };
        Ok((session, GrpcAction::Connect(target)))
    }

    fn event(&self, event_type: GrpcEventType, content: String) -> (e: GrpcEvent)
        ensures
            e@ == self@.event(event_type, content@),
    {
        let e = GrpcEvent {
            workspace_id: self.request.workspace_id.clone(),
            request_id: self.request.id.clone(),
            connection_id: self.connection.id.clone(),
            event_type,
            content,
            metadata: Vec::new(),
            error: None,
            status: None,
        };
        assert(e@ =~= self@.event(event_type, content@));
        e
    }

    fn start_event(&self) -> (e: GrpcEvent)
        ensures
            e@ == self@.start_event(),
    {
        let content = "Connecting to ".to_string().concat(self.request.url.as_str());
        GrpcEvent {
            metadata: copy_pairs(&self.metadata),
            ..self.event(GrpcEventType::ConnectionStart, content)
        }
    }

    fn headers_event(&self, headers: GrpcHeaders) -> (e: GrpcEvent)
        ensures
            e@ == self@.headers_event(headers@),
    {
        let content = if headers.count == 0 {
            "Received response"
        } else {
            "Received response with metadata"
        };
        GrpcEvent {
            metadata: headers.entries,
            ..self.event(GrpcEventType::Info, content.to_string())
        }
    }

    fn failure_event(&self, failure: GrpcFailure) -> (e: GrpcEvent)
        ensures
            e@ == self@.failure_event(failure@),
    {
        let e = self.event(GrpcEventType::ConnectionEnd, "Failed to connect".to_string());
        match failure.status {
            Some(s) => GrpcEvent {
                error: Some(s.message),
                status: Some(s.code),
                metadata: s.metadata,
                ..e
            },
            None => GrpcEvent {
                error: Some(failure.message),
                status: Some(CODE_UNKNOWN),
                ..e
            },
        }
    }

    fn complete_event(&self, trailers: Vec<(String, String)>) -> (e: GrpcEvent)
        ensures
            e@ == self@.complete_event(pairs_of(trailers@)),
    {
        GrpcEvent {
            metadata: trailers,
            status: Some(CODE_OK),
            ..self.event(GrpcEventType::ConnectionEnd, "Connection complete".to_string())
        }
    }

    fn broken_event(&self, status: GrpcStatus) -> (e: GrpcEvent)
        ensures
            e@ == self@.broken_event(status@),
    {
        GrpcEvent {
            metadata: status.metadata,
            status: Some(status.code),
            ..self.event(GrpcEventType::ConnectionEnd, status.text)
        }
    }

    fn cancelled_event(&self) -> (e: GrpcEvent)
        ensures
            e@ == self@.cancelled_event(),
    {
        GrpcEvent {
            status: Some(CODE_CANCELLED),
            ..self.event(GrpcEventType::ConnectionEnd, "Cancelled".to_string())
        }
    }

    fn list_events(&self) -> (a: GrpcAction)
        ensures
            a@ == self@.list_events(),
    {
        GrpcAction::ListEvents { connection_id: self.connection.id.clone() }
    }

    fn close(&self, status: i32, elapsed: u128) -> (a: GrpcAction)
        ensures
            a@ == self@.close(status, elapsed),
    {
        GrpcAction::Close {
            connection_id: self.connection.id.clone(),
            status,
            elapsed: elapsed_millis(elapsed),
        }
    }

    fn sent(&self) -> (r: Vec<GrpcAction>)
        ensures
            views(r@) == self@.sent(),
    {
        let mut r: Vec<GrpcAction> = Vec::new();
        match &self.phase {
            GrpcPhase::Calling { client_streaming, message, .. } => {
                if !*client_streaming {
                    let e = self.event(GrpcEventType::ClientMessage, message.clone());
                    r.push(GrpcAction::Record(e));
                }
            },
            _ => {},
        }
        assert(views(r@) =~= self@.sent());
        r
    }

    fn at(self, phase: GrpcPhase) -> (s: GrpcSession)
        ensures
            s@ == self@.at(phase@),
    {
        GrpcSession { phase, ..self }
    }

    /// Whether the call is out and its outcome is still awaited.
    pub fn is_listening(&self) -> (r: bool)
        ensures
            r == self@.is_listening(),
    {
        match &self.phase {
            GrpcPhase::Calling { .. } => true,
            GrpcPhase::Answered => true,
            GrpcPhase::Receiving => true,
            _ => false,
        }
    }

    fn connecting(self, input: GrpcInput) -> (r: (GrpcSession, Vec<GrpcAction>))
        requires
            self@.phase is Connecting,
        ensures
            (r.0@, views(r.1@)) == after(self@, input@),
    {
        let mut todo: Vec<GrpcAction> = Vec::new();
        match input {
            GrpcInput::ConnectFailed { error, elapsed } => {
                let failed = fail_connection(self.connection.clone(), error, elapsed_millis(elapsed));
                todo.push(GrpcAction::Store(failed));
                todo.push(GrpcAction::Return { connection_id: self.connection.id.clone() });
                assert(views(todo@) =~= after(self@, input@).1);
                (self.at(GrpcPhase::Closed), todo)
            },
            GrpcInput::Connected => {
                todo.push(
                    GrpcAction::FindMethod {
                        service: self.service.clone(),
                        method: self.method.clone(),
                    },
                );
                assert(views(todo@) =~= after(self@, input@).1);
                (self.at(GrpcPhase::Locating), todo)
            },
            _ => {
                assert(views(todo@) =~= Seq::empty());
                (self, todo)
            },
        }
    }

    fn locating(self, input: GrpcInput) -> (r: (GrpcSession, Vec<GrpcAction>))
        requires
            self@.phase is Locating,
        ensures
            (r.0@, views(r.1@)) == after(self@, input@),
    {
        let mut todo: Vec<GrpcAction> = Vec::new();
        match input {
            GrpcInput::MethodMissing { error } => {
                todo.push(GrpcAction::Refuse(GenericError(error)));
                assert(views(todo@) =~= after(self@, input@).1);
                (self.at(GrpcPhase::Closed), todo)
            },
            GrpcInput::MethodFound { client_streaming, server_streaming } => {
                let channel = "grpc_client_msg_".to_string().concat(self.connection.id.as_str());
                let template = if self.request.message.as_str().is_empty() {
                    "{}".to_string()
                } else {
                    self.request.message.clone()
                };
                todo.push(GrpcAction::Listen { channel });
                todo.push(GrpcAction::Render { template });
                assert(views(todo@) =~= after(self@, input@).1);
                let next = GrpcPhase::Rendering {
                    client_streaming,
                    server_streaming,
                    given_up: false,
                };
                (self.at(next), todo)
            },
            _ => {
                assert(views(todo@) =~= Seq::empty());
                (self, todo)
            },
        }
    }

    fn rendering(
        self,
        input: GrpcInput,
        client_streaming: bool,
        server_streaming: bool,
        given_up: bool,
    ) -> (r: (GrpcSession, Vec<GrpcAction>))
        requires
            self@.phase == (GrpcPhaseView::Rendering {
                client_streaming,
                server_streaming,
                given_up,
            }),
        ensures
            (r.0@, views(r.1@)) == after(self@, input@),
    {
        let mut todo: Vec<GrpcAction> = Vec::new();
        match input {
            GrpcInput::Rendered { message, elapsed } => {
                todo.push(GrpcAction::Record(self.start_event()));
                todo.push(GrpcAction::Return { connection_id: self.connection.id.clone() });
                if given_up {
                    todo.push(GrpcAction::Record(self.cancelled_event()));
                    todo.push(self.close(CODE_CANCELLED, elapsed));
                    todo.push(GrpcAction::Unlisten);
                    assert(views(todo@) =~= after(self@, input@).1);
                    (self.at(GrpcPhase::Closed), todo)
                } else {
                    let kind = call_kind(client_streaming, server_streaming);
                    todo.push(
                        GrpcAction::Call {
                            kind,
                            service: self.service.clone(),
                            method: self.method.clone(),
                            message: message.clone(),
                            metadata: copy_pairs(&self.metadata),
                        },
                    );
                    assert(views(todo@) =~= after(self@, input@).1);
                    let next = GrpcPhase::Calling { client_streaming, server_streaming, message };
                    (self.at(next), todo)
                }
            },
            GrpcInput::Cancelled { .. } => {
                let next = GrpcPhase::Rendering {
                    client_streaming,
                    server_streaming,
                    given_up: true,
                };
                assert(views(todo@) =~= Seq::empty());
                (self.at(next), todo)
            },
            GrpcInput::RenderFailed { error } => {
                todo.push(GrpcAction::HandOn { error });
                assert(views(todo@) =~= after(self@, input@).1);
                (self.at(GrpcPhase::Closed), todo)
            },
            _ => {
                assert(views(todo@) =~= Seq::empty());
                (self, todo)
            },
        }
    }

    fn calling(
        self,
        input: GrpcInput,
        server_streaming: bool,
    ) -> (r: (GrpcSession, Vec<GrpcAction>))
        requires
            self@.phase matches GrpcPhaseView::Calling { server_streaming: s, .. } && s == server_streaming,
        ensures
            (r.0@, views(r.1@)) == after(self@, input@),
    {
        match input {
            GrpcInput::Replied(headers) => {
                let mut todo = self.sent();
                todo.push(GrpcAction::Record(self.headers_event(headers)));
                if server_streaming {
                    todo.push(GrpcAction::NextMessage);
                    assert(views(todo@) =~= after(self@, input@).1);
                    (self.at(GrpcPhase::Receiving), todo)
                } else {
                    todo.push(GrpcAction::Serialize);
                    assert(views(todo@) =~= after(self@, input@).1);
                    (self.at(GrpcPhase::Answered), todo)
                }
            },
            GrpcInput::ReplyFailed(failure) => {
                let mut todo = self.sent();
                todo.push(GrpcAction::Record(self.failure_event(failure)));
                todo.push(self.list_events());
                assert(views(todo@) =~= after(self@, input@).1);
                (self.at(GrpcPhase::Closing), todo)
            },
            GrpcInput::Cancelled { elapsed } => self.cancelled(elapsed),
            _ => {
                let todo: Vec<GrpcAction> = Vec::new();
                assert(views(todo@) =~= Seq::empty());
                (self, todo)
            },
        }
    }

    fn answered(self, input: GrpcInput) -> (r: (GrpcSession, Vec<GrpcAction>))
        requires
            self@.phase is Answered,
        ensures
            (r.0@, views(r.1@)) == after(self@, input@),
    {
        let mut todo: Vec<GrpcAction> = Vec::new();
        match input {
            GrpcInput::Serialized(text) => {
                let message = self.event(GrpcEventType::ServerMessage, text);
                let none: Vec<(String, String)> = Vec::new();
                assert(pairs_of(none@) =~= Seq::empty());
                todo.push(GrpcAction::Record(message));
                todo.push(GrpcAction::Record(self.complete_event(none)));
                todo.push(self.list_events());
                assert(views(todo@) =~= after(self@, input@).1);
                (self.at(GrpcPhase::Closing), todo)
            },
            GrpcInput::Cancelled { elapsed } => self.cancelled(elapsed),
            _ => {
                assert(views(todo@) =~= Seq::empty());
                (self, todo)
            },
        }
    }

    fn receiving(self, input: GrpcInput) -> (r: (GrpcSession, Vec<GrpcAction>))
        requires
            self@.phase is Receiving,
        ensures
            (r.0@, views(r.1@)) == after(self@, input@),
    {
        let mut todo: Vec<GrpcAction> = Vec::new();
        match input {
            GrpcInput::Received(text) => {
                todo.push(GrpcAction::Record(self.event(GrpcEventType::ServerMessage, text)));
                todo.push(GrpcAction::NextMessage);
                assert(views(todo@) =~= after(self@, input@).1);
                (self, todo)
            },
            GrpcInput::Ended { trailers } => {
                todo.push(GrpcAction::Record(self.complete_event(trailers)));
                todo.push(self.list_events());
                assert(views(todo@) =~= after(self@, input@).1);
                (self.at(GrpcPhase::Closing), todo)
            },
            GrpcInput::Broken(status) => {
                todo.push(GrpcAction::Record(self.broken_event(status)));
                todo.push(GrpcAction::NextMessage);
                assert(views(todo@) =~= after(self@, input@).1);
                (self, todo)
            },
            GrpcInput::Cancelled { elapsed } => self.cancelled(elapsed),
            _ => {
                assert(views(todo@) =~= Seq::empty());
                (self, todo)
            },
        }
    }

    fn closing(self, input: GrpcInput) -> (r: (GrpcSession, Vec<GrpcAction>))
        requires
            self@.phase is Closing,
        ensures
            (r.0@, views(r.1@)) == after(self@, input@),
    {
        let mut todo: Vec<GrpcAction> = Vec::new();
        match input {
            GrpcInput::EventsListed { events, elapsed } => {
                let status = closed_status(&events);
                todo.push(self.close(status, elapsed));
                todo.push(GrpcAction::Unlisten);
                assert(views(todo@) =~= after(self@, input@).1);
                (self.at(GrpcPhase::Closed), todo)
            },
            _ => {
                assert(views(todo@) =~= Seq::empty());
                (self, todo)
            },
        }
    }

    fn cancelled(self, elapsed: u128) -> (r: (GrpcSession, Vec<GrpcAction>))
        requires
            self@.is_listening(),
        ensures
            (r.0@, views(r.1@)) == after(self@, GrpcInputView::Cancelled { elapsed }),
    {
        let mut todo: Vec<GrpcAction> = Vec::new();
        todo.push(GrpcAction::Record(self.cancelled_event()));
        todo.push(self.close(CODE_CANCELLED, elapsed));
        todo.push(GrpcAction::Unlisten);
        assert(views(todo@) =~= after(self@, GrpcInputView::Cancelled { elapsed }).1);
        (self.at(GrpcPhase::Closed), todo)
    }

    /// The session after what came of an action, and what is to be done next.
    pub fn step(self, input: GrpcInput) -> (r: (GrpcSession, Vec<GrpcAction>))
        ensures
            (r.0@, views(r.1@)) == after(self@, input@),
    {
        match &self.phase {
            GrpcPhase::Connecting => self.connecting(input),
            GrpcPhase::Locating => self.locating(input),
            GrpcPhase::Rendering { client_streaming, server_streaming, given_up } => {
                let c = *client_streaming;
                let s = *server_streaming;
                let g = *given_up;
                self.rendering(input, c, s, g)
            },
            GrpcPhase::Calling { server_streaming, .. } => {
                let s = *server_streaming;
                self.calling(input, s)
            },
            GrpcPhase::Answered => self.answered(input),
            GrpcPhase::Receiving => self.receiving(input),
            GrpcPhase::Closing => self.closing(input),
            GrpcPhase::Closed => {
                let todo: Vec<GrpcAction> = Vec::new();
                assert(views(todo@) =~= Seq::empty());
                (self, todo)
            },
        }
    }
}

/// The kind of call that a method makes.
pub fn call_kind(client_streaming: bool, server_streaming: bool) -> (k: CallKind)
    ensures
        k == kind_of_call(client_streaming, server_streaming),
{
    match (client_streaming, server_streaming) {
        (true, true) => CallKind::Streaming,
        (true, false) => CallKind::ClientStreaming,
        (false, true) => CallKind::ServerStreaming,
        (false, false) => CallKind::Unary,
    }
}

} // verus!
