//! Records of gRPC connections and of what happens on them.
use vstd::prelude::*;

use crate::models::{views, GrpcRequest, GrpcRequestView};
use crate::text::{copy_text, pairs_of, text_of};

verus! {

/// The status of a connection that has none yet.
pub const NO_STATUS: i32 = -1;

/// The status of a call that went well.
pub const CODE_OK: i32 = 0;

/// The status of a call that was cancelled.
pub const CODE_CANCELLED: i32 = 1;

/// The status of a call that failed without one.
pub const CODE_UNKNOWN: i32 = 2;

/// The status of a connection that ended without one.
pub const CODE_UNAVAILABLE: i32 = 14;

/// How far a connection has come.
#[derive(Debug, Clone, Copy, PartialEq, Eq, Structural)]
pub enum GrpcConnectionState {
    Initialized,
    Connected,
    Closed,
}

/// A connection of a gRPC request.
#[derive(Debug)]
pub struct GrpcConnection {
    pub id: String,
    pub workspace_id: String,
    pub request_id: String,
    pub url: String,
    pub status: i32,
    pub elapsed: i32,
    pub state: GrpcConnectionState,
    pub error: Option<String>,
    pub rest: String,
}

/// What a `GrpcConnection` holds.
#[verifier::ext_equal]
pub struct GrpcConnectionView {
    pub id: Seq<char>,
    pub workspace_id: Seq<char>,
    pub request_id: Seq<char>,
    pub url: Seq<char>,
    pub status: i32,
    pub elapsed: i32,
    pub state: GrpcConnectionState,
    pub error: Option<Seq<char>>,
    pub rest: Seq<char>,
}

impl View for GrpcConnection {
    type V = GrpcConnectionView;

    open spec fn view(&self) -> GrpcConnectionView {
        GrpcConnectionView {
            id: self.id@,
            workspace_id: self.workspace_id@,
            request_id: self.request_id@,
            url: self.url@,
            status: self.status,
            elapsed: self.elapsed,
            state: self.state,
            error: text_of(self.error),
            rest: self.rest@,
        }
    }
}

impl Clone for GrpcConnection {
    fn clone(&self) -> (r: Self)
        ensures
            r == *self,
    {
        GrpcConnection {
            id: self.id.clone(),
            workspace_id: self.workspace_id.clone(),
            request_id: self.request_id.clone(),
            url: self.url.clone(),
            status: self.status,
            elapsed: self.elapsed,
            state: self.state,
            error: copy_text(&self.error),
            rest: self.rest.clone(),
        }
    }
}

/// What kind of thing happened on a connection.
#[derive(Debug, Clone, Copy, PartialEq, Eq, Structural)]
pub enum GrpcEventType {
    Info,
    Error,
    ClientMessage,
    ServerMessage,
    ConnectionStart,
    ConnectionEnd,
}

/// Something that happened on a connection.
#[derive(Debug)]
pub struct GrpcEvent {
    pub workspace_id: String,
    pub request_id: String,
    pub connection_id: String,
    pub event_type: GrpcEventType,
    pub content: String,
    pub metadata: Vec<(String, String)>,
    pub error: Option<String>,
    pub status: Option<i32>,
}

/// What a `GrpcEvent` holds.
#[verifier::ext_equal]
pub struct GrpcEventView {
    pub workspace_id: Seq<char>,
    pub request_id: Seq<char>,
    pub connection_id: Seq<char>,
    pub event_type: GrpcEventType,
    pub content: Seq<char>,
    pub metadata: Seq<(Seq<char>, Seq<char>)>,
    pub error: Option<Seq<char>>,
    pub status: Option<i32>,
}

impl View for GrpcEvent {
    type V = GrpcEventView;

    open spec fn view(&self) -> GrpcEventView {
        GrpcEventView {
            workspace_id: self.workspace_id@,
            request_id: self.request_id@,
            connection_id: self.connection_id@,
            event_type: self.event_type,
            content: self.content@,
            metadata: pairs_of(self.metadata@),
            error: text_of(self.error),
            status: self.status,
        }
    }
}

/// The record of a connection that is about to be opened: no status and no time yet.
pub open spec fn opening(r: GrpcRequestView) -> GrpcConnectionView {
    GrpcConnectionView {
        id: Seq::empty(),
        workspace_id: r.workspace_id,
        request_id: r.id,
        url: r.url,
        status: NO_STATUS,
        elapsed: 0,
        state: GrpcConnectionState::Initialized,
        error: None,
        rest: Seq::empty(),
    }
}

/// The record of a connection that is about to be opened.
pub fn new_connection(request: &GrpcRequest) -> (c: GrpcConnection)
    ensures
        c@ == opening(request@),
{
    GrpcConnection {
        id: String::new(),
        workspace_id: request.workspace_id.clone(),
        request_id: request.id.clone(),
        url: request.url.clone(),
        status: NO_STATUS,
        elapsed: 0,
        state: GrpcConnectionState::Initialized,
        error: None,
        rest: String::new(),
    }
}

/// Milliseconds as a connection keeps them: the low 32 bits, read as a signed number.
pub open spec fn kept_millis(ms: u128) -> int {
    let low = ms as int % 0x1_0000_0000;
    if low < 0x8000_0000 {
        low
    } else {
        low - 0x1_0000_0000
    }
}

/// Milliseconds as a connection keeps them.
pub fn elapsed_millis(ms: u128) -> (r: i32)
    ensures
        r == kept_millis(ms),
{
    let low: i64 = (ms % 0x1_0000_0000) as i64;
    if low < 0x8000_0000 {
        low as i32
    } else {
        (low - 0x1_0000_0000) as i32
    }
}

/// A connection that has ended with a status.
pub open spec fn ended(c: GrpcConnectionView, status: i32, elapsed: i32) -> GrpcConnectionView {
    GrpcConnectionView { status, elapsed, state: GrpcConnectionState::Closed, ..c }
}

/// A connection that could not be made.
pub open spec fn not_made(
    c: GrpcConnectionView,
    error: Seq<char>,
    elapsed: i32,
) -> GrpcConnectionView {
    GrpcConnectionView {
        elapsed,
        error: Some(error),
        state: GrpcConnectionState::Closed,
        ..c
    }
}

/// The stored connection, ended with a status.
pub fn end_connection(connection: GrpcConnection, status: i32, elapsed: i32) -> (c: GrpcConnection)
    ensures
        c@ == ended(connection@, status, elapsed),
{
    GrpcConnection { status, elapsed, state: GrpcConnectionState::Closed, ..connection }
}

/// The stored connection, with the reason why it could not be made.
pub fn fail_connection(
    connection: GrpcConnection,
    error: String,
    elapsed: i32,
) -> (c: GrpcConnection)
    ensures
        c@ == not_made(connection@, error@, elapsed),
{
    GrpcConnection {
        elapsed,
        error: Some(error),
        state: GrpcConnectionState::Closed,
        ..connection
    }
}

/// The status that a connection closes with: that of its first end, or that of an unavailable
/// server where it has none.
pub open spec fn closing_status(events: Seq<GrpcEventView>) -> i32
    decreases events.len(),
{
    if events.len() == 0 {
        CODE_UNAVAILABLE
    } else if events[0].event_type == GrpcEventType::ConnectionEnd {
        match events[0].status {
            Some(s) => s,
            None => CODE_UNAVAILABLE,
        }
    } else {
        closing_status(events.skip(1))
    }
}

/// The status that a connection closes with, from the events that were recorded on it.
pub fn closed_status(events: &Vec<GrpcEvent>) -> (r: i32)
    ensures
        r == closing_status(views(events@)),
{
    let ghost all = views(events@);
    let mut i: usize = 0;
    assert(all.skip(0) =~= all);
    while i < events.len()
        invariant
            all == views(events@),
            i <= events.len(),
            closing_status(all) == closing_status(all.skip(i as int)),
        decreases events.len() - i,
    {
        assert(all.skip(i as int)[0] == events@[i as int]@);
        if events[i].event_type == GrpcEventType::ConnectionEnd {
            return match events[i].status {
                Some(s) => s,
                None => CODE_UNAVAILABLE,
            };
        }
        assert(all.skip(i as int).skip(1) =~= all.skip(i + 1));
        i = i + 1;
    }
    CODE_UNAVAILABLE
}

/// Events other than ends do not change the status that a connection closes with, wherever they
/// come between the others.
pub proof fn only_ends_decide_the_status(events: Seq<GrpcEventView>, at: int, e: GrpcEventView)
    requires
        0 <= at <= events.len(),
        e.event_type != GrpcEventType::ConnectionEnd,
    ensures
        closing_status(events.insert(at, e)) == closing_status(events),
    decreases events.len(),
{
    let more = events.insert(at, e);
    if at == 0 {
        assert(more.skip(1) =~= events);
    } else if events[0].event_type != GrpcEventType::ConnectionEnd {
        only_ends_decide_the_status(events.skip(1), at - 1, e);
        assert(more.skip(1) =~= events.skip(1).insert(at - 1, e));
    }
}

/// The codes are those of gRPC.
pub proof fn codes_are_those_of_grpc()
    ensures
        CODE_OK == 0,
        CODE_CANCELLED == 1,
        CODE_UNKNOWN == 2,
        CODE_UNAVAILABLE == 14,
        NO_STATUS < 0,
{
}

/// A connection that is about to be opened belongs to its request, and has no id, status, time or
/// error yet.
pub proof fn opening_belongs_to_its_request(r: GrpcRequestView)
    ensures
        opening(r).workspace_id == r.workspace_id,
        opening(r).request_id == r.id,
        opening(r).url == r.url,
        opening(r).id.len() == 0,
        opening(r).status + 1 == 0,
        opening(r).elapsed == 0,
        opening(r).state == GrpcConnectionState::Initialized,
        opening(r).error is None,
        opening(r).rest.len() == 0,
{
}

/// The end of a connection sets its status, time and state, and its failure sets its error, time
/// and state; nothing else of it changes.
pub proof fn ends_keep_the_rest(c: GrpcConnectionView, status: i32, error: Seq<char>, elapsed: i32)
    ensures
        ended(c, status, elapsed).status == status,
        ended(c, status, elapsed).elapsed == elapsed,
        ended(c, status, elapsed).state == GrpcConnectionState::Closed,
        ended(c, status, elapsed).error == c.error,
        ended(c, status, elapsed).id == c.id,
        ended(c, status, elapsed).workspace_id == c.workspace_id,
        ended(c, status, elapsed).request_id == c.request_id,
        ended(c, status, elapsed).url == c.url,
        ended(c, status, elapsed).rest == c.rest,
        not_made(c, error, elapsed).status == c.status,
        not_made(c, error, elapsed).elapsed == elapsed,
        not_made(c, error, elapsed).state == GrpcConnectionState::Closed,
        not_made(c, error, elapsed).error == Some(error),
        not_made(c, error, elapsed).id == c.id,
        not_made(c, error, elapsed).workspace_id == c.workspace_id,
        not_made(c, error, elapsed).request_id == c.request_id,
        not_made(c, error, elapsed).url == c.url,
        not_made(c, error, elapsed).rest == c.rest,
{
}

/// The milliseconds that are kept fit in 32 bits and differ from the true ones by whole turns of
/// the 32-bit clock; short times are kept as they are.
pub proof fn kept_millis_are_true_up_to_whole_turns(ms: u128)
    ensures
        -0x8000_0000 <= kept_millis(ms) < 0x8000_0000,
        (ms - kept_millis(ms)) % 0x1_0000_0000 == 0,
        ms < 0x8000_0000 ==> kept_millis(ms) == ms,
{
}

/// The first end among the events gives the status; without an end, or without a status at it, the
/// server counts as unavailable.
pub proof fn first_end_decides(events: Seq<GrpcEventView>, at: int)
    requires
        0 <= at <= events.len(),
        forall|i: int|
            0 <= i < at ==> (#[trigger] events[i]).event_type != GrpcEventType::ConnectionEnd,
    ensures
        at < events.len() && events[at].event_type == GrpcEventType::ConnectionEnd ==> {
            &&& events[at].status matches Some(status) ==> closing_status(events) == status
            &&& events[at].status is None ==> closing_status(events) == 14
        },
        at == events.len() ==> closing_status(events) == 14,
    decreases at,
{
    if at > 0 {
        let rest = events.skip(1);
        assert(events[0].event_type != GrpcEventType::ConnectionEnd);
        assert forall|i: int| 0 <= i < at - 1 implies (#[trigger] rest[i]).event_type
            != GrpcEventType::ConnectionEnd by {
            assert(rest[i] == events[i + 1]);
        }
        first_end_decides(rest, at - 1);
    }
}

/// Connections and events are seen with all that they hold.
pub proof fn grpc_records_are_seen_whole(c: GrpcConnection, e: GrpcEvent)
    ensures
        c@.id == c.id@,
        c@.workspace_id == c.workspace_id@,
        c@.request_id == c.request_id@,
        c@.url == c.url@,
        c@.status == c.status,
        c@.elapsed == c.elapsed,
        c@.state == c.state,
        c@.error == text_of(c.error),
        c@.rest == c.rest@,
        e@.workspace_id == e.workspace_id@,
        e@.request_id == e.request_id@,
        e@.connection_id == e.connection_id@,
        e@.event_type == e.event_type,
        e@.content == e.content@,
        e@.metadata == pairs_of(e.metadata@),
        e@.error == text_of(e.error),
        e@.status == e.status,
{
}

} // verus!
