//! The messages that the user sends into a gRPC call while it is open.
use vstd::prelude::*;

use crate::grpc::{GrpcConnection, GrpcConnectionView, GrpcEvent, GrpcEventType, GrpcEventView};
use crate::models::{GrpcRequest, GrpcRequestView};
use crate::text::text_of;

verus! {

/// What the user sends into a call: a message, the wish to give up, or that no message follows.
#[derive(Debug)]
pub enum IncomingMsg {
    Message(String),
    Cancel,
    Commit,
}

/// What arrives on the channel: something that the user sent, or why it could not be read.
#[derive(Debug)]
pub enum ChannelInput {
    Msg(IncomingMsg),
    Unreadable(String),
}

/// What is to be done with what arrived.
#[derive(Debug)]
pub enum ChannelAction {
    /// Nothing.
    Ignore,
    /// Fill in the variables of the message, read it as one of the method, and deliver it.
    Render { template: String },
    /// Drop the sending half: no message follows.
    Finish,
    /// Tell the session that the user gives up.
    GiveUp,
    /// Log that it could not be read.
    Report { error: String },
}

/// What a `ChannelAction` holds.
#[verifier::ext_equal]
pub enum ChannelActionView {
    Ignore,
    Render { template: Seq<char> },
    Finish,
    GiveUp,
    Report { error: Seq<char> },
}

impl View for ChannelAction {
    type V = ChannelActionView;

    open spec fn view(&self) -> ChannelActionView {
        match self {
            ChannelAction::Ignore => ChannelActionView::Ignore,
            ChannelAction::Render { template } => ChannelActionView::Render { template: template@ },
            ChannelAction::Finish => ChannelActionView::Finish,
            ChannelAction::GiveUp => ChannelActionView::GiveUp,
            ChannelAction::Report { error } => ChannelActionView::Report { error: error@ },
        }
    }
}

/// The user's end of a call.
#[derive(Debug)]
pub struct ClientChannel {
    workspace_id: String,
    request_id: String,
    connection_id: String,
    cancelled: bool,
    committed: bool,
}

/// What a `ClientChannel` holds.
#[verifier::ext_equal]
pub struct ClientChannelView {
    pub workspace_id: Seq<char>,
    pub request_id: Seq<char>,
    pub connection_id: Seq<char>,
    pub cancelled: bool,
    pub committed: bool,
}

impl View for ClientChannel {
    type V = ClientChannelView;

    closed spec fn view(&self) -> ClientChannelView {
        ClientChannelView {
            workspace_id: self.workspace_id@,
            request_id: self.request_id@,
            connection_id: self.connection_id@,
            cancelled: self.cancelled,
            committed: self.committed,
        }
    }
}

impl ClientChannelView {
    /// Whether what arrives is still heard.
    pub open spec fn is_open(self) -> bool {
        !self.cancelled && !self.committed
    }

    /// An event on the connection.
    pub open spec fn event(self, event_type: GrpcEventType, content: Seq<char>) -> GrpcEventView {
        GrpcEventView {
            workspace_id: self.workspace_id,
            request_id: self.request_id,
            connection_id: self.connection_id,
            event_type,
            content,
            metadata: Seq::empty(),
            error: None,
            status: None,
        }
    }
}

/// The channel of a call on a connection.
pub open spec fn fresh_channel(
    request: GrpcRequestView,
    connection: GrpcConnectionView,
) -> ClientChannelView {
    ClientChannelView {
        workspace_id: request.workspace_id,
        request_id: request.id,
        connection_id: connection.id,
        cancelled: false,
        committed: false,
    }
}

/// The channel after something arrived, and what is to be done with it.
pub open spec fn heard(c: ClientChannelView, input: ChannelInput) -> (
    ClientChannelView,
    ChannelActionView,
) {
    if !c.is_open() {
        (c, ChannelActionView::Ignore)
    } else {
        match input {
            ChannelInput::Msg(IncomingMsg::Message(m)) => (
                c,
                ChannelActionView::Render { template: m@ },
            ),
            ChannelInput::Msg(IncomingMsg::Commit) => (
                ClientChannelView { committed: true, ..c },
                ChannelActionView::Finish,
            ),
            ChannelInput::Msg(IncomingMsg::Cancel) => (
                ClientChannelView { cancelled: true, ..c },
                ChannelActionView::GiveUp,
            ),
            ChannelInput::Unreadable(e) => (c, ChannelActionView::Report { error: e@ }),
        }
    }
}

/// The event for a message of the user: the message as it goes out, or why it is not one of the
/// method.
pub open spec fn delivered(
    c: ClientChannelView,
    message: Seq<char>,
    rejected: Option<Seq<char>>,
) -> GrpcEventView {
    match rejected {
        Some(e) => c.event(GrpcEventType::Error, e),
        None => c.event(GrpcEventType::ClientMessage, message),
    }
}

impl ClientChannel {
    /// The channel of a call on a connection.
    pub fn open(request: &GrpcRequest, connection: &GrpcConnection) -> (c: ClientChannel)
        ensures
            c@ == fresh_channel(request@, connection@),
    {
        ClientChannel {
            workspace_id: request.workspace_id.clone(),
            request_id: request.id.clone(),
            connection_id: connection.id.clone(),
            cancelled: false,
            committed: false,
        }
    }

    /// Whether what arrives is still heard.
    pub fn is_open(&self) -> (r: bool)
        ensures
            r == self@.is_open(),
    {
        !self.cancelled && !self.committed
    }

    /// Takes what arrived, and says what is to be done with it.
    pub fn hear(&mut self, input: ChannelInput) -> (a: ChannelAction)
        ensures
            (final(self)@, a@) == heard(old(self)@, input),
    {
        if self.cancelled || self.committed {
            return ChannelAction::Ignore;
        }
        match input {
            ChannelInput::Msg(IncomingMsg::Message(template)) => ChannelAction::Render { template },
            ChannelInput::Msg(IncomingMsg::Commit) => {
                self.committed = true;
                ChannelAction::Finish
            },
            ChannelInput::Msg(IncomingMsg::Cancel) => {
                self.cancelled = true;
                ChannelAction::GiveUp
            },
            ChannelInput::Unreadable(error) => ChannelAction::Report { error },
        }
    }

    /// The event to record for a rendered message, and whether the message goes out: it does
    /// unless it was rejected as one of the method.
    pub fn deliver(&self, message: String, rejected: Option<String>) -> (r: (GrpcEvent, bool))
        ensures
            r.0@ == delivered(self@, message@, text_of(rejected)),
            r.1 == (rejected is None),
    {
        let (event_type, content, goes_out) = match rejected {
            Some(e) => (GrpcEventType::Error, e, false),
            None => (GrpcEventType::ClientMessage, message, true),
        };
        let event = GrpcEvent {
            workspace_id: self.workspace_id.clone(),
            request_id: self.request_id.clone(),
            connection_id: self.connection_id.clone(),
            event_type,
            content,
            metadata: Vec::new(),
            error: None,
            status: None,
        };
        assert(event@ =~= self@.event(event_type, content@));
        (event, goes_out)
    }
}

/// The channel after a series of arrivals.
pub open spec fn heard_all(c: ClientChannelView, inputs: Seq<ChannelInput>) -> ClientChannelView
    decreases inputs.len(),
{
    if inputs.len() == 0 {
        c
    } else {
        heard_all(heard(c, inputs[0]).0, inputs.skip(1))
    }
}

/// Once the user gave up or said that no message follows, nothing that arrives is heard, however
/// much of it there is.
pub proof fn nothing_follows_the_last(
    c: ClientChannelView,
    inputs: Seq<ChannelInput>,
    input: ChannelInput,
)
    requires
        !c.is_open(),
    ensures
        heard_all(c, inputs) == c,
        heard(heard_all(c, inputs), input) == (c, ChannelActionView::Ignore),
    decreases inputs.len(),
{
    if inputs.len() > 0 {
        nothing_follows_the_last(c, inputs.skip(1), input);
    }
}

/// Whether what arrives leaves the channel as it is: a message, or what cannot be read.
pub open spec fn is_passing(input: ChannelInput) -> bool {
    input is Unreadable || input matches ChannelInput::Msg(IncomingMsg::Message(_))
}

/// A channel stays open as long as the user only sends messages, and each of them is taken.
pub proof fn messages_keep_the_channel_open(
    c: ClientChannelView,
    inputs: Seq<ChannelInput>,
    message: String,
)
    requires
        c.is_open(),
        forall|i: int| 0 <= i < inputs.len() ==> is_passing(#[trigger] inputs[i]),
    ensures
        heard_all(c, inputs) == c,
        heard(heard_all(c, inputs), ChannelInput::Msg(IncomingMsg::Message(message))) == (
            c,
            ChannelActionView::Render { template: message@ },
        ),
    decreases inputs.len(),
{
    if inputs.len() > 0 {
        assert(is_passing(inputs[0]));
        assert forall|i: int| 0 <= i < inputs.skip(1).len() implies is_passing(
            #[trigger] inputs.skip(1)[i],
        ) by {
            assert(is_passing(inputs[i + 1]));
        }
        messages_keep_the_channel_open(c, inputs.skip(1), message);
    }
}

/// A fresh channel is open and stands for its request and connection. While it is open a message
/// is rendered as it came, the last word finishes, giving up gives up, and what cannot be read is
/// reported; only the last word and giving up close it, and nothing changes whom it stands for.
pub proof fn open_channel_hears_everything(
    request: GrpcRequestView,
    connection: GrpcConnectionView,
    c: ClientChannelView,
    text: String,
)
    requires
        c.is_open(),
    ensures
        fresh_channel(request, connection).is_open(),
        fresh_channel(request, connection).workspace_id == request.workspace_id,
        fresh_channel(request, connection).request_id == request.id,
        fresh_channel(request, connection).connection_id == connection.id,
        heard(c, ChannelInput::Msg(IncomingMsg::Message(text))) == (
            c,
            ChannelActionView::Render { template: text@ },
        ),
        heard(c, ChannelInput::Unreadable(text)) == (
            c,
            ChannelActionView::Report { error: text@ },
        ),
        ({
            let finished = heard(c, ChannelInput::Msg(IncomingMsg::Commit));
            &&& finished.1 is Finish
            &&& !finished.0.is_open()
            &&& finished.0.workspace_id == c.workspace_id
            &&& finished.0.request_id == c.request_id
            &&& finished.0.connection_id == c.connection_id
        }),
        ({
            let given_up = heard(c, ChannelInput::Msg(IncomingMsg::Cancel));
            &&& given_up.1 is GiveUp
            &&& !given_up.0.is_open()
            &&& given_up.0.workspace_id == c.workspace_id
            &&& given_up.0.request_id == c.request_id
            &&& given_up.0.connection_id == c.connection_id
        }),
{
}

/// What is recorded for a message stands on the connection of the channel, and holds the message
/// as it goes out, or the reason why it does not.
pub proof fn deliveries_are_recorded(c: ClientChannelView, message: Seq<char>, reason: Seq<char>)
    ensures
        delivered(c, message, None) == (GrpcEventView {
            workspace_id: c.workspace_id,
            request_id: c.request_id,
            connection_id: c.connection_id,
            event_type: GrpcEventType::ClientMessage,
            content: message,
            metadata: Seq::empty(),
            error: None,
            status: None,
        }),
        delivered(c, message, Some(reason)) == (GrpcEventView {
            workspace_id: c.workspace_id,
            request_id: c.request_id,
            connection_id: c.connection_id,
            event_type: GrpcEventType::Error,
            content: reason,
            metadata: Seq::empty(),
            error: None,
            status: None,
        }),
{
}

/// What is to be done with what arrived is seen with all that it holds.
pub proof fn channel_actions_are_seen_whole(a: ChannelAction)
    ensures
        a matches ChannelAction::Render { template } ==> a@ == (ChannelActionView::Render {
            template: template@,
        }),
        a matches ChannelAction::Report { error } ==> a@ == (ChannelActionView::Report {
            error: error@,
        }),
        a is Ignore <==> a@ is Ignore,
        a is Finish <==> a@ is Finish,
        a is GiveUp <==> a@ is GiveUp,
{
}

} // verus!
