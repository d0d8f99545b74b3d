//! The course of sending one HTTP request. The send decides; whoever drives it carries out its
//! actions in order, and hands back what came of each that has an outcome.
use vstd::prelude::*;

use crate::http::{
    failed, new_response, no_response, response_err, response_to, HttpResponse, HttpResponseState,
    HttpResponseView,
};
use crate::models::{views, HttpRequest, HttpRequestView};
use crate::text::{copy_text, text_of};

verus! {

/// How far a send has come: what it waits for.
#[derive(Debug)]
pub enum SendPhase {
    /// To begin.
    Ready,
    /// The record of the response.
    Storing,
    /// The environment.
    FindingEnvironment,
    /// The cookie jar.
    FindingCookieJar,
    /// The response.
    Sending,
    /// The record of the response as it is by now, of a send that failed.
    Loading { error: String },
    /// The record of the response that says so.
    StoringError,
    /// Nothing.
    Done,
}

/// What a `SendPhase` holds.
#[verifier::ext_equal]
pub enum SendPhaseView {
    Ready,
    Storing,
    FindingEnvironment,
    FindingCookieJar,
    Sending,
    Loading { error: Seq<char> },
    StoringError,
    Done,
}

impl View for SendPhase {
    type V = SendPhaseView;

    open spec fn view(&self) -> SendPhaseView {
        match self {
            SendPhase::Ready => SendPhaseView::Ready,
            SendPhase::Storing => SendPhaseView::Storing,
            SendPhase::FindingEnvironment => SendPhaseView::FindingEnvironment,
            SendPhase::FindingCookieJar => SendPhaseView::FindingCookieJar,
            SendPhase::Sending => SendPhaseView::Sending,
            SendPhase::Loading { error } => SendPhaseView::Loading { error: error@ },
            SendPhase::StoringError => SendPhaseView::StoringError,
            SendPhase::Done => SendPhaseView::Done,
        }
    }
}

/// What came of an action.
#[derive(Debug)]
pub enum SendInput {
    /// The send may begin.
    Begin,
    /// The record of the response was written or read.
    Record(HttpResponse),
    /// The environment or the cookie jar was found.
    Found,
    /// The request was answered.
    Answered(HttpResponse),
    /// The action failed.
    Failed { error: String },
}

/// What a `SendInput` holds.
#[verifier::ext_equal]
pub enum SendInputView {
    Begin,
    Record(HttpResponseView),
    Found,
    Answered(HttpResponseView),
    Failed { error: Seq<char> },
}

impl View for SendInput {
    type V = SendInputView;

    open spec fn view(&self) -> SendInputView {
        match self {
            SendInput::Begin => SendInputView::Begin,
            SendInput::Record(r) => SendInputView::Record(r@),
            SendInput::Found => SendInputView::Found,
            SendInput::Answered(r) => SendInputView::Answered(r@),
            SendInput::Failed { error } => SendInputView::Failed { error: error@ },
        }
    }
}

/// What is to be done next.
#[derive(Debug)]
pub enum SendAction {
    /// Write the record of a response.
    Store(HttpResponse),
    /// Read the record of a response.
    Load { response_id: String },
    /// Listen for the wish to cancel under this name.
    Listen { channel: String },
    /// Look an environment up.
    FindEnvironment { id: String },
    /// Look a cookie jar up.
    FindCookieJar { id: String },
    /// Send the request, with the environment and the cookie jar of these ids.
    Send {
        request: HttpRequest,
        response: HttpResponse,
        environment_id: Option<String>,
        cookie_jar_id: Option<String>,
    },
    /// Answer the command with the response.
    Return(HttpResponse),
    /// Answer the command with the error.
    Refuse { error: String },
}

/// What a `SendAction` holds.
#[verifier::ext_equal]
pub enum SendActionView {
    Store(HttpResponseView),
    Load { response_id: Seq<char> },
    Listen { channel: Seq<char> },
    FindEnvironment { id: Seq<char> },
    FindCookieJar { id: Seq<char> },
    Send {
        request: HttpRequestView,
        response: HttpResponseView,
        environment_id: Option<Seq<char>>,
        cookie_jar_id: Option<Seq<char>>,
    },
    Return(HttpResponseView),
    Refuse { error: Seq<char> },
}

impl View for SendAction {
    type V = SendActionView;

    open spec fn view(&self) -> SendActionView {
        match self {
            SendAction::Store(r) => SendActionView::Store(r@),
            SendAction::Load { response_id } => SendActionView::Load { response_id: response_id@ },
            SendAction::Listen { channel } => SendActionView::Listen { channel: channel@ },
            SendAction::FindEnvironment { id } => SendActionView::FindEnvironment { id: id@ },
            SendAction::FindCookieJar { id } => SendActionView::FindCookieJar { id: id@ },
            SendAction::Send { request, response, environment_id, cookie_jar_id } => SendActionView::Send {
                request: request@,
                response: response@,
                environment_id: text_of(*environment_id),
                cookie_jar_id: text_of(*cookie_jar_id),
            },
            SendAction::Return(r) => SendActionView::Return(r@),
            SendAction::Refuse { error } => SendActionView::Refuse { error: error@ },
        }
    }
}

/// One send under way. An ephemeral one leaves no record.
#[derive(Debug)]
pub struct HttpSend {
    request: HttpRequest,
    environment_id: Option<String>,
    cookie_jar_id: Option<String>,
    ephemeral: bool,
    response: HttpResponse,
    phase: SendPhase,
}

/// What an `HttpSend` holds.
#[verifier::ext_equal]
pub struct HttpSendView {
    pub request: HttpRequestView,
    pub environment_id: Option<Seq<char>>,
    pub cookie_jar_id: Option<Seq<char>>,
    pub ephemeral: bool,
    pub response: HttpResponseView,
    pub phase: SendPhaseView,
}

impl View for HttpSend {
    type V = HttpSendView;

    closed spec fn view(&self) -> HttpSendView {
        HttpSendView {
            request: self.request@,
            environment_id: text_of(self.environment_id),
            cookie_jar_id: text_of(self.cookie_jar_id),
            ephemeral: self.ephemeral,
            response: self.response@,
            phase: self.phase@,
        }
    }
}

/// The name under which the wish to cancel a response arrives.
pub open spec fn cancel_channel(response_id: Seq<char>) -> Seq<char> {
    "cancel_http_response_"@ + response_id
}

/// A send that is recorded, and has not begun.
pub open spec fn recorded_send(
    request: HttpRequestView,
    environment_id: Option<Seq<char>>,
    cookie_jar_id: Option<Seq<char>>,
) -> HttpSendView {
    HttpSendView {
        request,
        environment_id,
        cookie_jar_id,
        ephemeral: false,
        response: no_response(),
        phase: SendPhaseView::Ready,
    }
}

/// A send that leaves no record, and has not begun: its request has no id.
pub open spec fn ephemeral_send(
    request: HttpRequestView,
    environment_id: Option<Seq<char>>,
    cookie_jar_id: Option<Seq<char>>,
) -> HttpSendView {
    HttpSendView {
        ephemeral: true,
        ..recorded_send(
            HttpRequestView { id: Seq::empty(), ..request },
            environment_id,
            cookie_jar_id,
        )
    }
}

impl HttpSendView {
    /// The send in another phase.
    pub open spec fn at(self, phase: SendPhaseView) -> HttpSendView {
        HttpSendView { phase, ..self }
    }

    /// The wish to hear of a cancellation.
    pub open spec fn listen(self) -> SendActionView {
        SendActionView::Listen { channel: cancel_channel(self.response.id) }
    }

    /// The request goes out. A send that leaves no record listens for cancellation only now.
    pub open spec fn send(self) -> (HttpSendView, Seq<SendActionView>) {
        let send = SendActionView::Send {
            request: self.request,
            response: self.response,
            environment_id: self.environment_id,
            cookie_jar_id: self.cookie_jar_id,
        };
        (
            self.at(SendPhaseView::Sending),
            if self.ephemeral {
                seq![self.listen(), send]
            } else {
                seq![send]
            },
        )
    }

    /// The cookie jar is looked up where one is wanted.
    pub open spec fn seek_cookie_jar(self) -> (HttpSendView, Seq<SendActionView>) {
        match self.cookie_jar_id {
            Some(id) => (
                self.at(SendPhaseView::FindingCookieJar),
                seq![SendActionView::FindCookieJar { id }],
            ),
            None => self.send(),
        }
    }

    /// The environment is looked up where one is wanted.
    pub open spec fn seek_environment(self) -> (HttpSendView, Seq<SendActionView>) {
        match self.environment_id {
            Some(id) => (
                self.at(SendPhaseView::FindingEnvironment),
                seq![SendActionView::FindEnvironment { id }],
            ),
            None => self.seek_cookie_jar(),
        }
    }

    /// The command is answered with a response.
    pub open spec fn answer(
        self,
        response: HttpResponseView,
    ) -> (HttpSendView, Seq<SendActionView>) {
        (self.at(SendPhaseView::Done), seq![SendActionView::Return(response)])
    }

    /// The command is answered with an error.
    pub open spec fn refuse(self, error: Seq<char>) -> (HttpSendView, Seq<SendActionView>) {
        (self.at(SendPhaseView::Done), seq![SendActionView::Refuse { error }])
    }
}

/// The send after what came of an action, and what is to be done next. An input that the send
/// does not wait for changes nothing.
pub open spec fn send_after(s: HttpSendView, input: SendInputView) -> (
    HttpSendView,
    Seq<SendActionView>,
) {
    match (s.phase, input) {
        (SendPhaseView::Ready, SendInputView::Begin) => if s.ephemeral {
            s.seek_environment()
        } else {
            (
                s.at(SendPhaseView::Storing),
                seq![SendActionView::Store(response_to(s.request))],
            )
        },
        (SendPhaseView::Storing, SendInputView::Record(response)) => {
            let stored = HttpSendView { response, ..s };
            let next = stored.seek_environment();
            (next.0, seq![stored.listen()] + next.1)
        },
        (SendPhaseView::Storing, SendInputView::Failed { error }) => s.refuse(error),
        (SendPhaseView::FindingEnvironment, SendInputView::Found) => s.seek_cookie_jar(),
        (SendPhaseView::FindingEnvironment, SendInputView::Failed { error }) => if s.ephemeral {
            s.refuse(error)
        } else {
            HttpSendView { environment_id: None, ..s }.seek_cookie_jar()
        },
        (SendPhaseView::FindingCookieJar, SendInputView::Found) => s.send(),
        (SendPhaseView::FindingCookieJar, SendInputView::Failed { error }) => s.refuse(error),
        (SendPhaseView::Sending, SendInputView::Answered(response)) => s.answer(response),
        (SendPhaseView::Sending, SendInputView::Failed { error }) => if s.ephemeral {
            s.refuse(error)
        } else {
            (
                s.at(SendPhaseView::Loading { error }),
                seq![SendActionView::Load { response_id: s.response.id }],
            )
        },
        (SendPhaseView::Loading { error }, SendInputView::Record(response)) => (
            s.at(SendPhaseView::StoringError),
            seq![SendActionView::Store(failed(response, error))],
        ),
        (SendPhaseView::Loading { .. }, SendInputView::Failed { error }) => s.refuse(error),
        (SendPhaseView::StoringError, SendInputView::Record(response)) => s.answer(response),
        (SendPhaseView::StoringError, SendInputView::Failed { error }) => s.refuse(error),
        _ => (s, Seq::empty()),
    }
}

fn one(action: SendAction) -> (todo: Vec<SendAction>)
    ensures
        views(todo@) == seq![action@],
{
    let mut todo: Vec<SendAction> = Vec::new();
    todo.push(action);
    assert(views(todo@) =~= seq![action@]);
    todo
}

fn nothing() -> (todo: Vec<SendAction>)
    ensures
        views(todo@) == Seq::<SendActionView>::empty(),
{
    let todo: Vec<SendAction> = Vec::new();
    assert(views(todo@) =~= Seq::empty());
    todo
}

impl HttpSend {
    /// A send that is recorded, and has not begun.
    pub fn recorded(
        request: HttpRequest,
        environment_id: Option<String>,
        cookie_jar_id: Option<String>,
    ) -> (s: HttpSend)
        ensures
            s@ == recorded_send(request@, text_of(environment_id), text_of(cookie_jar_id)),
    {
        HttpSend {
            request,
            environment_id,
            cookie_jar_id,
            ephemeral: false,
            response: HttpResponse::default(),
            phase: SendPhase::Ready,
        }
    }

    /// A send that leaves no record, and has not begun.
    pub fn ephemeral(
        request: HttpRequest,
        environment_id: Option<String>,
        cookie_jar_id: Option<String>,
    ) -> (s: HttpSend)
        ensures
            s@ == ephemeral_send(request@, text_of(environment_id), text_of(cookie_jar_id)),
    {
        HttpSend {
            request: HttpRequest { id: String::new(), ..request },
            environment_id,
            cookie_jar_id,
            ephemeral: true,
            response: HttpResponse::default(),
            phase: SendPhase::Ready,
        }
    }

    fn at(self, phase: SendPhase) -> (s: HttpSend)
        ensures
            s@ == self@.at(phase@),
    {
        HttpSend { phase, ..self }
    }

    fn listen(&self) -> (a: SendAction)
        ensures
            a@ == self@.listen(),
    {
        let channel = "cancel_http_response_".to_string().concat(self.response.id.as_str());
        SendAction::Listen { channel }
    }

    fn send(self) -> (r: (HttpSend, Vec<SendAction>))
        ensures
            (r.0@, views(r.1@)) == self@.send(),
    {
        let mut todo: Vec<SendAction> = Vec::new();
        if self.ephemeral {
            todo.push(self.listen());
        }
        todo.push(
            SendAction::Send {
                request: self.request.clone(),
                response: self.response.clone(),
                environment_id: copy_text(&self.environment_id),
                cookie_jar_id: copy_text(&self.cookie_jar_id),
            },
        );
        assert(views(todo@) =~= self@.send().1);
        (self.at(SendPhase::Sending), todo)
    }

    fn seek_cookie_jar(self) -> (r: (HttpSend, Vec<SendAction>))
        ensures
            (r.0@, views(r.1@)) == self@.seek_cookie_jar(),
    {
        let wanted = copy_text(&self.cookie_jar_id);
        match wanted {
            Some(id) => (
                self.at(SendPhase::FindingCookieJar),
                one(SendAction::FindCookieJar { id }),
            ),
            None => self.send(),
        }
    }

    fn seek_environment(self) -> (r: (HttpSend, Vec<SendAction>))
        ensures
            (r.0@, views(r.1@)) == self@.seek_environment(),
    {
        let wanted = copy_text(&self.environment_id);
        match wanted {
            Some(id) => (
                self.at(SendPhase::FindingEnvironment),
                one(SendAction::FindEnvironment { id }),
            ),
            None => self.seek_cookie_jar(),
        }
    }

    fn answer(self, response: HttpResponse) -> (r: (HttpSend, Vec<SendAction>))
        ensures
            (r.0@, views(r.1@)) == self@.answer(response@),
    {
        (self.at(SendPhase::Done), one(SendAction::Return(response)))
    }

    fn refuse(self, error: String) -> (r: (HttpSend, Vec<SendAction>))
        ensures
            (r.0@, views(r.1@)) == self@.refuse(error@),
    {
        (self.at(SendPhase::Done), one(SendAction::Refuse { error }))
    }

    fn began(self) -> (r: (HttpSend, Vec<SendAction>))
        requires
            self@.phase is Ready,
        ensures
            (r.0@, views(r.1@)) == send_after(self@, SendInputView::Begin),
    {
        if self.ephemeral {
            self.seek_environment()
        } else {
            let store = SendAction::Store(new_response(&self.request));
            (self.at(SendPhase::Storing), one(store))
        }
    }

    fn stored(self, response: HttpResponse) -> (r: (HttpSend, Vec<SendAction>))
        requires
            self@.phase is Storing,
        ensures
            (r.0@, views(r.1@)) == send_after(self@, SendInputView::Record(response@)),
    {
        let stored = HttpSend { response, ..self };
        let listen = stored.listen();
        let ghost first = listen@;
        let (next, mut more) = stored.seek_environment();
        let mut todo = one(listen);
        let ghost last = views(more@);
        todo.append(&mut more);
        assert(views(todo@) =~= seq![first] + last);
        (next, todo)
    }

    fn failed(self, error: String) -> (r: (HttpSend, Vec<SendAction>))
        ensures
            (r.0@, views(r.1@)) == send_after(self@, SendInputView::Failed { error: error@ }),
    {
        match &self.phase {
            SendPhase::Ready => (self, nothing()),
            SendPhase::Storing => self.refuse(error),
            SendPhase::FindingEnvironment => {
                if self.ephemeral {
                    self.refuse(error)
                } else {
                    let without = HttpSend { environment_id: None, ..self };
                    without.seek_cookie_jar()
                }
            },
            SendPhase::FindingCookieJar => self.refuse(error),
            SendPhase::Sending => {
                if self.ephemeral {
                    self.refuse(error)
                } else {
                    let load = SendAction::Load { response_id: self.response.id.clone() };
                    (self.at(SendPhase::Loading { error }), one(load))
                }
            },
            SendPhase::Loading { .. } => self.refuse(error),
            SendPhase::StoringError => self.refuse(error),
            SendPhase::Done => (self, nothing()),
        }
    }

    fn read(self, response: HttpResponse) -> (r: (HttpSend, Vec<SendAction>))
        ensures
            (r.0@, views(r.1@)) == send_after(self@, SendInputView::Record(response@)),
    {
        match &self.phase {
            SendPhase::Storing => self.stored(response),
            SendPhase::Loading { error } => {
                let store = SendAction::Store(response_err(response, error.clone()));
                (self.at(SendPhase::StoringError), one(store))
            },
            SendPhase::StoringError => self.answer(response),
            _ => (self, nothing()),
        }
    }

    /// The send after what came of an action, and what is to be done next.
    pub fn step(self, input: SendInput) -> (r: (HttpSend, Vec<SendAction>))
        ensures
            (r.0@, views(r.1@)) == send_after(self@, input@),
    {
        match input {
            SendInput::Begin => match &self.phase {
                SendPhase::Ready => self.began(),
                _ => (self, nothing()),
            },
            SendInput::Record(response) => self.read(response),
            SendInput::Found => match &self.phase {
                SendPhase::FindingEnvironment => self.seek_cookie_jar(),
                SendPhase::FindingCookieJar => self.send(),
                _ => (self, nothing()),
            },
            SendInput::Answered(response) => match &self.phase {
                SendPhase::Sending => self.answer(response),
                _ => (self, nothing()),
            },
            SendInput::Failed { error } => self.failed(error),
        }
    }
}

/// The sends of all requests of a folder: one for each, in order, all with the same environment
/// and cookie jar.
pub fn send_folder(
    requests: Vec<HttpRequest>,
    environment_id: Option<String>,
    cookie_jar_id: Option<String>,
) -> (r: Vec<HttpSend>)
    ensures
        views(r@) == views(requests@).map_values(
            |q: HttpRequestView|
                recorded_send(q, text_of(environment_id), text_of(cookie_jar_id)),
        ),
{
    let ghost make = |q: HttpRequestView|
        recorded_send(q, text_of(environment_id), text_of(cookie_jar_id));
    let ghost all = views(requests@).map_values(make);
    let mut r: Vec<HttpSend> = Vec::new();
    assert(views(r@) =~= all.take(0));
    for q in it: requests
        invariant
            it.seq() == requests@,
            make == (|q: HttpRequestView|
                recorded_send(q, text_of(environment_id), text_of(cookie_jar_id))),
            all == views(requests@).map_values(make),
            views(r@) == all.take(it.index() as int),
    {
        let ghost n = it.index() as int;
        let ghost before = views(r@);
        let s = HttpSend::recorded(q, copy_text(&environment_id), copy_text(&cookie_jar_id));
        assert(s@ == make(q@));
        assert(all[n] == s@);
        r.push(s);
        assert(views(r@) =~= before.push(s@));
        assert(all.take(n + 1) =~= all.take(n).push(all[n]));
    }
    assert(views(r@) =~= all);
    r
}

/// The send after a series of inputs, and all that was to be done on the way.
pub open spec fn send_run(s: HttpSendView, inputs: Seq<SendInputView>) -> (
    HttpSendView,
    Seq<SendActionView>,
)
    decreases inputs.len(),
{
    if inputs.len() == 0 {
        (s, Seq::empty())
    } else {
        let first = send_after(s, inputs[0]);
        let rest = send_run(first.0, inputs.skip(1));
        (rest.0, first.1 + rest.1)
    }
}

/// Whether an action answers the command.
pub open spec fn answers(a: SendActionView) -> bool {
    a is Return || a is Refuse
}

/// How many of the actions answer the command.
pub open spec fn answer_count(actions: Seq<SendActionView>) -> nat
    decreases actions.len(),
{
    if actions.len() == 0 {
        0
    } else {
        (if answers(actions[0]) {
            1nat
        } else {
            0nat
        }) + answer_count(actions.skip(1))
    }
}

proof fn lemma_answers_of_both(a: Seq<SendActionView>, b: Seq<SendActionView>)
    ensures
        answer_count(a + b) == answer_count(a) + answer_count(b),
    decreases a.len(),
{
    if a.len() == 0 {
        assert(a + b =~= b);
    } else {
        lemma_answers_of_both(a.skip(1), b);
        assert((a + b).skip(1) =~= a.skip(1) + b);
    }
}

/// A send that is done does nothing more, whatever still arrives.
pub proof fn done_sends_nothing(s: HttpSendView, inputs: Seq<SendInputView>)
    requires
        s.phase is Done,
    ensures
        send_run(s, inputs) == (s, Seq::<SendActionView>::empty()),
    decreases inputs.len(),
{
    if inputs.len() > 0 {
        done_sends_nothing(s, inputs.skip(1));
        assert(send_run(s, inputs).1 =~= Seq::<SendActionView>::empty());
    }
}

/// The command is answered once, when the send is done, and never again.
pub proof fn send_is_answered_once(s: HttpSendView, inputs: Seq<SendInputView>)
    requires
        !(s.phase is Done),
    ensures
        answer_count(send_run(s, inputs).1) == (if send_run(s, inputs).0.phase is Done {
            1nat
        } else {
            0nat
        }),
    decreases inputs.len(),
{
    if inputs.len() > 0 {
        let first = send_after(s, inputs[0]);
        lemma_answers_of_both(first.1, send_run(first.0, inputs.skip(1)).1);
        reveal_with_fuel(answer_count, 4);
        if first.0.phase is Done {
            done_sends_nothing(first.0, inputs.skip(1));
        } else {
            send_is_answered_once(first.0, inputs.skip(1));
        }
    }
}

/// A recorded send that fails is answered with its record, closed with the error, and not with
/// the error itself.
pub proof fn failure_is_recorded(
    s: HttpSendView,
    error: Seq<char>,
    record: HttpResponseView,
    written: HttpResponseView,
)
    requires
        s.phase is Sending,
        !s.ephemeral,
    ensures
        send_run(
            s,
            seq![
                SendInputView::Failed { error },
                SendInputView::Record(record),
                SendInputView::Record(written),
            ],
        ) == (
            s.at(SendPhaseView::Done),
            seq![
                SendActionView::Load { response_id: s.response.id },
                SendActionView::Store(failed(record, error)),
                SendActionView::Return(written),
            ],
        ),
{
    let inputs = seq![
        SendInputView::Failed { error },
        SendInputView::Record(record),
        SendInputView::Record(written),
    ];
    reveal_with_fuel(send_run, 4);
    assert(inputs.skip(1)[0] == inputs[1]);
    assert(inputs.skip(1).skip(1)[0] == inputs[2]);
    assert(inputs.skip(1).skip(1).skip(1) =~= Seq::empty());
    assert(send_run(s, inputs).1 =~= seq![
        SendActionView::Load { response_id: s.response.id },
        SendActionView::Store(failed(record, error)),
        SendActionView::Return(written),
    ]);
}

/// A recorded send whose environment is gone goes on as one that wants none.
pub proof fn lost_environment_is_left_out(s: HttpSendView, error: Seq<char>)
    requires
        s.phase is FindingEnvironment,
        !s.ephemeral,
    ensures
        send_after(s, SendInputView::Failed { error }) == (HttpSendView {
            environment_id: None,
            ..s
        }).seek_environment(),
{
}

/// A send that leaves no record never writes or reads one.
pub proof fn ephemeral_send_leaves_no_record(s: HttpSendView, inputs: Seq<SendInputView>, i: int)
    requires
        s.ephemeral,
        s.phase is Ready,
        0 <= i < send_run(s, inputs).1.len(),
    ensures
        !(send_run(s, inputs).1[i] is Store),
        !(send_run(s, inputs).1[i] is Load),
{
    lemma_no_record(s, inputs, i);
}

proof fn lemma_no_record(s: HttpSendView, inputs: Seq<SendInputView>, i: int)
    requires
        s.ephemeral,
        !(s.phase is Storing) && !(s.phase is Loading) && !(s.phase is StoringError),
        0 <= i < send_run(s, inputs).1.len(),
    ensures
        !(send_run(s, inputs).1[i] is Store),
        !(send_run(s, inputs).1[i] is Load),
    decreases inputs.len(),
{
    let first = send_after(s, inputs[0]);
    if i >= first.1.len() {
        lemma_no_record(first.0, inputs.skip(1), i - first.1.len());
    }
}

proof fn lemma_run_of_both(s: HttpSendView, a: Seq<SendInputView>, b: Seq<SendInputView>)
    ensures
        send_run(s, a + b) == (
            send_run(send_run(s, a).0, b).0,
            send_run(s, a).1 + send_run(send_run(s, a).0, b).1,
        ),
    decreases a.len(),
{
    if a.len() == 0 {
        assert(a + b =~= b);
        assert(send_run(s, a).1 + send_run(s, b).1 =~= send_run(s, b).1);
    } else {
        let first = send_after(s, a[0]);
        assert((a + b)[0] == a[0]);
        assert((a + b).skip(1) =~= a.skip(1) + b);
        lemma_run_of_both(first.0, a.skip(1), b);
        assert(send_run(s, a + b).1 =~= send_run(s, a).1 + send_run(send_run(s, a).0, b).1);
    }
}

proof fn lemma_run_of_one(s: HttpSendView, input: SendInputView)
    ensures
        send_run(s, seq![input]) == send_after(s, input),
{
    reveal_with_fuel(send_run, 2);
    assert(seq![input].skip(1) =~= Seq::empty());
    assert(send_run(s, seq![input]).1 =~= send_after(s, input).1);
}

/// A response of which nothing is known but the request and the workspace that it belongs to.
pub open spec fn blank_response(workspace_id: Seq<char>, request_id: Seq<char>) -> HttpResponseView {
    HttpResponseView {
        id: Seq::empty(),
        workspace_id,
        request_id,
        state: HttpResponseState::Initialized,
        error: None,
        body_path: None,
        headers: Seq::empty(),
        rest: Seq::empty(),
    }
}

/// The inputs that tell how one search ended, where something is searched for.
pub open spec fn searched(wanted: Option<Seq<char>>, outcome: SendInputView) -> Seq<SendInputView> {
    if wanted is Some {
        seq![outcome]
    } else {
        Seq::empty()
    }
}

/// The searches that a send makes, for the environment first.
pub open spec fn searches(
    environment_id: Option<Seq<char>>,
    cookie_jar_id: Option<Seq<char>>,
) -> Seq<SendActionView> {
    (match environment_id {
        Some(id) => seq![SendActionView::FindEnvironment { id }],
        None => Seq::empty(),
    }) + (match cookie_jar_id {
        Some(id) => seq![SendActionView::FindCookieJar { id }],
        None => Seq::empty(),
    })
}

/// A recorded send writes a blank record for its request, listens for cancellation of what was
/// stored, looks for the environment and the cookie jar that it was made with, and sends the
/// request that it was made with, with what was stored, that cookie jar and that environment; an
/// environment that is not found is left out, and nothing else.
pub proof fn course_of_a_recorded_send(
    request: HttpRequestView,
    environment_id: Option<Seq<char>>,
    cookie_jar_id: Option<Seq<char>>,
    stored: HttpResponseView,
    found: bool,
    why: Seq<char>,
)
    ensures
        ({
            let outcome = if found {
                SendInputView::Found
            } else {
                SendInputView::Failed { error: why }
            };
            let r = send_run(
                recorded_send(request, environment_id, cookie_jar_id),
                seq![SendInputView::Begin, SendInputView::Record(stored)] + searched(
                    environment_id,
                    outcome,
                ) + searched(cookie_jar_id, SendInputView::Found),
            );
            &&& r.0.phase is Sending
            &&& !r.0.ephemeral
            &&& r.0.response == stored
            &&& r.1 == seq![
                SendActionView::Store(blank_response(request.workspace_id, request.id)),
                SendActionView::Listen { channel: "cancel_http_response_"@ + stored.id },
            ] + searches(environment_id, cookie_jar_id) + seq![
                SendActionView::Send {
                    request,
                    response: stored,
                    environment_id: if found {
                        environment_id
                    } else {
                        None
                    },
                    cookie_jar_id,
                },
            ]
        }),
{
    let outcome = if found {
        SendInputView::Found
    } else {
        SendInputView::Failed { error: why }
    };
    let s = recorded_send(request, environment_id, cookie_jar_id);
    let begin = seq![SendInputView::Begin];
    let record = seq![SendInputView::Record(stored)];
    let first = seq![SendInputView::Begin, SendInputView::Record(stored)];
    let second = searched(environment_id, outcome);
    let third = searched(cookie_jar_id, SendInputView::Found);
    assert(first =~= begin + record);
    lemma_run_of_both(s, begin, record);
    lemma_run_of_one(s, SendInputView::Begin);
    let t = send_after(s, SendInputView::Begin).0;
    lemma_run_of_one(t, SendInputView::Record(stored));
    lemma_run_of_both(s, first, second);
    lemma_run_of_both(s, first + second, third);
    let u = send_run(s, first).0;
    lemma_run_of_one(u, outcome);
    let v = send_run(u, second).0;
    lemma_run_of_one(v, SendInputView::Found);
    assert(first + second + third =~= (first + second) + third);
    let all = send_run(s, first + second + third).1;
    let env = if found {
        environment_id
    } else {
        None
    };
    assert(all =~= seq![
        SendActionView::Store(blank_response(request.workspace_id, request.id)),
        SendActionView::Listen { channel: "cancel_http_response_"@ + stored.id },
    ] + searches(environment_id, cookie_jar_id) + seq![
        SendActionView::Send { request, response: stored, environment_id: env, cookie_jar_id },
    ]);
}

/// A send that leaves no record looks for the environment and the cookie jar that it was made with,
/// and sends the request that it was made with but for its id, with a blank response, that
/// environment and that cookie jar.
pub proof fn course_of_an_ephemeral_send(
    request: HttpRequestView,
    environment_id: Option<Seq<char>>,
    cookie_jar_id: Option<Seq<char>>,
)
    ensures
        ({
            let r = send_run(
                ephemeral_send(request, environment_id, cookie_jar_id),
                seq![SendInputView::Begin] + searched(environment_id, SendInputView::Found)
                    + searched(cookie_jar_id, SendInputView::Found),
            );
            &&& r.0.phase is Sending
            &&& r.0.ephemeral
            &&& r.1 == searches(environment_id, cookie_jar_id) + seq![
                SendActionView::Listen { channel: "cancel_http_response_"@ },
                SendActionView::Send {
                    request: HttpRequestView {
                        id: Seq::empty(),
                        workspace_id: request.workspace_id,
                        folder_id: request.folder_id,
                        name: request.name,
                        rest: request.rest,
                    },
                    response: blank_response(Seq::empty(), Seq::empty()),
                    environment_id,
                    cookie_jar_id,
                },
            ]
        }),
{
    let s = ephemeral_send(request, environment_id, cookie_jar_id);
    let first = seq![SendInputView::Begin];
    let second = searched(environment_id, SendInputView::Found);
    let third = searched(cookie_jar_id, SendInputView::Found);
    lemma_run_of_one(s, SendInputView::Begin);
    lemma_run_of_both(s, first, second);
    lemma_run_of_both(s, first + second, third);
    let u = send_run(s, first).0;
    lemma_run_of_one(u, SendInputView::Found);
    let v = send_run(u, second).0;
    lemma_run_of_one(v, SendInputView::Found);
    assert(first + second + third =~= (first + second) + third);
    assert("cancel_http_response_"@ + Seq::<char>::empty() =~= "cancel_http_response_"@);
    let r = send_run(s, first + second + third);
    assert(r.1 =~= searches(environment_id, cookie_jar_id) + seq![
        SendActionView::Listen { channel: "cancel_http_response_"@ },
        SendActionView::Send {
            request: HttpRequestView {
                id: Seq::empty(),
                workspace_id: request.workspace_id,
                folder_id: request.folder_id,
                name: request.name,
                rest: request.rest,
            },
            response: blank_response(Seq::empty(), Seq::empty()),
            environment_id,
            cookie_jar_id,
        },
    ]);
}

/// Whether something failed among the inputs.
pub open spec fn something_failed(inputs: Seq<SendInputView>) -> bool {
    exists|j: int| 0 <= j < inputs.len() && (#[trigger] inputs[j]) is Failed
}

proof fn lemma_what_goes_out(s: HttpSendView, inputs: Seq<SendInputView>, i: int)
    requires
        0 <= i < send_run(s, inputs).1.len(),
    ensures
        send_run(s, inputs).1[i] matches SendActionView::Send {
            request,
            response,
            environment_id,
            cookie_jar_id,
        } ==> {
            &&& request == s.request
            &&& cookie_jar_id == s.cookie_jar_id
            &&& environment_id == s.environment_id || (!s.ephemeral && environment_id is None
                && something_failed(inputs))
            &&& response == s.response || inputs.contains(SendInputView::Record(response))
            &&& s.ephemeral && !(s.phase is Storing) ==> response == s.response
            &&& !s.ephemeral && (s.phase is Ready || s.phase is Storing) ==> inputs.contains(
                SendInputView::Record(response),
            )
        },
    decreases inputs.len(),
{
    let first = send_after(s, inputs[0]);
    let rest = inputs.skip(1);
    assert(inputs.contains(inputs[0]));
    assert(inputs[0] is Failed ==> something_failed(inputs));
    match inputs[0] {
        SendInputView::Record(x) => {
            assert(inputs[0] == SendInputView::Record(x));
            assert(inputs.contains(SendInputView::Record(x)));
        },
        _ => {},
    }
    if i >= first.1.len() {
        if first.0.phase is Done {
            done_sends_nothing(first.0, rest);
        }
        lemma_what_goes_out(first.0, rest, i - first.1.len());
        if something_failed(rest) {
            let j = choose|j: int| 0 <= j < rest.len() && (#[trigger] rest[j]) is Failed;
            assert(inputs[j + 1] is Failed);
        }
        assert forall|x: SendInputView| #[trigger] rest.contains(x) implies inputs.contains(x) by {
            let j = rest.index_of(x);
            assert(inputs[j + 1] == x);
        }
    }
}

/// On every course, what goes out is what the send was made with: a recorded one sends its own
/// request with a record that was stored and its cookie jar, and with its environment unless
/// something failed; one that leaves no record sends its own request without an id, with its cookie
/// jar and its environment in any case.
pub proof fn sends_carry_what_they_were_made_with(
    request: HttpRequestView,
    environment_id: Option<Seq<char>>,
    cookie_jar_id: Option<Seq<char>>,
    inputs: Seq<SendInputView>,
    i: int,
)
    ensures
        0 <= i < send_run(recorded_send(request, environment_id, cookie_jar_id), inputs).1.len()
            ==> (send_run(recorded_send(request, environment_id, cookie_jar_id), inputs).1[i]
            matches SendActionView::Send {
            request: sent,
            response,
            environment_id: env,
            cookie_jar_id: jar,
        } ==> {
            &&& sent == request
            &&& inputs.contains(SendInputView::Record(response))
            &&& jar == cookie_jar_id
            &&& !something_failed(inputs) ==> env == environment_id
            &&& env == environment_id || env is None
        }),
        0 <= i < send_run(ephemeral_send(request, environment_id, cookie_jar_id), inputs).1.len()
            ==> (send_run(ephemeral_send(request, environment_id, cookie_jar_id), inputs).1[i]
            matches SendActionView::Send {
            request: sent,
            response,
            environment_id: env,
            cookie_jar_id: jar,
        } ==> {
            &&& sent.id.len() == 0
            &&& sent.workspace_id == request.workspace_id
            &&& sent.folder_id == request.folder_id
            &&& sent.name == request.name
            &&& sent.rest == request.rest
            &&& response == blank_response(Seq::empty(), Seq::empty())
            &&& jar == cookie_jar_id
            &&& env == environment_id
        }),
{
    let a = recorded_send(request, environment_id, cookie_jar_id);
    let b = ephemeral_send(request, environment_id, cookie_jar_id);
    if 0 <= i < send_run(a, inputs).1.len() {
        lemma_what_goes_out(a, inputs, i);
    }
    if 0 <= i < send_run(b, inputs).1.len() {
        lemma_what_goes_out(b, inputs, i);
    }
}

/// The answer that came is the answer that is given. A send that fails is given back as an error
/// where it leaves no record; a recorded one reads its record, closes it with the error, keeps
/// everything else of it, and gives back what was written.
pub proof fn course_after_sending(
    s: HttpSendView,
    answer: HttpResponseView,
    error: Seq<char>,
    record: HttpResponseView,
    written: HttpResponseView,
)
    requires
        s.phase is Sending,
    ensures
        send_run(s, seq![SendInputView::Answered(answer)]).0.phase is Done,
        send_run(s, seq![SendInputView::Answered(answer)]).1 == seq![
            SendActionView::Return(answer),
        ],
        s.ephemeral ==> send_run(s, seq![SendInputView::Failed { error }]).1 == seq![
            SendActionView::Refuse { error },
        ],
        !s.ephemeral ==> send_run(
            s,
            seq![
                SendInputView::Failed { error },
                SendInputView::Record(record),
                SendInputView::Record(written),
            ],
        ).1 == seq![
            SendActionView::Load { response_id: s.response.id },
            SendActionView::Store(
                HttpResponseView {
                    id: record.id,
                    workspace_id: record.workspace_id,
                    request_id: record.request_id,
                    state: HttpResponseState::Closed,
                    error: Some(error),
                    body_path: record.body_path,
                    headers: record.headers,
                    rest: record.rest,
                },
            ),
            SendActionView::Return(written),
        ],
{
    lemma_run_of_one(s, SendInputView::Answered(answer));
    lemma_run_of_one(s, SendInputView::Failed { error });
    if !s.ephemeral {
        failure_is_recorded(s, error, record, written);
    }
}

/// A send that cannot be recorded, whose cookie jar is gone, whose failure cannot be recorded, or
/// that leaves no record and has lost its environment, is given back as the error that came.
pub proof fn other_failures_are_given_back(s: HttpSendView, error: Seq<char>)
    requires
        ({
            ||| s.phase is Storing
            ||| s.phase is FindingCookieJar
            ||| s.phase is Loading
            ||| s.phase is StoringError
            ||| s.ephemeral && s.phase is FindingEnvironment
        }),
    ensures
        send_after(s, SendInputView::Failed { error }).0.phase is Done,
        send_after(s, SendInputView::Failed { error }).1 == seq![SendActionView::Refuse { error }],
{
}

/// Whether a send waits for an input.
pub open spec fn send_waits_for(s: HttpSendView, input: SendInputView) -> bool {
    match s.phase {
        SendPhaseView::Ready => input is Begin,
        SendPhaseView::Storing => input is Record || input is Failed,
        SendPhaseView::FindingEnvironment => input is Found || input is Failed,
        SendPhaseView::FindingCookieJar => input is Found || input is Failed,
        SendPhaseView::Sending => input is Answered || input is Failed,
        SendPhaseView::Loading { .. } => input is Record || input is Failed,
        SendPhaseView::StoringError => input is Record || input is Failed,
        SendPhaseView::Done => false,
    }
}

/// What a send does not wait for changes nothing.
pub proof fn send_keeps_waiting(s: HttpSendView, input: SendInputView)
    requires
        !send_waits_for(s, input),
    ensures
        send_after(s, input) == (s, Seq::<SendActionView>::empty()),
{
}

/// What sends hear and do is seen with all that it holds.
pub proof fn send_parts_are_seen_whole(i: SendInput, a: SendAction)
    ensures
        i matches SendInput::Record(r) ==> i@ == SendInputView::Record(r@),
        i matches SendInput::Answered(r) ==> i@ == SendInputView::Answered(r@),
        i matches SendInput::Failed { error } ==> i@ == (SendInputView::Failed { error: error@ }),
        i is Begin <==> i@ is Begin,
        i is Found <==> i@ is Found,
        a matches SendAction::Store(r) ==> a@ == SendActionView::Store(r@),
        a matches SendAction::Load { response_id } ==> a@ == (SendActionView::Load {
            response_id: response_id@,
        }),
        a matches SendAction::Listen { channel } ==> a@ == (SendActionView::Listen {
            channel: channel@,
        }),
        a matches SendAction::FindEnvironment { id } ==> a@ == (SendActionView::FindEnvironment {
            id: id@,
        }),
        a matches SendAction::FindCookieJar { id } ==> a@ == (SendActionView::FindCookieJar {
            id: id@,
        }),
        a matches SendAction::Send { request, response, environment_id, cookie_jar_id } ==> a@
            == (SendActionView::Send {
            request: request@,
            response: response@,
            environment_id: text_of(environment_id),
            cookie_jar_id: text_of(cookie_jar_id),
        }),
        a matches SendAction::Return(r) ==> a@ == SendActionView::Return(r@),
        a matches SendAction::Refuse { error } ==> a@ == (SendActionView::Refuse { error: error@ }),
{
}

} // verus!
