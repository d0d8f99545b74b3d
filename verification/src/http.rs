//! Records of HTTP responses, and what is read out of them.
use vstd::prelude::*;

use crate::error::{generic_error, GenericError};
use crate::models::{HttpRequest, HttpRequestView, ImportResources};
use crate::text::{
    copy_pairs, copy_text, equal_ignoring_case, pairs_of, same_ignoring_case, text_of,
};

verus! {

/// How far a response has come.
#[derive(Debug, Clone, Copy, PartialEq, Eq, Structural)]
pub enum HttpResponseState {
    Initialized,
    Connected,
    Closed,
}

/// The response to an HTTP request.
#[derive(Debug)]
pub struct HttpResponse {
    pub id: String,
    pub workspace_id: String,
    pub request_id: String,
    pub state: HttpResponseState,
    pub error: Option<String>,
    pub body_path: Option<String>,
    pub headers: Vec<(String, String)>,
    pub rest: String,
}

/// What an `HttpResponse` holds.
#[verifier::ext_equal]
pub struct HttpResponseView {
    pub id: Seq<char>,
    pub workspace_id: Seq<char>,
    pub request_id: Seq<char>,
    pub state: HttpResponseState,
    pub error: Option<Seq<char>>,
    pub body_path: Option<Seq<char>>,
    pub headers: Seq<(Seq<char>, Seq<char>)>,
    pub rest: Seq<char>,
}

impl View for HttpResponse {
    type V = HttpResponseView;

    open spec fn view(&self) -> HttpResponseView {
        HttpResponseView {
            id: self.id@,
            workspace_id: self.workspace_id@,
            request_id: self.request_id@,
            state: self.state,
            error: text_of(self.error),
            body_path: text_of(self.body_path),
            headers: pairs_of(self.headers@),
            rest: self.rest@,
        }
    }
}

impl Clone for HttpResponse {
    fn clone(&self) -> (r: Self)
        ensures
            r@ == self@,
    {
        HttpResponse {
            id: self.id.clone(),
            workspace_id: self.workspace_id.clone(),
            request_id: self.request_id.clone(),
            state: self.state,
            error: copy_text(&self.error),
            body_path: copy_text(&self.body_path),
            headers: copy_pairs(&self.headers),
            rest: self.rest.clone(),
        }
    }
}

/// A response of which nothing is known.
pub open spec fn no_response() -> HttpResponseView {
    HttpResponseView {
        id: Seq::empty(),
        workspace_id: Seq::empty(),
        request_id: Seq::empty(),
        state: HttpResponseState::Initialized,
        error: None,
        body_path: None,
        headers: Seq::empty(),
        rest: Seq::empty(),
    }
}

impl Default for HttpResponse {
    fn default() -> (r: Self)
        ensures
            r@ == no_response(),
    {
        let r = HttpResponse {
            id: String::new(),
            workspace_id: String::new(),
            request_id: String::new(),
            state: HttpResponseState::Initialized,
            error: None,
            body_path: None,
            headers: Vec::new(),
            rest: String::new(),
        };
        assert(r@ =~= no_response());
        r
    }
}

/// The record of a response that is about to be asked for.
pub open spec fn response_to(request: HttpRequestView) -> HttpResponseView {
    HttpResponseView {
        workspace_id: request.workspace_id,
        request_id: request.id,
        ..no_response()
    }
}

/// The record of a response that is about to be asked for.
pub fn new_response(request: &HttpRequest) -> (r: HttpResponse)
    ensures
        r@ == response_to(request@),
{
    HttpResponse {
        workspace_id: request.workspace_id.clone(),
        request_id: request.id.clone(),
        ..HttpResponse::default()
    }
}

/// A response that is closed because of an error.
pub open spec fn failed(response: HttpResponseView, error: Seq<char>) -> HttpResponseView {
    HttpResponseView { state: HttpResponseState::Closed, error: Some(error), ..response }
}

/// The response, closed because of an error.
pub fn response_err(response: HttpResponse, error: String) -> (r: HttpResponse)
    ensures
        r@ == failed(response@, error@),
{
    HttpResponse { state: HttpResponseState::Closed, error: Some(error), ..response }
}

/// The media type that headers declare: that of the first header of this name, in whatever case,
/// or nothing.
pub open spec fn content_type_of(headers: Seq<(Seq<char>, Seq<char>)>) -> Seq<char>
    decreases headers.len(),
{
    if headers.len() == 0 {
        Seq::empty()
    } else if equal_ignoring_case(headers[0].0, "content-type"@) {
        headers[0].1
    } else {
        content_type_of(headers.skip(1))
    }
}

/// The media type that headers declare.
fn content_type(headers: &Vec<(String, String)>) -> (r: String)
    ensures
        r@ == content_type_of(pairs_of(headers@)),
{
    let ghost all = pairs_of(headers@);
    let mut i: usize = 0;
    assert(all.skip(0) =~= all);
    while i < headers.len()
        invariant
            i <= headers.len(),
            all == pairs_of(headers@),
            content_type_of(all) == content_type_of(all.skip(i as int)),
        decreases headers.len() - i,
    {
        if same_ignoring_case(headers[i].0.as_str(), "content-type") {
            return headers[i].1.clone();
        }
        assert(all.skip(i as int).skip(1) =~= all.skip(i + 1));
        i = i + 1;
    }
    let r = String::new();
    assert(r@ =~= Seq::empty());
    r
}

/// Where the body of a response is, and the media type that it is read as.
#[derive(Debug)]
pub struct BodySource {
    pub path: String,
    pub content_type: String,
}

/// Where the body of a response is, and the media type that it is read as.
pub fn body_source(response: &HttpResponse) -> (r: Result<BodySource, GenericError>)
    ensures
        match r {
            Ok(s) => {
                &&& response@.body_path == Some(s.path@)
                &&& s.content_type@ == content_type_of(response@.headers)
            },
            Err(e) => response@.body_path is None && e@ == "Response body path not set"@,
        },
{
    match &response.body_path {
        None => Err(generic_error("Response body path not set")),
        Some(p) => Ok(
            BodySource { path: p.clone(), content_type: content_type(&response.headers) },
        ),
    }
}

/// The body of a response as it is shown, and why it is not, where it could not be filtered.
#[derive(Debug)]
pub struct FilterResponse {
    pub content: String,
    pub error: Option<String>,
}

/// What is to be done with the body of a response.
#[derive(Debug)]
pub enum BodyAction {
    /// Show it as it is.
    Show(FilterResponse),
    /// Have a plugin filter it.
    Filter { filter: String, body: String, content_type: String },
}

/// What is to be done with the body that was read, by the filter that the user gave. An empty
/// filter is none.
pub fn response_body(
    body: Option<String>,
    content_type: String,
    filter: Option<String>,
) -> (r: Result<
    BodyAction,
    GenericError,
>)
    ensures
        match body {
            None => r matches Err(e) && e@ == "Failed to find response body"@,
            Some(b) => match filter {
                Some(f) if f@.len() > 0 => r == Ok::<BodyAction, GenericError>(
                    BodyAction::Filter { filter: f, body: b, content_type },
                ),
                _ => r == Ok::<BodyAction, GenericError>(
                    BodyAction::Show(FilterResponse { content: b, error: None }),
                ),
            },
        },
{
    let body = match body {
        None => return Err(generic_error("Failed to find response body")),
        Some(body) => body,
    };
    match filter {
        Some(filter) => {
            if filter.as_str().is_empty() {
                Ok(BodyAction::Show(FilterResponse { content: body, error: None }))
            } else {
                Ok(BodyAction::Filter { filter, body, content_type })
            }
        },
        None => Ok(BodyAction::Show(FilterResponse { content: body, error: None })),
    }
}

/// The file that the body of a response is copied from.
pub fn saved_body(response: HttpResponse) -> (r: Result<String, GenericError>)
    ensures
        match r {
            Ok(path) => response@.body_path == Some(path@),
            Err(e) => response@.body_path is None && e@ == "Response does not have a body"@,
        },
{
    match response.body_path {
        Some(path) => Ok(path),
        None => Err(generic_error("Response does not have a body")),
    }
}

/// A request as it is brought into a workspace: it has no id yet.
pub open spec fn adopted(request: HttpRequestView, workspace_id: Seq<char>) -> HttpRequestView {
    HttpRequestView { id: Seq::empty(), workspace_id, ..request }
}

/// The request that a curl command was read as, for a workspace: the first that came of it.
pub fn curl_to_request(resources: &ImportResources, workspace_id: &str) -> (r: Result<
    HttpRequest,
    GenericError,
>)
    ensures
        match r {
            Ok(q) => {
                &&& resources@.http_requests.len() > 0
                &&& q@ == adopted(resources@.http_requests[0], workspace_id@)
            },
            Err(e) => {
                &&& resources@.http_requests.len() == 0
                &&& e@ == "No curl command found"@
            },
        },
{
    if resources.http_requests.len() == 0 {
        return Err(generic_error("No curl command found"));
    }
    let request = resources.http_requests[0].clone();
    Ok(HttpRequest { id: String::new(), workspace_id: workspace_id.to_string(), ..request })
}

/// Headers of other names do not change the media type, wherever they stand between the others.
pub proof fn other_headers_do_not_matter(
    headers: Seq<(Seq<char>, Seq<char>)>,
    at: int,
    other: (Seq<char>, Seq<char>),
)
    requires
        0 <= at <= headers.len(),
        !equal_ignoring_case(other.0, "content-type"@),
    ensures
        content_type_of(headers.insert(at, other)) == content_type_of(headers),
    decreases headers.len(),
{
    let more = headers.insert(at, other);
    if at == 0 {
        assert(more.skip(1) =~= headers);
    } else if !equal_ignoring_case(headers[0].0, "content-type"@) {
        other_headers_do_not_matter(headers.skip(1), at - 1, other);
        assert(more.skip(1) =~= headers.skip(1).insert(at - 1, other));
    }
}

/// The first header of the right name gives the media type, whatever follows it; where none has
/// that name there is no media type.
pub proof fn first_content_type_counts(headers: Seq<(Seq<char>, Seq<char>)>, at: int)
    requires
        0 <= at <= headers.len(),
        forall|i: int|
            0 <= i < at ==> !equal_ignoring_case((#[trigger] headers[i]).0, "content-type"@),
    ensures
        at < headers.len() && equal_ignoring_case(headers[at].0, "content-type"@)
            ==> content_type_of(headers) == headers[at].1,
        at == headers.len() ==> content_type_of(headers) == Seq::<char>::empty(),
    decreases at,
{
    if at > 0 {
        assert(!equal_ignoring_case(headers[0].0, "content-type"@));
        let rest = headers.skip(1);
        assert forall|i: int| 0 <= i < at - 1 implies !equal_ignoring_case(
            (#[trigger] rest[i]).0,
            "content-type"@,
        ) by {
            assert(rest[i] == headers[i + 1]);
        }
        first_content_type_counts(rest, at - 1);
    }
}

/// A new response belongs to its request and workspace, and holds nothing yet.
pub proof fn new_response_belongs_to_its_request(request: HttpRequestView)
    ensures
        response_to(request).request_id == request.id,
        response_to(request).workspace_id == request.workspace_id,
        response_to(request).id.len() == 0,
        response_to(request).state == HttpResponseState::Initialized,
        response_to(request).error is None,
        response_to(request).body_path is None,
        response_to(request).headers.len() == 0,
        response_to(request).rest.len() == 0,
{
}

/// A failure closes a response with its error, and leaves everything else of it.
pub proof fn failure_keeps_the_rest(response: HttpResponseView, error: Seq<char>)
    ensures
        failed(response, error).state == HttpResponseState::Closed,
        failed(response, error).error == Some(error),
        failed(response, error).id == response.id,
        failed(response, error).workspace_id == response.workspace_id,
        failed(response, error).request_id == response.request_id,
        failed(response, error).body_path == response.body_path,
        failed(response, error).headers == response.headers,
        failed(response, error).rest == response.rest,
{
}

/// A request that is brought into a workspace belongs to it, has no id, and is otherwise as it
/// was.
pub proof fn adopted_request_keeps_the_rest(request: HttpRequestView, workspace_id: Seq<char>)
    ensures
        adopted(request, workspace_id).id.len() == 0,
        adopted(request, workspace_id).workspace_id == workspace_id,
        adopted(request, workspace_id).folder_id == request.folder_id,
        adopted(request, workspace_id).name == request.name,
        adopted(request, workspace_id).rest == request.rest,
{
}

/// A response is seen with all that it holds.
pub proof fn response_is_seen_whole(r: HttpResponse)
    ensures
        r@.id == r.id@,
        r@.workspace_id == r.workspace_id@,
        r@.request_id == r.request_id@,
        r@.state == r.state,
        r@.error == text_of(r.error),
        r@.body_path == text_of(r.body_path),
        r@.headers == pairs_of(r.headers@),
        r@.rest == r.rest@,
{
}

} // verus!
