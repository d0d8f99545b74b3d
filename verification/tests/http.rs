use yaak_app::http::{
    body_source, curl_to_request, new_response, response_body, response_err, saved_body,
    BodyAction, HttpResponse, HttpResponseState,
};
use yaak_app::http_send::{send_folder, HttpSend, SendAction, SendInput};
use yaak_app::models::{HttpRequest, ImportResources};

fn s(text: &str) -> String {
    text.to_string()
}

fn request(id: &str) -> HttpRequest {
    HttpRequest { id: s(id), workspace_id: s("wk"), name: s("R"), ..Default::default() }
}

fn response(id: &str) -> HttpResponse {
    HttpResponse { id: s(id), ..new_response(&request("rq")) }
}

#[test]
fn response_belongs_to_its_request() {
    let r = new_response(&request("rq"));
    assert_eq!(r.id, "");
    assert_eq!(r.request_id, "rq");
    assert_eq!(r.workspace_id, "wk");
    assert_eq!(r.state, HttpResponseState::Initialized);
    assert_eq!(r.error, None);
}

#[test]
fn failed_response_is_closed() {
    let r = response_err(response("rs"), s("timeout"));
    assert_eq!(r.id, "rs");
    assert_eq!(r.request_id, "rq");
    assert_eq!(r.state, HttpResponseState::Closed);
    assert_eq!(r.error, Some(s("timeout")));
}

#[test]
fn media_type_is_that_of_the_first_header_in_any_case() {
    let r = HttpResponse {
        body_path: Some(s("/b")),
        headers: vec![
            (s("Content-Typ"), s("no")),
            (s("CONTENT-Type"), s("application/json")),
            (s("content-type"), s("text/plain")),
        ],
        ..response("rs")
    };
    let b = body_source(&r).unwrap();
    assert_eq!(b.path, "/b");
    assert_eq!(b.content_type, "application/json");
}

#[test]
fn media_type_may_be_missing() {
    let r = HttpResponse {
        body_path: Some(s("/b")),
        headers: vec![(s("\u{212a}ontent-type"), s("no"))],
        ..response("rs")
    };
    assert_eq!(body_source(&r).unwrap().content_type, "");
}

#[test]
fn body_needs_a_path() {
    assert_eq!(body_source(&response("rs")).unwrap_err().0, "Response body path not set");
    assert_eq!(saved_body(response("rs")).unwrap_err().0, "Response does not have a body");
    let r = HttpResponse { body_path: Some(s("/b")), ..response("rs") };
    assert_eq!(saved_body(r).unwrap(), "/b");
}

#[test]
fn body_is_filtered_where_a_filter_is_given() {
    let t = || s("text/plain");
    assert_eq!(response_body(None, t(), None).unwrap_err().0, "Failed to find response body");
    assert_eq!(
        response_body(None, t(), Some(s("$.a"))).unwrap_err().0,
        "Failed to find response body"
    );
    for filter in [None, Some(s(""))] {
        match response_body(Some(s("body")), t(), filter).unwrap() {
            BodyAction::Show(f) => {
                assert_eq!(f.content, "body");
                assert_eq!(f.error, None);
            }
            other => panic!("{other:?}"),
        }
    }
    match response_body(Some(s("body")), t(), Some(s("$.a"))).unwrap() {
        BodyAction::Filter { filter, body, content_type } => {
            assert_eq!((filter.as_str(), body.as_str()), ("$.a", "body"));
            assert_eq!(content_type, "text/plain");
        }
        other => panic!("{other:?}"),
    }
}

#[test]
fn curl_gives_the_first_request() {
    let none = ImportResources::default();
    assert_eq!(curl_to_request(&none, "w").unwrap_err().0, "No curl command found");
    let some = ImportResources {
        http_requests: vec![
            HttpRequest { rest: s("first"), folder_id: Some(s("f")), ..request("a") },
            HttpRequest { rest: s("second"), ..request("b") },
        ],
        ..Default::default()
    };
    let r = curl_to_request(&some, "w2").unwrap();
    assert_eq!(r.id, "");
    assert_eq!(r.workspace_id, "w2");
    assert_eq!(r.rest, "first");
    assert_eq!(r.name, "R");
    assert_eq!(r.folder_id, Some(s("f")));
}

fn step(send: HttpSend, input: SendInput, n: usize) -> (HttpSend, Vec<SendAction>) {
    let (send, actions) = send.step(input);
    assert_eq!(actions.len(), n);
    (send, actions)
}

fn sending() -> HttpSend {
    let send = HttpSend::recorded(request("rq"), None, None);
    let (send, _) = step(send, SendInput::Begin, 1);
    step(send, SendInput::Record(response("rs")), 2).0
}

#[test]
fn recorded_send_takes_its_course() {
    let send = HttpSend::recorded(request("rq"), Some(s("env")), Some(s("jar")));
    let (send, a) = step(send, SendInput::Begin, 1);
    assert!(matches!(&a[0], SendAction::Store(r)
        if r.request_id == "rq" && r.workspace_id == "wk" && r.id == ""));
    let (send, a) = step(send, SendInput::Record(response("rs")), 2);
    assert!(matches!(&a[0], SendAction::Listen { channel } if channel == "cancel_http_response_rs"));
    assert!(matches!(&a[1], SendAction::FindEnvironment { id } if id == "env"));
    let (send, a) = step(send, SendInput::Found, 1);
    assert!(matches!(&a[0], SendAction::FindCookieJar { id } if id == "jar"));
    let (send, a) = step(send, SendInput::Found, 1);
    match &a[0] {
        SendAction::Send { request, response, environment_id, cookie_jar_id } => {
            assert_eq!(request.id, "rq");
            assert_eq!(response.id, "rs");
            assert_eq!(environment_id.as_deref(), Some("env"));
            assert_eq!(cookie_jar_id.as_deref(), Some("jar"));
        }
        other => panic!("{other:?}"),
    }
    let (send, a) = step(send, SendInput::Answered(response("rs2")), 1);
    assert!(matches!(&a[0], SendAction::Return(r) if r.id == "rs2"));
    step(send, SendInput::Failed { error: s("late") }, 0);
}

#[test]
fn lost_environment_is_left_out() {
    let send = HttpSend::recorded(request("rq"), Some(s("env")), None);
    let (send, _) = step(send, SendInput::Begin, 1);
    let (send, _) = step(send, SendInput::Record(response("rs")), 2);
    let (_, a) = step(send, SendInput::Failed { error: s("gone") }, 1);
    assert!(matches!(&a[0], SendAction::Send { environment_id: None, .. }));
}

#[test]
fn lost_cookie_jar_is_an_error() {
    let send = HttpSend::recorded(request("rq"), None, Some(s("jar")));
    let (send, _) = step(send, SendInput::Begin, 1);
    let (send, a) = step(send, SendInput::Record(response("rs")), 2);
    assert!(matches!(&a[1], SendAction::FindCookieJar { .. }));
    let (send, a) = step(send, SendInput::Failed { error: s("gone") }, 1);
    assert!(matches!(&a[0], SendAction::Refuse { error } if error == "gone"));
    step(send, SendInput::Found, 0);
}

#[test]
fn failed_send_is_answered_with_its_record() {
    let (send, a) = step(sending(), SendInput::Failed { error: s("timeout") }, 1);
    assert!(matches!(&a[0], SendAction::Load { response_id } if response_id == "rs"));
    let current = HttpResponse { rest: s("half"), ..response("rs") };
    let (send, a) = step(send, SendInput::Record(current), 1);
    match &a[0] {
        SendAction::Store(r) => {
            assert_eq!(r.rest, "half");
            assert_eq!(r.state, HttpResponseState::Closed);
            assert_eq!(r.error, Some(s("timeout")));
        }
        other => panic!("{other:?}"),
    }
    let (_, a) = step(send, SendInput::Record(response("rs3")), 1);
    assert!(matches!(&a[0], SendAction::Return(r) if r.id == "rs3"));
}

#[test]
fn records_that_fail_are_errors() {
    let send = HttpSend::recorded(request("rq"), None, None);
    let (send, _) = step(send, SendInput::Begin, 1);
    let (_, a) = step(send, SendInput::Failed { error: s("disk") }, 1);
    assert!(matches!(&a[0], SendAction::Refuse { error } if error == "disk"));
    let (send, _) = step(sending(), SendInput::Failed { error: s("timeout") }, 1);
    let (_, a) = step(send, SendInput::Failed { error: s("disk") }, 1);
    assert!(matches!(&a[0], SendAction::Refuse { error } if error == "disk"));
    let (send, _) = step(sending(), SendInput::Failed { error: s("timeout") }, 1);
    let (send, _) = step(send, SendInput::Record(response("rs")), 1);
    let (_, a) = step(send, SendInput::Failed { error: s("full") }, 1);
    assert!(matches!(&a[0], SendAction::Refuse { error } if error == "full"));
}

#[test]
fn ephemeral_send_leaves_no_record() {
    let send = HttpSend::ephemeral(request("rq"), Some(s("env")), Some(s("jar")));
    let (send, a) = step(send, SendInput::Begin, 1);
    assert!(matches!(&a[0], SendAction::FindEnvironment { id } if id == "env"));
    let (send, a) = step(send, SendInput::Found, 1);
    assert!(matches!(&a[0], SendAction::FindCookieJar { id } if id == "jar"));
    let (send, a) = step(send, SendInput::Found, 2);
    assert!(matches!(&a[0], SendAction::Listen { channel } if channel == "cancel_http_response_"));
    assert!(matches!(&a[1], SendAction::Send { request, response, .. }
        if request.id == "" && request.name == "R" && response.id == ""));
    let (_, a) = step(send, SendInput::Failed { error: s("timeout") }, 1);
    assert!(matches!(&a[0], SendAction::Refuse { error } if error == "timeout"));
}

#[test]
fn ephemeral_send_needs_its_environment() {
    let send = HttpSend::ephemeral(request("rq"), Some(s("env")), None);
    let (send, _) = step(send, SendInput::Begin, 1);
    let (_, a) = step(send, SendInput::Failed { error: s("gone") }, 1);
    assert!(matches!(&a[0], SendAction::Refuse { error } if error == "gone"));
}

#[test]
fn folder_is_sent_request_by_request() {
    let sends = send_folder(vec![request("a"), request("b")], Some(s("env")), None);
    assert_eq!(sends.len(), 2);
    let mut ids = Vec::new();
    for send in sends {
        let (send, a) = step(send, SendInput::Begin, 1);
        match &a[0] {
            SendAction::Store(r) => ids.push(r.request_id.clone()),
            other => panic!("{other:?}"),
        }
        let (_, a) = step(send, SendInput::Record(response("rs")), 2);
        assert!(matches!(&a[1], SendAction::FindEnvironment { id } if id == "env"));
    }
    assert_eq!(ids, vec!["a", "b"]);
    assert_eq!(send_folder(vec![], None, None).len(), 0);
}
