use yaak_app::models::{
    AnyModel, Folder, GrpcRequest, HttpRequest, OtherModel, WebsocketRequest, Workspace,
};
use yaak_app::plugins::{
    answers_only, installed_plugin, known_plugin, model_scope, new_grpc_request, plugin_reaction,
    PluginReaction, PluginTask,
};
use yaak_app::sse::{sse_events, ServerSentEvent, SseItem};
use yaak_app::toast::ToastColor;
use yaak_app::window::{
    get_window_from_window_context, react, update_delay, AppAction, AppEvent,
};

fn s(text: &str) -> String {
    text.to_string()
}

#[test]
fn models_live_in_their_workspace_and_folder() {
    let in_folder = [
        AnyModel::HttpRequest(HttpRequest {
            workspace_id: s("w"),
            folder_id: Some(s("f")),
            ..Default::default()
        }),
        AnyModel::GrpcRequest(GrpcRequest {
            workspace_id: s("w"),
            folder_id: Some(s("f")),
            ..Default::default()
        }),
        AnyModel::WebsocketRequest(WebsocketRequest {
            workspace_id: s("w"),
            folder_id: Some(s("f")),
            ..Default::default()
        }),
        AnyModel::Folder(Folder {
            workspace_id: s("w"),
            folder_id: Some(s("f")),
            ..Default::default()
        }),
    ];
    for m in &in_folder {
        let scope = model_scope(m, PluginTask::Auth).unwrap();
        assert_eq!(scope.workspace_id, "w");
        assert_eq!(scope.folder_id, Some(s("f")));
    }
    let workspace = AnyModel::Workspace(Workspace { id: s("w"), ..Default::default() });
    let scope = model_scope(&workspace, PluginTask::AuthConfig).unwrap();
    assert_eq!(scope.workspace_id, "w");
    assert_eq!(scope.folder_id, None);
}

#[test]
fn other_models_are_not_supported() {
    let m = AnyModel::Other(OtherModel { id: s("c"), debug: s("CookieJar { id: \"c\" }") });
    assert_eq!(
        model_scope(&m, PluginTask::TemplateFunctions).unwrap_err().0,
        "Unsupported model to call template functions CookieJar { id: \"c\" }"
    );
    assert_eq!(
        model_scope(&m, PluginTask::AuthConfig).unwrap_err().0,
        "Unsupported model to call auth config CookieJar { id: \"c\" }"
    );
    assert_eq!(
        model_scope(&m, PluginTask::Auth).unwrap_err().0,
        "Unsupported model to call auth CookieJar { id: \"c\" }"
    );
}

#[test]
fn answers_come_without_their_plugins() {
    assert_eq!(answers_only(vec![(1u8, s("a")), (2, s("b")), (3, s("c"))]), vec!["a", "b", "c"]);
    assert_eq!(answers_only(Vec::<(u8, String)>::new()).len(), 0);
}

#[test]
fn unknown_plugin_is_an_error() {
    assert_eq!(known_plugin(Some(7)).unwrap(), 7);
    assert_eq!(known_plugin::<u8>(None).unwrap_err().0, "Failed to find plugin for info");
}

#[test]
fn installed_plugin_has_a_directory() {
    let p = installed_plugin("/plugins/x", Some(s("https://x")));
    assert_eq!(p.id, "");
    assert_eq!(p.directory, "/plugins/x");
    assert_eq!(p.url, Some(s("https://x")));
}

#[test]
fn new_grpc_request_is_otherwise_empty() {
    let r = new_grpc_request("w", "Name", Some(s("f")));
    assert_eq!(r.id, "");
    assert_eq!(r.workspace_id, "w");
    assert_eq!(r.name, "Name");
    assert_eq!(r.folder_id, Some(s("f")));
    assert_eq!(r.url, "");
    assert_eq!(r.service, None);
}

#[test]
fn plugin_events_are_answered_or_noted() {
    assert!(matches!(plugin_reaction::<u8>(None), PluginReaction::Unowned));
    assert!(matches!(plugin_reaction(Some(Ok(Some(3u8)))), PluginReaction::Reply(3)));
    assert!(matches!(plugin_reaction::<u8>(Some(Ok(None))), PluginReaction::Silence));
    match plugin_reaction::<u8>(Some(Err(s("boom")))) {
        PluginReaction::Show(t) => {
            assert_eq!(t.message, "boom");
            assert_eq!(t.color, ToastColor::Danger);
            assert_eq!(t.timeout, Some(30000));
        }
        other => panic!("{other:?}"),
    }
}

fn sse(data: &str) -> SseItem {
    SseItem::Event(ServerSentEvent {
        event_type: s("message"),
        data: s(data),
        id: Some(s("1")),
        retry: Some(10),
    })
}

#[test]
fn comments_are_left_out_of_a_stream() {
    let items = vec![SseItem::Comment(s("hi")), sse("a"), SseItem::Comment(s("")), sse("b")];
    let events = sse_events(&items);
    assert_eq!(events.len(), 2);
    assert_eq!(events[0].data, "a");
    assert_eq!(events[1].data, "b");
    assert_eq!(events[0].event_type, "message");
    assert_eq!(events[0].id, Some(s("1")));
    assert_eq!(events[0].retry, Some(10));
    assert_eq!(sse_events(&vec![]).len(), 0);
}

#[test]
fn parts_of_a_stream_give_their_events() {
    let first = sse_events(&vec![sse("a"), SseItem::Comment(s("x"))]);
    let second = sse_events(&vec![sse("b")]);
    let all = sse_events(&vec![sse("a"), SseItem::Comment(s("x")), sse("b")]);
    let parts: Vec<String> = first.into_iter().chain(second).map(|e| e.data).collect();
    assert_eq!(parts, all.into_iter().map(|e| e.data).collect::<Vec<_>>());
}

#[test]
fn window_is_found_by_its_label() {
    let labels = vec![s("main"), s("child"), s("child")];
    assert_eq!(get_window_from_window_context(&labels, &Some(s("child"))).unwrap(), 1);
    assert_eq!(get_window_from_window_context(&labels, &None).unwrap(), 0);
    assert_eq!(
        get_window_from_window_context(&labels, &Some(s("gone"))).unwrap_err().0,
        "Failed to find window for gone"
    );
    assert_eq!(
        get_window_from_window_context(&vec![], &None).unwrap_err().0,
        "No windows open"
    );
}

#[test]
fn application_reacts_to_its_windows() {
    let ready = react(AppEvent::Ready, true);
    assert_eq!(ready.len(), 3);
    assert!(matches!(&ready[0], AppAction::CreateMainWindow { page } if page == "/"));
    assert!(matches!(ready[1], AppAction::RecordLaunch));
    assert!(matches!(ready[2], AppAction::CancelPending));
    let focused = react(AppEvent::Focused, true);
    assert_eq!(focused.len(), 2);
    assert!(matches!(focused[0], AppAction::ConsiderUpdate));
    assert!(matches!(focused[1], AppAction::CheckNotifications { after_millis: 4000 }));
    let focused = react(AppEvent::Focused, false);
    assert_eq!(focused.len(), 1);
    assert!(matches!(focused[0], AppAction::CheckNotifications { after_millis: 4000 }));
    let closing = react(AppEvent::CloseRequested, false);
    assert_eq!(closing.len(), 1);
    assert!(matches!(closing[0], AppAction::SaveWindowState));
    assert_eq!(react(AppEvent::Other, true).len(), 0);
}

#[test]
fn updates_are_looked_for_where_the_settings_say_so() {
    assert_eq!(update_delay(true), Some(3000));
    assert_eq!(update_delay(false), None);
}
