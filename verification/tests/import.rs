use std::collections::BTreeMap;

use yaak_app::import::{import_data, import_ids, ModelKind};
use yaak_app::models::{
    Environment, Folder, GrpcRequest, HttpRequest, ImportResources, WebsocketRequest, Workspace,
};

fn s(text: &str) -> String {
    text.to_string()
}

fn environment(id: &str, parent_model: &str, parent_id: Option<&str>) -> Environment {
    Environment {
        id: s(id),
        workspace_id: s("GENERATE_ID::w"),
        parent_model: s(parent_model),
        parent_id: parent_id.map(s),
        ..Default::default()
    }
}

fn bundle() -> ImportResources {
    ImportResources {
        workspaces: vec![Workspace { id: s("GENERATE_ID::w"), rest: s("workspace") }],
        environments: vec![
            environment("e1", "folder", Some("f1")),
            environment("e2", "", Some("f1")),
            environment("e3", "workspace", Some("f1")),
            environment("e4", "folder", None),
        ],
        folders: vec![
            Folder {
                id: s("f1"),
                workspace_id: s("GENERATE_ID::w"),
                name: s("F1"),
                ..Default::default()
            },
            Folder {
                id: s("f2"),
                workspace_id: s("GENERATE_ID::w"),
                folder_id: Some(s("f1")),
                name: s("F2"),
                ..Default::default()
            },
        ],
        http_requests: vec![HttpRequest {
            id: s("h"),
            workspace_id: s("GENERATE_ID::w"),
            folder_id: Some(s("f2")),
            name: s("H"),
            rest: s("http"),
        }],
        grpc_requests: vec![GrpcRequest {
            id: s("g"),
            workspace_id: s("GENERATE_ID::w"),
            name: s("G"),
            url: s("localhost"),
            message: s("{}"),
            ..Default::default()
        }],
        websocket_requests: vec![WebsocketRequest {
            id: s("x"),
            workspace_id: s("GENERATE_ID::w"),
            folder_id: Some(s("f1")),
            rest: s("ws"),
        }],
    }
}

fn answered(resources: &ImportResources) -> ImportResources {
    let mut seen: BTreeMap<String, String> = BTreeMap::new();
    let answers: Vec<String> = import_ids(resources)
        .iter()
        .map(|q| {
            let n = seen.len();
            seen.entry(q.id.clone()).or_insert_with(|| format!("new_{n}")).clone()
        })
        .collect();
    import_data(resources, &answers)
}

#[test]
fn ids_are_asked_about_in_order() {
    let asked: Vec<(ModelKind, String)> =
        import_ids(&bundle()).into_iter().map(|q| (q.kind, q.id)).collect();
    let w = || (ModelKind::Workspace, s("GENERATE_ID::w"));
    assert_eq!(
        asked,
        vec![
            w(),
            (ModelKind::Environment, s("e1")),
            w(),
            (ModelKind::Folder, s("f1")),
            (ModelKind::Environment, s("e2")),
            w(),
            (ModelKind::Environment, s("e3")),
            w(),
            (ModelKind::Environment, s("e4")),
            w(),
            (ModelKind::Folder, s("f1")),
            w(),
            (ModelKind::Folder, s("f2")),
            w(),
            (ModelKind::Folder, s("f1")),
            (ModelKind::HttpRequest, s("h")),
            w(),
            (ModelKind::Folder, s("f2")),
            (ModelKind::GrpcRequest, s("g")),
            w(),
            (ModelKind::WebsocketRequest, s("x")),
            w(),
            (ModelKind::Folder, s("f1")),
        ]
    );
}

#[test]
fn references_follow_the_new_ids() {
    let r = answered(&bundle());
    let w = r.workspaces[0].id.clone();
    assert_ne!(w, "GENERATE_ID::w");
    assert!(r.environments.iter().all(|e| e.workspace_id == w));
    assert!(r.folders.iter().all(|f| f.workspace_id == w));
    assert_eq!(r.http_requests[0].workspace_id, w);
    assert_eq!(r.grpc_requests[0].workspace_id, w);
    assert_eq!(r.websocket_requests[0].workspace_id, w);
    assert_eq!(r.folders[0].folder_id, None);
    assert_eq!(r.folders[1].folder_id, Some(r.folders[0].id.clone()));
    assert_eq!(r.http_requests[0].folder_id, Some(r.folders[1].id.clone()));
    assert_eq!(r.grpc_requests[0].folder_id, None);
    assert_eq!(r.websocket_requests[0].folder_id, Some(r.folders[0].id.clone()));
    assert_eq!(r.environments[0].parent_id, Some(r.folders[0].id.clone()));
}

#[test]
fn environments_get_a_parent_model() {
    let r = answered(&bundle());
    assert_eq!(r.environments[0].parent_model, "folder");
    assert_eq!(r.environments[1].parent_model, "workspace");
    assert_eq!(r.environments[1].parent_id, Some(s("f1")));
    assert_eq!(r.environments[2].parent_model, "workspace");
    assert_eq!(r.environments[2].parent_id, None);
    assert_eq!(r.environments[3].parent_model, "folder");
    assert_eq!(r.environments[3].parent_id, None);
}

#[test]
fn everything_but_ids_is_kept() {
    let r = answered(&bundle());
    assert_eq!(r.workspaces[0].rest, "workspace");
    assert_eq!(r.folders[0].name, "F1");
    assert_eq!(r.folders[1].name, "F2");
    assert_eq!(r.http_requests[0].name, "H");
    assert_eq!(r.http_requests[0].rest, "http");
    assert_eq!(r.grpc_requests[0].url, "localhost");
    assert_eq!(r.grpc_requests[0].message, "{}");
    assert_eq!(r.websocket_requests[0].rest, "ws");
    assert_eq!(r.environments.len(), 4);
}

#[test]
fn equal_ids_of_different_kinds_become_equal() {
    let r = answered(&ImportResources {
        folders: vec![Folder { id: s("same"), workspace_id: s("w"), ..Default::default() }],
        http_requests: vec![HttpRequest { id: s("same"), workspace_id: s("w"), ..Default::default() }],
        ..Default::default()
    });
    assert_ne!(r.folders[0].id, "same");
    assert_eq!(r.folders[0].id, r.http_requests[0].id);
}

#[test]
fn nothing_is_asked_for_nothing() {
    let none = ImportResources::default();
    assert_eq!(import_ids(&none).len(), 0);
    assert_eq!(import_data(&none, &vec![]).folders.len(), 0);
}
