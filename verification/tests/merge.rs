use yaak_app::merge::merge_resources;
use yaak_app::models::{Folder, GrpcRequest, HttpRequest, ImportResources, Workspace};

#[test]
fn merge_resources_simple() {
    let import_resources = ImportResources {
        http_requests: vec![
            HttpRequest {
                id: "r_a".to_string(),
                name: "Request A".to_string(),
                ..Default::default()
            },
            HttpRequest {
                id: "r_b".to_string(),
                name: "Request B".to_string(),
                ..Default::default()
            },
        ],
        ..Default::default()
    };
    let existing_resources = ImportResources {
        http_requests: vec![HttpRequest {
            id: "r_a".to_string(),
            name: "Request A".to_string(),
            ..Default::default()
        }],
        ..Default::default()
    };

    let result = merge_resources(&import_resources, &existing_resources);
    assert_eq!(result.http_requests.len(), 2)
}

fn tree(folder_id: &str, request_id: &str, rest: &str) -> ImportResources {
    ImportResources {
        folders: vec![Folder {
            id: folder_id.to_string(),
            name: "F".to_string(),
            rest: rest.to_string(),
            ..Default::default()
        }],
        http_requests: vec![HttpRequest {
            id: request_id.to_string(),
            name: "R".to_string(),
            folder_id: Some(folder_id.to_string()),
            rest: rest.to_string(),
            ..Default::default()
        }],
        ..Default::default()
    }
}

#[test]
fn known_keys_take_the_existing_ids() {
    let result = merge_resources(&tree("f_new", "r_new", "new"), &tree("f_old", "r_old", "old"));
    assert_eq!(result.folders.len(), 1);
    assert_eq!(result.folders[0].id, "f_old");
    assert_eq!(result.folders[0].rest, "new");
    assert_eq!(result.http_requests.len(), 1);
    assert_eq!(result.http_requests[0].id, "r_old");
    assert_eq!(result.http_requests[0].folder_id, Some("f_old".to_string()));
    assert_eq!(result.http_requests[0].rest, "new");
}

#[test]
fn merging_into_nothing_keeps_the_import() {
    let result = merge_resources(&tree("f", "r", "x"), &ImportResources::default());
    assert_eq!(result.folders[0].id, "f");
    assert_eq!(result.http_requests[0].id, "r");
    assert_eq!(result.http_requests[0].folder_id, Some("f".to_string()));
}

#[test]
fn kinds_are_not_mixed() {
    let import = ImportResources {
        folders: vec![Folder {
            id: "f".to_string(),
            name: "Same".to_string(),
            ..Default::default()
        }],
        ..Default::default()
    };
    let existing = ImportResources {
        http_requests: vec![HttpRequest {
            id: "r".to_string(),
            name: "Same".to_string(),
            ..Default::default()
        }],
        ..Default::default()
    };
    let result = merge_resources(&import, &existing);
    assert_eq!(result.folders[0].id, "f");
    assert_eq!(result.http_requests.len(), 0);
}

#[test]
fn only_models_with_a_place_in_the_tree_are_merged() {
    let import = ImportResources {
        workspaces: vec![Workspace::default()],
        grpc_requests: vec![GrpcRequest::default()],
        ..tree("f", "r", "")
    };
    let result = merge_resources(&import, &ImportResources::default());
    assert_eq!(result.workspaces.len(), 0);
    assert_eq!(result.environments.len(), 0);
    assert_eq!(result.grpc_requests.len(), 0);
    assert_eq!(result.websocket_requests.len(), 0);
    assert_eq!(result.folders.len() + result.http_requests.len(), 2);
}

fn folder(id: &str, name: &str, folder_id: Option<&str>) -> Folder {
    Folder {
        id: id.to_string(),
        name: name.to_string(),
        folder_id: folder_id.map(|f| f.to_string()),
        ..Default::default()
    }
}

fn request(id: &str, name: &str, folder_id: Option<&str>) -> HttpRequest {
    HttpRequest {
        id: id.to_string(),
        name: name.to_string(),
        folder_id: folder_id.map(|f| f.to_string()),
        ..Default::default()
    }
}

#[test]
fn references_lead_to_the_folder_that_is_stored() {
    let import = ImportResources {
        folders: vec![folder("f1", "F", None), folder("f2", "F", None), folder("c", "C", Some("f1"))],
        http_requests: vec![request("r", "R", Some("f1")), request("x", "X", Some("gone"))],
        ..Default::default()
    };
    let result = merge_resources(&import, &ImportResources::default());
    assert_eq!(result.folders.len(), 2);
    assert_eq!(result.folders[0].id, "f2");
    assert_eq!(result.folders[1].id, "c");
    assert_eq!(result.folders[1].folder_id, Some("f2".to_string()));
    assert_eq!(result.http_requests[0].folder_id, Some("f2".to_string()));
    assert_eq!(result.http_requests[1].folder_id, Some("gone".to_string()));
}

#[test]
fn references_to_a_folder_behind_a_request() {
    let import = ImportResources {
        folders: vec![folder("f", "Same", None)],
        http_requests: vec![request("r", "Same", None), request("inner", "R", Some("f"))],
        ..Default::default()
    };
    let result = merge_resources(&import, &ImportResources::default());
    assert_eq!(result.folders.len(), 0);
    assert_eq!(result.http_requests.len(), 2);
    assert_eq!(result.http_requests[1].id, "inner");
    assert_eq!(result.http_requests[1].folder_id, None);

    let existing =
        ImportResources { folders: vec![folder("old", "Same", None)], ..Default::default() };
    let result = merge_resources(&import, &existing);
    assert_eq!(result.http_requests[1].folder_id, Some("old".to_string()));
}
