use yaak_app::key_map::KeyMap;
use yaak_app::keys::{compute_folder_key, compute_key, compute_key_map, has_no_cycles};
use yaak_app::models::{
    AnyModel, Folder, GrpcRequest, HttpRequest, ImportResources, OtherModel, WebsocketRequest,
    Workspace,
};

fn folder(id: &str, name: &str, folder_id: Option<&str>) -> Folder {
    Folder {
        id: id.to_string(),
        name: name.to_string(),
        folder_id: folder_id.map(|s| s.to_string()),
        ..Default::default()
    }
}

fn request(id: &str, name: &str, folder_id: Option<&str>) -> HttpRequest {
    HttpRequest {
        id: id.to_string(),
        name: name.to_string(),
        folder_id: folder_id.map(|s| s.to_string()),
        ..Default::default()
    }
}

#[test]
fn do_it() {
    let f_a = Folder {
        id: "f_a".to_string(),
        name: "Folder A".to_string(),
        ..Default::default()
    };

    let f_b = Folder {
        id: "f_b".to_string(),
        name: "Folder B".to_string(),
        folder_id: Some(f_a.id.clone()),
        ..Default::default()
    };

    let r_a = HttpRequest {
        id: "r_a".to_string(),
        name: "Request A".to_string(),
        ..Default::default()
    };

    let r_b = HttpRequest {
        id: "r_b".to_string(),
        name: "Request B".to_string(),
        folder_id: Some(f_b.id.clone()),
        ..Default::default()
    };

    let resources = ImportResources {
        folders: vec![f_a.clone(), f_b.clone()],
        http_requests: vec![r_a.clone(), r_b.clone()],
        ..Default::default()
    };

    let keys = compute_key_map(&resources);
    assert_eq!(
        keys.keys(),
        vec![
            "Folder A",
            "Folder A::Folder B",
            "Folder A::Folder B::Request B",
            "Request A"
        ]
    )
}

#[test]
fn every_model_is_found_under_its_key() {
    let resources = ImportResources {
        folders: vec![folder("f_a", "A", None), folder("f_b", "B", Some("f_a"))],
        http_requests: vec![request("r", "R", Some("f_b"))],
        ..Default::default()
    };
    let keys = compute_key_map(&resources);
    assert_eq!(keys.len(), 3);
    assert_eq!(keys.get("A").unwrap().id(), "f_a");
    assert_eq!(keys.get("A::B").unwrap().id(), "f_b");
    assert_eq!(keys.get("A::B::R").unwrap().id(), "r");
    assert!(keys.get("B").is_none());
}

#[test]
fn later_model_takes_a_shared_key() {
    let resources = ImportResources {
        folders: vec![folder("f_a", "A", None), folder("f_b", "A", None)],
        http_requests: vec![request("r_1", "R", None), request("r_2", "R", None)],
        ..Default::default()
    };
    let keys = compute_key_map(&resources);
    assert_eq!(keys.keys(), vec!["A", "R"]);
    assert_eq!(keys.get("A").unwrap().id(), "f_b");
    assert_eq!(keys.get("R").unwrap().id(), "r_2");
}

#[test]
fn request_takes_the_key_of_a_folder() {
    let resources = ImportResources {
        folders: vec![folder("f", "Same", None)],
        http_requests: vec![request("r", "Same", None)],
        ..Default::default()
    };
    let keys = compute_key_map(&resources);
    assert_eq!(keys.len(), 1);
    assert_eq!(keys.entry(0).1.id(), "r");
}

#[test]
fn folder_that_is_not_there_gives_no_prefix() {
    let folders = vec![folder("f", "F", Some("gone"))];
    assert_eq!(compute_folder_key(None, &folders), None);
    assert_eq!(compute_folder_key(Some("gone".to_string()), &folders), None);
    assert_eq!(compute_folder_key(Some("f".to_string()), &folders), Some("F".to_string()));
}

#[test]
fn first_folder_of_an_id_counts() {
    let folders = vec![folder("f", "First", None), folder("f", "Second", None)];
    assert_eq!(compute_folder_key(Some("f".to_string()), &folders), Some("First".to_string()));
}

#[test]
fn other_models_have_their_id_as_key() {
    let r = ImportResources::default();
    let w = Workspace { id: "wk".to_string(), ..Default::default() };
    let g = GrpcRequest { id: "gr".to_string(), name: "G".to_string(), ..Default::default() };
    let s = WebsocketRequest { id: "ws".to_string(), ..Default::default() };
    let o = OtherModel { id: "o".to_string(), debug: "O".to_string() };
    assert_eq!(compute_key(&AnyModel::Workspace(w), &r), "wk");
    assert_eq!(compute_key(&AnyModel::GrpcRequest(g), &r), "gr");
    assert_eq!(compute_key(&AnyModel::WebsocketRequest(s), &r), "ws");
    assert_eq!(compute_key(&AnyModel::Other(o), &r), "o");
}

#[test]
fn folder_outside_the_list_has_an_empty_key() {
    let r = ImportResources::default();
    assert_eq!(compute_key(&AnyModel::Folder(folder("f", "F", None)), &r), "");
    assert_eq!(compute_key(&AnyModel::HttpRequest(request("r", "R", Some("f"))), &r), "R");
}

#[test]
fn cycles_are_noticed() {
    assert!(has_no_cycles(&vec![]));
    assert!(has_no_cycles(&vec![folder("a", "A", Some("b")), folder("b", "B", None)]));
    assert!(has_no_cycles(&vec![folder("a", "A", Some("gone"))]));
    assert!(!has_no_cycles(&vec![folder("a", "A", Some("a"))]));
    assert!(!has_no_cycles(&vec![folder("a", "A", Some("b")), folder("b", "B", Some("a"))]));
    assert!(!has_no_cycles(&vec![
        folder("top", "T", None),
        folder("c", "C", Some("b")),
        folder("b", "B", Some("b")),
    ]));
}

#[test]
fn key_map_lists_its_keys_in_order() {
    let mut map = KeyMap::new();
    assert_eq!(map.len(), 0);
    for (key, id) in [("b", "1"), ("a", "2"), ("ab", "3"), ("", "4"), ("b", "5"), ("B", "6")] {
        map.insert(
            key.to_string(),
            AnyModel::Other(OtherModel { id: id.to_string(), debug: String::new() }),
        );
    }
    assert_eq!(map.keys(), vec!["", "B", "a", "ab", "b"]);
    assert_eq!(map.get("b").unwrap().id(), "5");
    assert_eq!(map.entry(2).0, "a");
    assert_eq!(map.entry(2).1.id(), "2");
    assert!(map.get("c").is_none());
}

#[test]
fn keys_are_ordered_as_texts_are() {
    let names = ["\u{10000}", "\u{ffff}", "\u{e9}", "e", "z", "::", "A::B", "A B", "A"];
    let mut map = KeyMap::new();
    for n in names {
        map.insert(
            n.to_string(),
            AnyModel::Other(OtherModel { id: n.to_string(), debug: String::new() }),
        );
    }
    let mut sorted: Vec<String> = names.iter().map(|n| n.to_string()).collect();
    sorted.sort();
    assert_eq!(map.keys(), sorted);
}

#[test]
fn order_and_taken_ids_change_no_key() {
    let (a, b) = (folder("a", "A", None), folder("b", "B", Some("a")));
    let id = || Some("b".to_string());
    let key = Some("A::B".to_string());
    assert_eq!(compute_folder_key(id(), &vec![a.clone(), b.clone()]), key);
    assert_eq!(compute_folder_key(id(), &vec![b.clone(), a.clone()]), key);
    assert_eq!(compute_folder_key(id(), &vec![a, b, folder("a", "Other", None)]), key);
}
