//! Merging an import into what a workspace already holds. A resource of the import that stands
//! at the key of an existing one of the same kind takes that one's id, so that storing it updates
//! the existing one; the folder that it names follows.
use vstd::prelude::*;

use crate::key_map::{lists_keys, ordered_keys, ordered_keys_are_unique, KeyMap};
use crate::keys::{
    chain_key, compute_folder_key, compute_key_map, every_key_leads_to_its_model, folder_by_id,
    folder_key, key_map, lemma_folder_by_id, lemma_no_cycles, no_cycles,
};
use crate::models::{
    no_resources, views, AnyModel, AnyModelView, Folder, FolderView, HttpRequest, HttpRequestView,
    ImportResources, ImportResourcesView,
};
use crate::text::{copy_text, text_of};

verus! {

/// The id of the folder that stands at a key.
pub open spec fn folder_id_at(map: Map<Seq<char>, AnyModelView>, key: Seq<char>) -> Option<
    Seq<char>,
> {
    if map.contains_key(key) && map[key] is Folder {
        Some(map[key].id())
    } else {
        None
    }
}

/// The id of the HTTP request that stands at a key.
pub open spec fn request_id_at(map: Map<Seq<char>, AnyModelView>, key: Seq<char>) -> Option<
    Seq<char>,
> {
    if map.contains_key(key) && map[key] is HttpRequest {
        Some(map[key].id())
    } else {
        None
    }
}

/// The first id where there is one, else the second.
pub open spec fn id_or(id: Option<Seq<char>>, other: Seq<char>) -> Seq<char> {
    match id {
        Some(i) => i,
        None => other,
    }
}

/// What a reference to a folder of the import becomes: the id of the existing folder at the same
/// key, where there is one; else the id of the folder of the import that is stored for that key.
/// Where an HTTP request takes the key, no folder is stored there, and the reference is dropped. A
/// reference to no folder of the import stays.
pub open spec fn merged_reference(
    import: ImportResourcesView,
    existing: ImportResourcesView,
    id: Option<Seq<char>>,
) -> Option<Seq<char>> {
    match folder_key(import.folders, id) {
        Some(k) => match folder_id_at(key_map(existing), k) {
            Some(i) => Some(i),
            None => folder_id_at(key_map(import), k),
        },
        None => id,
    }
}

/// The model that is stored for a key of the import.
pub open spec fn merged_model(
    import: ImportResourcesView,
    existing: ImportResourcesView,
    key: Seq<char>,
) -> AnyModelView {
    match key_map(import)[key] {
        AnyModelView::Folder(f) => AnyModelView::Folder(
            FolderView {
                id: id_or(folder_id_at(key_map(existing), key), f.id),
                folder_id: merged_reference(import, existing, f.folder_id),
                ..f
            },
        ),
        AnyModelView::HttpRequest(q) => AnyModelView::HttpRequest(
            HttpRequestView {
                id: id_or(request_id_at(key_map(existing), key), q.id),
                folder_id: merged_reference(import, existing, q.folder_id),
                ..q
            },
        ),
        m => m,
    }
}

/// The folders among the models that are stored for the keys, in order.
pub open spec fn merged_folders(
    import: ImportResourcesView,
    existing: ImportResourcesView,
    keys: Seq<Seq<char>>,
) -> Seq<FolderView>
    decreases keys.len(),
{
    if keys.len() == 0 {
        Seq::empty()
    } else {
        let head = merged_folders(import, existing, keys.drop_last());
        match merged_model(import, existing, keys.last()) {
            AnyModelView::Folder(f) => head.push(f),
            _ => head,
        }
    }
}

/// The HTTP requests among the models that are stored for the keys, in order.
pub open spec fn merged_requests(
    import: ImportResourcesView,
    existing: ImportResourcesView,
    keys: Seq<Seq<char>>,
) -> Seq<HttpRequestView>
    decreases keys.len(),
{
    if keys.len() == 0 {
        Seq::empty()
    } else {
        let head = merged_requests(import, existing, keys.drop_last());
        match merged_model(import, existing, keys.last()) {
            AnyModelView::HttpRequest(q) => head.push(q),
            _ => head,
        }
    }
}

/// What is stored when an import is merged into existing resources: one folder or HTTP request
/// for each key of the import, in the order of the keys.
pub open spec fn merged(
    import: ImportResourcesView,
    existing: ImportResourcesView,
) -> ImportResourcesView {
    let keys = ordered_keys(key_map(import));
    ImportResourcesView {
        folders: merged_folders(import, existing, keys),
        http_requests: merged_requests(import, existing, keys),
        ..no_resources()
    }
}

/// What a reference to a folder of the import becomes.
fn merge_reference(
    id: &Option<String>,
    import: &ImportResources,
    import_keys: &KeyMap,
    existing: &ImportResources,
    existing_keys: &KeyMap,
) -> (r: Option<String>)
    requires
        no_cycles(import@.folders),
        import_keys.wf(),
        import_keys@ == key_map(import@),
        existing_keys.wf(),
        existing_keys@ == key_map(existing@),
    ensures
        text_of(r) == merged_reference(import@, existing@, text_of(*id)),
{
    proof {
        lemma_no_cycles(import@.folders, text_of(*id));
    }
    match compute_folder_key(copy_text(id), &import.folders) {
        Some(k) => match existing_keys.get(k.as_str()) {
            Some(AnyModel::Folder(f)) => Some(f.id.clone()),
            _ => match import_keys.get(k.as_str()) {
                Some(AnyModel::Folder(f)) => Some(f.id.clone()),
                _ => None,
            },
        },
        None => copy_text(id),
    }
}

/// The resources to store when an import is merged into what exists.
pub fn merge_resources(
    import_resources: &ImportResources,
    existing_resources: &ImportResources,
) -> (r: ImportResources)
    requires
        no_cycles(import_resources@.folders),
        no_cycles(existing_resources@.folders),
    ensures
        r@ == merged(import_resources@, existing_resources@),
{
    let ghost import = import_resources@;
    let ghost existing = existing_resources@;
    let import_key_map = compute_key_map(import_resources);
    let existing_key_map = compute_key_map(existing_resources);
    let ghost keys = ordered_keys(import_key_map@);

    let mut folders: Vec<Folder> = Vec::new();
    let mut http_requests: Vec<HttpRequest> = Vec::new();
    let n: usize = import_key_map.len();
    let mut i: usize = 0;
    while i < n
        invariant
            import == import_resources@,
            existing == existing_resources@,
            no_cycles(import.folders),
            import_key_map.wf(),
            import_key_map@ == key_map(import),
            existing_key_map.wf(),
            existing_key_map@ == key_map(existing),
            keys == ordered_keys(import_key_map@),
            n == keys.len(),
            i <= n,
            views(folders@) =~= merged_folders(import, existing, keys.take(i as int)),
            views(http_requests@) =~= merged_requests(import, existing, keys.take(i as int)),
        decreases n - i,
    {
        let (key, model) = import_key_map.entry(i);
        let ghost folders_before = views(folders@);
        let ghost requests_before = views(http_requests@);
        assert(keys.take(i + 1).drop_last() =~= keys.take(i as int));
        assert(keys.take(i + 1).last() == key@);
        match model {
            AnyModel::Folder(f) => {
                let id = match existing_key_map.get(key.as_str()) {
                    Some(AnyModel::Folder(e)) => e.id.clone(),
                    _ => f.id.clone(),
                };
                let merged = Folder {
                    id,
                    workspace_id: f.workspace_id.clone(),
                    folder_id: merge_reference(
                        &f.folder_id,
                        import_resources,
                        &import_key_map,
                        existing_resources,
                        &existing_key_map,
                    ),
                    name: f.name.clone(),
                    rest: f.rest.clone(),
                };
                let ghost v = merged@;
                assert(AnyModelView::Folder(v) == merged_model(import, existing, key@));
                folders.push(merged);
                assert(views(folders@) =~= folders_before.push(v));
            },
            AnyModel::HttpRequest(q) => {
                let id = match existing_key_map.get(key.as_str()) {
                    Some(AnyModel::HttpRequest(e)) => e.id.clone(),
                    _ => q.id.clone(),
                };
                let merged = HttpRequest {
                    id,
                    workspace_id: q.workspace_id.clone(),
                    folder_id: merge_reference(
                        &q.folder_id,
                        import_resources,
                        &import_key_map,
                        existing_resources,
                        &existing_key_map,
                    ),
                    name: q.name.clone(),
                    rest: q.rest.clone(),
                };
                let ghost v = merged@;
                assert(AnyModelView::HttpRequest(v) == merged_model(import, existing, key@));
                http_requests.push(merged);
                assert(views(http_requests@) =~= requests_before.push(v));
            },
            _ => {},
        }
        i = i + 1;
    }
    assert(keys.take(n as int) =~= keys);
    let r = ImportResources {
        workspaces: Vec::new(),
        environments: Vec::new(),
        folders,
        http_requests,
        grpc_requests: Vec::new(),
        websocket_requests: Vec::new(),
    };
    assert(r@ =~= merged(import, existing));
    r
}

proof fn lemma_merged_count(
    import: ImportResourcesView,
    existing: ImportResourcesView,
    keys: Seq<Seq<char>>,
)
    requires
        forall|i: int| 0 <= i < keys.len() ==> key_map(import).contains_key(#[trigger] keys[i]),
    ensures
        merged_folders(import, existing, keys).len() + merged_requests(import, existing, keys).len()
            == keys.len(),
    decreases keys.len(),
{
    if keys.len() > 0 {
        let head = keys.drop_last();
        assert forall|i: int| 0 <= i < head.len() implies key_map(import).contains_key(
            #[trigger] head[i],
        ) by {
            assert(head[i] == keys[i]);
        }
        lemma_merged_count(import, existing, head);
        assert(keys[keys.len() - 1] == keys.last());
        every_key_leads_to_its_model(import, keys.last());
    }
}

/// A merge stores exactly one folder or HTTP request for each key of the import, whatever
/// exists, and nothing of another kind.
pub proof fn one_resource_for_each_key(
    import: ImportResourcesView,
    existing: ImportResourcesView,
    keys: Seq<Seq<char>>,
)
    requires
        lists_keys(keys, key_map(import)),
    ensures
        merged(import, existing).folders.len() + merged(import, existing).http_requests.len()
            == keys.len(),
        merged(import, existing).workspaces.len() == 0,
        merged(import, existing).environments.len() == 0,
        merged(import, existing).grpc_requests.len() == 0,
        merged(import, existing).websocket_requests.len() == 0,
{
    ordered_keys_are_unique(keys, key_map(import));
    assert forall|i: int| 0 <= i < keys.len() implies key_map(import).contains_key(
        #[trigger] keys[i],
    ) by {
        assert(keys.contains(keys[i]));
    }
    lemma_merged_count(import, existing, keys);
}

/// Whether what an id names is what the import stores: no folder of the import, or the one that
/// stands under its key.
pub open spec fn is_stored_folder(import: ImportResourcesView, id: Option<Seq<char>>) -> bool {
    folder_key(import.folders, id) matches Some(k) ==> folder_id_at(key_map(import), k) == id
}

/// The folder that a model stands in.
pub open spec fn folder_of(model: AnyModelView) -> Option<Seq<char>> {
    match model {
        AnyModelView::Folder(f) => f.folder_id,
        AnyModelView::HttpRequest(q) => q.folder_id,
        _ => None,
    }
}

/// Merging into a workspace without folders and HTTP requests stores each model as it was
/// imported, where the folder that it stands in lost its key to no other model.
pub proof fn merging_into_nothing_changes_nothing(
    import: ImportResourcesView,
    existing: ImportResourcesView,
    key: Seq<char>,
)
    requires
        existing.folders.len() == 0,
        existing.http_requests.len() == 0,
        key_map(import).contains_key(key),
        is_stored_folder(import, folder_of(key_map(import)[key])),
    ensures
        merged_model(import, existing, key) == key_map(import)[key],
{
    assert(key_map(existing) =~= Map::<Seq<char>, AnyModelView>::empty());
}

/// What is stored for a key that exists already, with the same kind of model, has the id of the
/// existing one; what is stored for any other key keeps its own.
pub proof fn known_keys_keep_their_ids(
    import: ImportResourcesView,
    existing: ImportResourcesView,
    key: Seq<char>,
)
    requires
        key_map(import).contains_key(key),
    ensures
        ({
            let m = merged_model(import, existing, key);
            let same_kind = key_map(existing).contains_key(key) && (key_map(existing)[key] is Folder
                == key_map(import)[key] is Folder);
            m.id() == if same_kind {
                key_map(existing)[key].id()
            } else {
                key_map(import)[key].id()
            }
        }),
{
    every_key_leads_to_its_model(import, key);
    if key_map(existing).contains_key(key) {
        every_key_leads_to_its_model(existing, key);
    }
}

/// Whether one of the folders has the id.
pub open spec fn has_folder(folders: Seq<FolderView>, id: Seq<char>) -> bool {
    exists|i: int| 0 <= i < folders.len() && (#[trigger] folders[i]).id == id
}

/// Whether a reference leads somewhere after a merge: to a stored or an existing folder, unless it
/// names no folder of the import.
pub open spec fn leads_to_a_folder(
    import: ImportResourcesView,
    existing: ImportResourcesView,
    id: Option<Seq<char>>,
) -> bool {
    id matches Some(i) ==> {
        ||| has_folder(merged(import, existing).folders, i)
        ||| has_folder(existing.folders, i)
        ||| !has_folder(import.folders, i)
    }
}

proof fn lemma_stored_folder(
    import: ImportResourcesView,
    existing: ImportResourcesView,
    keys: Seq<Seq<char>>,
    at: int,
)
    requires
        0 <= at < keys.len(),
        merged_model(import, existing, keys[at]) is Folder,
    ensures
        has_folder(
            merged_folders(import, existing, keys),
            merged_model(import, existing, keys[at]).id(),
        ),
    decreases keys.len(),
{
    let all = merged_folders(import, existing, keys);
    let head = merged_folders(import, existing, keys.drop_last());
    let id = merged_model(import, existing, keys[at]).id();
    if at == keys.len() - 1 {
        assert(all[head.len() as int].id == id);
    } else {
        assert(keys.drop_last()[at] == keys[at]);
        lemma_stored_folder(import, existing, keys.drop_last(), at);
        let i = choose|i: int| 0 <= i < head.len() && (#[trigger] head[i]).id == id;
        assert(all[i] == head[i]);
    }
}

proof fn lemma_reference_leads_to_a_folder(
    import: ImportResourcesView,
    existing: ImportResourcesView,
    keys: Seq<Seq<char>>,
    id: Option<Seq<char>>,
)
    requires
        lists_keys(keys, key_map(import)),
    ensures
        leads_to_a_folder(import, existing, merged_reference(import, existing, id)),
{
    ordered_keys_are_unique(keys, key_map(import));
    match folder_key(import.folders, id) {
        Some(k) => {
            if folder_id_at(key_map(existing), k) is Some {
                every_key_leads_to_its_model(existing, k);
                let f = key_map(existing)[k]->Folder_0;
                let i = existing.folders.index_of(f);
                assert(existing.folders[i].id == f.id);
            } else if folder_id_at(key_map(import), k) is Some {
                let at = keys.index_of(k);
                assert(keys[at] == k);
                lemma_stored_folder(import, existing, keys, at);
            }
        },
        None => {
            if id is Some {
                lemma_folder_by_id(import.folders, id->0);
            }
        },
    }
}

proof fn lemma_stored_references(
    import: ImportResourcesView,
    existing: ImportResourcesView,
    keys: Seq<Seq<char>>,
    some: Seq<Seq<char>>,
)
    requires
        lists_keys(keys, key_map(import)),
    ensures
        forall|i: int|
            0 <= i < merged_folders(import, existing, some).len() ==> leads_to_a_folder(
                import,
                existing,
                (#[trigger] merged_folders(import, existing, some)[i]).folder_id,
            ),
        forall|i: int|
            0 <= i < merged_requests(import, existing, some).len() ==> leads_to_a_folder(
                import,
                existing,
                (#[trigger] merged_requests(import, existing, some)[i]).folder_id,
            ),
    decreases some.len(),
{
    if some.len() > 0 {
        lemma_stored_references(import, existing, keys, some.drop_last());
        let model = key_map(import)[some.last()];
        lemma_reference_leads_to_a_folder(import, existing, keys, folder_of(model));
        let folders = merged_folders(import, existing, some.drop_last());
        assert forall|i: int| 0 <= i < merged_folders(import, existing, some).len() implies
            leads_to_a_folder(
            import,
            existing,
            (#[trigger] merged_folders(import, existing, some)[i]).folder_id,
        ) by {
            if i < folders.len() {
                assert(merged_folders(import, existing, some)[i] == folders[i]);
            }
        }
        let requests = merged_requests(import, existing, some.drop_last());
        assert forall|i: int| 0 <= i < merged_requests(import, existing, some).len() implies
            leads_to_a_folder(
            import,
            existing,
            (#[trigger] merged_requests(import, existing, some)[i]).folder_id,
        ) by {
            if i < requests.len() {
                assert(merged_requests(import, existing, some)[i] == requests[i]);
            }
        }
    }
}

/// A stored reference to a folder of the import names a stored or an existing folder: no merge
/// leaves a folder or a request in a folder of the import that was not stored.
pub proof fn stored_references_lead_to_folders(
    import: ImportResourcesView,
    existing: ImportResourcesView,
    keys: Seq<Seq<char>>,
)
    requires
        lists_keys(keys, key_map(import)),
    ensures
        forall|i: int|
            0 <= i < merged(import, existing).folders.len() ==> leads_to_a_folder(
                import,
                existing,
                (#[trigger] merged(import, existing).folders[i]).folder_id,
            ),
        forall|i: int|
            0 <= i < merged(import, existing).http_requests.len() ==> leads_to_a_folder(
                import,
                existing,
                (#[trigger] merged(import, existing).http_requests[i]).folder_id,
            ),
{
    lemma_stored_references(import, existing, keys, ordered_keys(key_map(import)));
}

/// A reference into a folder of the import follows the key of that folder: to the existing folder
/// there, else to the one that the import stores there, else nowhere. Any other reference stays.
pub proof fn references_follow_the_key(
    import: ImportResourcesView,
    existing: ImportResourcesView,
    id: Seq<char>,
)
    ensures
        merged_reference(import, existing, None) is None,
        folder_by_id(import.folders, id) is None ==> merged_reference(import, existing, Some(id))
            == Some(id),
        folder_by_id(import.folders, id) matches Some(f) ==> {
            let k = chain_key(import.folders, f);
            let r = merged_reference(import, existing, Some(id));
            let there = key_map(existing).contains_key(k) && key_map(existing)[k] is Folder;
            let stored = key_map(import).contains_key(k) && key_map(import)[k] is Folder;
            &&& there ==> r == Some(key_map(existing)[k]->Folder_0.id)
            &&& !there && stored ==> r == Some(key_map(import)[k]->Folder_0.id)
            &&& !there && !stored ==> r is None
        },
{
}

/// What is stored for a key is the model of the import with another id and another folder at most:
/// its workspace, its name and everything else are those of the import. Its id is that of the
/// existing model of the same kind at that key, where there is one.
pub proof fn stored_model_is_that_of_the_import(
    import: ImportResourcesView,
    existing: ImportResourcesView,
    key: Seq<char>,
)
    ensures
        key_map(import)[key] matches AnyModelView::Folder(f) ==> {
            &&& merged_model(import, existing, key) matches AnyModelView::Folder(m)
            &&& m.workspace_id == f.workspace_id && m.name == f.name && m.rest == f.rest
            &&& m.folder_id == merged_reference(import, existing, f.folder_id)
            &&& m.id == if key_map(existing).contains_key(key) && key_map(existing)[key] is Folder {
                key_map(existing)[key]->Folder_0.id
            } else {
                f.id
            }
        },
        key_map(import)[key] matches AnyModelView::HttpRequest(q) ==> {
            &&& merged_model(import, existing, key) matches AnyModelView::HttpRequest(m)
            &&& m.workspace_id == q.workspace_id && m.name == q.name && m.rest == q.rest
            &&& m.folder_id == merged_reference(import, existing, q.folder_id)
            &&& m.id == if key_map(existing).contains_key(key) && key_map(existing)[key]
                is HttpRequest {
                key_map(existing)[key]->HttpRequest_0.id
            } else {
                q.id
            }
        },
{
}

/// How many of the keys lead to folders.
pub open spec fn folder_keys(import: ImportResourcesView, keys: Seq<Seq<char>>) -> nat
    decreases keys.len(),
{
    if keys.len() == 0 {
        0
    } else {
        folder_keys(import, keys.drop_last()) + if key_map(import)[keys.last()] is Folder {
            1nat
        } else {
            0nat
        }
    }
}

/// How many of the keys lead to HTTP requests.
pub open spec fn request_keys(import: ImportResourcesView, keys: Seq<Seq<char>>) -> nat
    decreases keys.len(),
{
    if keys.len() == 0 {
        0
    } else {
        request_keys(import, keys.drop_last()) + if key_map(import)[keys.last()] is HttpRequest {
            1nat
        } else {
            0nat
        }
    }
}

proof fn lemma_stored_in_order(
    import: ImportResourcesView,
    existing: ImportResourcesView,
    keys: Seq<Seq<char>>,
    i: int,
)
    requires
        0 <= i <= keys.len(),
    ensures
        merged_folders(import, existing, keys).len() == folder_keys(import, keys),
        merged_requests(import, existing, keys).len() == request_keys(import, keys),
        i < keys.len() && key_map(import)[keys[i]] is Folder ==> {
            let at = folder_keys(import, keys.take(i));
            &&& at < merged_folders(import, existing, keys).len()
            &&& AnyModelView::Folder(merged_folders(import, existing, keys)[at as int])
                == merged_model(import, existing, keys[i])
        },
        i < keys.len() && key_map(import)[keys[i]] is HttpRequest ==> {
            let at = request_keys(import, keys.take(i));
            &&& at < merged_requests(import, existing, keys).len()
            &&& AnyModelView::HttpRequest(merged_requests(import, existing, keys)[at as int])
                == merged_model(import, existing, keys[i])
        },
    decreases keys.len(),
{
    if keys.len() > 0 {
        let head = keys.drop_last();
        if i >= head.len() {
            lemma_stored_in_order(import, existing, head, head.len() as int);
            if i == head.len() {
                assert(keys.take(i) =~= head);
            }
        } else {
            lemma_stored_in_order(import, existing, head, i);
            assert(head.take(i) =~= keys.take(i));
        }
    }
}

/// A merge stores a folder for each key of the import that leads to one, and a request for each
/// that leads to a request, in the order of the keys: what is stored for a key stands behind what
/// is stored for the keys before it.
pub proof fn stored_in_the_order_of_the_keys(
    import: ImportResourcesView,
    existing: ImportResourcesView,
    keys: Seq<Seq<char>>,
    i: int,
)
    requires
        lists_keys(keys, key_map(import)),
        0 <= i < keys.len(),
    ensures
        merged(import, existing).folders.len() == folder_keys(import, keys),
        merged(import, existing).http_requests.len() == request_keys(import, keys),
        key_map(import)[keys[i]] is Folder ==> {
            let at = folder_keys(import, keys.take(i));
            &&& at < merged(import, existing).folders.len()
            &&& AnyModelView::Folder(merged(import, existing).folders[at as int]) == merged_model(
                import,
                existing,
                keys[i],
            )
        },
        key_map(import)[keys[i]] is HttpRequest ==> {
            let at = request_keys(import, keys.take(i));
            &&& at < merged(import, existing).http_requests.len()
            &&& AnyModelView::HttpRequest(merged(import, existing).http_requests[at as int])
                == merged_model(import, existing, keys[i])
        },
{
    ordered_keys_are_unique(keys, key_map(import));
    lemma_stored_in_order(import, existing, keys, i);
}

} // verus!
