//! Keys: the path of names by which a folder or a request is known, whatever its id.
use vstd::prelude::*;

use crate::key_map::KeyMap;
use crate::models::{
    views, AnyModel, AnyModelView, Folder, FolderView, HttpRequestView, ImportResources,
    ImportResourcesView,
};
use crate::text::{copy_text, same, text_of};

verus! {

/// The first folder with the given id.
pub open spec fn folder_by_id(folders: Seq<FolderView>, id: Seq<char>) -> Option<FolderView>
    decreases folders.len(),
{
    if folders.len() == 0 {
        None
    } else if folders[0].id == id {
        Some(folders[0])
    } else {
        folder_by_id(folders.skip(1), id)
    }
}

/// The folder that `f` stands in: the one that its `folder_id` names, if it is there.
pub open spec fn parent_of(folders: Seq<FolderView>, f: FolderView) -> Option<FolderView> {
    match f.folder_id {
        Some(id) => folder_by_id(folders, id),
        None => None,
    }
}

/// Whether exactly `n` folders enclose `f`.
pub open spec fn depth_is(folders: Seq<FolderView>, f: FolderView, n: nat) -> bool
    decreases n,
{
    match parent_of(folders, f) {
        Some(p) => n > 0 && depth_is(folders, p, (n - 1) as nat),
        None => n == 0,
    }
}

/// Whether the way up from `f` ends: no folder on it encloses itself.
pub open spec fn chain_ends(folders: Seq<FolderView>, f: FolderView) -> bool {
    exists|n: nat| depth_is(folders, f, n)
}

/// How many folders enclose `f`.
pub open spec fn depth(folders: Seq<FolderView>, f: FolderView) -> nat {
    choose|n: nat| depth_is(folders, f, n)
}

/// Whether the way up from every folder of the list ends.
pub open spec fn no_cycles(folders: Seq<FolderView>) -> bool {
    forall|i: int| 0 <= i < folders.len() ==> chain_ends(folders, #[trigger] folders[i])
}

/// The names of the folders that enclose `f`, outermost first, and its own, each divided from
/// the next by `::`.
pub open spec fn chain_key(folders: Seq<FolderView>, f: FolderView) -> Seq<char>
    decreases depth(folders, f),
    when chain_ends(folders, f)
{
    match parent_of(folders, f) {
        Some(p) => {
            proof {
                lemma_parent_depth(folders, f);
            }
            chain_key(folders, p) + "::"@ + f.name
        },
        None => f.name,
    }
}

/// The key of the folder that an id names; none where it names no folder.
pub open spec fn folder_key(folders: Seq<FolderView>, id: Option<Seq<char>>) -> Option<Seq<char>> {
    match id {
        Some(id) => match folder_by_id(folders, id) {
            Some(f) => Some(chain_key(folders, f)),
            None => None,
        },
        None => None,
    }
}

/// Whether the way up from the folder that an id names ends, where it names one.
pub open spec fn named_chain_ends(folders: Seq<FolderView>, id: Option<Seq<char>>) -> bool {
    id matches Some(i) ==> (folder_by_id(folders, i) matches Some(f) ==> chain_ends(folders, f))
}

/// The key of a model: for a folder, the names on the way down to it; for an HTTP request, the
/// same for the folder that it stands in, and its own name; for any other model, its id.
pub open spec fn model_key(folders: Seq<FolderView>, model: AnyModelView) -> Seq<char> {
    match model {
        AnyModelView::Folder(m) => match folder_key(folders, Some(m.id)) {
            Some(k) => k,
            None => Seq::empty(),
        },
        AnyModelView::HttpRequest(m) => match folder_key(folders, m.folder_id) {
            Some(k) => k + "::"@ + m.name,
            None => m.name,
        },
        _ => model.id(),
    }
}

/// Whether the key of the model can be read off: the way up from it ends.
pub open spec fn has_model_key(folders: Seq<FolderView>, model: AnyModelView) -> bool {
    match model {
        AnyModelView::Folder(m) => named_chain_ends(folders, Some(m.id)),
        AnyModelView::HttpRequest(m) => named_chain_ends(folders, m.folder_id),
        _ => true,
    }
}

/// The folders of `list` by key, a later one in place of an earlier one with the same key.
pub open spec fn folders_by_key(folders: Seq<FolderView>, list: Seq<FolderView>) -> Map<
    Seq<char>,
    AnyModelView,
>
    decreases list.len(),
{
    if list.len() == 0 {
        Map::empty()
    } else {
        let m = AnyModelView::Folder(list.last());
        folders_by_key(folders, list.drop_last()).insert(model_key(folders, m), m)
    }
}

/// The map with the requests of `list` put in by key, one after the other.
pub open spec fn with_requests_by_key(
    folders: Seq<FolderView>,
    map: Map<Seq<char>, AnyModelView>,
    list: Seq<HttpRequestView>,
) -> Map<Seq<char>, AnyModelView>
    decreases list.len(),
{
    if list.len() == 0 {
        map
    } else {
        let m = AnyModelView::HttpRequest(list.last());
        with_requests_by_key(folders, map, list.drop_last()).insert(model_key(folders, m), m)
    }
}

/// The folders and then the HTTP requests by key; of two with the same key, the later one.
pub open spec fn key_map(r: ImportResourcesView) -> Map<Seq<char>, AnyModelView> {
    with_requests_by_key(r.folders, folders_by_key(r.folders, r.folders), r.http_requests)
}

proof fn lemma_depth_unique(folders: Seq<FolderView>, f: FolderView, n: nat, m: nat)
    requires
        depth_is(folders, f, n),
        depth_is(folders, f, m),
    ensures
        n == m,
    decreases n,
{
    match parent_of(folders, f) {
        Some(p) => lemma_depth_unique(folders, p, (n - 1) as nat, (m - 1) as nat),
        None => {},
    }
}

/// The folder around `f` is one level nearer to the top.
pub proof fn lemma_parent_depth(folders: Seq<FolderView>, f: FolderView)
    requires
        chain_ends(folders, f),
    ensures
        match parent_of(folders, f) {
            Some(p) => chain_ends(folders, p) && depth(folders, p) + 1 == depth(folders, f),
            None => depth(folders, f) == 0,
        },
{
    let n = depth(folders, f);
    assert(depth_is(folders, f, n));
    match parent_of(folders, f) {
        Some(p) => {
            assert(depth_is(folders, p, (n - 1) as nat));
            lemma_depth_unique(folders, p, (n - 1) as nat, depth(folders, p));
        },
        None => {},
    }
}

/// The folder that is found by an id has that id and is one of the list; where none is found,
/// none has it.
pub proof fn lemma_folder_by_id(folders: Seq<FolderView>, id: Seq<char>)
    ensures
        match folder_by_id(folders, id) {
            Some(f) => f.id == id && folders.contains(f),
            None => forall|i: int| 0 <= i < folders.len() ==> (#[trigger] folders[i]).id != id,
        },
    decreases folders.len(),
{
    if folders.len() > 0 && folders[0].id != id {
        let rest = folders.skip(1);
        lemma_folder_by_id(rest, id);
        match folder_by_id(rest, id) {
            Some(f) => {
                let i = choose|i: int| 0 <= i < rest.len() && rest[i] == f;
                assert(folders[i + 1] == f);
            },
            None => {
                assert forall|i: int| 0 <= i < folders.len() implies (#[trigger] folders[i]).id != id by {
                    if i > 0 {
                        assert(rest[i - 1] == folders[i]);
                    }
                }
            },
        }
    }
}

/// The folders around a folder at depth `n`: `n` different ones of the list, each nearer to the
/// top.
proof fn lemma_enclosing(folders: Seq<FolderView>, f: FolderView, n: nat) -> (s: Set<FolderView>)
    requires
        depth_is(folders, f, n),
    ensures
        s.finite(),
        s.len() == n,
        s.subset_of(folders.to_set()),
        forall|x: FolderView| #[trigger]
            s.contains(x) ==> exists|m: nat| m < n && #[trigger] depth_is(folders, x, m),
    decreases n,
{
    match parent_of(folders, f) {
        Some(p) => {
            let m = (n - 1) as nat;
            let s = lemma_enclosing(folders, p, m);
            lemma_folder_by_id(folders, f.folder_id->0);
            if s.contains(p) {
                let k = choose|k: nat| k < m && #[trigger] depth_is(folders, p, k);
                lemma_depth_unique(folders, p, k, m);
            }
            assert(depth_is(folders, p, m));
            s.insert(p)
        },
        None => Set::empty(),
    }
}

/// A chain that ends at all is no longer than the list of folders, and that of a folder of the
/// list is shorter: its key is made of no more names than there are folders.
pub proof fn depth_is_bounded(folders: Seq<FolderView>, f: FolderView)
    requires
        chain_ends(folders, f),
    ensures
        depth(folders, f) <= folders.len(),
        folders.contains(f) ==> depth(folders, f) < folders.len(),
{
    let n = depth(folders, f);
    let s = lemma_enclosing(folders, f, n);
    folders.lemma_cardinality_of_set();
    vstd::set_lib::lemma_len_subset(s, folders.to_set());
    if folders.contains(f) {
        if s.contains(f) {
            let m = choose|m: nat| m < n && #[trigger] depth_is(folders, f, m);
            lemma_depth_unique(folders, f, m, n);
        }
        vstd::set_lib::lemma_len_subset(s.insert(f), folders.to_set());
    }
}

/// The first folder with the given id.
fn find_folder<'a>(folders: &'a Vec<Folder>, id: &str) -> (r: Option<&'a Folder>)
    ensures
        match r {
            Some(f) => folder_by_id(views(folders@), id@) == Some(f@),
            None => folder_by_id(views(folders@), id@) is None,
        },
{
    let ghost all = views(folders@);
    let mut i: usize = 0;
    assert(all.skip(0) =~= all);
    while i < folders.len()
        invariant
            all == views(folders@),
            i <= folders.len(),
            folder_by_id(all, id@) == folder_by_id(all.skip(i as int), id@),
        decreases folders.len() - i,
    {
        assert(all.skip(i as int)[0] == folders@[i as int]@);
        if same(folders[i].id.as_str(), id) {
            return Some(&folders[i]);
        }
        assert(all.skip(i as int).skip(1) =~= all.skip(i + 1));
        i = i + 1;
    }
    None
}

/// The folder that `f` stands in.
fn find_parent<'a>(folders: &'a Vec<Folder>, f: &Folder) -> (r: Option<&'a Folder>)
    ensures
        match r {
            Some(p) => parent_of(views(folders@), f@) == Some(p@),
            None => parent_of(views(folders@), f@) is None,
        },
{
    match &f.folder_id {
        None => None,
        Some(id) => find_folder(folders, id.as_str()),
    }
}

/// Whether the way up from `f` ends.
fn way_up_ends(folders: &Vec<Folder>, f: &Folder) -> (r: bool)
    ensures
        r == chain_ends(views(folders@), f@),
{
    let ghost all = views(folders@);
    let mut at = f;
    let mut left: usize = folders.len();
    let ghost mut gone: nat = 0;
    while left > 0
        invariant
            all == views(folders@),
            left + gone == folders.len(),
            forall|n: nat| #[trigger]
                depth_is(all, f@, n) <==> n >= gone && depth_is(all, at@, (n - gone) as nat),
        decreases left,
    {
        match find_parent(folders, at) {
            None => {
                assert(depth_is(all, at@, 0));
                assert(depth_is(all, f@, gone));
                return true;
            },
            Some(p) => {
                let ghost below = at@;
                assert forall|n: nat| #[trigger] depth_is(all, f@, n) implies n >= gone + 1
                    && depth_is(all, p@, (n - gone - 1) as nat) by {
                    assert(depth_is(all, below, (n - gone) as nat));
                }
                at = p;
                left = left - 1;
                proof {
                    gone = gone + 1;
                }
            },
        }
    }
    match find_parent(folders, at) {
        None => {
            assert(depth_is(all, at@, 0));
            assert(depth_is(all, f@, gone));
            true
        },
        Some(_p) => {
            proof {
                if chain_ends(all, f@) {
                    depth_is_bounded(all, f@);
                    assert(depth_is(all, f@, depth(all, f@)));
                }
            }
            false
        },
    }
}

/// Whether the way up from every folder of the list ends.
pub fn has_no_cycles(folders: &Vec<Folder>) -> (r: bool)
    ensures
        r == no_cycles(views(folders@)),
{
    let ghost all = views(folders@);
    let mut i: usize = 0;
    while i < folders.len()
        invariant
            all == views(folders@),
            i <= folders.len(),
            forall|j: int| 0 <= j < i ==> chain_ends(all, #[trigger] all[j]),
        decreases folders.len() - i,
    {
        assert(all[i as int] == folders@[i as int]@);
        if !way_up_ends(folders, &folders[i]) {
            return false;
        }
        i = i + 1;
    }
    true
}

/// The key of the folder that an id names; none where it names no folder.
pub fn compute_folder_key(id: Option<String>, folders: &Vec<Folder>) -> (key: Option<String>)
    requires
        named_chain_ends(views(folders@), text_of(id)),
    ensures
        text_of(key) == folder_key(views(folders@), text_of(id)),
    decreases (match text_of(id) {
        Some(i) => match folder_by_id(views(folders@), i) {
            Some(f) => depth(views(folders@), f),
            None => 0,
        },
        None => 0,
    }),
{
    let ghost all = views(folders@);
    let id = match id {
        None => return None,
        Some(v) => v,
    };

    let folder = match find_folder(folders, id.as_str()) {
        None => return None,
        Some(v) => v,
    };

    let parent = find_parent(folders, folder);
    proof {
        lemma_parent_depth(all, folder@);
    }
    let parent_chain = match parent {
        Some(p) => {
            proof {
                lemma_folder_by_id(all, folder@.folder_id->0);
            }
            compute_folder_key(Some(p.id.clone()), folders)
        },
        None => None,
    };

    let chain = match parent_chain {
        None => folder.name.clone(),
        Some(c) => c.concat("::").concat(folder.name.as_str()),
    };
    Some(chain)
}

/// Where no folder encloses itself, every id names a folder from which the way up ends.
pub proof fn lemma_no_cycles(folders: Seq<FolderView>, id: Option<Seq<char>>)
    requires
        no_cycles(folders),
    ensures
        named_chain_ends(folders, id),
{
    match id {
        Some(i) => lemma_folder_by_id(folders, i),
        None => {},
    }
}

/// The key of the model among the given resources.
pub fn compute_key(model: &AnyModel, resources: &ImportResources) -> (key: String)
    requires
        has_model_key(resources@.folders, model@),
    ensures
        key@ == model_key(resources@.folders, model@),
{
    match model {
        AnyModel::Folder(m) => {
            match compute_folder_key(Some(m.id.clone()), &resources.folders) {
                Some(k) => k,
                None => String::new(),
            }
        },
        AnyModel::HttpRequest(m) => {
            match compute_folder_key(copy_text(&m.folder_id), &resources.folders) {
                None => m.name.clone(),
                Some(k) => k.concat("::").concat(m.name.as_str()),
            }
        },
        m => m.id().to_string(),
    }
}

/// The folders and HTTP requests by key.
pub fn compute_key_map(resources: &ImportResources) -> (map: KeyMap)
    requires
        no_cycles(resources@.folders),
    ensures
        map.wf(),
        map@ == key_map(resources@),
{
    let ghost folders = resources@.folders;
    let ghost requests = resources@.http_requests;
    let mut map = KeyMap::new();
    let mut i: usize = 0;
    while i < resources.folders.len()
        invariant
            folders == resources@.folders,
            no_cycles(folders),
            i <= resources.folders.len(),
            map.wf(),
            map@ == folders_by_key(folders, folders.take(i as int)),
        decreases resources.folders.len() - i,
    {
        let model = AnyModel::Folder(resources.folders[i].clone());
        proof {
            lemma_no_cycles(folders, Some(folders[i as int].id));
            assert(folders.take(i + 1).drop_last() =~= folders.take(i as int));
        }
        let key = compute_key(&model, resources);
        map.insert(key, model);
        i = i + 1;
    }
    assert(folders.take(i as int) =~= folders);
    let ghost base = map@;
    let mut j: usize = 0;
    assert(requests.take(0) =~= Seq::empty());
    while j < resources.http_requests.len()
        invariant
            folders == resources@.folders,
            requests == resources@.http_requests,
            no_cycles(folders),
            j <= resources.http_requests.len(),
            map.wf(),
            map@ == with_requests_by_key(folders, base, requests.take(j as int)),
        decreases resources.http_requests.len() - j,
    {
        let model = AnyModel::HttpRequest(resources.http_requests[j].clone());
        proof {
            lemma_no_cycles(folders, requests[j as int].folder_id);
            assert(requests.take(j + 1).drop_last() =~= requests.take(j as int));
        }
        let key = compute_key(&model, resources);
        map.insert(key, model);
        j = j + 1;
    }
    assert(requests.take(j as int) =~= requests);
    map
}

/// Whether the model is one of the folders or HTTP requests of the resources.
pub open spec fn brings(r: ImportResourcesView, model: AnyModelView) -> bool {
    match model {
        AnyModelView::Folder(f) => r.folders.contains(f),
        AnyModelView::HttpRequest(q) => r.http_requests.contains(q),
        _ => false,
    }
}

proof fn lemma_folders_by_key(folders: Seq<FolderView>, list: Seq<FolderView>)
    ensures
        forall|i: int|
            0 <= i < list.len() ==> folders_by_key(folders, list).contains_key(
                model_key(folders, AnyModelView::Folder(#[trigger] list[i])),
            ),
        forall|k: Seq<char>| #[trigger]
            folders_by_key(folders, list).contains_key(k) ==> {
                let m = folders_by_key(folders, list)[k];
                &&& m is Folder && list.contains(m->Folder_0)
                &&& model_key(folders, m) == k
            },
    decreases list.len(),
{
    if list.len() > 0 {
        let head = list.drop_last();
        lemma_folders_by_key(folders, head);
        assert forall|i: int| 0 <= i < list.len() implies folders_by_key(folders, list).contains_key(
            model_key(folders, AnyModelView::Folder(#[trigger] list[i])),
        ) by {
            if i < head.len() {
                assert(head[i] == list[i]);
            }
        }
        assert forall|k: Seq<char>| #[trigger]
            folders_by_key(folders, list).contains_key(k) implies {
            let m = folders_by_key(folders, list)[k];
            &&& m is Folder && list.contains(m->Folder_0)
            &&& model_key(folders, m) == k
        } by {
            if folders_by_key(folders, head).contains_key(k) {
                let f = folders_by_key(folders, head)[k]->Folder_0;
                let i = choose|i: int| 0 <= i < head.len() && head[i] == f;
                assert(list[i] == f);
            }
            assert(list[list.len() - 1] == list.last());
        }
    }
}

proof fn lemma_requests_by_key(
    folders: Seq<FolderView>,
    map: Map<Seq<char>, AnyModelView>,
    list: Seq<HttpRequestView>,
)
    ensures
        forall|k: Seq<char>| #[trigger]
            map.contains_key(k) ==> with_requests_by_key(folders, map, list).contains_key(k),
        forall|i: int|
            0 <= i < list.len() ==> with_requests_by_key(folders, map, list).contains_key(
                model_key(folders, AnyModelView::HttpRequest(#[trigger] list[i])),
            ),
        forall|k: Seq<char>| #[trigger]
            with_requests_by_key(folders, map, list).contains_key(k) ==> {
                let m = with_requests_by_key(folders, map, list)[k];
                ||| map.contains_key(k) && m == map[k]
                ||| m is HttpRequest && list.contains(m->HttpRequest_0) && model_key(folders, m) == k
            },
    decreases list.len(),
{
    if list.len() > 0 {
        let head = list.drop_last();
        lemma_requests_by_key(folders, map, head);
        assert forall|i: int| 0 <= i < list.len() implies with_requests_by_key(
            folders,
            map,
            list,
        ).contains_key(model_key(folders, AnyModelView::HttpRequest(#[trigger] list[i]))) by {
            if i < head.len() {
                assert(head[i] == list[i]);
            }
        }
        assert forall|k: Seq<char>| #[trigger]
            with_requests_by_key(folders, map, list).contains_key(k) implies {
            let m = with_requests_by_key(folders, map, list)[k];
            ||| map.contains_key(k) && m == map[k]
            ||| m is HttpRequest && list.contains(m->HttpRequest_0) && model_key(folders, m) == k
        } by {
            let before = with_requests_by_key(folders, map, head);
            assert(list[list.len() - 1] == list.last());
            if before.contains_key(k) && before[k] is HttpRequest && head.contains(
                before[k]->HttpRequest_0,
            ) {
                let q = before[k]->HttpRequest_0;
                let i = choose|i: int| 0 <= i < head.len() && head[i] == q;
                assert(list[i] == q);
            }
        }
    }
}

/// Every folder and every HTTP request of the resources is found under its key, itself or one
/// with the same key.
pub proof fn every_model_has_its_key(r: ImportResourcesView, model: AnyModelView)
    requires
        brings(r, model),
    ensures
        key_map(r).contains_key(model_key(r.folders, model)),
{
    lemma_folders_by_key(r.folders, r.folders);
    lemma_requests_by_key(r.folders, folders_by_key(r.folders, r.folders), r.http_requests);
    match model {
        AnyModelView::Folder(f) => {
            let i = choose|i: int| 0 <= i < r.folders.len() && r.folders[i] == f;
            assert(r.folders[i] == f);
        },
        AnyModelView::HttpRequest(q) => {
            let i = choose|i: int| 0 <= i < r.http_requests.len() && r.http_requests[i] == q;
            assert(r.http_requests[i] == q);
        },
        _ => {},
    }
}

/// What stands under a key is one of the resources, and has that key.
pub proof fn every_key_leads_to_its_model(r: ImportResourcesView, key: Seq<char>)
    requires
        key_map(r).contains_key(key),
    ensures
        brings(r, key_map(r)[key]),
        model_key(r.folders, key_map(r)[key]) == key,
{
    lemma_folders_by_key(r.folders, r.folders);
    lemma_requests_by_key(r.folders, folders_by_key(r.folders, r.folders), r.http_requests);
}

/// The key of a nested folder is the key of the folder around it, `::` and its own name.
pub proof fn nested_key_extends_the_outer_key(folders: Seq<FolderView>, f: FolderView)
    requires
        chain_ends(folders, f),
    ensures
        match parent_of(folders, f) {
            Some(p) => chain_key(folders, f) == chain_key(folders, p) + "::"@ + f.name,
            None => chain_key(folders, f) == f.name,
        },
{
    lemma_parent_depth(folders, f);
}

proof fn lemma_same_depth(a: Seq<FolderView>, b: Seq<FolderView>, f: FolderView, n: nat)
    requires
        forall|id: Seq<char>| #[trigger] folder_by_id(a, id) == folder_by_id(b, id),
    ensures
        depth_is(a, f, n) == depth_is(b, f, n),
    decreases n,
{
    match f.folder_id {
        Some(id) => {
            assert(folder_by_id(a, id) == folder_by_id(b, id));
            if n > 0 && folder_by_id(a, id) is Some {
                lemma_same_depth(a, b, folder_by_id(a, id)->0, (n - 1) as nat);
            }
        },
        None => {},
    }
}

/// Keys depend on nothing but which folder each id names: two lists that agree on that give every
/// folder the same key.
pub proof fn same_folders_give_the_same_key(a: Seq<FolderView>, b: Seq<FolderView>, f: FolderView)
    requires
        forall|id: Seq<char>| #[trigger] folder_by_id(a, id) == folder_by_id(b, id),
        chain_ends(a, f),
    ensures
        chain_ends(b, f),
        chain_key(a, f) == chain_key(b, f),
    decreases depth(a, f),
{
    let n = depth(a, f);
    assert(depth_is(a, f, n));
    lemma_same_depth(a, b, f, n);
    lemma_parent_depth(a, f);
    match f.folder_id {
        Some(id) => {
            assert(folder_by_id(a, id) == folder_by_id(b, id));
            if folder_by_id(a, id) is Some {
                same_folders_give_the_same_key(a, b, folder_by_id(a, id)->0);
            }
        },
        None => {},
    }
}

/// A folder that comes last under an id that is taken already changes no key.
pub proof fn taken_id_changes_no_key(folders: Seq<FolderView>, more: FolderView, f: FolderView)
    requires
        folder_by_id(folders, more.id) is Some,
        chain_ends(folders, f),
    ensures
        chain_ends(folders.push(more), f),
        chain_key(folders.push(more), f) == chain_key(folders, f),
{
    assert forall|id: Seq<char>| #[trigger]
        folder_by_id(folders, id) == folder_by_id(folders.push(more), id) by {
        lemma_found_before(folders, more, id);
    }
    same_folders_give_the_same_key(folders, folders.push(more), f);
}

proof fn lemma_found_before(folders: Seq<FolderView>, more: FolderView, id: Seq<char>)
    ensures
        folder_by_id(folders.push(more), id) == match folder_by_id(folders, id) {
            Some(f) => Some(f),
            None => if more.id == id {
                Some(more)
            } else {
                None
            },
        },
    decreases folders.len(),
{
    let all = folders.push(more);
    if folders.len() == 0 {
        assert(all.skip(1) =~= Seq::empty());
    } else {
        assert(all.skip(1) =~= folders.skip(1).push(more));
        lemma_found_before(folders.skip(1), more, id);
    }
}

/// Whether no two folders of the list have the same id.
pub open spec fn distinct_ids(folders: Seq<FolderView>) -> bool {
    forall|i: int, j: int|
        0 <= i < j < folders.len() ==> (#[trigger] folders[i]).id != (#[trigger] folders[j]).id
}

/// The order of folders with different ids does not matter: in every order each folder has the
/// same key.
pub proof fn order_changes_no_key(a: Seq<FolderView>, b: Seq<FolderView>, f: FolderView)
    requires
        distinct_ids(a),
        forall|x: FolderView| #[trigger] a.contains(x) <==> b.contains(x),
        chain_ends(a, f),
    ensures
        chain_ends(b, f),
        chain_key(b, f) == chain_key(a, f),
{
    assert forall|id: Seq<char>| #[trigger] folder_by_id(a, id) == folder_by_id(b, id) by {
        lemma_folder_by_id(a, id);
        lemma_folder_by_id(b, id);
        if folder_by_id(a, id) is Some {
            let x = folder_by_id(a, id)->0;
            assert(a.contains(x));
            assert(b[b.index_of(x)].id == id);
            let y = folder_by_id(b, id)->0;
            assert(a.contains(y));
            assert(a[a.index_of(x)].id == a[a.index_of(y)].id);
        } else if folder_by_id(b, id) is Some {
            let y = folder_by_id(b, id)->0;
            assert(a.contains(y));
            assert(a[a.index_of(y)].id == id);
        }
    }
    same_folders_give_the_same_key(a, b, f);
}

proof fn lemma_last_folder(folders: Seq<FolderView>, list: Seq<FolderView>, i: int)
    requires
        0 <= i < list.len(),
        forall|j: int|
            i < j < list.len() ==> model_key(folders, AnyModelView::Folder(#[trigger] list[j]))
                != model_key(folders, AnyModelView::Folder(list[i])),
    ensures
        ({
            let m = AnyModelView::Folder(list[i]);
            &&& folders_by_key(folders, list).contains_key(model_key(folders, m))
            &&& folders_by_key(folders, list)[model_key(folders, m)] == m
        }),
    decreases list.len(),
{
    if i < list.len() - 1 {
        let head = list.drop_last();
        assert(list[list.len() - 1] == list.last());
        assert forall|j: int| i < j < head.len() implies model_key(
            folders,
            AnyModelView::Folder(#[trigger] head[j]),
        ) != model_key(folders, AnyModelView::Folder(head[i])) by {
            assert(head[j] == list[j]);
        }
        lemma_last_folder(folders, head, i);
    }
}

proof fn lemma_last_request(
    folders: Seq<FolderView>,
    map: Map<Seq<char>, AnyModelView>,
    list: Seq<HttpRequestView>,
    i: int,
)
    requires
        0 <= i < list.len(),
        forall|j: int|
            i < j < list.len() ==> model_key(folders, AnyModelView::HttpRequest(#[trigger] list[j]))
                != model_key(folders, AnyModelView::HttpRequest(list[i])),
    ensures
        ({
            let m = AnyModelView::HttpRequest(list[i]);
            &&& with_requests_by_key(folders, map, list).contains_key(model_key(folders, m))
            &&& with_requests_by_key(folders, map, list)[model_key(folders, m)] == m
        }),
    decreases list.len(),
{
    if i < list.len() - 1 {
        let head = list.drop_last();
        assert(list[list.len() - 1] == list.last());
        assert forall|j: int| i < j < head.len() implies model_key(
            folders,
            AnyModelView::HttpRequest(#[trigger] head[j]),
        ) != model_key(folders, AnyModelView::HttpRequest(head[i])) by {
            assert(head[j] == list[j]);
        }
        lemma_last_request(folders, map, head, i);
    }
}

proof fn lemma_untaken_key(
    folders: Seq<FolderView>,
    map: Map<Seq<char>, AnyModelView>,
    list: Seq<HttpRequestView>,
    key: Seq<char>,
)
    requires
        map.contains_key(key),
        forall|j: int|
            0 <= j < list.len() ==> model_key(folders, AnyModelView::HttpRequest(#[trigger] list[j]))
                != key,
    ensures
        with_requests_by_key(folders, map, list).contains_key(key),
        with_requests_by_key(folders, map, list)[key] == map[key],
    decreases list.len(),
{
    if list.len() > 0 {
        let head = list.drop_last();
        assert(list[list.len() - 1] == list.last());
        assert forall|j: int| 0 <= j < head.len() implies model_key(
            folders,
            AnyModelView::HttpRequest(#[trigger] head[j]),
        ) != key by {
            assert(head[j] == list[j]);
        }
        lemma_untaken_key(folders, map, head, key);
    }
}

/// Of the HTTP requests with the same key, the last one stands under it.
pub proof fn last_request_takes_the_key(r: ImportResourcesView, i: int)
    requires
        0 <= i < r.http_requests.len(),
        forall|j: int|
            i < j < r.http_requests.len() ==> model_key(
                r.folders,
                AnyModelView::HttpRequest(#[trigger] r.http_requests[j]),
            ) != model_key(r.folders, AnyModelView::HttpRequest(r.http_requests[i])),
    ensures
        ({
            let m = AnyModelView::HttpRequest(r.http_requests[i]);
            &&& key_map(r).contains_key(model_key(r.folders, m))
            &&& key_map(r)[model_key(r.folders, m)] == m
        }),
{
    lemma_last_request(r.folders, folders_by_key(r.folders, r.folders), r.http_requests, i);
}

/// Of the folders with the same key, the last one stands under it, unless an HTTP request has
/// that key too.
pub proof fn last_folder_takes_the_key(r: ImportResourcesView, i: int)
    requires
        0 <= i < r.folders.len(),
        forall|j: int|
            i < j < r.folders.len() ==> model_key(
                r.folders,
                AnyModelView::Folder(#[trigger] r.folders[j]),
            ) != model_key(r.folders, AnyModelView::Folder(r.folders[i])),
        forall|j: int|
            0 <= j < r.http_requests.len() ==> model_key(
                r.folders,
                AnyModelView::HttpRequest(#[trigger] r.http_requests[j]),
            ) != model_key(r.folders, AnyModelView::Folder(r.folders[i])),
    ensures
        ({
            let m = AnyModelView::Folder(r.folders[i]);
            &&& key_map(r).contains_key(model_key(r.folders, m))
            &&& key_map(r)[model_key(r.folders, m)] == m
        }),
{
    let m = AnyModelView::Folder(r.folders[i]);
    let base = folders_by_key(r.folders, r.folders);
    lemma_last_folder(r.folders, r.folders, i);
    lemma_untaken_key(r.folders, base, r.http_requests, model_key(r.folders, m));
}

/// An id names the first folder that has it, and none where no folder has it; the folder around a
/// folder is the one that its `folder_id` names.
pub proof fn ids_name_the_first_folder(folders: Seq<FolderView>, id: Seq<char>, at: int, f: FolderView)
    requires
        0 <= at <= folders.len(),
        forall|i: int| 0 <= i < at ==> (#[trigger] folders[i]).id != id,
    ensures
        at < folders.len() && folders[at].id == id ==> folder_by_id(folders, id) == Some(folders[at]),
        at == folders.len() ==> folder_by_id(folders, id) is None,
        f.folder_id == Some(id) ==> parent_of(folders, f) == folder_by_id(folders, id),
        f.folder_id is None ==> parent_of(folders, f) is None,
    decreases at,
{
    if at > 0 {
        let rest = folders.skip(1);
        assert(folders[0].id != id);
        assert forall|i: int| 0 <= i < at - 1 implies (#[trigger] rest[i]).id != id by {
            assert(rest[i] == folders[i + 1]);
        }
        ids_name_the_first_folder(rest, id, at - 1, f);
    }
}

/// The folder that many steps up from a folder, itself for no step; none beyond the top.
pub open spec fn ancestor(folders: Seq<FolderView>, f: FolderView, steps: nat) -> Option<FolderView>
    decreases steps,
{
    if steps == 0 {
        Some(f)
    } else {
        match ancestor(folders, f, (steps - 1) as nat) {
            Some(g) => match g.folder_id {
                Some(id) => folder_by_id(folders, id),
                None => None,
            },
            None => None,
        }
    }
}

proof fn lemma_ancestor_of_parent(folders: Seq<FolderView>, f: FolderView, steps: nat)
    ensures
        ancestor(folders, f, steps + 1) == match parent_of(folders, f) {
            Some(p) => ancestor(folders, p, steps),
            None => None,
        },
    decreases steps,
{
    reveal_with_fuel(ancestor, 2);
    if steps > 0 {
        lemma_ancestor_of_parent(folders, f, (steps - 1) as nat);
    }
}

proof fn lemma_depth_by_ancestors(folders: Seq<FolderView>, f: FolderView, n: nat)
    ensures
        depth_is(folders, f, n) <==> ancestor(folders, f, n) is Some && ancestor(folders, f, n + 1)
            is None,
    decreases n,
{
    reveal_with_fuel(ancestor, 2);
    if n > 0 {
        lemma_ancestor_of_parent(folders, f, (n - 1) as nat);
        lemma_ancestor_of_parent(folders, f, n);
        match parent_of(folders, f) {
            Some(p) => lemma_depth_by_ancestors(folders, p, (n - 1) as nat),
            None => {},
        }
    }
}

/// The way up from a folder ends just where some number of steps leads beyond the top, and its
/// depth is the last number of steps that does not. No folder that is met again on its own way up
/// has such an end.
pub proof fn way_up_ends_beyond_the_top(folders: Seq<FolderView>, f: FolderView, steps: nat)
    ensures
        ancestor(folders, f, steps) is None ==> chain_ends(folders, f) && depth(folders, f) < steps,
        chain_ends(folders, f) ==> ancestor(folders, f, depth(folders, f)) is Some && ancestor(
            folders,
            f,
            depth(folders, f) + 1,
        ) is None,
        steps > 0 && ancestor(folders, f, steps) == Some(f) ==> !chain_ends(folders, f),
    decreases steps,
{
    if chain_ends(folders, f) {
        assert(depth_is(folders, f, depth(folders, f)));
        lemma_depth_by_ancestors(folders, f, depth(folders, f));
    }
    if ancestor(folders, f, steps) is None {
        let n = (steps - 1) as nat;
        if ancestor(folders, f, n) is None {
            way_up_ends_beyond_the_top(folders, f, n);
        } else {
            lemma_depth_by_ancestors(folders, f, n);
            assert(depth_is(folders, f, n));
            lemma_depth_unique(folders, f, n, depth(folders, f));
        }
    }
    if steps > 0 && ancestor(folders, f, steps) == Some(f) && chain_ends(folders, f) {
        let n = depth(folders, f);
        lemma_met_again(folders, f, steps, n + 1);
    }
}

proof fn lemma_ancestor_of_ancestor(folders: Seq<FolderView>, f: FolderView, a: nat, b: nat)
    ensures
        ancestor(folders, f, a + b) == match ancestor(folders, f, a) {
            Some(g) => ancestor(folders, g, b),
            None => None,
        },
    decreases b,
{
    if b > 0 {
        lemma_ancestor_of_ancestor(folders, f, a, (b - 1) as nat);
    }
}

proof fn lemma_met_again(folders: Seq<FolderView>, f: FolderView, steps: nat, n: nat)
    requires
        steps > 0,
        ancestor(folders, f, steps) == Some(f),
    ensures
        ancestor(folders, f, n) is Some,
    decreases n,
{
    if n >= steps {
        let m = (n - steps) as nat;
        lemma_ancestor_of_ancestor(folders, f, steps, m);
        lemma_met_again(folders, f, steps, m);
    } else {
        lemma_ancestor_of_ancestor(folders, f, n, (steps - n) as nat);
    }
}

/// Whether some number of steps up from a folder leads beyond the top.
pub open spec fn leads_beyond_the_top(folders: Seq<FolderView>, f: FolderView) -> bool {
    exists|steps: nat| (#[trigger] ancestor(folders, f, steps)) is None
}

/// A list is free of cycles just where the way up from each of its folders leads beyond the top.
pub proof fn no_cycles_means_every_way_ends(folders: Seq<FolderView>)
    ensures
        no_cycles(folders) <==> forall|i: int|
            0 <= i < folders.len() ==> leads_beyond_the_top(folders, #[trigger] folders[i]),
{
    assert forall|f: FolderView|
        #![trigger chain_ends(folders, f)]
        #![trigger leads_beyond_the_top(folders, f)]
        chain_ends(folders, f) <==> leads_beyond_the_top(folders, f) by {
        way_up_ends_beyond_the_top(folders, f, 0);
        if leads_beyond_the_top(folders, f) {
            let steps = choose|steps: nat| (#[trigger] ancestor(folders, f, steps)) is None;
            way_up_ends_beyond_the_top(folders, f, steps);
        }
    }
}

/// The key of an HTTP request in a folder is the key of that folder, `::` and its own name, however
/// deep the folder stands; in no folder of the list, it is the name alone.
pub proof fn request_key_extends_the_folder_key(folders: Seq<FolderView>, q: HttpRequestView)
    ensures
        q.folder_id is None ==> model_key(folders, AnyModelView::HttpRequest(q)) == q.name,
        q.folder_id matches Some(id) ==> (folder_by_id(folders, id) is None ==> model_key(
            folders,
            AnyModelView::HttpRequest(q),
        ) == q.name),
        q.folder_id matches Some(id) ==> (folder_by_id(folders, id) matches Some(f) ==> model_key(
            folders,
            AnyModelView::HttpRequest(q),
        ) == chain_key(folders, f) + "::"@ + q.name),
{
}

/// Requests of the same folder with different names have different keys.
pub proof fn names_tell_requests_apart(folders: Seq<FolderView>, a: HttpRequestView, b: HttpRequestView)
    requires
        a.folder_id == b.folder_id,
        a.name != b.name,
    ensures
        model_key(folders, AnyModelView::HttpRequest(a)) != model_key(
            folders,
            AnyModelView::HttpRequest(b),
        ),
{
    match folder_key(folders, a.folder_id) {
        Some(k) => {
            let head = k + "::"@;
            let n = head.len() as int;
            assert((head + a.name).skip(n) =~= a.name);
            assert((head + b.name).skip(n) =~= b.name);
        },
        None => {},
    }
}

/// Folders that stand in the same folder, or at the top, have different keys where they have
/// different names.
pub proof fn names_tell_folders_apart(folders: Seq<FolderView>, a: FolderView, b: FolderView)
    requires
        chain_ends(folders, a),
        chain_ends(folders, b),
        parent_of(folders, a) == parent_of(folders, b),
        a.name != b.name,
    ensures
        chain_key(folders, a) != chain_key(folders, b),
{
    nested_key_extends_the_outer_key(folders, a);
    nested_key_extends_the_outer_key(folders, b);
    match parent_of(folders, a) {
        Some(p) => {
            let head = chain_key(folders, p) + "::"@;
            let n = head.len() as int;
            assert((head + a.name).skip(n) =~= a.name);
            assert((head + b.name).skip(n) =~= b.name);
        },
        None => {},
    }
}

/// The key of a folder is the chain of names that leads to the folder of its id; the key of a
/// model of another kind is its id.
pub proof fn other_keys(folders: Seq<FolderView>, f: FolderView, model: AnyModelView)
    ensures
        folder_by_id(folders, f.id) matches Some(g) ==> model_key(folders, AnyModelView::Folder(f))
            == chain_key(folders, g),
        folder_by_id(folders, f.id) is None ==> model_key(folders, AnyModelView::Folder(f)).len() == 0,
        model matches AnyModelView::GrpcRequest(m) ==> model_key(folders, model) == m.id,
        model matches AnyModelView::WebsocketRequest(m) ==> model_key(folders, model) == m.id,
        model matches AnyModelView::Workspace(m) ==> model_key(folders, model) == m.id,
        model matches AnyModelView::Other { id, .. } ==> model_key(folders, model) == id,
        folder_key(folders, None) is None,
        folder_key(folders, Some(f.id)) is Some <==> folder_by_id(folders, f.id) is Some,
        folder_by_id(folders, f.id) matches Some(g) ==> folder_key(folders, Some(f.id)) == Some(
            chain_key(folders, g),
        ),
{
}

} // verus!
