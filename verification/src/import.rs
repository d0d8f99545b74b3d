//! Ids of imported resources. Every id of an import is asked about once per place where it
//! stands, in a fixed order; the answers then take the places of the ids.
use vstd::prelude::*;

use crate::models::{
    views, Environment, EnvironmentView, Folder, FolderView, GrpcRequest, GrpcRequestView,
    HttpRequest, HttpRequestView, ImportResources, ImportResourcesView, WebsocketRequest,
    WebsocketRequestView, Workspace, WorkspaceView,
};
use crate::text::{copy_text, same, text_of, texts_of};

verus! {

/// The kind of model that an id belongs to.
#[derive(Debug, Clone, Copy, PartialEq, Eq, Structural)]
pub enum ModelKind {
    Workspace,
    Environment,
    Folder,
    HttpRequest,
    GrpcRequest,
    WebsocketRequest,
}

/// An id of an import, and the kind of model that it names.
#[derive(Debug)]
pub struct IdRequest {
    pub kind: ModelKind,
    pub id: String,
}

/// What an `IdRequest` holds.
#[verifier::ext_equal]
pub struct IdRequestView {
    pub kind: ModelKind,
    pub id: Seq<char>,
}

impl View for IdRequest {
    type V = IdRequestView;

    open spec fn view(&self) -> IdRequestView {
        IdRequestView { kind: self.kind, id: self.id@ }
    }
}

/// The question about one id.
pub open spec fn asks(kind: ModelKind, id: Seq<char>) -> IdRequestView {
    IdRequestView { kind, id }
}

/// The question about a folder, where one is named.
pub open spec fn asks_folder(id: Option<Seq<char>>) -> Seq<IdRequestView> {
    match id {
        Some(i) => seq![asks(ModelKind::Folder, i)],
        None => Seq::empty(),
    }
}

/// The answer behind the first two, where a folder was asked about.
pub open spec fn third_if(asked: Option<Seq<char>>, answers: Seq<Seq<char>>) -> Option<Seq<char>> {
    match asked {
        Some(_) => Some(answers[2]),
        None => None,
    }
}

/// The folder that an environment belongs to, where it says that it belongs to one.
pub open spec fn parent_folder(e: EnvironmentView) -> Option<Seq<char>> {
    if e.parent_model == "folder"@ {
        e.parent_id
    } else {
        None
    }
}

/// An environment under new ids. One without a kind of parent belongs to the workspace; only one
/// that belongs to a folder, or had no kind of parent, names its parent.
pub open spec fn environment_under(
    e: EnvironmentView,
    id: Seq<char>,
    workspace_id: Seq<char>,
    folder: Option<Seq<char>>,
) -> EnvironmentView {
    EnvironmentView {
        id,
        workspace_id,
        parent_model: if e.parent_model.len() == 0 {
            "workspace"@
        } else {
            e.parent_model
        },
        parent_id: if parent_folder(e) is Some {
            folder
        } else if e.parent_model.len() == 0 {
            e.parent_id
        } else {
            None
        },
        ..e
    }
}

/// A record whose ids are asked about and then replaced.
pub trait Renumbered: View + Sized {
    /// The questions about the ids of the record, in order.
    spec fn ids(v: Self::V) -> Seq<IdRequestView>;

    /// The record with one answer in place of each id.
    spec fn with_ids(v: Self::V, answers: Seq<Seq<char>>) -> Self::V;

    /// The record with each id replaced by what `f` gives for it.
    spec fn renamed(v: Self::V, f: spec_fn(IdRequestView) -> Seq<char>) -> Self::V;

    proof fn lemma_renamed(
        v: Self::V,
        answers: Seq<Seq<char>>,
        f: spec_fn(IdRequestView) -> Seq<char>,
    )
        requires
            answers.len() == Self::ids(v).len(),
            forall|k: int| 0 <= k < answers.len() ==> #[trigger] answers[k] == f(Self::ids(v)[k]),
        ensures
            Self::with_ids(v, answers) == Self::renamed(v, f),
    ;

    /// Adds the questions about the ids of the record.
    fn push_ids(&self, out: &mut Vec<IdRequest>)
        ensures
            views(final(out)@) == views(old(out)@) + Self::ids(self@),
    ;

    /// How many questions the record asks.
    fn id_count(&self) -> (n: usize)
        ensures
            n == Self::ids(self@).len(),
    ;

    /// The record with the answers that stand from `at` on.
    fn take_ids(&self, answers: &Vec<String>, at: usize) -> (r: Self)
        requires
            at + Self::ids(self@).len() <= answers.len(),
        ensures
            r@ == Self::with_ids(
                self@,
                texts_of(answers@).subrange(at as int, at + Self::ids(self@).len()),
            ),
    ;
}

fn push_id(out: &mut Vec<IdRequest>, kind: ModelKind, id: &String)
    ensures
        views(final(out)@) == views(old(out)@).push(asks(kind, id@)),
{
    out.push(IdRequest { kind, id: id.clone() });
    assert(views(out@) =~= views(old(out)@).push(asks(kind, id@)));
}

fn push_folder(out: &mut Vec<IdRequest>, id: &Option<String>)
    ensures
        views(final(out)@) == views(old(out)@) + asks_folder(text_of(*id)),
{
    match id {
        Some(i) => {
            push_id(out, ModelKind::Folder, i);
            assert(views(out@) =~= views(old(out)@) + asks_folder(text_of(*id)));
        },
        None => {
            assert(views(out@) =~= views(old(out)@) + asks_folder(text_of(*id)));
        },
    }
}

impl Renumbered for Workspace {
    open spec fn ids(v: WorkspaceView) -> Seq<IdRequestView> {
        seq![asks(ModelKind::Workspace, v.id)]
    }

    open spec fn with_ids(v: WorkspaceView, answers: Seq<Seq<char>>) -> WorkspaceView {
        WorkspaceView { id: answers[0], ..v }
    }

    open spec fn renamed(
        v: WorkspaceView,
        f: spec_fn(IdRequestView) -> Seq<char>,
    ) -> WorkspaceView {
        WorkspaceView { id: f(asks(ModelKind::Workspace, v.id)), ..v }
    }

    proof fn lemma_renamed(
        v: WorkspaceView,
        answers: Seq<Seq<char>>,
        f: spec_fn(IdRequestView) -> Seq<char>,
    ) {
        assert(answers[0] == f(Self::ids(v)[0]));
    }

    fn push_ids(&self, out: &mut Vec<IdRequest>) {
        push_id(out, ModelKind::Workspace, &self.id);
        assert(views(out@) =~= views(old(out)@) + Self::ids(self@));
    }

    fn id_count(&self) -> (n: usize) {
        1
    }

    fn take_ids(&self, answers: &Vec<String>, at: usize) -> (r: Self) {
        Workspace { id: answers[at].clone(), rest: self.rest.clone() }
    }
}

impl Renumbered for Environment {
    open spec fn ids(v: EnvironmentView) -> Seq<IdRequestView> {
        seq![asks(ModelKind::Environment, v.id), asks(ModelKind::Workspace, v.workspace_id)]
            + asks_folder(parent_folder(v))
    }

    open spec fn with_ids(v: EnvironmentView, answers: Seq<Seq<char>>) -> EnvironmentView {
        environment_under(v, answers[0], answers[1], third_if(parent_folder(v), answers))
    }

    open spec fn renamed(
        v: EnvironmentView,
        f: spec_fn(IdRequestView) -> Seq<char>,
    ) -> EnvironmentView {
        environment_under(
            v,
            f(asks(ModelKind::Environment, v.id)),
            f(asks(ModelKind::Workspace, v.workspace_id)),
            renamed_folder(parent_folder(v), f),
        )
    }

    proof fn lemma_renamed(
        v: EnvironmentView,
        answers: Seq<Seq<char>>,
        f: spec_fn(IdRequestView) -> Seq<char>,
    ) {
        assert(answers[0] == f(Self::ids(v)[0]));
        assert(answers[1] == f(Self::ids(v)[1]));
        if parent_folder(v) is Some {
            assert(answers[2] == f(Self::ids(v)[2]));
        }
    }

    fn push_ids(&self, out: &mut Vec<IdRequest>) {
        push_id(out, ModelKind::Environment, &self.id);
        push_id(out, ModelKind::Workspace, &self.workspace_id);
        if same(self.parent_model.as_str(), "folder") {
            push_folder(out, &self.parent_id);
        }
        assert(views(out@) =~= views(old(out)@) + Self::ids(self@));
    }

    fn id_count(&self) -> (n: usize) {
        if same(self.parent_model.as_str(), "folder") && self.parent_id.is_some() {
            3
        } else {
            2
        }
    }

    fn take_ids(&self, answers: &Vec<String>, at: usize) -> (r: Self) {
        let is_folder = same(self.parent_model.as_str(), "folder");
        let parent_id = match &self.parent_id {
            Some(p) => {
                if is_folder {
                    Some(answers[at + 2].clone())
                } else if self.parent_model.as_str().is_empty() {
                    Some(p.clone())
                } else {
                    None
                }
            },
            None => None,
        };
        let parent_model = if self.parent_model.as_str().is_empty() {
            "workspace".to_string()
        } else {
            self.parent_model.clone()
        };
        Environment {
            id: answers[at].clone(),
            workspace_id: answers[at + 1].clone(),
            parent_model,
            parent_id,
            rest: self.rest.clone(),
        }
    }
}

/// What `f` gives for a folder, where one is named.
pub open spec fn renamed_folder(
    id: Option<Seq<char>>,
    f: spec_fn(IdRequestView) -> Seq<char>,
) -> Option<Seq<char>> {
    match id {
        Some(i) => Some(f(asks(ModelKind::Folder, i))),
        None => None,
    }
}

impl Renumbered for Folder {
    open spec fn ids(v: FolderView) -> Seq<IdRequestView> {
        seq![asks(ModelKind::Folder, v.id), asks(ModelKind::Workspace, v.workspace_id)]
            + asks_folder(v.folder_id)
    }

    open spec fn with_ids(v: FolderView, answers: Seq<Seq<char>>) -> FolderView {
        FolderView {
            id: answers[0],
            workspace_id: answers[1],
            folder_id: third_if(v.folder_id, answers),
            ..v
        }
    }

    open spec fn renamed(v: FolderView, f: spec_fn(IdRequestView) -> Seq<char>) -> FolderView {
        FolderView {
            id: f(asks(ModelKind::Folder, v.id)),
            workspace_id: f(asks(ModelKind::Workspace, v.workspace_id)),
            folder_id: renamed_folder(v.folder_id, f),
            ..v
        }
    }

    proof fn lemma_renamed(
        v: FolderView,
        answers: Seq<Seq<char>>,
        f: spec_fn(IdRequestView) -> Seq<char>,
    ) {
        assert(answers[0] == f(Self::ids(v)[0]));
        assert(answers[1] == f(Self::ids(v)[1]));
        if v.folder_id is Some {
            assert(answers[2] == f(Self::ids(v)[2]));
        }
    }

    fn push_ids(&self, out: &mut Vec<IdRequest>) {
        push_id(out, ModelKind::Folder, &self.id);
        push_id(out, ModelKind::Workspace, &self.workspace_id);
        push_folder(out, &self.folder_id);
        assert(views(out@) =~= views(old(out)@) + Self::ids(self@));
    }

    fn id_count(&self) -> (n: usize) {
        if self.folder_id.is_some() {
            3
        } else {
            2
        }
    }

    fn take_ids(&self, answers: &Vec<String>, at: usize) -> (r: Self) {
        let folder_id = match &self.folder_id {
            Some(_f) => Some(answers[at + 2].clone()),
            None => None,
        };
        Folder {
            id: answers[at].clone(),
            workspace_id: answers[at + 1].clone(),
            folder_id,
            name: self.name.clone(),
            rest: self.rest.clone(),
        }
    }
}

impl Renumbered for HttpRequest {
    open spec fn ids(v: HttpRequestView) -> Seq<IdRequestView> {
        seq![asks(ModelKind::HttpRequest, v.id), asks(ModelKind::Workspace, v.workspace_id)]
            + asks_folder(v.folder_id)
    }

    open spec fn with_ids(v: HttpRequestView, answers: Seq<Seq<char>>) -> HttpRequestView {
        HttpRequestView {
            id: answers[0],
            workspace_id: answers[1],
            folder_id: third_if(v.folder_id, answers),
            ..v
        }
    }

    open spec fn renamed(
        v: HttpRequestView,
        f: spec_fn(IdRequestView) -> Seq<char>,
    ) -> HttpRequestView {
        HttpRequestView {
            id: f(asks(ModelKind::HttpRequest, v.id)),
            workspace_id: f(asks(ModelKind::Workspace, v.workspace_id)),
            folder_id: renamed_folder(v.folder_id, f),
            ..v
        }
    }

    proof fn lemma_renamed(
        v: HttpRequestView,
        answers: Seq<Seq<char>>,
        f: spec_fn(IdRequestView) -> Seq<char>,
    ) {
        assert(answers[0] == f(Self::ids(v)[0]));
        assert(answers[1] == f(Self::ids(v)[1]));
        if v.folder_id is Some {
            assert(answers[2] == f(Self::ids(v)[2]));
        }
    }

    fn push_ids(&self, out: &mut Vec<IdRequest>) {
        push_id(out, ModelKind::HttpRequest, &self.id);
        push_id(out, ModelKind::Workspace, &self.workspace_id);
        push_folder(out, &self.folder_id);
        assert(views(out@) =~= views(old(out)@) + Self::ids(self@));
    }

    fn id_count(&self) -> (n: usize) {
        if self.folder_id.is_some() {
            3
        } else {
            2
        }
    }

    fn take_ids(&self, answers: &Vec<String>, at: usize) -> (r: Self) {
        let folder_id = match &self.folder_id {
            Some(_f) => Some(answers[at + 2].clone()),
            None => None,
        };
        HttpRequest {
            id: answers[at].clone(),
            workspace_id: answers[at + 1].clone(),
            folder_id,
            name: self.name.clone(),
            rest: self.rest.clone(),
        }
    }
}

impl Renumbered for GrpcRequest {
    open spec fn ids(v: GrpcRequestView) -> Seq<IdRequestView> {
        seq![asks(ModelKind::GrpcRequest, v.id), asks(ModelKind::Workspace, v.workspace_id)]
            + asks_folder(v.folder_id)
    }

    open spec fn with_ids(v: GrpcRequestView, answers: Seq<Seq<char>>) -> GrpcRequestView {
        GrpcRequestView {
            id: answers[0],
            workspace_id: answers[1],
            folder_id: third_if(v.folder_id, answers),
            ..v
        }
    }

    open spec fn renamed(
        v: GrpcRequestView,
        f: spec_fn(IdRequestView) -> Seq<char>,
    ) -> GrpcRequestView {
        GrpcRequestView {
            id: f(asks(ModelKind::GrpcRequest, v.id)),
            workspace_id: f(asks(ModelKind::Workspace, v.workspace_id)),
            folder_id: renamed_folder(v.folder_id, f),
            ..v
        }
    }

    proof fn lemma_renamed(
        v: GrpcRequestView,
        answers: Seq<Seq<char>>,
        f: spec_fn(IdRequestView) -> Seq<char>,
    ) {
        assert(answers[0] == f(Self::ids(v)[0]));
        assert(answers[1] == f(Self::ids(v)[1]));
        if v.folder_id is Some {
            assert(answers[2] == f(Self::ids(v)[2]));
        }
    }

    fn push_ids(&self, out: &mut Vec<IdRequest>) {
        push_id(out, ModelKind::GrpcRequest, &self.id);
        push_id(out, ModelKind::Workspace, &self.workspace_id);
        push_folder(out, &self.folder_id);
        assert(views(out@) =~= views(old(out)@) + Self::ids(self@));
    }

    fn id_count(&self) -> (n: usize) {
        if self.folder_id.is_some() {
            3
        } else {
            2
        }
    }

    fn take_ids(&self, answers: &Vec<String>, at: usize) -> (r: Self) {
        let folder_id = match &self.folder_id {
            Some(_f) => Some(answers[at + 2].clone()),
            None => None,
        };
        GrpcRequest {
            id: answers[at].clone(),
            workspace_id: answers[at + 1].clone(),
            folder_id,
            name: self.name.clone(),
            url: self.url.clone(),
            service: copy_text(&self.service),
            method: copy_text(&self.method),
            message: self.message.clone(),
            rest: self.rest.clone(),
        }
    }
}

impl Renumbered for WebsocketRequest {
    open spec fn ids(v: WebsocketRequestView) -> Seq<IdRequestView> {
        seq![asks(ModelKind::WebsocketRequest, v.id), asks(ModelKind::Workspace, v.workspace_id)]
            + asks_folder(v.folder_id)
    }

    open spec fn with_ids(
        v: WebsocketRequestView,
        answers: Seq<Seq<char>>,
    ) -> WebsocketRequestView {
        WebsocketRequestView {
            id: answers[0],
            workspace_id: answers[1],
            folder_id: third_if(v.folder_id, answers),
            ..v
        }
    }

    open spec fn renamed(
        v: WebsocketRequestView,
        f: spec_fn(IdRequestView) -> Seq<char>,
    ) -> WebsocketRequestView {
        WebsocketRequestView {
            id: f(asks(ModelKind::WebsocketRequest, v.id)),
            workspace_id: f(asks(ModelKind::Workspace, v.workspace_id)),
            folder_id: renamed_folder(v.folder_id, f),
            ..v
        }
    }

    proof fn lemma_renamed(
        v: WebsocketRequestView,
        answers: Seq<Seq<char>>,
        f: spec_fn(IdRequestView) -> Seq<char>,
    ) {
        assert(answers[0] == f(Self::ids(v)[0]));
        assert(answers[1] == f(Self::ids(v)[1]));
        if v.folder_id is Some {
            assert(answers[2] == f(Self::ids(v)[2]));
        }
    }

    fn push_ids(&self, out: &mut Vec<IdRequest>) {
        push_id(out, ModelKind::WebsocketRequest, &self.id);
        push_id(out, ModelKind::Workspace, &self.workspace_id);
        push_folder(out, &self.folder_id);
        assert(views(out@) =~= views(old(out)@) + Self::ids(self@));
    }

    fn id_count(&self) -> (n: usize) {
        if self.folder_id.is_some() {
            3
        } else {
            2
        }
    }

    fn take_ids(&self, answers: &Vec<String>, at: usize) -> (r: Self) {
        let folder_id = match &self.folder_id {
            Some(_f) => Some(answers[at + 2].clone()),
            None => None,
        };
        WebsocketRequest {
            id: answers[at].clone(),
            workspace_id: answers[at + 1].clone(),
            folder_id,
            rest: self.rest.clone(),
        }
    }
}

/// The questions about the ids of a list of records.
pub open spec fn all_ids<T: Renumbered>(list: Seq<T::V>) -> Seq<IdRequestView>
    decreases list.len(),
{
    if list.len() == 0 {
        Seq::empty()
    } else {
        all_ids::<T>(list.drop_last()) + T::ids(list.last())
    }
}

/// The records of a list with the answers in place of their ids.
pub open spec fn all_with_ids<T: Renumbered>(list: Seq<T::V>, answers: Seq<Seq<char>>) -> Seq<T::V>
    decreases list.len(),
{
    if list.len() == 0 {
        Seq::empty()
    } else {
        let n = all_ids::<T>(list.drop_last()).len() as int;
        all_with_ids::<T>(list.drop_last(), answers.subrange(0, n)).push(
            T::with_ids(list.last(), answers.subrange(n, n + T::ids(list.last()).len())),
        )
    }
}

/// The questions about the ids of an import: workspaces, environments, folders, HTTP, gRPC and
/// WebSocket requests, each record after the other.
pub open spec fn import_questions(r: ImportResourcesView) -> Seq<IdRequestView> {
    all_ids::<Workspace>(r.workspaces)
        + all_ids::<Environment>(r.environments)
        + all_ids::<Folder>(r.folders)
        + all_ids::<HttpRequest>(r.http_requests)
        + all_ids::<GrpcRequest>(r.grpc_requests)
        + all_ids::<WebsocketRequest>(r.websocket_requests)
}

/// The part of the answers that belongs to a list whose questions begin behind `before` others.
pub open spec fn answers_to<T: Renumbered>(
    list: Seq<T::V>,
    before: int,
    answers: Seq<Seq<char>>,
) -> Seq<Seq<char>> {
    answers.subrange(before, before + all_ids::<T>(list).len())
}

/// The import with the answers in place of its ids.
pub open spec fn renumbered(
    r: ImportResourcesView,
    answers: Seq<Seq<char>>,
) -> ImportResourcesView {
    let a = all_ids::<Workspace>(r.workspaces).len() as int;
    let b = a + all_ids::<Environment>(r.environments).len();
    let c = b + all_ids::<Folder>(r.folders).len();
    let d = c + all_ids::<HttpRequest>(r.http_requests).len();
    let e = d + all_ids::<GrpcRequest>(r.grpc_requests).len();
    ImportResourcesView {
        workspaces: all_with_ids::<Workspace>(
            r.workspaces,
            answers_to::<Workspace>(r.workspaces, 0, answers),
        ),
        environments: all_with_ids::<Environment>(
            r.environments,
            answers_to::<Environment>(r.environments, a, answers),
        ),
        folders: all_with_ids::<Folder>(
            r.folders,
            answers_to::<Folder>(r.folders, b, answers),
        ),
        http_requests: all_with_ids::<HttpRequest>(
            r.http_requests,
            answers_to::<HttpRequest>(r.http_requests, c, answers),
        ),
        grpc_requests: all_with_ids::<GrpcRequest>(
            r.grpc_requests,
            answers_to::<GrpcRequest>(r.grpc_requests, d, answers),
        ),
        websocket_requests: all_with_ids::<WebsocketRequest>(
            r.websocket_requests,
            answers_to::<WebsocketRequest>(r.websocket_requests, e, answers),
        ),
    }
}

fn push_all_ids<T: Renumbered>(list: &Vec<T>, out: &mut Vec<IdRequest>)
    ensures
        views(final(out)@) == views(old(out)@) + all_ids::<T>(views(list@)),
{
    let ghost start = views(out@);
    let ghost all = views(list@);
    let mut i: usize = 0;
    assert(start =~= start + all_ids::<T>(all.take(0)));
    while i < list.len()
        invariant
            all == views(list@),
            i <= list.len(),
            views(out@) == start + all_ids::<T>(all.take(i as int)),
        decreases list.len() - i,
    {
        list[i].push_ids(out);
        proof {
            assert(all.take(i + 1).drop_last() =~= all.take(i as int));
            assert(views(out@) =~= start + all_ids::<T>(all.take(i + 1)));
        }
        i = i + 1;
    }
    assert(all.take(i as int) =~= all);
}

proof fn lemma_ids_split<T: Renumbered>(list: Seq<T::V>, i: int)
    requires
        0 <= i < list.len(),
    ensures
        all_ids::<T>(list.take(i + 1)).len() == all_ids::<T>(list.take(i)).len() + T::ids(list[i]).len(),
        all_ids::<T>(list.take(i + 1)).len() <= all_ids::<T>(list).len(),
    decreases list.len() - i,
{
    assert(list.take(i + 1).drop_last() =~= list.take(i));
    if i + 1 < list.len() {
        lemma_ids_split::<T>(list, i + 1);
    } else {
        assert(list.take(i + 1) =~= list);
    }
}

fn take_all_ids<T: Renumbered>(
    list: &Vec<T>,
    answers: &Vec<String>,
    before: usize,
) -> (r: (Vec<T>, usize))
    requires
        before + all_ids::<T>(views(list@)).len() <= answers.len(),
    ensures
        views(r.0@) == all_with_ids::<T>(
            views(list@),
            answers_to::<T>(views(list@), before as int, texts_of(answers@)),
        ),
        r.1 == before + all_ids::<T>(views(list@)).len(),
{
    let ghost all = views(list@);
    let ghost texts = texts_of(answers@);
    let mut r: Vec<T> = Vec::new();
    let mut at: usize = before;
    let mut i: usize = 0;
    while i < list.len()
        invariant
            all == views(list@),
            texts == texts_of(answers@),
            before + all_ids::<T>(all).len() <= answers.len(),
            i <= list.len(),
            at == before + all_ids::<T>(all.take(i as int)).len(),
            at <= answers.len(),
            views(r@) =~= all_with_ids::<T>(
                all.take(i as int),
                answers_to::<T>(all.take(i as int), before as int, texts),
            ),
        decreases list.len() - i,
    {
        let ghost done = views(r@);
        let ghost old_at = at as int;
        proof {
            lemma_ids_split::<T>(all, i as int);
            assert(all.take(i + 1).drop_last() =~= all.take(i as int));
        }
        let x = list[i].take_ids(answers, at);
        let n: usize = list[i].id_count();
        let ghost v = x@;
        r.push(x);
        at = at + n;
        proof {
            let part = answers_to::<T>(all.take(i + 1), before as int, texts);
            let m = all_ids::<T>(all.take(i as int)).len() as int;
            assert(part.subrange(0, m) =~= answers_to::<T>(all.take(i as int), before as int, texts));
            let n = T::ids(all[i as int]).len();
            assert(part.subrange(m, m + n) =~= texts.subrange(old_at, at as int));
            assert(views(r@) =~= done.push(v));
        }
        i = i + 1;
    }
    assert(all.take(i as int) =~= all);
    (r, at)
}

/// The questions about the ids of an import, in the order in which they are asked.
pub fn import_ids(resources: &ImportResources) -> (r: Vec<IdRequest>)
    ensures
        views(r@) == import_questions(resources@),
{
    let mut out: Vec<IdRequest> = Vec::new();
    push_all_ids(&resources.workspaces, &mut out);
    push_all_ids(&resources.environments, &mut out);
    push_all_ids(&resources.folders, &mut out);
    push_all_ids(&resources.http_requests, &mut out);
    push_all_ids(&resources.grpc_requests, &mut out);
    push_all_ids(&resources.websocket_requests, &mut out);
    assert(views(out@) =~= import_questions(resources@));
    out
}

/// The import with the answers to the questions of `import_ids` in place of its ids.
pub fn import_data(resources: &ImportResources, answers: &Vec<String>) -> (r: ImportResources)
    requires
        answers.len() == import_questions(resources@).len(),
    ensures
        r@ == renumbered(resources@, texts_of(answers@)),
{
    let (workspaces, a) = take_all_ids(&resources.workspaces, answers, 0);
    let (environments, b) = take_all_ids(&resources.environments, answers, a);
    let (folders, c) = take_all_ids(&resources.folders, answers, b);
    let (http_requests, d) = take_all_ids(&resources.http_requests, answers, c);
    let (grpc_requests, e) = take_all_ids(&resources.grpc_requests, answers, d);
    let (websocket_requests, _end) = take_all_ids(&resources.websocket_requests, answers, e);
    ImportResources {
        workspaces,
        environments,
        folders,
        http_requests,
        grpc_requests,
        websocket_requests,
    }
}

/// Whether equal questions have equal answers.
pub open spec fn consistent(questions: Seq<IdRequestView>, answers: Seq<Seq<char>>) -> bool {
    forall|i: int, j: int|
        0 <= i < questions.len() && 0 <= j < questions.len() && #[trigger] questions[i]
            == #[trigger] questions[j] ==> answers[i] == answers[j]
}

/// The answer to a question that was asked.
pub open spec fn answer_to(questions: Seq<IdRequestView>, answers: Seq<Seq<char>>) -> spec_fn(
    IdRequestView,
) -> Seq<char> {
    |q: IdRequestView| answers[choose|i: int| 0 <= i < questions.len() && questions[i] == q]
}

/// The records of a list with each id replaced by what `f` gives for it.
pub open spec fn all_renamed<T: Renumbered>(
    list: Seq<T::V>,
    f: spec_fn(IdRequestView) -> Seq<char>,
) -> Seq<T::V> {
    list.map_values(|v: T::V| T::renamed(v, f))
}

/// The import with each id replaced by what `f` gives for it.
pub open spec fn renamed_import(
    r: ImportResourcesView,
    f: spec_fn(IdRequestView) -> Seq<char>,
) -> ImportResourcesView {
    ImportResourcesView {
        workspaces: all_renamed::<Workspace>(r.workspaces, f),
        environments: all_renamed::<Environment>(r.environments, f),
        folders: all_renamed::<Folder>(r.folders, f),
        http_requests: all_renamed::<HttpRequest>(r.http_requests, f),
        grpc_requests: all_renamed::<GrpcRequest>(r.grpc_requests, f),
        websocket_requests: all_renamed::<WebsocketRequest>(r.websocket_requests, f),
    }
}

proof fn lemma_all_renamed<T: Renumbered>(
    list: Seq<T::V>,
    answers: Seq<Seq<char>>,
    f: spec_fn(IdRequestView) -> Seq<char>,
)
    requires
        answers.len() == all_ids::<T>(list).len(),
        forall|k: int| 0 <= k < answers.len() ==> #[trigger] answers[k] == f(all_ids::<T>(list)[k]),
    ensures
        all_with_ids::<T>(list, answers) == all_renamed::<T>(list, f),
    decreases list.len(),
{
    if list.len() > 0 {
        let head = list.drop_last();
        let n = all_ids::<T>(head).len() as int;
        let first = answers.subrange(0, n);
        let last = answers.subrange(n, n + T::ids(list.last()).len());
        assert forall|k: int| 0 <= k < first.len() implies #[trigger] first[k] == f(
            all_ids::<T>(head)[k],
        ) by {
            assert(answers[k] == f(all_ids::<T>(list)[k]));
        }
        assert forall|k: int| 0 <= k < last.len() implies #[trigger] last[k] == f(
            T::ids(list.last())[k],
        ) by {
            assert(answers[n + k] == f(all_ids::<T>(list)[n + k]));
        }
        lemma_all_renamed::<T>(head, first, f);
        T::lemma_renamed(list.last(), last, f);
        assert(all_renamed::<T>(list, f) =~= all_renamed::<T>(head, f).push(T::renamed(list.last(), f)));
    } else {
        assert(all_renamed::<T>(list, f) =~= Seq::empty());
    }
}

/// The records of one kind, where `f` gives the answer to each question and their questions stand
/// from `at` on.
proof fn lemma_part_renamed<T: Renumbered>(
    list: Seq<T::V>,
    at: int,
    questions: Seq<IdRequestView>,
    answers: Seq<Seq<char>>,
    f: spec_fn(IdRequestView) -> Seq<char>,
)
    requires
        answers.len() == questions.len(),
        0 <= at <= at + all_ids::<T>(list).len() <= questions.len(),
        questions.subrange(at, at + all_ids::<T>(list).len()) == all_ids::<T>(list),
        forall|k: int| 0 <= k < answers.len() ==> #[trigger] answers[k] == f(questions[k]),
    ensures
        all_with_ids::<T>(list, answers_to::<T>(list, at, answers)) == all_renamed::<T>(list, f),
{
    let ids = all_ids::<T>(list);
    let part = answers_to::<T>(list, at, answers);
    assert forall|k: int| 0 <= k < part.len() implies #[trigger] part[k] == f(ids[k]) by {
        assert(questions.subrange(at, at + ids.len())[k] == questions[at + k]);
        assert(answers[at + k] == f(questions[at + k]));
    }
    lemma_all_renamed::<T>(list, part, f);
}

/// An import, where `f` gives the answer to each question.
proof fn lemma_import_renamed(
    r: ImportResourcesView,
    answers: Seq<Seq<char>>,
    f: spec_fn(IdRequestView) -> Seq<char>,
)
    requires
        answers.len() == import_questions(r).len(),
        forall|k: int|
            0 <= k < answers.len() ==> #[trigger] answers[k] == f(import_questions(r)[k]),
    ensures
        renumbered(r, answers) == renamed_import(r, f),
{
    let q = import_questions(r);
    let ids_a = all_ids::<Workspace>(r.workspaces);
    let ids_b = all_ids::<Environment>(r.environments);
    let ids_c = all_ids::<Folder>(r.folders);
    let ids_d = all_ids::<HttpRequest>(r.http_requests);
    let ids_e = all_ids::<GrpcRequest>(r.grpc_requests);
    let ids_g = all_ids::<WebsocketRequest>(r.websocket_requests);
    let a = ids_a.len() as int;
    let b = a + ids_b.len();
    let c = b + ids_c.len();
    let d = c + ids_d.len();
    let e = d + ids_e.len();
    assert(q.subrange(0, a) =~= ids_a);
    assert(q.subrange(a, b) =~= ids_b);
    assert(q.subrange(b, c) =~= ids_c);
    assert(q.subrange(c, d) =~= ids_d);
    assert(q.subrange(d, e) =~= ids_e);
    assert(q.subrange(e, e + ids_g.len()) =~= ids_g);
    lemma_part_renamed::<Workspace>(r.workspaces, 0, q, answers, f);
    lemma_part_renamed::<Environment>(r.environments, a, q, answers, f);
    lemma_part_renamed::<Folder>(r.folders, b, q, answers, f);
    lemma_part_renamed::<HttpRequest>(r.http_requests, c, q, answers, f);
    lemma_part_renamed::<GrpcRequest>(r.grpc_requests, d, q, answers, f);
    lemma_part_renamed::<WebsocketRequest>(r.websocket_requests, e, q, answers, f);
}

/// Where equal questions get equal answers, an import is one renaming of its ids: every place
/// where an id stood holds the same answer, and everything else is as it was.
pub proof fn consistent_answers_rename(r: ImportResourcesView, answers: Seq<Seq<char>>)
    requires
        answers.len() == import_questions(r).len(),
        consistent(import_questions(r), answers),
    ensures
        renumbered(r, answers) == renamed_import(r, answer_to(import_questions(r), answers)),
{
    let q = import_questions(r);
    let f = answer_to(q, answers);
    assert forall|k: int| 0 <= k < answers.len() implies #[trigger] answers[k] == f(q[k]) by {
        let i = choose|i: int| 0 <= i < q.len() && q[i] == q[k];
        assert(q[k] == q[k]);
        assert(q[i] == q[k]);
    }
    lemma_import_renamed(r, answers, f);
}

/// Whether questions about the same id have equal answers, whatever kind of model the id names.
pub open spec fn decided_by_id(questions: Seq<IdRequestView>, answers: Seq<Seq<char>>) -> bool {
    forall|i: int, j: int|
        #![trigger questions[i], questions[j]]
        0 <= i < questions.len() && 0 <= j < questions.len() && questions[i].id
            == questions[j].id ==> answers[i] == answers[j]
}

/// The answer that questions about an id got.
pub open spec fn answer_for_id(
    questions: Seq<IdRequestView>,
    answers: Seq<Seq<char>>,
    id: Seq<char>,
) -> Seq<char> {
    answers[choose|i: int| 0 <= i < questions.len() && (#[trigger] questions[i]).id == id]
}

/// Where the id alone decides the answer, an import is one renaming of ids for models of every
/// kind: equal ids become equal ids, also where they name different kinds of model.
pub proof fn ids_alone_decide(r: ImportResourcesView, answers: Seq<Seq<char>>)
    requires
        answers.len() == import_questions(r).len(),
        decided_by_id(import_questions(r), answers),
    ensures
        consistent(import_questions(r), answers),
        renumbered(r, answers) == renamed_import(
            r,
            |q: IdRequestView| answer_for_id(import_questions(r), answers, q.id),
        ),
{
    let all = import_questions(r);
    let f = |q: IdRequestView| answer_for_id(all, answers, q.id);
    assert forall|k: int| 0 <= k < answers.len() implies #[trigger] answers[k] == f(all[k]) by {
        let i = choose|i: int| 0 <= i < all.len() && (#[trigger] all[i]).id == all[k].id;
        assert(all[k].id == all[k].id);
        assert(all[i].id == all[k].id);
    }
    lemma_import_renamed(r, answers, f);
}

/// Where equal questions get equal answers, references survive an import: what named a folder or a
/// workspace of the import by its old id names it by its new one.
pub proof fn references_survive(r: ImportResourcesView, answers: Seq<Seq<char>>)
    requires
        answers.len() == import_questions(r).len(),
        consistent(import_questions(r), answers),
    ensures
        forall|i: int, j: int|
            #![trigger r.folders[i], r.folders[j]]
            0 <= i < r.folders.len() && 0 <= j < r.folders.len()
                && r.folders[i].folder_id == Some(r.folders[j].id)
                ==> renumbered(r, answers).folders[i].folder_id
                == Some(renumbered(r, answers).folders[j].id),
        forall|i: int, j: int|
            #![trigger r.http_requests[i], r.folders[j]]
            0 <= i < r.http_requests.len() && 0 <= j < r.folders.len()
                && r.http_requests[i].folder_id == Some(r.folders[j].id)
                ==> renumbered(r, answers).http_requests[i].folder_id
                == Some(renumbered(r, answers).folders[j].id),
        forall|i: int, j: int|
            #![trigger r.grpc_requests[i], r.folders[j]]
            0 <= i < r.grpc_requests.len() && 0 <= j < r.folders.len()
                && r.grpc_requests[i].folder_id == Some(r.folders[j].id)
                ==> renumbered(r, answers).grpc_requests[i].folder_id
                == Some(renumbered(r, answers).folders[j].id),
        forall|i: int, j: int|
            #![trigger r.websocket_requests[i], r.folders[j]]
            0 <= i < r.websocket_requests.len() && 0 <= j < r.folders.len()
                && r.websocket_requests[i].folder_id == Some(r.folders[j].id)
                ==> renumbered(r, answers).websocket_requests[i].folder_id
                == Some(renumbered(r, answers).folders[j].id),
        forall|i: int, j: int|
            #![trigger r.environments[i], r.workspaces[j]]
            0 <= i < r.environments.len() && 0 <= j < r.workspaces.len()
                && r.environments[i].workspace_id == r.workspaces[j].id
                ==> renumbered(r, answers).environments[i].workspace_id
                == renumbered(r, answers).workspaces[j].id,
        forall|i: int, j: int|
            #![trigger r.folders[i], r.workspaces[j]]
            0 <= i < r.folders.len() && 0 <= j < r.workspaces.len()
                && r.folders[i].workspace_id == r.workspaces[j].id
                ==> renumbered(r, answers).folders[i].workspace_id
                == renumbered(r, answers).workspaces[j].id,
        forall|i: int, j: int|
            #![trigger r.http_requests[i], r.workspaces[j]]
            0 <= i < r.http_requests.len() && 0 <= j < r.workspaces.len()
                && r.http_requests[i].workspace_id == r.workspaces[j].id
                ==> renumbered(r, answers).http_requests[i].workspace_id
                == renumbered(r, answers).workspaces[j].id,
        forall|i: int, j: int|
            #![trigger r.grpc_requests[i], r.workspaces[j]]
            0 <= i < r.grpc_requests.len() && 0 <= j < r.workspaces.len()
                && r.grpc_requests[i].workspace_id == r.workspaces[j].id
                ==> renumbered(r, answers).grpc_requests[i].workspace_id
                == renumbered(r, answers).workspaces[j].id,
        forall|i: int, j: int|
            #![trigger r.websocket_requests[i], r.workspaces[j]]
            0 <= i < r.websocket_requests.len() && 0 <= j < r.workspaces.len()
                && r.websocket_requests[i].workspace_id == r.workspaces[j].id
                ==> renumbered(r, answers).websocket_requests[i].workspace_id
                == renumbered(r, answers).workspaces[j].id,
        forall|i: int, j: int|
            #![trigger r.environments[i], r.folders[j]]
            0 <= i < r.environments.len() && 0 <= j < r.folders.len()
                && parent_folder(r.environments[i]) == Some(r.folders[j].id)
                ==> renumbered(r, answers).environments[i].parent_id
                == Some(renumbered(r, answers).folders[j].id),
{
    consistent_answers_rename(r, answers);
}

/// No imported environment is left without a kind of parent, and one that belongs to anything but
/// a folder, and said so, names no parent.
pub proof fn imported_environments_have_a_parent_model(e: EnvironmentView, answers: Seq<Seq<char>>)
    ensures
        Environment::with_ids(e, answers).parent_model.len() > 0,
        e.parent_model.len() > 0 && e.parent_model != "folder"@ ==> Environment::with_ids(
            e,
            answers,
        ).parent_id is None,
{
    reveal_strlit("workspace");
}

/// Whether `w` is `v` with some answers in place of its ids.
spec fn differs_in_ids<T: Renumbered>(v: T::V, w: T::V) -> bool {
    exists|part: Seq<Seq<char>>| w == #[trigger] T::with_ids(v, part)
}

proof fn lemma_all_with_ids<T: Renumbered>(list: Seq<T::V>, answers: Seq<Seq<char>>)
    ensures
        all_with_ids::<T>(list, answers).len() == list.len(),
        forall|i: int|
            0 <= i < list.len() ==> differs_in_ids::<T>(
                list[i],
                #[trigger] all_with_ids::<T>(list, answers)[i],
            ),
    decreases list.len(),
{
    if list.len() > 0 {
        let head = list.drop_last();
        let n = all_ids::<T>(head).len() as int;
        lemma_all_with_ids::<T>(head, answers.subrange(0, n));
        assert forall|i: int| 0 <= i < list.len() implies differs_in_ids::<T>(
            list[i],
            #[trigger] all_with_ids::<T>(list, answers)[i],
        ) by {
            if i < head.len() {
                assert(differs_in_ids::<T>(head[i], all_with_ids::<T>(head, answers.subrange(0, n))[i]));
            } else {
                let part = answers.subrange(n, n + T::ids(list.last()).len());
                assert(all_with_ids::<T>(list, answers)[i] == T::with_ids(list[i], part));
            }
        }
    }
}

/// An import keeps every record, in its place, with everything but its ids and, for an
/// environment, the kind of its parent: names, addresses, messages and what else it holds.
pub proof fn import_keeps_every_record(r: ImportResourcesView, answers: Seq<Seq<char>>)
    ensures
        renumbered(r, answers).workspaces.len() == r.workspaces.len(),
        renumbered(r, answers).environments.len() == r.environments.len(),
        renumbered(r, answers).folders.len() == r.folders.len(),
        renumbered(r, answers).http_requests.len() == r.http_requests.len(),
        renumbered(r, answers).grpc_requests.len() == r.grpc_requests.len(),
        renumbered(r, answers).websocket_requests.len() == r.websocket_requests.len(),
        forall|i: int|
            #![trigger renumbered(r, answers).workspaces[i]]
            0 <= i < r.workspaces.len() ==> {
                let w = renumbered(r, answers).workspaces[i];
                let v = r.workspaces[i];
                w.rest == v.rest
            },
        forall|i: int|
            #![trigger renumbered(r, answers).environments[i]]
            0 <= i < r.environments.len() ==> {
                let w = renumbered(r, answers).environments[i];
                let v = r.environments[i];
                w.rest == v.rest
            },
        forall|i: int|
            #![trigger renumbered(r, answers).folders[i]]
            0 <= i < r.folders.len() ==> {
                let w = renumbered(r, answers).folders[i];
                let v = r.folders[i];
                &&& w.name == v.name
                &&& w.rest == v.rest
            },
        forall|i: int|
            #![trigger renumbered(r, answers).http_requests[i]]
            0 <= i < r.http_requests.len() ==> {
                let w = renumbered(r, answers).http_requests[i];
                let v = r.http_requests[i];
                &&& w.name == v.name
                &&& w.rest == v.rest
            },
        forall|i: int|
            #![trigger renumbered(r, answers).grpc_requests[i]]
            0 <= i < r.grpc_requests.len() ==> {
                let w = renumbered(r, answers).grpc_requests[i];
                let v = r.grpc_requests[i];
                &&& w.name == v.name
                &&& w.url == v.url
                &&& w.service == v.service
                &&& w.method == v.method
                &&& w.message == v.message
                &&& w.rest == v.rest
            },
        forall|i: int|
            #![trigger renumbered(r, answers).websocket_requests[i]]
            0 <= i < r.websocket_requests.len() ==> {
                let w = renumbered(r, answers).websocket_requests[i];
                let v = r.websocket_requests[i];
                w.rest == v.rest
            },
{
    let a = all_ids::<Workspace>(r.workspaces).len() as int;
    let b = a + all_ids::<Environment>(r.environments).len();
    let c = b + all_ids::<Folder>(r.folders).len();
    let d = c + all_ids::<HttpRequest>(r.http_requests).len();
    let e = d + all_ids::<GrpcRequest>(r.grpc_requests).len();
    lemma_all_with_ids::<Workspace>(
        r.workspaces,
        answers_to::<Workspace>(r.workspaces, 0, answers),
    );
    lemma_all_with_ids::<Environment>(
        r.environments,
        answers_to::<Environment>(r.environments, a, answers),
    );
    lemma_all_with_ids::<Folder>(
        r.folders,
        answers_to::<Folder>(r.folders, b, answers),
    );
    lemma_all_with_ids::<HttpRequest>(
        r.http_requests,
        answers_to::<HttpRequest>(r.http_requests, c, answers),
    );
    lemma_all_with_ids::<GrpcRequest>(
        r.grpc_requests,
        answers_to::<GrpcRequest>(r.grpc_requests, d, answers),
    );
    lemma_all_with_ids::<WebsocketRequest>(
        r.websocket_requests,
        answers_to::<WebsocketRequest>(r.websocket_requests, e, answers),
    );
}

/// The sum of what is counted for the records of a list.
pub open spec fn total<V>(list: Seq<V>, count: spec_fn(V) -> nat) -> nat
    decreases list.len(),
{
    if list.len() == 0 {
        0
    } else {
        total(list.drop_last(), count) + count(list.last())
    }
}

/// How many ids a record holds that may stand in a folder: its own, that of its workspace, and that
/// of the folder.
pub open spec fn ids_with(folder: Option<Seq<char>>) -> nat {
    if folder is Some {
        3
    } else {
        2
    }
}

/// How many ids a workspace holds that an import replaces.
pub open spec fn workspace_ids() -> spec_fn(WorkspaceView) -> nat {
    |x: WorkspaceView|
        1nat
}

/// How many ids an environment holds that an import replaces.
pub open spec fn environment_ids() -> spec_fn(EnvironmentView) -> nat {
    |x: EnvironmentView|
        if x.parent_model == "folder"@ {
            ids_with(x.parent_id)
        } else {
            2nat
        }
}

/// How many ids a folder holds that an import replaces.
pub open spec fn folder_ids() -> spec_fn(FolderView) -> nat {
    |x: FolderView|
        ids_with(x.folder_id)
}

/// How many ids a HTTP request holds that an import replaces.
pub open spec fn http_request_ids() -> spec_fn(HttpRequestView) -> nat {
    |x: HttpRequestView|
        ids_with(x.folder_id)
}

/// How many ids a gRPC request holds that an import replaces.
pub open spec fn grpc_request_ids() -> spec_fn(GrpcRequestView) -> nat {
    |x: GrpcRequestView|
        ids_with(x.folder_id)
}

/// How many ids a WebSocket request holds that an import replaces.
pub open spec fn websocket_request_ids() -> spec_fn(WebsocketRequestView) -> nat {
    |x: WebsocketRequestView|
        ids_with(x.folder_id)
}

proof fn lemma_place<T: Renumbered>(
    list: Seq<T::V>,
    count: spec_fn(T::V) -> nat,
    answers: Seq<Seq<char>>,
    i: int,
)
    requires
        0 <= i <= list.len(),
        forall|v: T::V| #[trigger] count(v) == T::ids(v).len(),
        answers.len() == all_ids::<T>(list).len(),
    ensures
        all_ids::<T>(list).len() == total(list, count),
        all_with_ids::<T>(list, answers).len() == list.len(),
        i < list.len() ==> {
            let at = total(list.take(i), count) as int;
            let end = at + count(list[i]);
            &&& end <= all_ids::<T>(list).len()
            &&& all_ids::<T>(list).subrange(at, end) == T::ids(list[i])
            &&& all_with_ids::<T>(list, answers)[i] == T::with_ids(
                list[i],
                answers.subrange(at, end),
            )
        },
    decreases list.len(),
{
    if list.len() > 0 {
        let head = list.drop_last();
        let n = all_ids::<T>(head).len() as int;
        let first = answers.subrange(0, n);
        assert(count(list.last()) == T::ids(list.last()).len());
        if i < head.len() {
            lemma_place::<T>(head, count, first, i);
            let at = total(head.take(i), count) as int;
            let end = at + count(head[i]);
            assert(head.take(i) =~= list.take(i));
            assert(all_ids::<T>(list).subrange(at, end) =~= all_ids::<T>(head).subrange(at, end));
            assert(first.subrange(at, end) =~= answers.subrange(at, end));
        } else {
            lemma_place::<T>(head, count, first, head.len() as int);
            if i == head.len() {
                assert(list.take(i) =~= head);
                assert(all_ids::<T>(list).subrange(n, n + count(list[i])) =~= T::ids(list[i]));
            }
        }
    }
}

/// How many ids the records before those of a kind hold, in the order in which an import asks.
pub open spec fn ids_before(r: ImportResourcesView, kind: ModelKind) -> nat {
    let a = r.workspaces.len();
    let b = a + total(r.environments, environment_ids());
    let c = b + total(r.folders, folder_ids());
    let d = c + total(r.http_requests, http_request_ids());
    let e = d + total(r.grpc_requests, grpc_request_ids());
    match kind {
        ModelKind::Workspace => 0,
        ModelKind::Environment => a,
        ModelKind::Folder => b,
        ModelKind::HttpRequest => c,
        ModelKind::GrpcRequest => d,
        ModelKind::WebsocketRequest => e,
    }
}

proof fn lemma_ids_before(r: ImportResourcesView)
    ensures
        all_ids::<Workspace>(r.workspaces).len() == r.workspaces.len(),
        all_ids::<Workspace>(r.workspaces).len() == total(r.workspaces, workspace_ids()),
        all_ids::<Environment>(r.environments).len() == total(r.environments, environment_ids()),
        all_ids::<Folder>(r.folders).len() == total(r.folders, folder_ids()),
        all_ids::<HttpRequest>(r.http_requests).len() == total(r.http_requests, http_request_ids()),
        all_ids::<GrpcRequest>(r.grpc_requests).len() == total(r.grpc_requests, grpc_request_ids()),
        all_ids::<WebsocketRequest>(r.websocket_requests).len() == total(
            r.websocket_requests,
            websocket_request_ids(),
        ),
        forall|i: int|
            0 <= i <= r.workspaces.len() ==> total(#[trigger] r.workspaces.take(i), workspace_ids())
                == i,
{
    let ids = all_ids::<Workspace>(r.workspaces);
    lemma_place::<Workspace>(
        r.workspaces,
        workspace_ids(),
        Seq::new(ids.len(), |k: int| Seq::empty()),
        0,
    );
    let ids = all_ids::<Environment>(r.environments);
    lemma_place::<Environment>(
        r.environments,
        environment_ids(),
        Seq::new(ids.len(), |k: int| Seq::empty()),
        0,
    );
    let ids = all_ids::<Folder>(r.folders);
    lemma_place::<Folder>(
        r.folders,
        folder_ids(),
        Seq::new(ids.len(), |k: int| Seq::empty()),
        0,
    );
    let ids = all_ids::<HttpRequest>(r.http_requests);
    lemma_place::<HttpRequest>(
        r.http_requests,
        http_request_ids(),
        Seq::new(ids.len(), |k: int| Seq::empty()),
        0,
    );
    let ids = all_ids::<GrpcRequest>(r.grpc_requests);
    lemma_place::<GrpcRequest>(
        r.grpc_requests,
        grpc_request_ids(),
        Seq::new(ids.len(), |k: int| Seq::empty()),
        0,
    );
    let ids = all_ids::<WebsocketRequest>(r.websocket_requests);
    lemma_place::<WebsocketRequest>(
        r.websocket_requests,
        websocket_request_ids(),
        Seq::new(ids.len(), |k: int| Seq::empty()),
        0,
    );
    lemma_one_each(r.workspaces, r.workspaces.len() as int);
    assert(r.workspaces.take(r.workspaces.len() as int) =~= r.workspaces);
    assert forall|i: int| 0 <= i <= r.workspaces.len() implies total(
        #[trigger] r.workspaces.take(i),
        workspace_ids(),
    ) == i by {
        lemma_one_each(r.workspaces, i);
    }
}

proof fn lemma_one_each(list: Seq<WorkspaceView>, i: int)
    requires
        0 <= i <= list.len(),
    ensures
        total(list.take(i), workspace_ids()) == i,
    decreases i,
{
    if i > 0 {
        lemma_one_each(list, i - 1);
        assert(list.take(i).drop_last() =~= list.take(i - 1));
    }
}

/// The place of the questions of a record among those of an import: `i` records of its kind and all
/// records of the kinds before come first.
pub open spec fn place<V>(
    r: ImportResourcesView,
    kind: ModelKind,
    list: Seq<V>,
    count: spec_fn(V) -> nat,
    i: int,
) -> int {
    (ids_before(r, kind) + total(list.take(i), count)) as int
}

/// Whether questions and answers stand at a place for a record that belongs to a workspace and
/// perhaps to a folder: its old ids are asked about there, each as what it is, and its new ids are
/// the answers there, each in the place of the id that was asked about.
pub open spec fn takes_answers(
    questions: Seq<IdRequestView>,
    answers: Seq<Seq<char>>,
    at: int,
    kind: ModelKind,
    was: (Seq<char>, Seq<char>, Option<Seq<char>>),
    is_now: (Seq<char>, Seq<char>, Option<Seq<char>>),
) -> bool {
    &&& 0 <= at && at + 2 <= questions.len()
    &&& questions[at].kind == kind && questions[at].id == was.0
    &&& questions[at + 1].kind == ModelKind::Workspace && questions[at + 1].id == was.1
    &&& is_now.0 == answers[at]
    &&& is_now.1 == answers[at + 1]
    &&& was.2 is None ==> is_now.2 is None
    &&& was.2 matches Some(folder) ==> {
        &&& at + 3 <= questions.len()
        &&& questions[at + 2].kind == ModelKind::Folder && questions[at + 2].id == folder
        &&& is_now.2 == Some(answers[at + 2])
    }
}

/// As many questions are asked as there are ids, and every workspace is asked about at its own
/// place and takes the answer there.
pub proof fn workspaces_take_their_answers(r: ImportResourcesView, answers: Seq<Seq<char>>, i: int)
    requires
        answers.len() == import_questions(r).len(),
        0 <= i < r.workspaces.len(),
    ensures
        import_questions(r).len() == ids_before(r, ModelKind::WebsocketRequest) + total(
            r.websocket_requests,
            websocket_request_ids(),
        ),
        import_questions(r)[i].kind == ModelKind::Workspace,
        import_questions(r)[i].id == r.workspaces[i].id,
        renumbered(r, answers).workspaces.len() == r.workspaces.len(),
        renumbered(r, answers).workspaces[i].id == answers[i],
        renumbered(r, answers).workspaces[i].rest == r.workspaces[i].rest,
{
    lemma_ids_before(r);
    let part = answers_to::<Workspace>(r.workspaces, 0, answers);
    lemma_place::<Workspace>(r.workspaces, workspace_ids(), part, i);
    let ids = all_ids::<Workspace>(r.workspaces);
    assert(ids.subrange(i, i + 1)[0] == ids[i]);
    assert(ids.subrange(i, i + 1)[0] == Workspace::ids(r.workspaces[i])[0]);
    assert(import_questions(r)[i] == ids[i]);
    assert(part.subrange(i, i + 1)[0] == answers[i]);
}

/// Every environment is asked about at its own place and takes the answers there: for itself, for
/// its workspace, and for the folder that it belongs to where it says so. One without a kind of
/// parent gets that of the workspace and keeps its parent; one with another kind loses its parent.
pub proof fn environments_take_their_answers(
    r: ImportResourcesView,
    answers: Seq<Seq<char>>,
    i: int,
)
    requires
        answers.len() == import_questions(r).len(),
        0 <= i < r.environments.len(),
    ensures
        ({
            let at = place(r, ModelKind::Environment, r.environments, environment_ids(), i);
            let v = r.environments[i];
            let w = renumbered(r, answers).environments[i];
            let in_folder = v.parent_model == "folder"@;
            &&& takes_answers(
                import_questions(r),
                answers,
                at,
                ModelKind::Environment,
                (v.id, v.workspace_id, if in_folder { v.parent_id } else { None }),
                (w.id, w.workspace_id, if in_folder { w.parent_id } else { None }),
            )
            &&& v.parent_model.len() == 0 ==> w.parent_model == "workspace"@ && w.parent_id
                == v.parent_id
            &&& v.parent_model.len() > 0 ==> w.parent_model == v.parent_model
            &&& v.parent_model.len() > 0 && !in_folder ==> w.parent_id is None
            &&& w.rest == v.rest
        }),
        renumbered(r, answers).environments.len() == r.environments.len(),
{
    reveal_strlit("folder");
    lemma_ids_before(r);
    let before = ids_before(r, ModelKind::Environment) as int;
    let part = answers_to::<Environment>(r.environments, before, answers);
    let count = environment_ids();
    lemma_place::<Environment>(r.environments, count, part, i);
    let ids = all_ids::<Environment>(r.environments);
    let q = import_questions(r);
    let v = r.environments[i];
    let k = total(r.environments.take(i), count) as int;
    let end = k + count(v);
    assert forall|j: int| 0 <= j < count(v) implies #[trigger] Environment::ids(v)[j] == q[before
        + k + j] && part.subrange(k, end)[j] == answers[before + k + j] by {
        assert(ids.subrange(k, end)[j] == ids[k + j]);
        assert(q[before + k + j] == ids[k + j]);
    }
    assert(Environment::ids(v)[0].id == v.id);
    assert(Environment::ids(v)[1].id == v.workspace_id);
    if v.parent_model == "folder"@ && v.parent_id is Some {
        assert(Environment::ids(v)[2].id == v.parent_id->0);
    }
}

/// Every folder is asked about at its own place and takes the answers there, each for the id that
/// was asked about, and is otherwise as it was.
pub proof fn folders_take_their_answers(
    r: ImportResourcesView,
    answers: Seq<Seq<char>>,
    i: int,
)
    requires
        answers.len() == import_questions(r).len(),
        0 <= i < r.folders.len(),
    ensures
        ({
            let at = place(r, ModelKind::Folder, r.folders, folder_ids(), i);
            let v = r.folders[i];
            let w = renumbered(r, answers).folders[i];
            &&& takes_answers(
                import_questions(r),
                answers,
                at,
                ModelKind::Folder,
                (v.id, v.workspace_id, v.folder_id),
                (w.id, w.workspace_id, w.folder_id),
            )
            &&& w.name == v.name
            &&& w.rest == v.rest
        }),
        renumbered(r, answers).folders.len() == r.folders.len(),
{
    lemma_ids_before(r);
    let before = ids_before(r, ModelKind::Folder) as int;
    let part = answers_to::<Folder>(r.folders, before, answers);
    let count = folder_ids();
    lemma_place::<Folder>(r.folders, count, part, i);
    let ids = all_ids::<Folder>(r.folders);
    let q = import_questions(r);
    let v = r.folders[i];
    let k = total(r.folders.take(i), count) as int;
    let end = k + count(v);
    assert forall|j: int| 0 <= j < count(v) implies #[trigger] Folder::ids(v)[j] == q[before + k
        + j] && part.subrange(k, end)[j] == answers[before + k + j] by {
        assert(ids.subrange(k, end)[j] == ids[k + j]);
        assert(q[before + k + j] == ids[k + j]);
    }
    assert(Folder::ids(v)[0].id == v.id);
    assert(Folder::ids(v)[1].id == v.workspace_id);
    if v.folder_id is Some {
        assert(Folder::ids(v)[2].id == v.folder_id->0);
    }
}

/// Every HTTP request is asked about at its own place and takes the answers there, each for the id that
/// was asked about, and is otherwise as it was.
pub proof fn http_requests_take_their_answers(
    r: ImportResourcesView,
    answers: Seq<Seq<char>>,
    i: int,
)
    requires
        answers.len() == import_questions(r).len(),
        0 <= i < r.http_requests.len(),
    ensures
        ({
            let at = place(r, ModelKind::HttpRequest, r.http_requests, http_request_ids(), i);
            let v = r.http_requests[i];
            let w = renumbered(r, answers).http_requests[i];
            &&& takes_answers(
                import_questions(r),
                answers,
                at,
                ModelKind::HttpRequest,
                (v.id, v.workspace_id, v.folder_id),
                (w.id, w.workspace_id, w.folder_id),
            )
            &&& w.name == v.name
            &&& w.rest == v.rest
        }),
        renumbered(r, answers).http_requests.len() == r.http_requests.len(),
{
    lemma_ids_before(r);
    let before = ids_before(r, ModelKind::HttpRequest) as int;
    let part = answers_to::<HttpRequest>(r.http_requests, before, answers);
    let count = http_request_ids();
    lemma_place::<HttpRequest>(r.http_requests, count, part, i);
    let ids = all_ids::<HttpRequest>(r.http_requests);
    let q = import_questions(r);
    let v = r.http_requests[i];
    let k = total(r.http_requests.take(i), count) as int;
    let end = k + count(v);
    assert forall|j: int| 0 <= j < count(v) implies #[trigger] HttpRequest::ids(v)[j] == q[before + k
        + j] && part.subrange(k, end)[j] == answers[before + k + j] by {
        assert(ids.subrange(k, end)[j] == ids[k + j]);
        assert(q[before + k + j] == ids[k + j]);
    }
    assert(HttpRequest::ids(v)[0].id == v.id);
    assert(HttpRequest::ids(v)[1].id == v.workspace_id);
    if v.folder_id is Some {
        assert(HttpRequest::ids(v)[2].id == v.folder_id->0);
    }
}

/// Every gRPC request is asked about at its own place and takes the answers there, each for the id that
/// was asked about, and is otherwise as it was.
pub proof fn grpc_requests_take_their_answers(
    r: ImportResourcesView,
    answers: Seq<Seq<char>>,
    i: int,
)
    requires
        answers.len() == import_questions(r).len(),
        0 <= i < r.grpc_requests.len(),
    ensures
        ({
            let at = place(r, ModelKind::GrpcRequest, r.grpc_requests, grpc_request_ids(), i);
            let v = r.grpc_requests[i];
            let w = renumbered(r, answers).grpc_requests[i];
            &&& takes_answers(
                import_questions(r),
                answers,
                at,
                ModelKind::GrpcRequest,
                (v.id, v.workspace_id, v.folder_id),
                (w.id, w.workspace_id, w.folder_id),
            )
            &&& w.name == v.name
            &&& w.url == v.url
            &&& w.service == v.service
            &&& w.method == v.method
            &&& w.message == v.message
            &&& w.rest == v.rest
        }),
        renumbered(r, answers).grpc_requests.len() == r.grpc_requests.len(),
{
    lemma_ids_before(r);
    let before = ids_before(r, ModelKind::GrpcRequest) as int;
    let part = answers_to::<GrpcRequest>(r.grpc_requests, before, answers);
    let count = grpc_request_ids();
    lemma_place::<GrpcRequest>(r.grpc_requests, count, part, i);
    let ids = all_ids::<GrpcRequest>(r.grpc_requests);
    let q = import_questions(r);
    let v = r.grpc_requests[i];
    let k = total(r.grpc_requests.take(i), count) as int;
    let end = k + count(v);
    assert forall|j: int| 0 <= j < count(v) implies #[trigger] GrpcRequest::ids(v)[j] == q[before + k
        + j] && part.subrange(k, end)[j] == answers[before + k + j] by {
        assert(ids.subrange(k, end)[j] == ids[k + j]);
        assert(q[before + k + j] == ids[k + j]);
    }
    assert(GrpcRequest::ids(v)[0].id == v.id);
    assert(GrpcRequest::ids(v)[1].id == v.workspace_id);
    if v.folder_id is Some {
        assert(GrpcRequest::ids(v)[2].id == v.folder_id->0);
    }
}

/// Every WebSocket request is asked about at its own place and takes the answers there, each for the id that
/// was asked about, and is otherwise as it was.
pub proof fn websocket_requests_take_their_answers(
    r: ImportResourcesView,
    answers: Seq<Seq<char>>,
    i: int,
)
    requires
        answers.len() == import_questions(r).len(),
        0 <= i < r.websocket_requests.len(),
    ensures
        ({
            let at = place(r, ModelKind::WebsocketRequest, r.websocket_requests, websocket_request_ids(), i);
            let v = r.websocket_requests[i];
            let w = renumbered(r, answers).websocket_requests[i];
            &&& takes_answers(
                import_questions(r),
                answers,
                at,
                ModelKind::WebsocketRequest,
                (v.id, v.workspace_id, v.folder_id),
                (w.id, w.workspace_id, w.folder_id),
            )
            &&& w.rest == v.rest
        }),
        renumbered(r, answers).websocket_requests.len() == r.websocket_requests.len(),
{
    lemma_ids_before(r);
    let before = ids_before(r, ModelKind::WebsocketRequest) as int;
    let part = answers_to::<WebsocketRequest>(r.websocket_requests, before, answers);
    let count = websocket_request_ids();
    lemma_place::<WebsocketRequest>(r.websocket_requests, count, part, i);
    let ids = all_ids::<WebsocketRequest>(r.websocket_requests);
    let q = import_questions(r);
    let v = r.websocket_requests[i];
    let k = total(r.websocket_requests.take(i), count) as int;
    let end = k + count(v);
    assert forall|j: int| 0 <= j < count(v) implies #[trigger] WebsocketRequest::ids(v)[j] == q[before + k
        + j] && part.subrange(k, end)[j] == answers[before + k + j] by {
        assert(ids.subrange(k, end)[j] == ids[k + j]);
        assert(q[before + k + j] == ids[k + j]);
    }
    assert(WebsocketRequest::ids(v)[0].id == v.id);
    assert(WebsocketRequest::ids(v)[1].id == v.workspace_id);
    if v.folder_id is Some {
        assert(WebsocketRequest::ids(v)[2].id == v.folder_id->0);
    }
}

/// Whether different ids have different answers.
pub open spec fn tells_apart(questions: Seq<IdRequestView>, answers: Seq<Seq<char>>) -> bool {
    forall|i: int, j: int|
        #![trigger questions[i], questions[j]]
        0 <= i < questions.len() && 0 <= j < questions.len() && questions[i].id
            != questions[j].id ==> answers[i] != answers[j]
}

/// Where different ids get different answers, records of the same kind with different ids have
/// different ids after the import: storing them leaves each of them.
pub proof fn different_records_stay_different(
    r: ImportResourcesView,
    answers: Seq<Seq<char>>,
    i: int,
    j: int,
)
    requires
        answers.len() == import_questions(r).len(),
        tells_apart(import_questions(r), answers),
        0 <= i,
        0 <= j,
    ensures
        i < r.workspaces.len() && j < r.workspaces.len() && r.workspaces[i].id
            != r.workspaces[j].id ==> renumbered(r, answers).workspaces[i].id != renumbered(
            r,
            answers,
        ).workspaces[j].id,
        i < r.environments.len() && j < r.environments.len() && r.environments[i].id
            != r.environments[j].id ==> renumbered(r, answers).environments[i].id != renumbered(
            r,
            answers,
        ).environments[j].id,
        i < r.folders.len() && j < r.folders.len() && r.folders[i].id
            != r.folders[j].id ==> renumbered(r, answers).folders[i].id != renumbered(
            r,
            answers,
        ).folders[j].id,
        i < r.http_requests.len() && j < r.http_requests.len() && r.http_requests[i].id
            != r.http_requests[j].id ==> renumbered(r, answers).http_requests[i].id != renumbered(
            r,
            answers,
        ).http_requests[j].id,
        i < r.grpc_requests.len() && j < r.grpc_requests.len() && r.grpc_requests[i].id
            != r.grpc_requests[j].id ==> renumbered(r, answers).grpc_requests[i].id != renumbered(
            r,
            answers,
        ).grpc_requests[j].id,
        i < r.websocket_requests.len() && j < r.websocket_requests.len() && r.websocket_requests[i].id
            != r.websocket_requests[j].id ==> renumbered(r, answers).websocket_requests[i].id != renumbered(
            r,
            answers,
        ).websocket_requests[j].id,
{
    let q = import_questions(r);
    if i < r.workspaces.len() && j < r.workspaces.len() {
        workspaces_take_their_answers(r, answers, i);
        workspaces_take_their_answers(r, answers, j);
        let a = i;
        let b = j;
        assert(q[a].id == r.workspaces[i].id && q[b].id == r.workspaces[j].id);
    }
    if i < r.environments.len() && j < r.environments.len() {
        environments_take_their_answers(r, answers, i);
        environments_take_their_answers(r, answers, j);
        let a = place(r, ModelKind::Environment, r.environments, environment_ids(), i);
        let b = place(r, ModelKind::Environment, r.environments, environment_ids(), j);
        assert(q[a].id == r.environments[i].id && q[b].id == r.environments[j].id);
    }
    if i < r.folders.len() && j < r.folders.len() {
        folders_take_their_answers(r, answers, i);
        folders_take_their_answers(r, answers, j);
        let a = place(r, ModelKind::Folder, r.folders, folder_ids(), i);
        let b = place(r, ModelKind::Folder, r.folders, folder_ids(), j);
        assert(q[a].id == r.folders[i].id && q[b].id == r.folders[j].id);
    }
    if i < r.http_requests.len() && j < r.http_requests.len() {
        http_requests_take_their_answers(r, answers, i);
        http_requests_take_their_answers(r, answers, j);
        let a = place(r, ModelKind::HttpRequest, r.http_requests, http_request_ids(), i);
        let b = place(r, ModelKind::HttpRequest, r.http_requests, http_request_ids(), j);
        assert(q[a].id == r.http_requests[i].id && q[b].id == r.http_requests[j].id);
    }
    if i < r.grpc_requests.len() && j < r.grpc_requests.len() {
        grpc_requests_take_their_answers(r, answers, i);
        grpc_requests_take_their_answers(r, answers, j);
        let a = place(r, ModelKind::GrpcRequest, r.grpc_requests, grpc_request_ids(), i);
        let b = place(r, ModelKind::GrpcRequest, r.grpc_requests, grpc_request_ids(), j);
        assert(q[a].id == r.grpc_requests[i].id && q[b].id == r.grpc_requests[j].id);
    }
    if i < r.websocket_requests.len() && j < r.websocket_requests.len() {
        websocket_requests_take_their_answers(r, answers, i);
        websocket_requests_take_their_answers(r, answers, j);
        let a = place(r, ModelKind::WebsocketRequest, r.websocket_requests, websocket_request_ids(), i);
        let b = place(r, ModelKind::WebsocketRequest, r.websocket_requests, websocket_request_ids(), j);
        assert(q[a].id == r.websocket_requests[i].id && q[b].id == r.websocket_requests[j].id);
    }
}

} // verus!
