//! The records of a workspace, with the fields that the library reads or writes. What else a
//! record holds travels in `rest`, which nothing here looks into.
use vstd::prelude::*;

use crate::text::{copy_text, text_of};

verus! {

/// A workspace.
#[derive(Debug)]
pub struct Workspace {
    pub id: String,
    pub rest: String,
}

/// What a `Workspace` holds.
#[verifier::ext_equal]
pub struct WorkspaceView {
    pub id: Seq<char>,
    pub rest: Seq<char>,
}

impl View for Workspace {
    type V = WorkspaceView;

    open spec fn view(&self) -> WorkspaceView {
        WorkspaceView {
            id: self.id@,
            rest: self.rest@,
        }
    }
}

impl Clone for Workspace {
    fn clone(&self) -> (r: Self)
        ensures
            r == *self,
    {
        Workspace {
            id: self.id.clone(),
            rest: self.rest.clone(),
        }
    }
}

impl Default for Workspace {
    fn default() -> (r: Self)
        ensures
            r@ == (WorkspaceView {
                id: Seq::<char>::empty(),
                rest: Seq::<char>::empty(),
            }),
    {
        Workspace {
            id: String::new(),
            rest: String::new(),
        }
    }
}

/// An environment: variables of a workspace, or of the folder that it belongs to.
#[derive(Debug)]
pub struct Environment {
    pub id: String,
    pub workspace_id: String,
    pub parent_model: String,
    pub parent_id: Option<String>,
    pub rest: String,
}

/// What an `Environment` holds.
#[verifier::ext_equal]
pub struct EnvironmentView {
    pub id: Seq<char>,
    pub workspace_id: Seq<char>,
    pub parent_model: Seq<char>,
    pub parent_id: Option<Seq<char>>,
    pub rest: Seq<char>,
}

impl View for Environment {
    type V = EnvironmentView;

    open spec fn view(&self) -> EnvironmentView {
        EnvironmentView {
            id: self.id@,
            workspace_id: self.workspace_id@,
            parent_model: self.parent_model@,
            parent_id: text_of(self.parent_id),
            rest: self.rest@,
        }
    }
}

impl Clone for Environment {
    fn clone(&self) -> (r: Self)
        ensures
            r == *self,
    {
        Environment {
            id: self.id.clone(),
            workspace_id: self.workspace_id.clone(),
            parent_model: self.parent_model.clone(),
            parent_id: copy_text(&self.parent_id),
            rest: self.rest.clone(),
        }
    }
}

impl Default for Environment {
    fn default() -> (r: Self)
        ensures
            r@ == (EnvironmentView {
                id: Seq::<char>::empty(),
                workspace_id: Seq::<char>::empty(),
                parent_model: Seq::<char>::empty(),
                parent_id: None,
                rest: Seq::<char>::empty(),
            }),
    {
        Environment {
            id: String::new(),
            workspace_id: String::new(),
            parent_model: String::new(),
            parent_id: None,
            rest: String::new(),
        }
    }
}

/// A folder of requests; `folder_id` is the folder that it stands in.
#[derive(Debug)]
pub struct Folder {
    pub id: String,
    pub workspace_id: String,
    pub folder_id: Option<String>,
    pub name: String,
    pub rest: String,
}

/// What a `Folder` holds.
#[verifier::ext_equal]
pub struct FolderView {
    pub id: Seq<char>,
    pub workspace_id: Seq<char>,
    pub folder_id: Option<Seq<char>>,
    pub name: Seq<char>,
    pub rest: Seq<char>,
}

impl View for Folder {
    type V = FolderView;

    open spec fn view(&self) -> FolderView {
        FolderView {
            id: self.id@,
            workspace_id: self.workspace_id@,
            folder_id: text_of(self.folder_id),
            name: self.name@,
            rest: self.rest@,
        }
    }
}

impl Clone for Folder {
    fn clone(&self) -> (r: Self)
        ensures
            r == *self,
    {
        Folder {
            id: self.id.clone(),
            workspace_id: self.workspace_id.clone(),
            folder_id: copy_text(&self.folder_id),
            name: self.name.clone(),
            rest: self.rest.clone(),
        }
    }
}

impl Default for Folder {
    fn default() -> (r: Self)
        ensures
            r@ == (FolderView {
                id: Seq::<char>::empty(),
                workspace_id: Seq::<char>::empty(),
                folder_id: None,
                name: Seq::<char>::empty(),
                rest: Seq::<char>::empty(),
            }),
    {
        Folder {
            id: String::new(),
            workspace_id: String::new(),
            folder_id: None,
            name: String::new(),
            rest: String::new(),
        }
    }
}

/// An HTTP request; `folder_id` is the folder that it stands in.
#[derive(Debug)]
pub struct HttpRequest {
    pub id: String,
    pub workspace_id: String,
    pub folder_id: Option<String>,
    pub name: String,
    pub rest: String,
}

/// What a `HttpRequest` holds.
#[verifier::ext_equal]
pub struct HttpRequestView {
    pub id: Seq<char>,
    pub workspace_id: Seq<char>,
    pub folder_id: Option<Seq<char>>,
    pub name: Seq<char>,
    pub rest: Seq<char>,
}

impl View for HttpRequest {
    type V = HttpRequestView;

    open spec fn view(&self) -> HttpRequestView {
        HttpRequestView {
            id: self.id@,
            workspace_id: self.workspace_id@,
            folder_id: text_of(self.folder_id),
            name: self.name@,
            rest: self.rest@,
        }
    }
}

impl Clone for HttpRequest {
    fn clone(&self) -> (r: Self)
        ensures
            r == *self,
    {
        HttpRequest {
            id: self.id.clone(),
            workspace_id: self.workspace_id.clone(),
            folder_id: copy_text(&self.folder_id),
            name: self.name.clone(),
            rest: self.rest.clone(),
        }
    }
}

impl Default for HttpRequest {
    fn default() -> (r: Self)
        ensures
            r@ == (HttpRequestView {
                id: Seq::<char>::empty(),
                workspace_id: Seq::<char>::empty(),
                folder_id: None,
                name: Seq::<char>::empty(),
                rest: Seq::<char>::empty(),
            }),
    {
        HttpRequest {
            id: String::new(),
            workspace_id: String::new(),
            folder_id: None,
            name: String::new(),
            rest: String::new(),
        }
    }
}

/// A gRPC request; `folder_id` is the folder that it stands in.
#[derive(Debug)]
pub struct GrpcRequest {
    pub id: String,
    pub workspace_id: String,
    pub folder_id: Option<String>,
    pub name: String,
    pub url: String,
    pub service: Option<String>,
    pub method: Option<String>,
    pub message: String,
    pub rest: String,
}

/// What a `GrpcRequest` holds.
#[verifier::ext_equal]
pub struct GrpcRequestView {
    pub id: Seq<char>,
    pub workspace_id: Seq<char>,
    pub folder_id: Option<Seq<char>>,
    pub name: Seq<char>,
    pub url: Seq<char>,
    pub service: Option<Seq<char>>,
    pub method: Option<Seq<char>>,
    pub message: Seq<char>,
    pub rest: Seq<char>,
}

impl View for GrpcRequest {
    type V = GrpcRequestView;

    open spec fn view(&self) -> GrpcRequestView {
        GrpcRequestView {
            id: self.id@,
            workspace_id: self.workspace_id@,
            folder_id: text_of(self.folder_id),
            name: self.name@,
            url: self.url@,
            service: text_of(self.service),
            method: text_of(self.method),
            message: self.message@,
            rest: self.rest@,
        }
    }
}

impl Clone for GrpcRequest {
    fn clone(&self) -> (r: Self)
        ensures
            r == *self,
    {
        GrpcRequest {
            id: self.id.clone(),
            workspace_id: self.workspace_id.clone(),
            folder_id: copy_text(&self.folder_id),
            name: self.name.clone(),
            url: self.url.clone(),
            service: copy_text(&self.service),
            method: copy_text(&self.method),
            message: self.message.clone(),
            rest: self.rest.clone(),
        }
    }
}

impl Default for GrpcRequest {
    fn default() -> (r: Self)
        ensures
            r@ == (GrpcRequestView {
                id: Seq::<char>::empty(),
                workspace_id: Seq::<char>::empty(),
                folder_id: None,
                name: Seq::<char>::empty(),
                url: Seq::<char>::empty(),
                service: None,
                method: None,
                message: Seq::<char>::empty(),
                rest: Seq::<char>::empty(),
            }),
    {
        GrpcRequest {
            id: String::new(),
            workspace_id: String::new(),
            folder_id: None,
            name: String::new(),
            url: String::new(),
            service: None,
            method: None,
            message: String::new(),
            rest: String::new(),
        }
    }
}

/// A WebSocket request; `folder_id` is the folder that it stands in.
#[derive(Debug)]
pub struct WebsocketRequest {
    pub id: String,
    pub workspace_id: String,
    pub folder_id: Option<String>,
    pub rest: String,
}

/// What a `WebsocketRequest` holds.
#[verifier::ext_equal]
pub struct WebsocketRequestView {
    pub id: Seq<char>,
    pub workspace_id: Seq<char>,
    pub folder_id: Option<Seq<char>>,
    pub rest: Seq<char>,
}

impl View for WebsocketRequest {
    type V = WebsocketRequestView;

    open spec fn view(&self) -> WebsocketRequestView {
        WebsocketRequestView {
            id: self.id@,
            workspace_id: self.workspace_id@,
            folder_id: text_of(self.folder_id),
            rest: self.rest@,
        }
    }
}

impl Clone for WebsocketRequest {
    fn clone(&self) -> (r: Self)
        ensures
            r == *self,
    {
        WebsocketRequest {
            id: self.id.clone(),
            workspace_id: self.workspace_id.clone(),
            folder_id: copy_text(&self.folder_id),
            rest: self.rest.clone(),
        }
    }
}

impl Default for WebsocketRequest {
    fn default() -> (r: Self)
        ensures
            r@ == (WebsocketRequestView {
                id: Seq::<char>::empty(),
                workspace_id: Seq::<char>::empty(),
                folder_id: None,
                rest: Seq::<char>::empty(),
            }),
    {
        WebsocketRequest {
            id: String::new(),
            workspace_id: String::new(),
            folder_id: None,
            rest: String::new(),
        }
    }
}

/// A model that the library knows only by its id, with the text that describes it.
#[derive(Debug)]
pub struct OtherModel {
    pub id: String,
    pub debug: String,
}

/// Any of the models of a workspace.
#[derive(Debug)]
pub enum AnyModel {
    Folder(Folder),
    HttpRequest(HttpRequest),
    GrpcRequest(GrpcRequest),
    WebsocketRequest(WebsocketRequest),
    Workspace(Workspace),
    Other(OtherModel),
}

/// What an `AnyModel` holds.
#[verifier::ext_equal]
pub enum AnyModelView {
    Folder(FolderView),
    HttpRequest(HttpRequestView),
    GrpcRequest(GrpcRequestView),
    WebsocketRequest(WebsocketRequestView),
    Workspace(WorkspaceView),
    Other { id: Seq<char>, debug: Seq<char> },
}

impl View for AnyModel {
    type V = AnyModelView;

    open spec fn view(&self) -> AnyModelView {
        match self {
            AnyModel::Folder(m) => AnyModelView::Folder(m@),
            AnyModel::HttpRequest(m) => AnyModelView::HttpRequest(m@),
            AnyModel::GrpcRequest(m) => AnyModelView::GrpcRequest(m@),
            AnyModel::WebsocketRequest(m) => AnyModelView::WebsocketRequest(m@),
            AnyModel::Workspace(m) => AnyModelView::Workspace(m@),
            AnyModel::Other(m) => AnyModelView::Other { id: m.id@, debug: m.debug@ },
        }
    }
}

impl AnyModelView {
    /// The id of the model.
    pub open spec fn id(self) -> Seq<char> {
        match self {
            AnyModelView::Folder(m) => m.id,
            AnyModelView::HttpRequest(m) => m.id,
            AnyModelView::GrpcRequest(m) => m.id,
            AnyModelView::WebsocketRequest(m) => m.id,
            AnyModelView::Workspace(m) => m.id,
            AnyModelView::Other { id, .. } => id,
        }
    }
}

impl AnyModel {
    /// The id of the model.
    pub fn id(&self) -> (r: &str)
        ensures
            r@ == self@.id(),
    {
        match self {
            AnyModel::Folder(m) => m.id.as_str(),
            AnyModel::HttpRequest(m) => m.id.as_str(),
            AnyModel::GrpcRequest(m) => m.id.as_str(),
            AnyModel::WebsocketRequest(m) => m.id.as_str(),
            AnyModel::Workspace(m) => m.id.as_str(),
            AnyModel::Other(m) => m.id.as_str(),
        }
    }
}

/// The resources that an import brings, or that a workspace holds.
#[derive(Debug)]
pub struct ImportResources {
    pub workspaces: Vec<Workspace>,
    pub environments: Vec<Environment>,
    pub folders: Vec<Folder>,
    pub http_requests: Vec<HttpRequest>,
    pub grpc_requests: Vec<GrpcRequest>,
    pub websocket_requests: Vec<WebsocketRequest>,
}

/// What an `ImportResources` holds.
#[verifier::ext_equal]
pub struct ImportResourcesView {
    pub workspaces: Seq<WorkspaceView>,
    pub environments: Seq<EnvironmentView>,
    pub folders: Seq<FolderView>,
    pub http_requests: Seq<HttpRequestView>,
    pub grpc_requests: Seq<GrpcRequestView>,
    pub websocket_requests: Seq<WebsocketRequestView>,
}

/// What the records of a list hold, in order.
pub open spec fn views<T: View>(v: Seq<T>) -> Seq<T::V> {
    v.map_values(|x: T| x@)
}

impl View for ImportResources {
    type V = ImportResourcesView;

    open spec fn view(&self) -> ImportResourcesView {
        ImportResourcesView {
            workspaces: views(self.workspaces@),
            environments: views(self.environments@),
            folders: views(self.folders@),
            http_requests: views(self.http_requests@),
            grpc_requests: views(self.grpc_requests@),
            websocket_requests: views(self.websocket_requests@),
        }
    }
}

/// No resources at all.
pub open spec fn no_resources() -> ImportResourcesView {
    ImportResourcesView {
        workspaces: Seq::empty(),
        environments: Seq::empty(),
        folders: Seq::empty(),
        http_requests: Seq::empty(),
        grpc_requests: Seq::empty(),
        websocket_requests: Seq::empty(),
    }
}

impl Default for ImportResources {
    fn default() -> (r: Self)
        ensures
            r@ == no_resources(),
    {
        let r = ImportResources {
            workspaces: Vec::new(),
            environments: Vec::new(),
            folders: Vec::new(),
            http_requests: Vec::new(),
            grpc_requests: Vec::new(),
            websocket_requests: Vec::new(),
        };
        assert(r@ =~= no_resources());
        r
    }
}

/// Lists are seen record by record, none left out and none moved.
pub proof fn records_are_seen_one_by_one<T: View>(list: Seq<T>)
    ensures
        views(list).len() == list.len(),
        forall|i: int| 0 <= i < list.len() ==> #[trigger] views(list)[i] == list[i]@,
{
}

/// Records are seen with all that they hold.
pub proof fn records_are_seen_whole(
    w: Workspace,
    e: Environment,
    f: Folder,
    h: HttpRequest,
    g: GrpcRequest,
    s: WebsocketRequest,
)
    ensures
        w@.id == w.id@ && w@.rest == w.rest@,
        e@.id == e.id@ && e@.workspace_id == e.workspace_id@,
        e@.parent_model == e.parent_model@ && e@.parent_id == text_of(e.parent_id),
        e@.rest == e.rest@,
        f@.id == f.id@ && f@.workspace_id == f.workspace_id@,
        f@.folder_id == text_of(f.folder_id) && f@.name == f.name@ && f@.rest == f.rest@,
        h@.id == h.id@ && h@.workspace_id == h.workspace_id@,
        h@.folder_id == text_of(h.folder_id) && h@.name == h.name@ && h@.rest == h.rest@,
        g@.id == g.id@ && g@.workspace_id == g.workspace_id@,
        g@.folder_id == text_of(g.folder_id) && g@.name == g.name@ && g@.url == g.url@,
        g@.service == text_of(g.service) && g@.method == text_of(g.method),
        g@.message == g.message@ && g@.rest == g.rest@,
        s@.id == s.id@ && s@.workspace_id == s.workspace_id@,
        s@.folder_id == text_of(s.folder_id) && s@.rest == s.rest@,
{
}

/// Models are seen as what they are, with all that they hold, and have the id of the record that
/// they are.
pub proof fn models_are_seen_whole(m: AnyModel)
    ensures
        m matches AnyModel::Folder(x) ==> m@ == AnyModelView::Folder(x@) && m@.id() == x.id@,
        m matches AnyModel::HttpRequest(x) ==> m@ == AnyModelView::HttpRequest(x@) && m@.id()
            == x.id@,
        m matches AnyModel::GrpcRequest(x) ==> m@ == AnyModelView::GrpcRequest(x@) && m@.id()
            == x.id@,
        m matches AnyModel::WebsocketRequest(x) ==> m@ == AnyModelView::WebsocketRequest(x@)
            && m@.id() == x.id@,
        m matches AnyModel::Workspace(x) ==> m@ == AnyModelView::Workspace(x@) && m@.id() == x.id@,
        m matches AnyModel::Other(x) ==> m@ == (AnyModelView::Other {
            id: x.id@,
            debug: x.debug@,
        }) && m@.id() == x.id@,
{
}

/// Resources are seen list by list, and no resources are empty lists.
pub proof fn resources_are_seen_whole(r: ImportResources)
    ensures
        r@.workspaces == views(r.workspaces@),
        r@.environments == views(r.environments@),
        r@.folders == views(r.folders@),
        r@.http_requests == views(r.http_requests@),
        r@.grpc_requests == views(r.grpc_requests@),
        r@.websocket_requests == views(r.websocket_requests@),
        no_resources().workspaces.len() == 0,
        no_resources().environments.len() == 0,
        no_resources().folders.len() == 0,
        no_resources().http_requests.len() == 0,
        no_resources().grpc_requests.len() == 0,
        no_resources().websocket_requests.len() == 0,
{
}

} // verus!
