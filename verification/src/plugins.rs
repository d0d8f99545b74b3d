//! What the application decides when it works with plugins.
use vstd::prelude::*;

use crate::error::{generic_error, GenericError};
use crate::models::{
    AnyModel, AnyModelView, FolderView, GrpcRequest, GrpcRequestView, HttpRequestView,
    WebsocketRequestView, WorkspaceView,
};
use crate::text::{copy_text, text_of};
use crate::toast::{Toast, ToastColor, ToastView};

verus! {

/// What a plugin is asked to do for a model.
#[derive(Debug, Clone, Copy, PartialEq, Eq, Structural)]
pub enum PluginTask {
    /// Show the settings of a template function.
    TemplateFunctions,
    /// Show the settings of an authentication.
    AuthConfig,
    /// Carry out an action of an authentication.
    Auth,
}

/// Where the environments of a model are looked for.
#[derive(Debug)]
pub struct ModelScope {
    pub workspace_id: String,
    pub folder_id: Option<String>,
}

/// What a `ModelScope` holds.
#[verifier::ext_equal]
pub struct ModelScopeView {
    pub workspace_id: Seq<char>,
    pub folder_id: Option<Seq<char>>,
}

impl View for ModelScope {
    type V = ModelScopeView;

    open spec fn view(&self) -> ModelScopeView {
        ModelScopeView { workspace_id: self.workspace_id@, folder_id: text_of(self.folder_id) }
    }
}

/// Where the environments of a model are looked for: in its workspace and folder, or in the
/// workspace that it is. Other models have no environments.
pub open spec fn scope_of(model: AnyModelView) -> Option<ModelScopeView> {
    match model {
        AnyModelView::HttpRequest(m) => Some(
            ModelScopeView { workspace_id: m.workspace_id, folder_id: m.folder_id },
        ),
        AnyModelView::GrpcRequest(m) => Some(
            ModelScopeView { workspace_id: m.workspace_id, folder_id: m.folder_id },
        ),
        AnyModelView::WebsocketRequest(m) => Some(
            ModelScopeView { workspace_id: m.workspace_id, folder_id: m.folder_id },
        ),
        AnyModelView::Folder(m) => Some(
            ModelScopeView { workspace_id: m.workspace_id, folder_id: m.folder_id },
        ),
        AnyModelView::Workspace(m) => Some(
            ModelScopeView { workspace_id: m.id, folder_id: None },
        ),
        AnyModelView::Other { .. } => None,
    }
}

/// What is said of a model that a task cannot be done for, before the model itself.
pub open spec fn complaint(task: PluginTask) -> Seq<char> {
    match task {
        PluginTask::TemplateFunctions => "Unsupported model to call template functions "@,
        PluginTask::AuthConfig => "Unsupported model to call auth config "@,
        PluginTask::Auth => "Unsupported model to call auth "@,
    }
}

/// Where the environments of a model are looked for when a plugin works on it.
pub fn model_scope(model: &AnyModel, task: PluginTask) -> (r: Result<ModelScope, GenericError>)
    ensures
        match r {
            Ok(s) => scope_of(model@) == Some(s@),
            Err(e) => {
                &&& model@ matches AnyModelView::Other { debug, .. } && e@ == complaint(task)
                    + debug
            },
        },
{
    let (workspace_id, folder_id) = match model {
        AnyModel::HttpRequest(m) => (m.workspace_id.clone(), copy_text(&m.folder_id)),
        AnyModel::GrpcRequest(m) => (m.workspace_id.clone(), copy_text(&m.folder_id)),
        AnyModel::WebsocketRequest(m) => (m.workspace_id.clone(), copy_text(&m.folder_id)),
        AnyModel::Folder(m) => (m.workspace_id.clone(), copy_text(&m.folder_id)),
        AnyModel::Workspace(m) => (m.id.clone(), None),
        AnyModel::Other(m) => {
            let complaint = match task {
                PluginTask::TemplateFunctions => "Unsupported model to call template functions ",
                PluginTask::AuthConfig => "Unsupported model to call auth config ",
                PluginTask::Auth => "Unsupported model to call auth ",
            };
            return Err(GenericError(complaint.to_string().concat(m.debug.as_str())));
        },
    };
    Ok(ModelScope { workspace_id, folder_id })
}

/// What plugins answered, without the plugins that did.
pub fn answers_only<P, A>(answers: Vec<(P, A)>) -> (r: Vec<A>)
    ensures
        r@ == answers@.map_values(|p: (P, A)| p.1),
{
    let ghost all = answers@.map_values(|p: (P, A)| p.1);
    let mut r: Vec<A> = Vec::new();
    for p in it: answers
        invariant
            it.seq() == answers@,
            all == answers@.map_values(|p: (P, A)| p.1),
            r@ =~= all.take(it.index() as int),
    {
        r.push(p.1);
    }
    assert(r@ =~= all);
    r
}

/// The plugin that was found, for those who want to know of it.
pub fn known_plugin<P>(found: Option<P>) -> (r: Result<P, GenericError>)
    ensures
        match r {
            Ok(p) => found == Some(p),
            Err(e) => found is None && e@ == "Failed to find plugin for info"@,
        },
{
    match found {
        Some(p) => Ok(p),
        None => Err(generic_error("Failed to find plugin for info")),
    }
}

/// A plugin as it is stored when it is installed: its directory, and where it came from.
#[derive(Debug)]
pub struct Plugin {
    pub id: String,
    pub directory: String,
    pub url: Option<String>,
}

/// What a `Plugin` holds.
#[verifier::ext_equal]
pub struct PluginView {
    pub id: Seq<char>,
    pub directory: Seq<char>,
    pub url: Option<Seq<char>>,
}

impl View for Plugin {
    type V = PluginView;

    open spec fn view(&self) -> PluginView {
        PluginView { id: self.id@, directory: self.directory@, url: text_of(self.url) }
    }
}

/// The record of a plugin that has just been installed; it has no id yet.
pub fn installed_plugin(directory: &str, url: Option<String>) -> (p: Plugin)
    ensures
        p@ == (PluginView { id: Seq::empty(), directory: directory@, url: text_of(url) }),
{
    Plugin { id: String::new(), directory: directory.to_string(), url }
}

/// The record of a gRPC request that has just been made; it has no id yet.
pub fn new_grpc_request(
    workspace_id: &str,
    name: &str,
    folder_id: Option<String>,
) -> (r: GrpcRequest)
    ensures
        r@ == (GrpcRequestView {
            id: Seq::empty(),
            workspace_id: workspace_id@,
            folder_id: text_of(folder_id),
            name: name@,
            url: Seq::empty(),
            service: None,
            method: None,
            message: Seq::empty(),
            rest: Seq::empty(),
        }),
{
    GrpcRequest {
        workspace_id: workspace_id.to_string(),
        name: name.to_string(),
        folder_id,
        ..GrpcRequest::default()
    }
}

/// How long the note of a failed plugin event stays, in milliseconds.
pub const PLUGIN_FAILURE_MILLIS: i32 = 30000;

/// What is to be done with an event of a plugin.
#[derive(Debug)]
pub enum PluginReaction<E> {
    /// Log that the plugin is gone.
    Unowned,
    /// Send the plugin this answer.
    Reply(E),
    /// Nothing.
    Silence,
    /// Show a note.
    Show(Toast),
}

/// The note for an event of a plugin that could not be handled.
pub open spec fn plugin_failure(error: Seq<char>) -> ToastView {
    ToastView { message: error, color: ToastColor::Danger, timeout: Some(PLUGIN_FAILURE_MILLIS) }
}

/// What is to be done with an event of a plugin: nothing came of it where its plugin is gone.
pub fn plugin_reaction<E>(handled: Option<Result<Option<E>, String>>) -> (r: PluginReaction<E>)
    ensures
        match handled {
            None => r is Unowned,
            Some(Ok(Some(answer))) => r == PluginReaction::Reply(answer),
            Some(Ok(None)) => r is Silence,
            Some(Err(error)) => r matches PluginReaction::Show(t) && t@ == plugin_failure(error@),
        },
{
    match handled {
        None => PluginReaction::Unowned,
        Some(Ok(Some(answer))) => PluginReaction::Reply(answer),
        Some(Ok(None)) => PluginReaction::Silence,
        Some(Err(error)) => PluginReaction::Show(
            Toast {
                message: error,
                color: ToastColor::Danger,
                timeout: Some(PLUGIN_FAILURE_MILLIS),
            },
        ),
    }
}

/// Every request and every folder is looked after in its own workspace and folder, and a workspace
/// in itself; no other model is.
pub proof fn models_are_looked_after_at_home(
    http: HttpRequestView,
    grpc: GrpcRequestView,
    websocket: WebsocketRequestView,
    folder: FolderView,
    workspace: WorkspaceView,
    id: Seq<char>,
    debug: Seq<char>,
)
    ensures
        scope_of(AnyModelView::HttpRequest(http)) matches Some(s) && s.workspace_id
            == http.workspace_id && s.folder_id == http.folder_id,
        scope_of(AnyModelView::GrpcRequest(grpc)) matches Some(s) && s.workspace_id
            == grpc.workspace_id && s.folder_id == grpc.folder_id,
        scope_of(AnyModelView::WebsocketRequest(websocket)) matches Some(s) && s.workspace_id
            == websocket.workspace_id && s.folder_id == websocket.folder_id,
        scope_of(AnyModelView::Folder(folder)) matches Some(s) && s.workspace_id
            == folder.workspace_id && s.folder_id == folder.folder_id,
        scope_of(AnyModelView::Workspace(workspace)) matches Some(s) && s.workspace_id
            == workspace.id && s.folder_id is None,
        scope_of(AnyModelView::Other { id, debug }) is None,
{
}

/// Each task complains in its own words of a model that it cannot be done for.
pub proof fn complaints_name_the_task()
    ensures
        complaint(PluginTask::TemplateFunctions)
            == "Unsupported model to call template functions "@,
        complaint(PluginTask::AuthConfig) == "Unsupported model to call auth config "@,
        complaint(PluginTask::Auth) == "Unsupported model to call auth "@,
{
}

/// The note of a failed plugin event is the error itself, in red, for half a minute.
pub proof fn plugin_failures_are_shown(error: Seq<char>)
    ensures
        plugin_failure(error).message == error,
        plugin_failure(error).color == ToastColor::Danger,
        plugin_failure(error).timeout == Some(30000i32),
{
}

/// Scopes and plugins are seen with all that they hold.
pub proof fn plugin_records_are_seen_whole(s: ModelScope, p: Plugin)
    ensures
        s@.workspace_id == s.workspace_id@,
        s@.folder_id == text_of(s.folder_id),
        p@.id == p.id@,
        p@.directory == p.directory@,
        p@.url == text_of(p.url),
{
}

} // verus!
