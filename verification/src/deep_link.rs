//! Links that other programs open the application with. A link names a command; the command is
//! carried out step by step, and asks the user before anything is fetched.
use url::Url;
use vstd::prelude::*;

use crate::models::views;
use crate::text::{decimal, pairs_of, same, text_of, write_decimal};
use crate::toast::{bad_news, danger, good_news, success, Toast, ToastColor, ToastView};

verus! {

/// The domain that `url::Url` finds in the text of a URL.
pub uninterp spec fn url_domain(url: Seq<char>) -> Option<Seq<char>>;

/// The decoded pairs that `url::Url` finds in the query of a URL, in order.
pub uninterp spec fn url_query_pairs(url: Seq<char>) -> Seq<(Seq<char>, Seq<char>)>;

/// How `std` shows a text that may be absent, for a programmer.
pub uninterp spec fn debug_text(text: Option<Seq<char>>) -> Seq<char>;

/// `url::Url::domain` of the URL that a text holds: its host where that is a domain name. There
/// is none where the text is no URL, or where its host is missing or a number. What the domain of
/// a given text is, is left to the `url` crate: the contract says that the text alone decides it.
#[verifier::external_body]
fn domain_of(url: &str) -> (domain: Option<String>)
    ensures
        text_of(domain) == url_domain(url@),
{
    match Url::parse(url) {
        Ok(u) => u.domain().map(str::to_string),
        Err(_) => None,
    }
}

/// `url::Url::query_pairs` of the URL that a text holds: the names and values of its query, with
/// percent signs and plus signs decoded, in order. There are none where the text is no URL, or
/// where it has no query. What the pairs of a given text are, is left to the `url` crate: the
/// contract says that the text alone decides them.
#[verifier::external_body]
fn query_pairs_of(url: &str) -> (pairs: Vec<(String, String)>)
    ensures
        pairs_of(pairs@) == url_query_pairs(url@),
{
    match Url::parse(url) {
        Ok(u) => u.query_pairs().into_owned().collect(),
        Err(_) => Vec::new(),
    }
}

/// The `Debug` form that `std` gives an `Option<String>`. An absent text reads `None`. How a text
/// reads, between quotes and with some of its characters escaped, is left to `std`: the contract
/// says that the value alone decides it.
#[verifier::external_body]
fn debug_of(text: &Option<String>) -> (shown: String)
    ensures
        shown@ == debug_text(text_of(*text)),
        *text is None ==> shown@ == "None"@,
{
    format!("{text:?}")
}

/// The value that a query gives to a name: the last one where it gives several.
pub open spec fn value_of(query: Seq<(Seq<char>, Seq<char>)>, name: Seq<char>) -> Option<Seq<char>>
    decreases query.len(),
{
    if query.len() == 0 {
        None
    } else if query.last().0 == name {
        Some(query.last().1)
    } else {
        value_of(query.drop_last(), name)
    }
}

/// How far a link has been carried out: what is waited for.
#[derive(Debug)]
pub enum LinkState {
    /// Whether the user wants the plugin.
    AskedToInstall { name: String, version: Option<String> },
    /// The plugin.
    Installing { name: String },
    /// Whether the user wants the data from this place.
    AskedToImport { url: String },
    /// The file with the data.
    Downloading,
    /// The import of the file.
    Importing,
    /// The last note to be shown.
    Noting,
    /// Nothing.
    Done,
}

/// What a `LinkState` holds.
#[verifier::ext_equal]
pub enum LinkStateView {
    AskedToInstall { name: Seq<char>, version: Option<Seq<char>> },
    Installing { name: Seq<char> },
    AskedToImport { url: Seq<char> },
    Downloading,
    Importing,
    Noting,
    Done,
}

impl View for LinkState {
    type V = LinkStateView;

    open spec fn view(&self) -> LinkStateView {
        match self {
            LinkState::AskedToInstall { name, version } => LinkStateView::AskedToInstall {
                name: name@,
                version: text_of(*version),
            },
            LinkState::Installing { name } => LinkStateView::Installing { name: name@ },
            LinkState::AskedToImport { url } => LinkStateView::AskedToImport { url: url@ },
            LinkState::Downloading => LinkStateView::Downloading,
            LinkState::Importing => LinkStateView::Importing,
            LinkState::Noting => LinkStateView::Noting,
            LinkState::Done => LinkStateView::Done,
        }
    }
}

/// What came of an action.
#[derive(Debug)]
pub enum LinkInput {
    /// The user agreed, or did not.
    Answered { agreed: bool },
    /// The plugin is installed, in this version.
    Installed { version: String },
    /// The data is in this file.
    Downloaded { path: String },
    /// The data of so many workspaces is imported.
    Imported { workspaces: usize },
    /// The note is shown.
    Noted,
    /// The action failed.
    Failed { error: String },
}

/// What a `LinkInput` holds.
#[verifier::ext_equal]
pub enum LinkInputView {
    Answered { agreed: bool },
    Installed { version: Seq<char> },
    Downloaded { path: Seq<char> },
    Imported { workspaces: nat },
    Noted,
    Failed { error: Seq<char> },
}

impl View for LinkInput {
    type V = LinkInputView;

    open spec fn view(&self) -> LinkInputView {
        match self {
            LinkInput::Answered { agreed } => LinkInputView::Answered { agreed: *agreed },
            LinkInput::Installed { version } => LinkInputView::Installed { version: version@ },
            LinkInput::Downloaded { path } => LinkInputView::Downloaded { path: path@ },
            LinkInput::Imported { workspaces } => LinkInputView::Imported {
                workspaces: *workspaces as nat,
            },
            LinkInput::Noted => LinkInputView::Noted,
            LinkInput::Failed { error } => LinkInputView::Failed { error: error@ },
        }
    }
}

/// What is to be done next.
#[derive(Debug)]
pub enum LinkAction {
    /// Bring the window to the front.
    Focus,
    /// Ask the user, with one button to agree and one to refuse.
    Ask { message: String, agree: String, refuse: String },
    /// Fetch the plugin and install it.
    Install { name: String, version: Option<String> },
    /// Fetch the data into a file.
    Download { url: String },
    /// Import the file.
    Import { path: String },
    /// Show a note.
    Show(Toast),
    /// Log that the command is not known.
    Unknown { command: String },
    /// Hand on the error that came of the last action, which reads like this.
    HandOn { error: String },
}

/// What a `LinkAction` holds.
#[verifier::ext_equal]
pub enum LinkActionView {
    Focus,
    Ask { message: Seq<char>, agree: Seq<char>, refuse: Seq<char> },
    Install { name: Seq<char>, version: Option<Seq<char>> },
    Download { url: Seq<char> },
    Import { path: Seq<char> },
    Show(ToastView),
    Unknown { command: Seq<char> },
    HandOn { error: Seq<char> },
}

impl View for LinkAction {
    type V = LinkActionView;

    open spec fn view(&self) -> LinkActionView {
        match self {
            LinkAction::Focus => LinkActionView::Focus,
            LinkAction::Ask { message, agree, refuse } => LinkActionView::Ask {
                message: message@,
                agree: agree@,
                refuse: refuse@,
            },
            LinkAction::Install { name, version } => LinkActionView::Install {
                name: name@,
                version: text_of(*version),
            },
            LinkAction::Download { url } => LinkActionView::Download { url: url@ },
            LinkAction::Import { path } => LinkActionView::Import { path: path@ },
            LinkAction::Show(t) => LinkActionView::Show(t@),
            LinkAction::Unknown { command } => LinkActionView::Unknown { command: command@ },
            LinkAction::HandOn { error } => LinkActionView::HandOn { error: error@ },
        }
    }
}

/// How the version of a plugin reads in a question: as `std` shows it, which for a version that is
/// left open is `None`.
pub open spec fn shown_version(version: Option<Seq<char>>) -> Seq<char> {
    match version {
        Some(_) => debug_text(version),
        None => "None"@,
    }
}

/// The question whether to install a plugin; `shown` is how the version reads.
pub open spec fn install_question(name: Seq<char>, shown: Seq<char>) -> LinkActionView {
    LinkActionView::Ask {
        message: "Install plugin "@ + name + " "@ + shown + "?"@,
        agree: "Install"@,
        refuse: "Cancel"@,
    }
}

/// The question whether to import data from a place.
pub open spec fn import_question(name: Seq<char>, url: Seq<char>) -> LinkActionView {
    LinkActionView::Ask {
        message: "Import "@ + name + " from "@ + url + "?"@,
        agree: "Import"@,
        refuse: "Cancel"@,
    }
}

/// The name of the data in the question whether to import it.
pub open spec fn data_name(query: Seq<(Seq<char>, Seq<char>)>) -> Seq<char> {
    match value_of(query, "name"@) {
        Some(name) => name,
        None => "data"@,
    }
}

/// How a link begins, by its command and its query; `shown` is how the version of the query reads.
pub open spec fn begun(
    command: Seq<char>,
    query: Seq<(Seq<char>, Seq<char>)>,
    shown: Seq<char>,
) -> (LinkStateView, Seq<LinkActionView>) {
    if command == "install-plugin"@ {
        let name = value_of(query, "name"@)->0;
        (
            LinkStateView::AskedToInstall { name, version: value_of(query, "version"@) },
            seq![LinkActionView::Focus, install_question(name, shown)],
        )
    } else if command == "import-data"@ {
        match (value_of(query, "url"@), value_of(query, "path"@)) {
            (Some(url), _) => (
                LinkStateView::AskedToImport { url },
                seq![LinkActionView::Focus, import_question(data_name(query), url)],
            ),
            (None, Some(path)) => (
                LinkStateView::Importing,
                seq![LinkActionView::Focus, LinkActionView::Import { path }],
            ),
            (None, None) => (
                LinkStateView::Noting,
                seq![
                    LinkActionView::Focus,
                    LinkActionView::Show(bad_news("Failed to import data"@)),
                ],
            ),
        }
    } else {
        (LinkStateView::Done, seq![LinkActionView::Unknown { command }])
    }
}

/// Whether a command has what it cannot do without: a plugin is installed by its name.
pub open spec fn is_complete(command: Seq<char>, query: Seq<(Seq<char>, Seq<char>)>) -> bool {
    command == "install-plugin"@ ==> value_of(query, "name"@) is Some
}

/// The link after what came of an action, and what is to be done next. An action that failed ends
/// the link, and its error is handed on. An input that is not waited for changes nothing.
pub open spec fn link_after(s: LinkStateView, input: LinkInputView) -> (
    LinkStateView,
    Seq<LinkActionView>,
) {
    match (s, input) {
        (LinkStateView::Done, _) => (s, Seq::empty()),
        (_, LinkInputView::Failed { error }) => (
            LinkStateView::Done,
            seq![LinkActionView::HandOn { error }],
        ),
        (LinkStateView::AskedToInstall { name, version }, LinkInputView::Answered { agreed }) => {
            if agreed {
                (
                    LinkStateView::Installing { name },
                    seq![LinkActionView::Install { name, version }],
                )
            } else {
                (LinkStateView::Done, Seq::empty())
            }
        },
        (LinkStateView::Installing { name }, LinkInputView::Installed { version }) => (
            LinkStateView::Noting,
            seq![LinkActionView::Show(good_news("Installed "@ + name + "@"@ + version))],
        ),
        (LinkStateView::AskedToImport { url }, LinkInputView::Answered { agreed }) => if agreed {
            (LinkStateView::Downloading, seq![LinkActionView::Download { url }])
        } else {
            (LinkStateView::Done, Seq::empty())
        },
        (LinkStateView::Downloading, LinkInputView::Downloaded { path }) => (
            LinkStateView::Importing,
            seq![LinkActionView::Import { path }],
        ),
        (LinkStateView::Importing, LinkInputView::Imported { workspaces }) => (
            LinkStateView::Noting,
            seq![
                LinkActionView::Show(
                    good_news("Imported data for "@ + decimal(workspaces) + " workspaces"@),
                ),
            ],
        ),
        (LinkStateView::Noting, LinkInputView::Noted) => (LinkStateView::Done, Seq::empty()),
        _ => (s, Seq::empty()),
    }
}

/// The value that a query gives to a name: the last one where it gives several.
fn look_up(query: &Vec<(String, String)>, name: &str) -> (r: Option<String>)
    ensures
        text_of(r) == value_of(pairs_of(query@), name@),
{
    let ghost all = pairs_of(query@);
    let mut i: usize = query.len();
    assert(all.take(i as int) =~= all);
    while i > 0
        invariant
            i <= query.len(),
            all == pairs_of(query@),
            value_of(all, name@) == value_of(all.take(i as int), name@),
        decreases i,
    {
        assert(all.take(i as int).drop_last() =~= all.take(i - 1));
        i = i - 1;
        if same(query[i].0.as_str(), name) {
            return Some(query[i].1.clone());
        }
    }
    None
}

fn begin_install(query: &Vec<(String, String)>) -> (r: (LinkState, Vec<LinkAction>))
    requires
        value_of(pairs_of(query@), "name"@) is Some,
    ensures
        (r.0@, views(r.1@)) == begun(
            "install-plugin"@,
            pairs_of(query@),
            shown_version(value_of(pairs_of(query@), "version"@)),
        ),
{
    let name = look_up(query, "name").unwrap();
    let version = look_up(query, "version");
    let message = "Install plugin ".to_string().concat(name.as_str()).concat(" ").concat(
        debug_of(&version).as_str(),
    ).concat("?");
    let mut todo: Vec<LinkAction> = Vec::new();
    todo.push(LinkAction::Focus);
    todo.push(
        LinkAction::Ask { message, agree: "Install".to_string(), refuse: "Cancel".to_string() },
    );
    assert(views(todo@) =~= seq![
        LinkActionView::Focus,
        install_question(name@, shown_version(text_of(version))),
    ]);
    (LinkState::AskedToInstall { name, version }, todo)
}

fn begin_import(query: &Vec<(String, String)>) -> (r: (LinkState, Vec<LinkAction>))
    ensures
        forall|shown: Seq<char>|
            (r.0@, views(r.1@)) == #[trigger] begun("import-data"@, pairs_of(query@), shown),
{
    proof {
        reveal_strlit("import-data");
        reveal_strlit("install-plugin");
        assert("import-data"@.len() != "install-plugin"@.len());
    }
    let mut todo: Vec<LinkAction> = Vec::new();
    todo.push(LinkAction::Focus);
    let name = match look_up(query, "name") {
        Some(name) => name,
        None => "data".to_string(),
    };
    match (look_up(query, "url"), look_up(query, "path")) {
        (Some(url), _) => {
            let message = "Import ".to_string().concat(name.as_str()).concat(" from ").concat(
                url.as_str(),
            ).concat("?");
            todo.push(
                LinkAction::Ask {
                    message,
                    agree: "Import".to_string(),
                    refuse: "Cancel".to_string(),
                },
            );
            assert(views(todo@) =~= seq![
                LinkActionView::Focus,
                import_question(data_name(pairs_of(query@)), url@),
            ]);
            (LinkState::AskedToImport { url }, todo)
        },
        (None, Some(path)) => {
            let ghost chosen = path@;
            todo.push(LinkAction::Import { path });
            assert(views(todo@) =~= seq![
                LinkActionView::Focus,
                LinkActionView::Import { path: chosen },
            ]);
            (LinkState::Importing, todo)
        },
        (None, None) => {
            todo.push(LinkAction::Show(danger("Failed to import data".to_string())));
            assert(views(todo@) =~= seq![
                LinkActionView::Focus,
                LinkActionView::Show(bad_news("Failed to import data"@)),
            ]);
            (LinkState::Noting, todo)
        },
    }
}

/// Begins a command with the query of its link, and says what is to be done first.
pub fn begin_link(command: &str, query: &Vec<(String, String)>) -> (r: (LinkState, Vec<LinkAction>))
    requires
        is_complete(command@, pairs_of(query@)),
    ensures
        (r.0@, views(r.1@)) == begun(
            command@,
            pairs_of(query@),
            shown_version(value_of(pairs_of(query@), "version"@)),
        ),
{
    if same(command, "install-plugin") {
        begin_install(query)
    } else if same(command, "import-data") {
        begin_import(query)
    } else {
        let mut todo: Vec<LinkAction> = Vec::new();
        todo.push(LinkAction::Unknown { command: command.to_string() });
        assert(views(todo@) =~= seq![LinkActionView::Unknown { command: command@ }]);
        (LinkState::Done, todo)
    }
}

/// The command that a link names, which is empty where the link has no domain.
pub open spec fn command_of(url: Seq<char>) -> Seq<char> {
    match url_domain(url) {
        Some(domain) => domain,
        None => Seq::empty(),
    }
}

/// Begins the link that the text of a URL holds, and says what is to be done first. There is
/// nothing to begin where the link lacks what its command cannot do without.
pub fn handle_deep_link(url: &str) -> (r: Option<(LinkState, Vec<LinkAction>)>)
    ensures
        r is Some <==> is_complete(command_of(url@), url_query_pairs(url@)),
        r matches Some(p) ==> (p.0@, views(p.1@)) == begun(
            command_of(url@),
            url_query_pairs(url@),
            shown_version(value_of(url_query_pairs(url@), "version"@)),
        ),
{
    let command = match domain_of(url) {
        Some(domain) => domain,
        None => String::new(),
    };
    assert(command@ =~= command_of(url@));
    let query = query_pairs_of(url);
    if same(command.as_str(), "install-plugin") && look_up(&query, "name").is_none() {
        return None;
    }
    Some(begin_link(command.as_str(), &query))
}

fn one(action: LinkAction) -> (todo: Vec<LinkAction>)
    ensures
        views(todo@) == seq![action@],
{
    let mut todo: Vec<LinkAction> = Vec::new();
    todo.push(action);
    assert(views(todo@) =~= seq![action@]);
    todo
}

fn nothing() -> (todo: Vec<LinkAction>)
    ensures
        views(todo@) == Seq::<LinkActionView>::empty(),
{
    let todo: Vec<LinkAction> = Vec::new();
    assert(views(todo@) =~= Seq::empty());
    todo
}

impl LinkState {
    /// The link after what came of an action, and what is to be done next.
    pub fn step(self, input: LinkInput) -> (r: (LinkState, Vec<LinkAction>))
        ensures
            (r.0@, views(r.1@)) == link_after(self@, input@),
    {
        match (self, input) {
            (LinkState::Done, _) => (LinkState::Done, nothing()),
            (_, LinkInput::Failed { error }) => {
                (LinkState::Done, one(LinkAction::HandOn { error }))
            },
            (LinkState::AskedToInstall { name, version }, LinkInput::Answered { agreed }) => {
                if agreed {
                    let next = LinkState::Installing { name: name.clone() };
                    (next, one(LinkAction::Install { name, version }))
                } else {
                    (LinkState::Done, nothing())
                }
            },
            (LinkState::Installing { name }, LinkInput::Installed { version }) => {
                let message = "Installed ".to_string().concat(name.as_str()).concat("@").concat(
                    version.as_str(),
                );
                (LinkState::Noting, one(LinkAction::Show(success(message))))
            },
            (LinkState::AskedToImport { url }, LinkInput::Answered { agreed }) => {
                if agreed {
                    (LinkState::Downloading, one(LinkAction::Download { url }))
                } else {
                    (LinkState::Done, nothing())
                }
            },
            (LinkState::Downloading, LinkInput::Downloaded { path }) => {
                (LinkState::Importing, one(LinkAction::Import { path }))
            },
            (LinkState::Importing, LinkInput::Imported { workspaces }) => {
                let message = "Imported data for ".to_string().concat(
                    write_decimal(workspaces).as_str(),
                ).concat(" workspaces");
                (LinkState::Noting, one(LinkAction::Show(success(message))))
            },
            (LinkState::Noting, LinkInput::Noted) => (LinkState::Done, nothing()),
            (state, _) => (state, nothing()),
        }
    }
}

/// The note for a link whose error was handed on.
pub fn link_failure(error: &str) -> (t: Toast)
    ensures
        t@ == bad_news("Error handling deep link: "@ + error@),
{
    danger("Error handling deep link: ".to_string().concat(error))
}

/// The name of the file that data is fetched into, by a fresh id.
pub fn import_file_name(id: &str) -> (name: String)
    ensures
        name@ == "import-"@ + id@,
{
    "import-".to_string().concat(id)
}

/// The link after a series of inputs, and all that was to be done on the way.
pub open spec fn link_run(s: LinkStateView, inputs: Seq<LinkInputView>) -> (
    LinkStateView,
    Seq<LinkActionView>,
)
    decreases inputs.len(),
{
    if inputs.len() == 0 {
        (s, Seq::empty())
    } else {
        let first = link_after(s, inputs[0]);
        let rest = link_run(first.0, inputs.skip(1));
        (rest.0, first.1 + rest.1)
    }
}

/// Whether an action fetches something.
pub open spec fn fetches(a: LinkActionView) -> bool {
    a is Install || a is Download
}

/// No link fetches anything unless the user agreed: neither when it begins, nor at any point of
/// a course on which the user never agreed.
pub proof fn nothing_is_fetched_unasked(
    command: Seq<char>,
    query: Seq<(Seq<char>, Seq<char>)>,
    shown: Seq<char>,
    inputs: Seq<LinkInputView>,
)
    requires
        !inputs.contains(LinkInputView::Answered { agreed: true }),
    ensures
        forall|i: int|
            0 <= i < begun(command, query, shown).1.len() ==> !fetches(
                #[trigger] begun(command, query, shown).1[i],
            ),
        forall|i: int|
            0 <= i < link_run(begun(command, query, shown).0, inputs).1.len() ==> !fetches(
                #[trigger] link_run(begun(command, query, shown).0, inputs).1[i],
            ),
{
    lemma_nothing_fetched(begun(command, query, shown).0, inputs);
}

proof fn lemma_nothing_fetched(s: LinkStateView, inputs: Seq<LinkInputView>)
    requires
        !inputs.contains(LinkInputView::Answered { agreed: true }),
    ensures
        forall|i: int|
            0 <= i < link_run(s, inputs).1.len() ==> !fetches(#[trigger] link_run(s, inputs).1[i]),
    decreases inputs.len(),
{
    if inputs.len() > 0 {
        let first = link_after(s, inputs[0]);
        let yes = LinkInputView::Answered { agreed: true };
        assert(inputs.contains(inputs[0]));
        assert forall|i: int| 0 <= i < inputs.skip(1).len() implies inputs.skip(1)[i] != yes by {
            assert(inputs.contains(inputs[i + 1]));
        }
        assert(!inputs.skip(1).contains(yes));
        lemma_nothing_fetched(first.0, inputs.skip(1));
        let rest = link_run(first.0, inputs.skip(1)).1;
        assert forall|i: int| 0 <= i < link_run(s, inputs).1.len() implies !fetches(
            #[trigger] link_run(s, inputs).1[i],
        ) by {
            if i >= first.1.len() {
                assert(link_run(s, inputs).1[i] == rest[i - first.1.len()]);
            }
        }
    }
}

/// A link that is done does nothing more, whatever still arrives.
pub proof fn done_is_final(inputs: Seq<LinkInputView>)
    ensures
        link_run(LinkStateView::Done, inputs) == (LinkStateView::Done, Seq::<LinkActionView>::empty()),
    decreases inputs.len(),
{
    if inputs.len() > 0 {
        done_is_final(inputs.skip(1));
        assert(link_run(LinkStateView::Done, inputs).1 =~= Seq::<LinkActionView>::empty());
    }
}

/// A user who refuses ends the link: nothing follows, whatever still arrives.
pub proof fn refusal_ends_the_link(s: LinkStateView, later: Seq<LinkInputView>)
    requires
        s is AskedToInstall || s is AskedToImport,
    ensures
        link_run(s, seq![LinkInputView::Answered { agreed: false }] + later) == (
            LinkStateView::Done,
            Seq::<LinkActionView>::empty(),
        ),
{
    let inputs = seq![LinkInputView::Answered { agreed: false }] + later;
    assert(inputs.skip(1) =~= later);
    done_is_final(later);
    assert(link_run(s, inputs).1 =~= Seq::<LinkActionView>::empty());
}

/// An action that failed ends the link at whatever point it is: its error is handed on, no note of
/// success is shown, and nothing follows, whatever still arrives.
pub proof fn failure_ends_the_link(
    s: LinkStateView,
    error: Seq<char>,
    later: Seq<LinkInputView>,
)
    requires
        !(s is Done),
    ensures
        link_run(s, seq![LinkInputView::Failed { error }] + later) == (
            LinkStateView::Done,
            seq![LinkActionView::HandOn { error }],
        ),
{
    let inputs = seq![LinkInputView::Failed { error }] + later;
    assert(inputs.skip(1) =~= later);
    done_is_final(later);
    assert(link_run(s, inputs).1 =~= seq![LinkActionView::HandOn { error }]);
}

/// The plugin that is installed is the one that the user was asked about, in the version that
/// the link names, and the note names the version that came.
pub proof fn agreed_plugin_is_installed(
    query: Seq<(Seq<char>, Seq<char>)>,
    shown: Seq<char>,
    came: Seq<char>,
)
    requires
        value_of(query, "name"@) is Some,
    ensures
        ({
            let name = value_of(query, "name"@)->0;
            let start = begun("install-plugin"@, query, shown);
            &&& start.1 == seq![LinkActionView::Focus, install_question(name, shown)]
            &&& link_run(
                start.0,
                seq![
                    LinkInputView::Answered { agreed: true },
                    LinkInputView::Installed { version: came },
                ],
            ) == (
                LinkStateView::Noting,
                seq![
                    LinkActionView::Install { name, version: value_of(query, "version"@) },
                    LinkActionView::Show(good_news("Installed "@ + name + "@"@ + came)),
                ],
            )
        }),
{
    let name = value_of(query, "name"@)->0;
    let inputs = seq![
        LinkInputView::Answered { agreed: true },
        LinkInputView::Installed { version: came },
    ];
    let start = begun("install-plugin"@, query, shown);
    reveal_with_fuel(link_run, 3);
    assert(inputs.skip(1)[0] == inputs[1]);
    assert(inputs.skip(1).skip(1) =~= Seq::empty());
    assert(link_run(start.0, inputs).1 =~= seq![
        LinkActionView::Install { name, version: value_of(query, "version"@) },
        LinkActionView::Show(good_news("Installed "@ + name + "@"@ + came)),
    ]);
}

/// Data that the user agreed to is fetched from the place in the question, and what is imported
/// is the file that it was fetched into, also where the link names another file.
pub proof fn agreed_data_is_imported(
    query: Seq<(Seq<char>, Seq<char>)>,
    shown: Seq<char>,
    path: Seq<char>,
    workspaces: nat,
)
    requires
        value_of(query, "url"@) is Some,
    ensures
        ({
            let url = value_of(query, "url"@)->0;
            let start = begun("import-data"@, query, shown);
            &&& start.1 == seq![LinkActionView::Focus, import_question(data_name(query), url)]
            &&& link_run(
                start.0,
                seq![
                    LinkInputView::Answered { agreed: true },
                    LinkInputView::Downloaded { path },
                    LinkInputView::Imported { workspaces },
                ],
            ) == (
                LinkStateView::Noting,
                seq![
                    LinkActionView::Download { url },
                    LinkActionView::Import { path },
                    LinkActionView::Show(
                        good_news("Imported data for "@ + decimal(workspaces) + " workspaces"@),
                    ),
                ],
            )
        }),
{
    reveal_strlit("import-data");
    reveal_strlit("install-plugin");
    assert("import-data"@.len() != "install-plugin"@.len());
    let url = value_of(query, "url"@)->0;
    let inputs = seq![
        LinkInputView::Answered { agreed: true },
        LinkInputView::Downloaded { path },
        LinkInputView::Imported { workspaces },
    ];
    let start = begun("import-data"@, query, shown);
    reveal_with_fuel(link_run, 4);
    assert(inputs.skip(1)[0] == inputs[1]);
    assert(inputs.skip(1).skip(1)[0] == inputs[2]);
    assert(inputs.skip(1).skip(1).skip(1) =~= Seq::empty());
    assert(link_run(start.0, inputs).1 =~= seq![
        LinkActionView::Download { url },
        LinkActionView::Import { path },
        LinkActionView::Show(
            good_news("Imported data for "@ + decimal(workspaces) + " workspaces"@),
        ),
    ]);
}

/// The last pair with a name gives its value, whatever stands before it; a name that no pair has
/// has no value.
pub proof fn last_value_counts(query: Seq<(Seq<char>, Seq<char>)>, name: Seq<char>, at: int)
    requires
        -1 <= at < query.len(),
        forall|i: int| at < i < query.len() ==> (#[trigger] query[i]).0 != name,
    ensures
        at >= 0 && query[at].0 == name ==> value_of(query, name) == Some(query[at].1),
        at == -1 ==> value_of(query, name) is None,
    decreases query.len(),
{
    if query.len() > 0 && at < query.len() - 1 {
        let head = query.drop_last();
        assert(query[query.len() - 1].0 != name);
        assert forall|i: int| at < i < head.len() implies (#[trigger] head[i]).0 != name by {
            assert(head[i] == query[i]);
        }
        last_value_counts(head, name, at);
    }
}

/// A version that is left open reads `None`, any other as `std` shows it.
pub proof fn versions_read_as_they_are(version: Seq<char>)
    ensures
        shown_version(None) == "None"@,
        shown_version(Some(version)) == debug_text(Some(version)),
{
}

/// The command of a link is its domain, and empty without one.
pub proof fn command_is_the_domain(url: Seq<char>)
    ensures
        url_domain(url) matches Some(domain) ==> command_of(url) == domain,
        url_domain(url) is None ==> command_of(url).len() == 0,
{
}

/// A link to install a plugin comes to the front, asks for the plugin by name and version, and
/// once the user agrees installs that plugin in that version and says which version came.
pub proof fn course_of_an_installation(
    query: Seq<(Seq<char>, Seq<char>)>,
    name: Seq<char>,
    shown: Seq<char>,
    came: Seq<char>,
)
    requires
        value_of(query, "name"@) == Some(name),
    ensures
        begun("install-plugin"@, query, shown).1 == seq![
            LinkActionView::Focus,
            LinkActionView::Ask {
                message: "Install plugin "@ + name + " "@ + shown + "?"@,
                agree: "Install"@,
                refuse: "Cancel"@,
            },
        ],
        link_run(
            begun("install-plugin"@, query, shown).0,
            seq![
                LinkInputView::Answered { agreed: true },
                LinkInputView::Installed { version: came },
                LinkInputView::Noted,
            ],
        ) == (
            LinkStateView::Done,
            seq![
                LinkActionView::Install { name, version: value_of(query, "version"@) },
                LinkActionView::Show(
                    ToastView {
                        message: "Installed "@ + name + "@"@ + came,
                        color: ToastColor::Success,
                        timeout: Some(5000i32),
                    },
                ),
            ],
        ),
        is_complete("install-plugin"@, query),
{
    let inputs = seq![
        LinkInputView::Answered { agreed: true },
        LinkInputView::Installed { version: came },
        LinkInputView::Noted,
    ];
    reveal_with_fuel(link_run, 4);
    assert(inputs.skip(1)[0] == inputs[1]);
    assert(inputs.skip(1).skip(1)[0] == inputs[2]);
    assert(inputs.skip(1).skip(1).skip(1) =~= Seq::empty());
    assert(link_run(begun("install-plugin"@, query, shown).0, inputs).1 =~= seq![
        LinkActionView::Install { name, version: value_of(query, "version"@) },
        LinkActionView::Show(
            ToastView {
                message: "Installed "@ + name + "@"@ + came,
                color: ToastColor::Success,
                timeout: Some(5000i32),
            },
        ),
    ]);
}

/// The note of an import names the number of workspaces.
pub open spec fn import_note(workspaces: nat) -> LinkActionView {
    LinkActionView::Show(
        ToastView {
            message: "Imported data for "@ + decimal(workspaces) + " workspaces"@,
            color: ToastColor::Success,
            timeout: Some(5000i32),
        },
    )
}

/// A link to import from a place comes to the front, asks for the data by its name (`data` where
/// the link gives none) and place, and once the user agrees fetches that place and imports the file
/// that it went into; one with a file alone imports that file at once; one with neither says that
/// it failed.
pub proof fn course_of_an_import(
    query: Seq<(Seq<char>, Seq<char>)>,
    shown: Seq<char>,
    fetched: Seq<char>,
    workspaces: nat,
)
    ensures
        value_of(query, "url"@) matches Some(url) ==> {
            let start = begun("import-data"@, query, shown);
            let name = match value_of(query, "name"@) {
                Some(name) => name,
                None => "data"@,
            };
            &&& start.1 == seq![
                LinkActionView::Focus,
                LinkActionView::Ask {
                    message: "Import "@ + name + " from "@ + url + "?"@,
                    agree: "Import"@,
                    refuse: "Cancel"@,
                },
            ]
            &&& link_run(
                start.0,
                seq![
                    LinkInputView::Answered { agreed: true },
                    LinkInputView::Downloaded { path: fetched },
                    LinkInputView::Imported { workspaces },
                    LinkInputView::Noted,
                ],
            ) == (
                LinkStateView::Done,
                seq![
                    LinkActionView::Download { url },
                    LinkActionView::Import { path: fetched },
                    import_note(workspaces),
                ],
            )
        },
        value_of(query, "url"@) is None ==> (value_of(query, "path"@) matches Some(path) ==> {
            let start = begun("import-data"@, query, shown);
            &&& start.1 == seq![LinkActionView::Focus, LinkActionView::Import { path }]
            &&& link_run(
                start.0,
                seq![LinkInputView::Imported { workspaces }, LinkInputView::Noted],
            ) == (LinkStateView::Done, seq![import_note(workspaces)])
        }),
        value_of(query, "url"@) is None && value_of(query, "path"@) is None ==> {
            let start = begun("import-data"@, query, shown);
            &&& start.1 == seq![
                LinkActionView::Focus,
                LinkActionView::Show(
                    ToastView {
                        message: "Failed to import data"@,
                        color: ToastColor::Danger,
                        timeout: None,
                    },
                ),
            ]
            &&& link_run(start.0, seq![LinkInputView::Noted]) == (
                LinkStateView::Done,
                Seq::<LinkActionView>::empty(),
            )
        },
        is_complete("import-data"@, query),
{
    reveal_strlit("import-data");
    reveal_strlit("install-plugin");
    assert("import-data"@.len() != "install-plugin"@.len());
    reveal_with_fuel(link_run, 5);
    let start = begun("import-data"@, query, shown);
    let long = seq![
        LinkInputView::Answered { agreed: true },
        LinkInputView::Downloaded { path: fetched },
        LinkInputView::Imported { workspaces },
        LinkInputView::Noted,
    ];
    assert(long.skip(1)[0] == long[1]);
    assert(long.skip(1).skip(1)[0] == long[2]);
    assert(long.skip(1).skip(1).skip(1)[0] == long[3]);
    assert(long.skip(1).skip(1).skip(1).skip(1) =~= Seq::empty());
    let short = seq![LinkInputView::Imported { workspaces }, LinkInputView::Noted];
    assert(short.skip(1)[0] == short[1]);
    assert(short.skip(1).skip(1) =~= Seq::empty());
    let last = seq![LinkInputView::Noted];
    assert(last.skip(1) =~= Seq::empty());
    match value_of(query, "url"@) {
        Some(url) => {
            assert(link_run(start.0, long).1 =~= seq![
                LinkActionView::Download { url },
                LinkActionView::Import { path: fetched },
                import_note(workspaces),
            ]);
        },
        None => {
            if value_of(query, "path"@) is Some {
                assert(link_run(start.0, short).1 =~= seq![import_note(workspaces)]);
            } else {
                assert(link_run(start.0, last).1 =~= Seq::<LinkActionView>::empty());
            }
        },
    }
}

/// A link with any other command does nothing but say so.
pub proof fn other_commands_do_nothing(
    command: Seq<char>,
    query: Seq<(Seq<char>, Seq<char>)>,
    shown: Seq<char>,
)
    requires
        command != "install-plugin"@,
        command != "import-data"@,
    ensures
        begun(command, query, shown) == (
            LinkStateView::Done,
            seq![LinkActionView::Unknown { command }],
        ),
        is_complete(command, query),
{
}

/// Whether a link waits for an input: an answer while it asks, and the outcome of what it does.
pub open spec fn link_waits_for(s: LinkStateView, input: LinkInputView) -> bool {
    match s {
        LinkStateView::AskedToInstall { .. } => input is Answered || input is Failed,
        LinkStateView::AskedToImport { .. } => input is Answered || input is Failed,
        LinkStateView::Installing { .. } => input is Installed || input is Failed,
        LinkStateView::Downloading => input is Downloaded || input is Failed,
        LinkStateView::Importing => input is Imported || input is Failed,
        LinkStateView::Noting => input is Noted || input is Failed,
        LinkStateView::Done => false,
    }
}

/// What a link does not wait for changes nothing, so that no answer but the one to its question
/// counts.
pub proof fn link_keeps_waiting(s: LinkStateView, input: LinkInputView)
    requires
        !link_waits_for(s, input),
    ensures
        link_after(s, input) == (s, Seq::<LinkActionView>::empty()),
{
}

/// What links wait for, hear and do is seen with all that it holds.
pub proof fn link_parts_are_seen_whole(s: LinkState, i: LinkInput, a: LinkAction)
    ensures
        s matches LinkState::AskedToInstall { name, version } ==> s@
            == (LinkStateView::AskedToInstall { name: name@, version: text_of(version) }),
        s matches LinkState::Installing { name } ==> s@ == (LinkStateView::Installing {
            name: name@,
        }),
        s matches LinkState::AskedToImport { url } ==> s@ == (LinkStateView::AskedToImport {
            url: url@,
        }),
        i matches LinkInput::Answered { agreed } ==> i@ == (LinkInputView::Answered { agreed }),
        i matches LinkInput::Installed { version } ==> i@ == (LinkInputView::Installed {
            version: version@,
        }),
        i matches LinkInput::Downloaded { path } ==> i@ == (LinkInputView::Downloaded {
            path: path@,
        }),
        i matches LinkInput::Imported { workspaces } ==> i@ == (LinkInputView::Imported {
            workspaces: workspaces as nat,
        }),
        i matches LinkInput::Failed { error } ==> i@ == (LinkInputView::Failed { error: error@ }),
        a matches LinkAction::Ask { message, agree, refuse } ==> a@ == (LinkActionView::Ask {
            message: message@,
            agree: agree@,
            refuse: refuse@,
        }),
        a matches LinkAction::Install { name, version } ==> a@ == (LinkActionView::Install {
            name: name@,
            version: text_of(version),
        }),
        a matches LinkAction::Download { url } ==> a@ == (LinkActionView::Download { url: url@ }),
        a matches LinkAction::Import { path } ==> a@ == (LinkActionView::Import { path: path@ }),
        a matches LinkAction::Show(t) ==> a@ == LinkActionView::Show(t@),
        a matches LinkAction::Unknown { command } ==> a@ == (LinkActionView::Unknown {
            command: command@,
        }),
        a matches LinkAction::HandOn { error } ==> a@ == (LinkActionView::HandOn { error: error@ }),
        a is Focus <==> a@ is Focus,
{
}

} // verus!
