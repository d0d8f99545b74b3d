//! Which window a request is for, and what the application does on the events of its windows.
use vstd::prelude::*;

use crate::error::{generic_error, GenericError};
use crate::models::views;
use crate::text::{same, texts_of};

verus! {

/// The place of the first window with a label, or the number of windows where none has it.
pub open spec fn place_of(labels: Seq<Seq<char>>, label: Seq<char>) -> int
    decreases labels.len(),
{
    if labels.len() == 0 || labels[0] == label {
        0
    } else {
        1 + place_of(labels.skip(1), label)
    }
}

/// The place among the open windows of the one that a plugin speaks for: the first window where
/// it names no label, else the first with that label.
pub fn get_window_from_window_context(labels: &Vec<String>, context: &Option<String>) -> (r: Result<
    usize,
    GenericError,
>)
    ensures
        match *context {
            None => match r {
                Ok(i) => i == 0 && labels.len() > 0,
                Err(e) => labels.len() == 0 && e@ == "No windows open"@,
            },
            Some(label) => match r {
                Ok(i) => i == place_of(texts_of(labels@), label@) && i < labels.len(),
                Err(e) => {
                    &&& place_of(texts_of(labels@), label@) == labels.len()
                    &&& e@ == "Failed to find window for "@ + label@
                },
            },
        },
{
    let label = match context {
        Some(label) => label,
        None => {
            return if labels.len() == 0 {
                Err(generic_error("No windows open"))
            } else {
                Ok(0)
            };
        },
    };
    let ghost all = texts_of(labels@);
    let mut i: usize = 0;
    assert(all.skip(0) =~= all);
    while i < labels.len()
        invariant
            i <= labels.len(),
            *context == Some(*label),
            all == texts_of(labels@),
            place_of(all, label@) == i + place_of(all.skip(i as int), label@),
        decreases labels.len() - i,
    {
        if same(labels[i].as_str(), label.as_str()) {
            return Ok(i);
        }
        assert(all.skip(i as int).skip(1) =~= all.skip(i + 1));
        i = i + 1;
    }
    Err(GenericError("Failed to find window for ".to_string().concat(label.as_str())))
}

/// The window that is found has the label, and no window before it has.
pub proof fn first_window_with_the_label(labels: Seq<Seq<char>>, label: Seq<char>)
    ensures
        0 <= place_of(labels, label) <= labels.len(),
        place_of(labels, label) < labels.len() ==> labels[place_of(labels, label)] == label,
        forall|i: int| 0 <= i < place_of(labels, label) ==> #[trigger] labels[i] != label,
        labels.contains(label) ==> place_of(labels, label) < labels.len(),
    decreases labels.len(),
{
    if labels.len() > 0 && labels[0] != label {
        let rest = labels.skip(1);
        first_window_with_the_label(rest, label);
        assert forall|i: int| 0 <= i < place_of(labels, label) implies #[trigger] labels[i]
            != label by {
            if i > 0 {
                assert(rest[i - 1] == labels[i]);
            }
        }
        if labels.contains(label) {
            let i = labels.index_of(label);
            assert(rest[i - 1] == label);
        }
    }
}

/// What happens to the application and its windows.
#[derive(Debug, Clone, Copy, PartialEq, Eq, Structural)]
pub enum AppEvent {
    /// The application has started.
    Ready,
    /// A window came to the front.
    Focused,
    /// A window is about to close.
    CloseRequested,
    /// Anything else.
    Other,
}

/// What the application does.
#[derive(Debug)]
pub enum AppAction {
    /// Open the main window at a page.
    CreateMainWindow { page: String },
    /// Take note of the launch.
    RecordLaunch,
    /// Cancel the HTTP responses, gRPC connections and websocket connections that an earlier run
    /// left open.
    CancelPending,
    /// Read the settings, and look for an update as they say.
    ConsiderUpdate,
    /// Look for notifications after so many milliseconds.
    CheckNotifications { after_millis: u64 },
    /// Save where the windows stand.
    SaveWindowState,
}

/// What an `AppAction` holds.
#[verifier::ext_equal]
pub enum AppActionView {
    CreateMainWindow { page: Seq<char> },
    RecordLaunch,
    CancelPending,
    ConsiderUpdate,
    CheckNotifications { after_millis: u64 },
    SaveWindowState,
}

impl View for AppAction {
    type V = AppActionView;

    open spec fn view(&self) -> AppActionView {
        match self {
            AppAction::CreateMainWindow { page } => AppActionView::CreateMainWindow { page: page@ },
            AppAction::RecordLaunch => AppActionView::RecordLaunch,
            AppAction::CancelPending => AppActionView::CancelPending,
            AppAction::ConsiderUpdate => AppActionView::ConsiderUpdate,
            AppAction::CheckNotifications { after_millis } => AppActionView::CheckNotifications {
                after_millis: *after_millis,
            },
            AppAction::SaveWindowState => AppActionView::SaveWindowState,
        }
    }
}

/// How long the application waits before it looks for an update, in milliseconds.
pub const UPDATE_DELAY_MILLIS: u64 = 3000;

/// How long the application waits before it looks for notifications, in milliseconds.
pub const NOTIFICATION_DELAY_MILLIS: u64 = 4000;

/// What the application does on an event; `updater` is whether it can update itself.
pub open spec fn reaction(event: AppEvent, updater: bool) -> Seq<AppActionView> {
    match event {
        AppEvent::Ready => seq![
            AppActionView::CreateMainWindow { page: "/"@ },
            AppActionView::RecordLaunch,
            AppActionView::CancelPending,
        ],
        AppEvent::Focused => {
            let notes = seq![
                AppActionView::CheckNotifications { after_millis: NOTIFICATION_DELAY_MILLIS },
            ];
            if updater {
                seq![AppActionView::ConsiderUpdate] + notes
            } else {
                notes
            }
        },
        AppEvent::CloseRequested => seq![AppActionView::SaveWindowState],
        AppEvent::Other => Seq::empty(),
    }
}

/// What the application does on an event; `updater` is whether it can update itself.
pub fn react(event: AppEvent, updater: bool) -> (r: Vec<AppAction>)
    ensures
        views(r@) == reaction(event, updater),
{
    let mut r: Vec<AppAction> = Vec::new();
    match event {
        AppEvent::Ready => {
            r.push(AppAction::CreateMainWindow { page: "/".to_string() });
            r.push(AppAction::RecordLaunch);
            r.push(AppAction::CancelPending);
        },
        AppEvent::Focused => {
            if updater {
                r.push(AppAction::ConsiderUpdate);
            }
            r.push(AppAction::CheckNotifications { after_millis: NOTIFICATION_DELAY_MILLIS });
        },
        AppEvent::CloseRequested => {
            r.push(AppAction::SaveWindowState);
        },
        AppEvent::Other => {},
    }
    assert(views(r@) =~= reaction(event, updater));
    r
}

/// How long to wait before looking for an update, in milliseconds; none is looked for where the
/// settings do not ask for it.
pub fn update_delay(autoupdate: bool) -> (r: Option<u64>)
    ensures
        r == (if autoupdate {
            Some(UPDATE_DELAY_MILLIS)
        } else {
            None
        }),
{
    if autoupdate {
        Some(UPDATE_DELAY_MILLIS)
    } else {
        None
    }
}

/// When the application starts it opens the main page, takes note of the launch and cancels what
/// an earlier run left open; when a window closes it saves where the windows stand; a window that
/// comes to the front has notifications looked for after four seconds, behind an update where the
/// application can update itself; on anything else nothing is done.
pub proof fn reactions_to_events(updater: bool)
    ensures
        reaction(AppEvent::Ready, updater).len() == 3,
        reaction(AppEvent::Ready, updater)[0] == (AppActionView::CreateMainWindow { page: "/"@ }),
        reaction(AppEvent::Ready, updater)[1] is RecordLaunch,
        reaction(AppEvent::Ready, updater)[2] is CancelPending,
        reaction(AppEvent::Focused, updater).len() == if updater {
            2int
        } else {
            1int
        },
        updater ==> reaction(AppEvent::Focused, updater)[0] is ConsiderUpdate,
        reaction(AppEvent::Focused, updater).last() == (AppActionView::CheckNotifications {
            after_millis: 4000u64,
        }),
        reaction(AppEvent::CloseRequested, updater).len() == 1,
        reaction(AppEvent::CloseRequested, updater)[0] is SaveWindowState,
        reaction(AppEvent::Other, updater).len() == 0,
        UPDATE_DELAY_MILLIS == 3000,
{
}

} // verus!
