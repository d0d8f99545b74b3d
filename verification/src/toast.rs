//! Short notes that are shown to the user.
use vstd::prelude::*;

verus! {

/// The colour of a toast.
#[derive(Debug, Clone, Copy, PartialEq, Eq, Structural)]
pub enum ToastColor {
    Success,
    Danger,
}

/// A note that is shown to the user: for `timeout` milliseconds, or until it is dismissed.
#[derive(Debug)]
pub struct Toast {
    pub message: String,
    pub color: ToastColor,
    pub timeout: Option<i32>,
}

/// What a `Toast` holds.
#[verifier::ext_equal]
pub struct ToastView {
    pub message: Seq<char>,
    pub color: ToastColor,
    pub timeout: Option<i32>,
}

impl View for Toast {
    type V = ToastView;

    open spec fn view(&self) -> ToastView {
        ToastView { message: self.message@, color: self.color, timeout: self.timeout }
    }
}

/// How long good news stays, in milliseconds.
pub const GOOD_NEWS_MILLIS: i32 = 5000;

/// A note that something went well.
pub open spec fn good_news(message: Seq<char>) -> ToastView {
    ToastView { message, color: ToastColor::Success, timeout: Some(GOOD_NEWS_MILLIS) }
}

/// A note that something went wrong, which stays until it is dismissed.
pub open spec fn bad_news(message: Seq<char>) -> ToastView {
    ToastView { message, color: ToastColor::Danger, timeout: None }
}

/// A note that something went well.
pub(crate) fn success(message: String) -> (t: Toast)
    ensures
        t@ == good_news(message@),
{
    Toast { message, color: ToastColor::Success, timeout: Some(GOOD_NEWS_MILLIS) }
}

/// A note that something went wrong.
pub(crate) fn danger(message: String) -> (t: Toast)
    ensures
        t@ == bad_news(message@),
{
    Toast { message, color: ToastColor::Danger, timeout: None }
}

/// Notes say what they are given; good ones are green and go after five seconds, bad ones are red
/// and stay.
pub proof fn notes_say_what_they_are_given(message: Seq<char>)
    ensures
        good_news(message).message == message,
        good_news(message).color == ToastColor::Success,
        good_news(message).timeout == Some(5000i32),
        bad_news(message).message == message,
        bad_news(message).color == ToastColor::Danger,
        bad_news(message).timeout is None,
{
}

/// A toast is seen with all that it holds.
pub proof fn toast_is_seen_whole(t: Toast)
    ensures
        t@.message == t.message@,
        t@.color == t.color,
        t@.timeout == t.timeout,
{
}

} // verus!
