//! The error that a command answers with.
use vstd::prelude::*;

verus! {

/// A refusal with the message that is shown for it.
#[derive(Debug)]
pub struct GenericError(pub String);

impl View for GenericError {
    type V = Seq<char>;

    open spec fn view(&self) -> Seq<char> {
        self.0@
    }
}

/// The error that carries a message.
pub fn generic_error(message: &str) -> (e: GenericError)
    ensures
        e@ == message@,
{
    GenericError(message.to_string())
}

} // verus!
