//! The error popup: the one failure that is shown to the user.

use vstd::prelude::*;

verus! {

/// A failure to show: a title and a message.
#[derive(Debug, Clone, PartialEq, Eq)]
pub struct State {
    /// The error title.
    pub title: String,
    /// The error message.
    pub message: String,
}

/// An error popup in contracts.
pub struct ErrorView {
    pub title: Seq<char>,
    pub message: Seq<char>,
}

impl View for State {
    type V = ErrorView;

    open spec fn view(&self) -> ErrorView {
        ErrorView { title: self.title@, message: self.message@ }
    }
}

impl State {
    /// A popup with the given title and message.
    pub fn new(title: &str, message: &str) -> (popup: Self)
        ensures
            popup@ == (ErrorView { title: title@, message: message@ }),
    {
        State { title: title.to_owned(), message: message.to_owned() }
    }
}

/// What the user can do with the popup.
#[derive(Debug, Clone, Copy, PartialEq, Eq, Structural)]
pub enum Message {
    /// The popup was dismissed, by its button or by a click beside it.
    Dismiss,
}

} // verus!
