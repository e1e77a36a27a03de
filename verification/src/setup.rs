//! The first screen: the user names the repository to work with.

use vstd::prelude::*;

verus! {

/// What the user can do on the screen.
#[derive(Debug, Clone, PartialEq, Eq)]
pub enum Message {
    /// The text of the address field changed to this.
    UrlChanged(String),
    /// The address was submitted.
    Submit,
}

/// The screen's state.
pub struct State {
    /// The address as typed so far.
    pub github_url: String,
}

impl Default for State {
    /// The screen before anything was typed.
    fn default() -> (state: Self)
        ensures
            state.github_url@ == Seq::<char>::empty(),
    {
        State { github_url: String::new() }
    }
}

/// Applies one message. A change of the text is stored and nothing is
/// returned. A submission leaves the state as it is and returns the address,
/// which tells the caller to go on to the next screen.
pub fn update(state: &mut State, message: Message) -> (submitted: Option<String>)
    ensures
        match message {
            Message::UrlChanged(url) => final(state).github_url == url && submitted is None,
            Message::Submit => *final(state) == *old(state) && submitted == Some(
                old(state).github_url,
            ),
        },
{
    match message {
        Message::UrlChanged(url) => {
            state.github_url = url;
            None
        },
        Message::Submit => Some(state.github_url.clone()),
    }
}

} // verus!
