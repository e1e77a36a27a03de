//! The password prompt: what is asked of the user before a secret is opened.

use vstd::prelude::*;

verus! {

/// An open prompt.
#[derive(Debug, Clone, PartialEq, Eq)]
pub struct State {
    /// The password as typed so far.
    pub password: String,
    /// Whether the password is shown in plain text.
    pub show_password: bool,
    /// The secret that is to be opened.
    pub target_path: String,
}

/// A prompt in contracts.
pub struct PromptView {
    pub password: Seq<char>,
    pub show_password: bool,
    pub target_path: Seq<char>,
}

impl View for State {
    type V = PromptView;

    open spec fn view(&self) -> PromptView {
        PromptView {
            password: self.password@,
            show_password: self.show_password,
            target_path: self.target_path@,
        }
    }
}

/// The prompt as it is first shown for `target_path`: nothing typed, the
/// password not shown.
pub open spec fn fresh(target_path: Seq<char>) -> PromptView {
    PromptView { password: Seq::empty(), show_password: false, target_path }
}

impl State {
    /// A fresh prompt for the secret at `target_path`.
    pub fn new(target_path: String) -> (prompt: Self)
        ensures
            prompt@ == fresh(target_path@),
    {
        State { password: String::new(), show_password: false, target_path }
    }
}

/// What the user can do with the prompt.
#[derive(Debug, Clone, PartialEq, Eq)]
pub enum Message {
    /// The password text changed to this.
    PasswordChanged(String),
    /// The password was submitted, by the button or the enter key.
    Submit,
    /// The prompt was cancelled.
    Cancel,
    /// The password is to be shown if it was masked, and masked if it was
    /// shown.
    ToggleVisibility,
}

} // verus!
