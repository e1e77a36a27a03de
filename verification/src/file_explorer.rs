//! The file explorer: the tree's state together with the file that is open,
//! the password prompt and the error popup.
//!
//! The state changes only through [`update`], one [`FileAction`] at a time.
//! Reading, decrypting and deleting are the caller's part: `update` returns a
//! [`Command`] that names the work, and the caller reports the outcome with
//! another action. What `update` does is the spec function [`step`], from a
//! state and an action to the next state and the command.
//!
//! Opening a file goes like this. A plain file is read; its text seeds an
//! editor session, and a failure to read closes the editor and is shown in
//! the error popup. A secret first raises the password prompt. Submitting the
//! prompt ends it, whatever comes of the password, and asks for the
//! decryption; the decrypted text seeds an editor session, and a failure is
//! shown in the error popup. A wrong password does not bring the prompt back:
//! the user selects the secret again to retry.

use crate::context_menu::MenuItem;
use crate::crypto::{decrypted_text, message_of, CryptoError, GpgFailure};
use crate::error_popup;
use crate::error_popup::ErrorView;
use crate::explorer;
use crate::explorer::{
    after_cursor_move, after_delete, after_menu_close, after_menu_open, after_select,
};
use crate::password_prompt;
use crate::password_prompt::{fresh, PromptView};
use crate::tree::NodeKind;
use iced::widget::text_editor::Action;
use iced::Point;
use vstd::prelude::*;

verus! {

/// What happened: what the user did, or what came of the work that a
/// [`Command`] asked for.
#[derive(Debug, Clone)]
pub enum FileAction {
    /// A node was clicked: its path and its kind.
    Select(String, NodeKind),
    /// A node was right-clicked: its path, and whether it is a directory.
    ContextMenu(String, bool),
    /// The context menu was dismissed.
    CloseContextMenu,
    /// "Edit" was chosen for the node with this path and kind.
    EditItem(String, NodeKind),
    /// "Delete" was chosen for the node with this path.
    DeleteItem(String),
    /// The cursor moved to this position.
    CursorMoved(Point),
    /// The editor was closed.
    CloseEditor,
    /// The user edited the open buffer.
    EditorAction(Action),
    /// The user did something with the password prompt.
    PasswordPrompt(password_prompt::Message),
    /// The user did something with the error popup.
    ErrorPopup(error_popup::Message),
    /// The file at this path was read: its text.
    FileLoaded(String, String),
    /// The file at this path could not be read: why.
    FileUnreadable(String, String),
    /// The secret at this path was decrypted: its text.
    SecretDecrypted(String, String),
    /// The secret at this path was not decrypted: why.
    SecretRefused(String, CryptoError),
    /// The node at this path could not be removed from disk: why.
    DeleteFailed(String, String),
}

/// The work that the caller must do next.
#[derive(Debug, Clone)]
pub enum Command {
    /// Nothing.
    Idle,
    /// Read the file at this path as text, and report `FileLoaded` or
    /// `FileUnreadable`.
    ReadFile(String),
    /// Read the secret at `path`, decrypt it with `password`, and report
    /// `SecretDecrypted` or `SecretRefused`, or `FileUnreadable` if its bytes
    /// could not be read. The password is not kept anywhere else.
    Decrypt { path: String, password: String },
    /// Remove the node at this path from disk, and report `DeleteFailed` if
    /// that fails.
    Delete(String),
    /// A session began: make the buffer anew from the session's text.
    SeedBuffer,
    /// The session ended: let go of the buffer.
    DropBuffer,
    /// Apply this action to the buffer.
    Edit(Action),
}

/// A command in contracts.
pub enum CommandView {
    Idle,
    ReadFile(Seq<char>),
    Decrypt { path: Seq<char>, password: Seq<char> },
    Delete(Seq<char>),
    SeedBuffer,
    DropBuffer,
    Edit(Action),
}

impl View for Command {
    type V = CommandView;

    open spec fn view(&self) -> CommandView {
        match *self {
            Command::Idle => CommandView::Idle,
            Command::ReadFile(path) => CommandView::ReadFile(path@),
            Command::Decrypt { path, password } => CommandView::Decrypt {
                path: path@,
                password: password@,
            },
            Command::Delete(path) => CommandView::Delete(path@),
            Command::SeedBuffer => CommandView::SeedBuffer,
            Command::DropBuffer => CommandView::DropBuffer,
            Command::Edit(action) => CommandView::Edit(action),
        }
    }
}

/// The file that is open in the editor.
#[derive(Debug, Clone, PartialEq, Eq)]
pub struct EditorSession {
    /// The open file.
    pub path: String,
    /// The text that the buffer was made from. Edits go to the buffer, which
    /// the caller holds, and do not change this.
    pub text: String,
}

/// An editor session in contracts.
pub struct SessionView {
    pub path: Seq<char>,
    pub text: Seq<char>,
}

impl View for EditorSession {
    type V = SessionView;

    open spec fn view(&self) -> SessionView {
        SessionView { path: self.path@, text: self.text@ }
    }
}

/// The explorer's state in contracts.
pub struct StateView {
    pub tree: explorer::StateView,
    pub editor: Option<SessionView>,
    pub prompt: Option<PromptView>,
    pub error: Option<ErrorView>,
}

/// The title of the popup for a file that could not be read.
pub open spec fn read_failed_title() -> Seq<char> {
    "Failed to read file"@
}

/// The title of the popup for a secret that was not decrypted.
pub open spec fn decrypt_failed_title() -> Seq<char> {
    "Decryption failed"@
}

/// The title of the popup for a node that could not be removed.
pub open spec fn delete_failed_title() -> Seq<char> {
    "Failed to delete"@
}

/// The state and the command after the flow that opens `path` began. A
/// secret raises a fresh prompt and touches nothing else. Anything else is
/// read.
pub open spec fn opening(s: StateView, path: Seq<char>, kind: NodeKind) -> (StateView, CommandView) {
    if kind == NodeKind::EncryptedSecret {
        (StateView { prompt: Some(fresh(path)), ..s }, CommandView::Idle)
    } else {
        (s, CommandView::ReadFile(path))
    }
}

/// The state and the command after `message` came from the password prompt.
/// With no prompt open nothing happens. Typing and toggling change the
/// prompt. Cancelling ends it. Submitting ends it as well and asks for the
/// decryption of its secret with its password.
pub open spec fn prompted(s: StateView, message: password_prompt::Message) -> (
    StateView,
    CommandView,
) {
    match s.prompt {
        None => (s, CommandView::Idle),
        Some(prompt) => match message {
            password_prompt::Message::PasswordChanged(text) => (
                StateView { prompt: Some(PromptView { password: text@, ..prompt }), ..s },
                CommandView::Idle,
            ),
            password_prompt::Message::ToggleVisibility => (
                StateView {
                    prompt: Some(PromptView { show_password: !prompt.show_password, ..prompt }),
                    ..s
                },
                CommandView::Idle,
            ),
            password_prompt::Message::Cancel => (
                StateView { prompt: None, ..s },
                CommandView::Idle,
            ),
            password_prompt::Message::Submit => (
                StateView { prompt: None, ..s },
                CommandView::Decrypt { path: prompt.target_path, password: prompt.password },
            ),
        },
    }
}

/// The state and the command after a session for `path` began with `text`.
/// It takes the place of the session that was open, if any.
pub open spec fn seeded(s: StateView, path: Seq<char>, text: Seq<char>) -> (
    StateView,
    CommandView,
) {
    (StateView { editor: Some(SessionView { path, text }), ..s }, CommandView::SeedBuffer)
}

/// The state and the command after the editor was closed, by the user or by
/// a failure to read. The buffer is let go of if there was a session.
pub open spec fn closed(s: StateView) -> (StateView, CommandView) {
    (
        StateView { editor: None, ..s },
        if s.editor is Some {
            CommandView::DropBuffer
        } else {
            CommandView::Idle
        },
    )
}

/// The state after a failure was put into the error popup. It takes the
/// place of the failure that was shown, if any.
pub open spec fn reported(s: StateView, title: Seq<char>, message: Seq<char>) -> StateView {
    StateView { error: Some(ErrorView { title, message }), ..s }
}

/// The state and the command after `action`.
pub open spec fn step(s: StateView, action: FileAction) -> (StateView, CommandView) {
    match action {
        FileAction::Select(path, kind) => {
            let selected = StateView {
                tree: after_select(s.tree, path@, kind == NodeKind::Directory),
                ..s
            };
            if kind == NodeKind::Directory {
                (selected, CommandView::Idle)
            } else {
                opening(selected, path@, kind)
            }
        },
        FileAction::ContextMenu(path, is_dir) => (
            StateView { tree: after_menu_open(s.tree, path@, is_dir), ..s },
            CommandView::Idle,
        ),
        FileAction::CloseContextMenu => (
            StateView { tree: after_menu_close(s.tree), ..s },
            CommandView::Idle,
        ),
        FileAction::EditItem(path, kind) => opening(
            StateView { tree: after_menu_close(s.tree), ..s },
            path@,
            kind,
        ),
        FileAction::DeleteItem(path) => (
            StateView { tree: after_delete(s.tree, path@), ..s },
            CommandView::Delete(path@),
        ),
        FileAction::CursorMoved(position) => (
            StateView { tree: after_cursor_move(s.tree, position), ..s },
            CommandView::Idle,
        ),
        FileAction::CloseEditor => closed(s),
        FileAction::EditorAction(edit) => (
            s,
            if s.editor is Some {
                CommandView::Edit(edit)
            } else {
                CommandView::Idle
            },
        ),
        FileAction::PasswordPrompt(message) => prompted(s, message),
        FileAction::ErrorPopup(error_popup::Message::Dismiss) => (
            StateView { error: None, ..s },
            CommandView::Idle,
        ),
        FileAction::FileLoaded(path, text) => seeded(s, path@, text@),
        FileAction::FileUnreadable(path, message) => closed(
            reported(s, read_failed_title(), message@),
        ),
        FileAction::SecretDecrypted(path, text) => seeded(s, path@, text@),
        FileAction::SecretRefused(path, error) => (
            reported(s, decrypt_failed_title(), message_of(error)),
            CommandView::Idle,
        ),
        FileAction::DeleteFailed(path, message) => (
            reported(s, delete_failed_title(), message@),
            CommandView::Idle,
        ),
    }
}

impl FileAction {
    /// The action that reports what came of reading the file at `path`.
    pub fn from_read(path: String, outcome: Result<String, String>) -> (action: FileAction)
        ensures
            action == (match outcome {
                Ok(text) => FileAction::FileLoaded(path, text),
                Err(message) => FileAction::FileUnreadable(path, message),
            }),
    {
        match outcome {
            Ok(text) => FileAction::FileLoaded(path, text),
            Err(message) => FileAction::FileUnreadable(path, message),
        }
    }

    /// The action that reports what came of decrypting the secret at `path`:
    /// `SecretDecrypted` with the text if the outcome holds bytes that are a
    /// text, and `SecretRefused` with the error otherwise, as
    /// [`decrypted_text`] judges the outcome.
    pub fn from_decryption(path: String, outcome: Result<Vec<u8>, GpgFailure>) -> (action:
        FileAction)
        ensures
            match action {
                FileAction::SecretDecrypted(p, text) => p == path && crate::crypto::text_or_error(
                    outcome,
                    Ok(text),
                ),
                FileAction::SecretRefused(p, error) => p == path && crate::crypto::text_or_error(
                    outcome,
                    Err(error),
                ),
                _ => false,
            },
    {
        match decrypted_text(outcome) {
            Ok(text) => FileAction::SecretDecrypted(path, text),
            Err(error) => FileAction::SecretRefused(path, error),
        }
    }
}

/// The explorer's state.
pub struct State {
    tree: explorer::State,
    editor: Option<EditorSession>,
    prompt: Option<password_prompt::State>,
    error: Option<error_popup::State>,
}

/// The view of an optional session.
spec fn session_view(editor: Option<EditorSession>) -> Option<SessionView> {
    match editor {
        Some(session) => Some(session@),
        None => None,
    }
}

/// The view of an optional prompt.
spec fn prompt_view(prompt: Option<password_prompt::State>) -> Option<PromptView> {
    match prompt {
        Some(p) => Some(p@),
        None => None,
    }
}

/// The view of an optional popup.
spec fn error_view(error: Option<error_popup::State>) -> Option<ErrorView> {
    match error {
        Some(e) => Some(e@),
        None => None,
    }
}

impl View for State {
    type V = StateView;

    closed spec fn view(&self) -> StateView {
        StateView {
            tree: self.tree@,
            editor: session_view(self.editor),
            prompt: prompt_view(self.prompt),
            error: error_view(self.error),
        }
    }
}

impl Default for State {
    /// Nothing expanded, nothing selected, no menu, no file open, no prompt
    /// and no error.
    fn default() -> (s: Self)
        ensures
            s@.tree.expanded == Set::<Seq<char>>::empty(),
            s@.tree.selected == Set::<Seq<char>>::empty(),
            s@.tree.context_menu is None,
            s@.tree.valid(),
            s@.editor is None,
            s@.prompt is None,
            s@.error is None,
    {
        State { tree: explorer::State::default(), editor: None, prompt: None, error: None }
    }
}

impl State {
    /// The tree's state: what is expanded and selected, and the menu.
    pub fn tree(&self) -> (tree: &explorer::State)
        ensures
            tree@ == self@.tree,
    {
        &self.tree
    }

    /// The open editor session, if there is one.
    pub fn editor(&self) -> (editor: Option<&EditorSession>)
        ensures
            match editor {
                Some(session) => self@.editor == Some(session@),
                None => self@.editor is None,
            },
    {
        self.editor.as_ref()
    }

    /// The open password prompt, if there is one.
    pub fn prompt(&self) -> (prompt: Option<&password_prompt::State>)
        ensures
            match prompt {
                Some(p) => self@.prompt == Some(p@),
                None => self@.prompt is None,
            },
    {
        self.prompt.as_ref()
    }

    /// The failure that is shown, if there is one.
    pub fn error(&self) -> (error: Option<&error_popup::State>)
        ensures
            match error {
                Some(e) => self@.error == Some(e@),
                None => self@.error is None,
            },
    {
        self.error.as_ref()
    }

    /// Begins the flow that opens `path`.
    fn open(&mut self, path: String, kind: NodeKind) -> (command: Command)
        ensures
            (final(self)@, command@) == opening(old(self)@, path@, kind),
    {
        match kind {
            NodeKind::EncryptedSecret => {
                self.prompt = Some(password_prompt::State::new(path));
                Command::Idle
            },
            _ => Command::ReadFile(path),
        }
    }

    /// Applies a message of the password prompt.
    fn prompt_message(&mut self, message: password_prompt::Message) -> (command: Command)
        ensures
            (final(self)@, command@) == prompted(old(self)@, message),
    {
        match self.prompt.take() {
            None => Command::Idle,
            Some(prompt) => match message {
                password_prompt::Message::PasswordChanged(text) => {
                    self.prompt = Some(
                        password_prompt::State {
                            password: text,
                            show_password: prompt.show_password,
                            target_path: prompt.target_path,
                        },
                    );
                    Command::Idle
                },
                password_prompt::Message::ToggleVisibility => {
                    self.prompt = Some(
                        password_prompt::State {
                            password: prompt.password,
                            show_password: !prompt.show_password,
                            target_path: prompt.target_path,
                        },
                    );
                    Command::Idle
                },
                password_prompt::Message::Cancel => Command::Idle,
                password_prompt::Message::Submit => Command::Decrypt {
                    path: prompt.target_path,
                    password: prompt.password,
                },
            },
        }
    }

    /// Begins a session for `path` with `text`.
    fn seed(&mut self, path: String, text: String) -> (command: Command)
        ensures
            (final(self)@, command@) == seeded(old(self)@, path@, text@),
    {
        self.editor = Some(EditorSession { path, text });
        Command::SeedBuffer
    }

    /// Ends the session, if there is one.
    fn close(&mut self) -> (command: Command)
        ensures
            (final(self)@, command@) == closed(old(self)@),
    {
        match self.editor.take() {
            Some(_) => Command::DropBuffer,
            None => Command::Idle,
        }
    }

    /// Puts a failure into the error popup.
    fn report(&mut self, title: &str, message: &str)
        ensures
            final(self)@ == reported(old(self)@, title@, message@),
    {
        self.error = Some(error_popup::State::new(title, message));
    }
}

/// The entries of the context menu for the node at `target`, which is of
/// kind `kind`: "Edit", which opens the node, and "Delete", which removes it.
/// The entries come without icons.
pub fn menu_items(target: &String, kind: NodeKind) -> (items: Vec<MenuItem<FileAction>>)
    ensures
        items@.len() == 2,
        items@[0].label@ == "Edit"@,
        items@[0].icon is None,
        items@[0].action == FileAction::EditItem(*target, kind),
        items@[1].label@ == "Delete"@,
        items@[1].icon is None,
        items@[1].action == FileAction::DeleteItem(*target),
{
    let mut items: Vec<MenuItem<FileAction>> = Vec::new();
    items.push(MenuItem::new("Edit", FileAction::EditItem(target.clone(), kind)));
    items.push(MenuItem::new("Delete", FileAction::DeleteItem(target.clone())));
    items
}

/// Applies one action to the state, and returns the work that the caller
/// must do next.
pub fn update(state: &mut State, action: FileAction) -> (command: Command)
    ensures
        (final(state)@, command@) == step(old(state)@, action),
        final(state)@.tree.valid(),
{
    let command = match action {
        FileAction::Select(path, kind) => {
            match kind {
                NodeKind::Directory => {
                    state.tree.select(path, true);
                    Command::Idle
                },
                _ => {
                    state.tree.select(path.clone(), false);
                    state.open(path, kind)
                },
            }
        },
        FileAction::ContextMenu(path, is_dir) => {
            state.tree.open_context_menu(path, is_dir);
            Command::Idle
        },
        FileAction::CloseContextMenu => {
            state.tree.close_context_menu();
            Command::Idle
        },
        FileAction::EditItem(path, kind) => {
            state.tree.close_context_menu();
            state.open(path, kind)
        },
        FileAction::DeleteItem(path) => {
            state.tree.delete(&path);
            Command::Delete(path)
        },
        FileAction::CursorMoved(position) => {
            state.tree.cursor_moved(position);
            Command::Idle
        },
        FileAction::CloseEditor => state.close(),
        FileAction::EditorAction(edit) => {
            if state.editor.is_some() {
                Command::Edit(edit)
            } else {
                Command::Idle
            }
        },
        FileAction::PasswordPrompt(message) => state.prompt_message(message),
        FileAction::ErrorPopup(message) => {
            match message {
                error_popup::Message::Dismiss => {
                    state.error = None;
                },
            }
            Command::Idle
        },
        FileAction::FileLoaded(path, text) => state.seed(path, text),
        FileAction::FileUnreadable(_path, message) => {
            state.report("Failed to read file", message.as_str());
            state.close()
        },
        FileAction::SecretDecrypted(path, text) => state.seed(path, text),
        FileAction::SecretRefused(_path, error) => {
            let message = error.message();
            state.report("Decryption failed", message.as_str());
            Command::Idle
        },
        FileAction::DeleteFailed(_path, message) => {
            state.report("Failed to delete", message.as_str());
            Command::Idle
        },
    };
    let _selected: usize = state.tree.selected_count();
    command
}

/// No action selects a second node: if at most one node is selected before
/// an action, at most one is selected after it.
pub proof fn lemma_step_keeps_selection_exclusive(s: StateView, action: FileAction)
    requires
        s.tree.valid(),
    ensures
        step(s, action).0.tree.valid(),
        step(s, action).0.tree.selected.len() <= 1,
{
    match action {
        FileAction::Select(path, kind) => {
            explorer::lemma_select_is_exclusive(s.tree, path@, kind == NodeKind::Directory);
        },
        FileAction::DeleteItem(path) => {
            vstd::set_lib::lemma_len_subset(s.tree.selected.remove(path@), s.tree.selected);
        },
        _ => {},
    }
}

/// Selecting a node selects it and nothing else, and closes the context
/// menu, whichever node it is and whatever its kind.
pub proof fn lemma_select_selects_and_closes_menu(s: StateView, path: String, kind: NodeKind)
    ensures
        step(s, FileAction::Select(path, kind)).0.tree.selected == set![path@],
        step(s, FileAction::Select(path, kind)).0.tree.context_menu is None,
{
}

/// Selecting a directory toggles it and opens nothing. Selecting a plain
/// file asks for it to be read. Selecting a secret raises a fresh prompt for
/// it and leaves the editor as it is.
pub proof fn lemma_select_by_kind(s: StateView, path: String, kind: NodeKind)
    ensures
        ({
            let (next, command) = step(s, FileAction::Select(path, kind));
            match kind {
                NodeKind::Directory => {
                    &&& command == CommandView::Idle
                    &&& next.tree.expanded.contains(path@) == !s.tree.expanded.contains(path@)
                    &&& next.editor == s.editor
                    &&& next.prompt == s.prompt
                },
                NodeKind::PlaintextFile => {
                    &&& command == CommandView::ReadFile(path@)
                    &&& next.tree.expanded == s.tree.expanded
                    &&& next.prompt == s.prompt
                },
                NodeKind::EncryptedSecret => {
                    &&& command == CommandView::Idle
                    &&& next.tree.expanded == s.tree.expanded
                    &&& next.prompt == Some(fresh(path@))
                    &&& next.editor == s.editor
                },
            }
        }),
{
}

/// Deleting cleans the state and asks for the removal, and the two do not
/// wait for each other: after `DeleteItem` the path is neither expanded nor
/// selected and the command is `Delete`; a removal that failed is then shown
/// in the error popup and changes nothing of the tree.
pub proof fn lemma_delete_cleans_and_reports(s: StateView, path: String, why: String)
    ensures
        ({
            let (next, command) = step(s, FileAction::DeleteItem(path));
            let (last, _) = step(next, FileAction::DeleteFailed(path, why));
            &&& command == CommandView::Delete(path@)
            &&& !next.tree.expanded.contains(path@)
            &&& !next.tree.selected.contains(path@)
            &&& last.tree == next.tree
            &&& last.error == Some(ErrorView { title: delete_failed_title(), message: why@ })
        }),
{
}

/// Choosing an entry of the context menu does what the entry stands for and
/// closes the menu.
pub proof fn lemma_menu_entries_close_menu(s: StateView, path: String, kind: NodeKind)
    ensures
        step(s, FileAction::EditItem(path, kind)).0.tree.context_menu is None,
        step(s, FileAction::EditItem(path, kind)) == opening(
            StateView { tree: after_menu_close(s.tree), ..s },
            path@,
            kind,
        ),
        step(s, FileAction::DeleteItem(path)).0.tree.context_menu is None,
        step(s, FileAction::DeleteItem(path)).1 == CommandView::Delete(path@),
{
}

/// Submitting ends the prompt, once: the command carries the prompt's secret
/// and password, no prompt is open afterwards, and a second submission asks
/// for nothing. What comes of the decryption does not bring the prompt back.
pub proof fn lemma_submit_ends_prompt(s: StateView, prompt: PromptView, text: String, error: CryptoError)
    requires
        s.prompt == Some(prompt),
    ensures
        ({
            let submit = FileAction::PasswordPrompt(password_prompt::Message::Submit);
            let (next, command) = step(s, submit);
            &&& command == CommandView::Decrypt {
                path: prompt.target_path,
                password: prompt.password,
            }
            &&& next.prompt is None
            &&& step(next, submit) == (next, CommandView::Idle)
            &&& step(next, FileAction::SecretDecrypted(text, text)).0.prompt is None
            &&& step(next, FileAction::SecretRefused(text, error)).0.prompt is None
        }),
{
}

/// A secret that was not decrypted is shown in the error popup with the
/// error's message, and the editor stays as it was. For a wrong password the
/// message is "Incorrect password".
pub proof fn lemma_refusal_is_reported(s: StateView, path: String, error: CryptoError)
    ensures
        ({
            let (next, command) = step(s, FileAction::SecretRefused(path, error));
            &&& command == CommandView::Idle
            &&& next.error == Some(
                ErrorView { title: decrypt_failed_title(), message: message_of(error) },
            )
            &&& next.editor == s.editor
            &&& next.tree == s.tree
        }),
        message_of(CryptoError::WrongPassword) == "Incorrect password"@,
{
}

/// One failure is shown at a time: a failure that is reported while another
/// is shown takes its place.
pub proof fn lemma_last_failure_wins(
    s: StateView,
    title: Seq<char>,
    message: Seq<char>,
    next_title: Seq<char>,
    next_message: Seq<char>,
)
    ensures
        reported(reported(s, title, message), next_title, next_message) == reported(
            s,
            next_title,
            next_message,
        ),
{
}

/// A file that could not be read is shown in the error popup with the
/// failure's message, and no editor session is open afterwards: the failure
/// is never put into a buffer.
pub proof fn lemma_unreadable_is_reported(s: StateView, path: String, why: String)
    ensures
        ({
            let (next, _) = step(s, FileAction::FileUnreadable(path, why));
            &&& next.error == Some(ErrorView { title: read_failed_title(), message: why@ })
            &&& next.editor is None
        }),
{
}

} // verus!
