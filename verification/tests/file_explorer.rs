use defira::crypto::{CryptoError, GpgFailure};
use defira::error_popup;
use defira::file_explorer::{update, Command, EditorSession, FileAction, State};
use defira::password_prompt;
use defira::tree::NodeKind;
use iced::widget::text_editor::{Action, Motion};
use iced::Point;

fn p(s: &str) -> String {
    s.to_string()
}

fn submit() -> FileAction {
    FileAction::PasswordPrompt(password_prompt::Message::Submit)
}

fn typed(text: &str) -> FileAction {
    FileAction::PasswordPrompt(password_prompt::Message::PasswordChanged(p(text)))
}

fn session(path: &str, text: &str) -> EditorSession {
    EditorSession { path: p(path), text: p(text) }
}

#[test]
fn default_explorer_is_closed() {
    let state = State::default();
    assert!(state.editor().is_none());
    assert!(state.prompt().is_none());
    assert!(state.error().is_none());
    assert!(state.tree().context_menu().is_none());
    assert_eq!(state.tree().selected_count(), 0);
}

#[test]
fn selecting_a_directory_opens_nothing() {
    let mut state = State::default();
    let command = update(&mut state, FileAction::Select(p("root"), NodeKind::Directory));
    assert!(matches!(command, Command::Idle));
    assert!(state.tree().is_expanded(&p("root")));
    assert!(state.tree().is_selected(&p("root")));
    assert!(state.editor().is_none());
    assert!(state.prompt().is_none());
}

#[test]
fn selecting_a_plain_file_asks_for_it_to_be_read() {
    let mut state = State::default();
    let command = update(&mut state, FileAction::Select(p("root/readme.md"), NodeKind::PlaintextFile));
    assert!(matches!(command, Command::ReadFile(ref path) if path == "root/readme.md"));
    assert!(state.tree().is_selected(&p("root/readme.md")));
    assert!(!state.tree().is_expanded(&p("root/readme.md")));
    assert!(state.editor().is_none());
    assert!(state.prompt().is_none());
}

#[test]
fn a_file_that_was_read_is_opened_with_its_text() {
    let mut state = State::default();
    update(&mut state, FileAction::Select(p("notes.txt"), NodeKind::PlaintextFile));
    let action = FileAction::from_read(p("notes.txt"), Ok(p("line one\nline two")));
    let command = update(&mut state, action);
    assert!(matches!(command, Command::SeedBuffer));
    assert_eq!(state.editor(), Some(&session("notes.txt", "line one\nline two")));
    assert!(state.error().is_none());
}

#[test]
fn a_file_that_cannot_be_read_is_reported_not_opened() {
    let mut state = State::default();
    update(&mut state, FileAction::Select(p("gone.txt"), NodeKind::PlaintextFile));
    let action = FileAction::from_read(p("gone.txt"), Err(p("No such file or directory (os error 2)")));
    let command = update(&mut state, action);
    assert!(matches!(command, Command::Idle));
    assert!(state.editor().is_none());
    let error = state.error().expect("error is shown");
    assert_eq!(error.title, "Failed to read file");
    assert_eq!(error.message, "No such file or directory (os error 2)");
}

#[test]
fn a_failed_read_closes_the_open_file() {
    let mut state = State::default();
    update(&mut state, FileAction::FileLoaded(p("a.txt"), p("a")));
    let command = update(&mut state, FileAction::FileUnreadable(p("b.txt"), p("denied")));
    assert!(matches!(command, Command::DropBuffer));
    assert!(state.editor().is_none());
    assert_eq!(state.error().map(|e| e.message.as_str()), Some("denied"));
}

#[test]
fn a_new_file_replaces_the_open_one() {
    let mut state = State::default();
    update(&mut state, FileAction::FileLoaded(p("a.txt"), p("first")));
    update(&mut state, FileAction::FileLoaded(p("b.txt"), p("second")));
    assert_eq!(state.editor(), Some(&session("b.txt", "second")));
}

#[test]
fn selecting_a_secret_raises_a_fresh_prompt() {
    let mut state = State::default();
    update(&mut state, FileAction::FileLoaded(p("open.txt"), p("kept")));
    let command = update(&mut state, FileAction::Select(p("root/secrets/a.gpg"), NodeKind::EncryptedSecret));
    assert!(matches!(command, Command::Idle));
    let prompt = state.prompt().expect("prompt is open");
    assert_eq!(prompt.target_path, "root/secrets/a.gpg");
    assert_eq!(prompt.password, "");
    assert!(!prompt.show_password);
    assert_eq!(state.editor(), Some(&session("open.txt", "kept")));
    assert!(state.tree().is_selected(&p("root/secrets/a.gpg")));
}

#[test]
fn selecting_another_secret_starts_the_prompt_over() {
    let mut state = State::default();
    update(&mut state, FileAction::Select(p("a.gpg"), NodeKind::EncryptedSecret));
    update(&mut state, typed("half-typed"));
    update(&mut state, FileAction::PasswordPrompt(password_prompt::Message::ToggleVisibility));
    update(&mut state, FileAction::Select(p("b.gpg"), NodeKind::EncryptedSecret));
    assert_eq!(state.prompt(), Some(&password_prompt::State::new(p("b.gpg"))));
}

#[test]
fn typing_and_toggling_change_the_prompt() {
    let mut state = State::default();
    update(&mut state, FileAction::Select(p("a.gpg"), NodeKind::EncryptedSecret));
    assert!(matches!(update(&mut state, typed("hun")), Command::Idle));
    assert!(matches!(update(&mut state, typed("hunter2")), Command::Idle));
    let toggle = FileAction::PasswordPrompt(password_prompt::Message::ToggleVisibility);
    assert!(matches!(update(&mut state, toggle.clone()), Command::Idle));
    let prompt = state.prompt().expect("prompt is open");
    assert_eq!(prompt.password, "hunter2");
    assert!(prompt.show_password);
    assert_eq!(prompt.target_path, "a.gpg");
    update(&mut state, toggle);
    assert!(!state.prompt().expect("prompt is open").show_password);
}

#[test]
fn cancel_discards_the_prompt() {
    let mut state = State::default();
    update(&mut state, FileAction::FileLoaded(p("open.txt"), p("kept")));
    update(&mut state, FileAction::Select(p("a.gpg"), NodeKind::EncryptedSecret));
    update(&mut state, typed("hunter2"));
    let command = update(&mut state, FileAction::PasswordPrompt(password_prompt::Message::Cancel));
    assert!(matches!(command, Command::Idle));
    assert!(state.prompt().is_none());
    assert!(state.error().is_none());
    assert_eq!(state.editor(), Some(&session("open.txt", "kept")));
    assert!(state.tree().is_selected(&p("a.gpg")));
}

#[test]
fn submit_hands_out_the_password_once() {
    let mut state = State::default();
    update(&mut state, FileAction::Select(p("a.gpg"), NodeKind::EncryptedSecret));
    update(&mut state, typed("hunter2"));
    match update(&mut state, submit()) {
        Command::Decrypt { path, password } => {
            assert_eq!(path, "a.gpg");
            assert_eq!(password, "hunter2");
        }
        other => panic!("expected Decrypt, got {:?}", other),
    }
    assert!(state.prompt().is_none());
    assert!(matches!(update(&mut state, submit()), Command::Idle));
    assert!(state.prompt().is_none());
}

#[test]
fn prompt_messages_without_a_prompt_do_nothing() {
    let mut state = State::default();
    for message in [
        password_prompt::Message::PasswordChanged(p("x")),
        password_prompt::Message::ToggleVisibility,
        password_prompt::Message::Cancel,
        password_prompt::Message::Submit,
    ] {
        let command = update(&mut state, FileAction::PasswordPrompt(message));
        assert!(matches!(command, Command::Idle));
        assert!(state.prompt().is_none());
        assert!(state.editor().is_none());
        assert!(state.error().is_none());
    }
}

#[test]
fn secret_scenario_with_the_correct_password() {
    let mut state = State::default();
    update(&mut state, FileAction::Select(p("root"), NodeKind::Directory));
    assert!(state.tree().is_expanded(&p("root")));
    assert!(state.tree().is_selected(&p("root")));
    update(&mut state, FileAction::Select(p("root/secrets"), NodeKind::Directory));
    assert!(state.tree().is_expanded(&p("root")));
    assert!(state.tree().is_expanded(&p("root/secrets")));
    assert!(state.tree().is_selected(&p("root/secrets")));
    assert!(!state.tree().is_selected(&p("root")));
    update(&mut state, FileAction::Select(p("root/secrets/a.gpg"), NodeKind::EncryptedSecret));
    assert_eq!(state.prompt().map(|q| q.target_path.as_str()), Some("root/secrets/a.gpg"));
    assert_eq!(state.tree().selected_count(), 1);
    update(&mut state, typed("correct horse"));
    let command = update(&mut state, submit());
    let (path, password) = match command {
        Command::Decrypt { path, password } => (path, password),
        other => panic!("expected Decrypt, got {:?}", other),
    };
    assert_eq!(path, "root/secrets/a.gpg");
    assert_eq!(password, "correct horse");
    assert!(state.prompt().is_none());
    let decrypted = FileAction::from_decryption(path, Ok(b"api-key: 12345\n".to_vec()));
    let command = update(&mut state, decrypted);
    assert!(matches!(command, Command::SeedBuffer));
    assert_eq!(state.editor(), Some(&session("root/secrets/a.gpg", "api-key: 12345\n")));
    assert!(state.error().is_none());
    assert!(state.prompt().is_none());
}

#[test]
fn secret_scenario_with_a_wrong_password() {
    for code in [11u32, 152] {
        let mut state = State::default();
        update(&mut state, FileAction::Select(p("root"), NodeKind::Directory));
        update(&mut state, FileAction::Select(p("root/secrets"), NodeKind::Directory));
        update(&mut state, FileAction::Select(p("root/secrets/a.gpg"), NodeKind::EncryptedSecret));
        update(&mut state, typed("wrong"));
        update(&mut state, submit());
        assert!(state.prompt().is_none());
        let refused = FileAction::from_decryption(
            p("root/secrets/a.gpg"),
            Err(GpgFailure { code, message: p("Bad passphrase") }),
        );
        let command = update(&mut state, refused);
        assert!(matches!(command, Command::Idle));
        assert!(state.prompt().is_none());
        assert!(state.editor().is_none());
        let error = state.error().expect("error is shown");
        assert_eq!(error.message, "Incorrect password");
        assert_eq!(error.title, "Decryption failed");
    }
}

#[test]
fn other_decryption_failures_have_their_own_messages() {
    let cases: Vec<(Result<Vec<u8>, GpgFailure>, &str)> = vec![
        (Ok(Vec::new()), "No data in encrypted file"),
        (
            Err(GpgFailure { code: 58, message: p("No data") }),
            "GPG error: No data",
        ),
    ];
    for (outcome, message) in cases {
        let mut state = State::default();
        update(&mut state, FileAction::from_decryption(p("a.gpg"), outcome));
        assert_eq!(state.error().map(|e| e.message.as_str()), Some(message));
        assert!(state.editor().is_none());
    }
    let mut state = State::default();
    update(&mut state, FileAction::from_decryption(p("a.gpg"), Ok(vec![0xff])));
    let message = &state.error().expect("error is shown").message;
    assert!(message.starts_with("Invalid UTF-8 in decrypted content: "));
    assert!(message.len() > "Invalid UTF-8 in decrypted content: ".len());
}

#[test]
fn a_refused_secret_keeps_the_open_file() {
    let mut state = State::default();
    update(&mut state, FileAction::FileLoaded(p("open.txt"), p("kept")));
    update(&mut state, FileAction::SecretRefused(p("a.gpg"), CryptoError::WrongPassword));
    assert_eq!(state.editor(), Some(&session("open.txt", "kept")));
    assert_eq!(state.error().map(|e| e.message.as_str()), Some("Incorrect password"));
}

#[test]
fn from_decryption_builds_the_matching_action() {
    match FileAction::from_decryption(p("a.gpg"), Ok(b"text".to_vec())) {
        FileAction::SecretDecrypted(path, text) => {
            assert_eq!(path, "a.gpg");
            assert_eq!(text, "text");
        }
        other => panic!("expected SecretDecrypted, got {:?}", other),
    }
    match FileAction::from_decryption(p("a.gpg"), Ok(Vec::new())) {
        FileAction::SecretRefused(path, error) => {
            assert_eq!(path, "a.gpg");
            assert_eq!(error, CryptoError::NoData);
        }
        other => panic!("expected SecretRefused, got {:?}", other),
    }
}

#[test]
fn from_read_builds_the_matching_action() {
    assert!(matches!(
        FileAction::from_read(p("f"), Ok(p("text"))),
        FileAction::FileLoaded(ref path, ref text) if path == "f" && text == "text"
    ));
    assert!(matches!(
        FileAction::from_read(p("f"), Err(p("why"))),
        FileAction::FileUnreadable(ref path, ref why) if path == "f" && why == "why"
    ));
}

#[test]
fn context_menu_closes_on_select_regardless_of_target() {
    for (path, kind) in [
        ("Y", NodeKind::Directory),
        ("Y", NodeKind::PlaintextFile),
        ("Y", NodeKind::EncryptedSecret),
        ("X", NodeKind::PlaintextFile),
    ] {
        let mut state = State::default();
        update(&mut state, FileAction::CursorMoved(Point::new(50.0, 80.0)));
        update(&mut state, FileAction::ContextMenu(p("X"), false));
        let menu = state.tree().context_menu().expect("menu is open");
        assert_eq!(menu.target_path, "X");
        assert_eq!(menu.position, Point::new(50.0, 80.0));
        update(&mut state, FileAction::Select(p(path), kind));
        assert!(state.tree().context_menu().is_none());
    }
}

#[test]
fn edit_item_opens_and_closes_the_menu() {
    let mut state = State::default();
    update(&mut state, FileAction::ContextMenu(p("notes.txt"), false));
    let command = update(&mut state, FileAction::EditItem(p("notes.txt"), NodeKind::PlaintextFile));
    assert!(matches!(command, Command::ReadFile(ref path) if path == "notes.txt"));
    assert!(state.tree().context_menu().is_none());
    assert_eq!(state.tree().selected_count(), 0);

    update(&mut state, FileAction::ContextMenu(p("a.gpg"), false));
    let command = update(&mut state, FileAction::EditItem(p("a.gpg"), NodeKind::EncryptedSecret));
    assert!(matches!(command, Command::Idle));
    assert!(state.tree().context_menu().is_none());
    assert_eq!(state.prompt().map(|q| q.target_path.as_str()), Some("a.gpg"));
}

#[test]
fn delete_item_cleans_state_and_asks_for_removal() {
    let mut state = State::default();
    update(&mut state, FileAction::Select(p("dir"), NodeKind::Directory));
    update(&mut state, FileAction::ContextMenu(p("dir"), true));
    let command = update(&mut state, FileAction::DeleteItem(p("dir")));
    assert!(matches!(command, Command::Delete(ref path) if path == "dir"));
    assert!(!state.tree().is_expanded(&p("dir")));
    assert!(!state.tree().is_selected(&p("dir")));
    assert!(state.tree().context_menu().is_none());
    assert!(state.error().is_none());
}

#[test]
fn failed_delete_is_reported_and_state_stays_clean() {
    let mut state = State::default();
    update(&mut state, FileAction::Select(p("dir"), NodeKind::Directory));
    update(&mut state, FileAction::DeleteItem(p("dir")));
    let command = update(&mut state, FileAction::DeleteFailed(p("dir"), p("Permission denied")));
    assert!(matches!(command, Command::Idle));
    assert!(!state.tree().is_expanded(&p("dir")));
    assert!(!state.tree().is_selected(&p("dir")));
    let error = state.error().expect("error is shown");
    assert_eq!(error.title, "Failed to delete");
    assert_eq!(error.message, "Permission denied");
}

#[test]
fn a_new_failure_replaces_the_shown_one() {
    let mut state = State::default();
    update(&mut state, FileAction::DeleteFailed(p("a"), p("first")));
    update(&mut state, FileAction::SecretRefused(p("b.gpg"), CryptoError::NoData));
    let error = state.error().expect("error is shown");
    assert_eq!(error.title, "Decryption failed");
    assert_eq!(error.message, "No data in encrypted file");
}

#[test]
fn dismiss_clears_the_error() {
    let mut state = State::default();
    update(&mut state, FileAction::DeleteFailed(p("a"), p("why")));
    let command = update(&mut state, FileAction::ErrorPopup(error_popup::Message::Dismiss));
    assert!(matches!(command, Command::Idle));
    assert!(state.error().is_none());
    update(&mut state, FileAction::ErrorPopup(error_popup::Message::Dismiss));
    assert!(state.error().is_none());
}

#[test]
fn close_editor_ends_the_session_only() {
    let mut state = State::default();
    update(&mut state, FileAction::Select(p("dir"), NodeKind::Directory));
    update(&mut state, FileAction::Select(p("dir/a.txt"), NodeKind::PlaintextFile));
    update(&mut state, FileAction::FileLoaded(p("dir/a.txt"), p("text")));
    let command = update(&mut state, FileAction::CloseEditor);
    assert!(matches!(command, Command::DropBuffer));
    assert!(state.editor().is_none());
    assert!(state.tree().is_expanded(&p("dir")));
    assert!(state.tree().is_selected(&p("dir/a.txt")));
    let command = update(&mut state, FileAction::CloseEditor);
    assert!(matches!(command, Command::Idle));
}

#[test]
fn edits_are_forwarded_only_to_an_open_session() {
    let mut state = State::default();
    let edit = Action::Move(Motion::Left);
    let command = update(&mut state, FileAction::EditorAction(edit.clone()));
    assert!(matches!(command, Command::Idle));
    update(&mut state, FileAction::FileLoaded(p("a.txt"), p("text")));
    match update(&mut state, FileAction::EditorAction(edit.clone())) {
        Command::Edit(forwarded) => assert_eq!(forwarded, edit),
        other => panic!("expected Edit, got {:?}", other),
    }
    assert_eq!(state.editor(), Some(&session("a.txt", "text")));
    match update(&mut state, FileAction::EditorAction(Action::SelectAll)) {
        Command::Edit(forwarded) => assert_eq!(forwarded, Action::SelectAll),
        other => panic!("expected Edit, got {:?}", other),
    }
}

#[test]
fn selection_stays_exclusive_through_every_action() {
    let mut state = State::default();
    let actions = vec![
        FileAction::Select(p("a"), NodeKind::Directory),
        FileAction::Select(p("a/b.gpg"), NodeKind::EncryptedSecret),
        typed("pw"),
        submit(),
        FileAction::SecretRefused(p("a/b.gpg"), CryptoError::WrongPassword),
        FileAction::Select(p("a/c.txt"), NodeKind::PlaintextFile),
        FileAction::FileLoaded(p("a/c.txt"), p("c")),
        FileAction::ContextMenu(p("a"), true),
        FileAction::DeleteItem(p("a")),
        FileAction::Select(p("d"), NodeKind::Directory),
        FileAction::CloseEditor,
    ];
    for action in actions {
        update(&mut state, action);
        assert!(state.tree().selected_count() <= 1);
    }
    assert!(state.tree().is_selected(&p("d")));
}

#[test]
fn cursor_moves_are_recorded() {
    let mut state = State::default();
    let command = update(&mut state, FileAction::CursorMoved(Point::new(12.5, 99.0)));
    assert!(matches!(command, Command::Idle));
    assert_eq!(state.tree().cursor_position(), Point::new(12.5, 99.0));
}

#[test]
fn close_context_menu_action_clears_the_menu() {
    let mut state = State::default();
    update(&mut state, FileAction::ContextMenu(p("x"), false));
    let command = update(&mut state, FileAction::CloseContextMenu);
    assert!(matches!(command, Command::Idle));
    assert!(state.tree().context_menu().is_none());
}

#[test]
fn menu_offers_edit_and_delete_for_its_target() {
    let items = defira::file_explorer::menu_items(&p("root/a.gpg"), NodeKind::EncryptedSecret);
    assert_eq!(items.len(), 2);
    assert_eq!(items[0].label, "Edit");
    assert!(items[0].icon.is_none());
    assert!(matches!(
        items[0].action,
        FileAction::EditItem(ref path, NodeKind::EncryptedSecret) if path == "root/a.gpg"
    ));
    assert_eq!(items[1].label, "Delete");
    assert!(items[1].icon.is_none());
    assert!(matches!(items[1].action, FileAction::DeleteItem(ref path) if path == "root/a.gpg"));
}

#[test]
fn choosing_a_menu_entry_performs_it_and_closes_the_menu() {
    for index in [0usize, 1] {
        let mut state = State::default();
        update(&mut state, FileAction::Select(p("notes.txt"), NodeKind::PlaintextFile));
        update(&mut state, FileAction::ContextMenu(p("notes.txt"), false));
        let mut items = defira::file_explorer::menu_items(&p("notes.txt"), NodeKind::PlaintextFile);
        let chosen = items.remove(index);
        let command = update(&mut state, chosen.action);
        assert!(state.tree().context_menu().is_none());
        if index == 0 {
            assert!(matches!(command, Command::ReadFile(ref path) if path == "notes.txt"));
            assert!(state.tree().is_selected(&p("notes.txt")));
        } else {
            assert!(matches!(command, Command::Delete(ref path) if path == "notes.txt"));
            assert!(!state.tree().is_selected(&p("notes.txt")));
        }
    }
}
