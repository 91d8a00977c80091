use snip::error::ErrorKind;
use snip::tui::modal::{
    cancel_status, clamp_selected, modal_key, modal_step, split_tags, step_status, KeyInput, ModalAction, ModalOutcome,
    ModalState, ModalStep, submitted_value,
};

const ID: u128 = 0x67e5504410b1426f9247bb680e5fe0c8;

fn folders() -> Vec<String> {
    vec!["rust".to_owned(), "shell/zsh".to_owned()]
}

#[test]
fn tag_dialogs_split_trim_and_drop_empty_tags() {
    assert_eq!(split_tags(" rust, cli ,,  ,tools "), vec!["rust", "cli", "tools"]);
    assert!(split_tags("").is_empty());
    assert!(split_tags(" , ").is_empty());
    match modal_step(&ModalAction::EditTags { id: ID }, Some("a, b"), &folders(), None, "rust").unwrap() {
        ModalStep::Retag { id, tags } => {
            assert_eq!(id, ID);
            assert_eq!(tags, vec!["a", "b"]);
        }
        other => panic!("unexpected step {other:?}"),
    }
}

#[test]
fn the_tilde_folder_is_the_top_level() {
    match modal_step(&ModalAction::MoveSnippet { id: ID }, Some(" ~ "), &folders(), None, "rust").unwrap() {
        ModalStep::Move { folder, .. } => assert_eq!(folder, ""),
        other => panic!("unexpected step {other:?}"),
    }
    match modal_step(&ModalAction::MoveSnippet { id: ID }, Some("rust"), &folders(), None, "rust").unwrap() {
        ModalStep::Move { folder, .. } => assert_eq!(folder, "rust"),
        other => panic!("unexpected step {other:?}"),
    }
    let title = "Hello".to_owned();
    match modal_step(&ModalAction::CreateFolder { title }, Some("~"), &folders(), None, "python").unwrap() {
        ModalStep::AskLanguage { title, folder, language } => {
            assert_eq!((title.as_str(), folder.as_str(), language.as_str()), ("Hello", "", "python"));
        }
        other => panic!("unexpected step {other:?}"),
    }
}

#[test]
fn a_new_snippet_needs_a_title_and_then_picks_a_folder() {
    let empty = modal_step(&ModalAction::CreateTitle, Some("   "), &folders(), None, "rust").unwrap_err();
    assert_eq!((empty.kind, empty.to_string()), (ErrorKind::Usage, "snippet title cannot be empty".to_owned()));
    match modal_step(&ModalAction::CreateTitle, Some(" Hello "), &folders(), Some("shell/zsh"), "rust").unwrap() {
        ModalStep::PickFolder { title, folders, selected } => {
            assert_eq!(title, "Hello");
            assert_eq!(folders, vec!["~", "rust", "shell/zsh"]);
            assert_eq!(selected, 2);
        }
        other => panic!("unexpected step {other:?}"),
    }
    match modal_step(&ModalAction::CreateTitle, Some("Hello"), &folders(), Some("gone"), "rust").unwrap() {
        ModalStep::PickFolder { selected, .. } => assert_eq!(selected, 0),
        other => panic!("unexpected step {other:?}"),
    }
    let action = ModalAction::CreateLanguage { title: "Hello".to_owned(), folder: String::new() };
    match modal_step(&action, Some(" go "), &folders(), None, "rust").unwrap() {
        ModalStep::Create { title, folder, language } => {
            assert_eq!((title.as_str(), folder, language.as_str()), ("Hello", None, "go"));
        }
        other => panic!("unexpected step {other:?}"),
    }
}

#[test]
fn dialogs_without_text_are_refused_unless_they_need_none() {
    let missing = modal_step(&ModalAction::RenameSnippet { id: ID }, None, &folders(), None, "rust").unwrap_err();
    assert_eq!((missing.kind, missing.to_string()), (ErrorKind::Usage, "modal input is unavailable".to_owned()));
    assert!(matches!(
        modal_step(&ModalAction::DeleteSnippet { id: ID }, None, &folders(), None, "rust"),
        Ok(ModalStep::Trash { id: ID })
    ));
    assert!(matches!(modal_step(&ModalAction::ForceEdit, None, &folders(), None, "rust"), Ok(ModalStep::ForceSave)));
}

#[test]
fn confirmed_dialogs_report_what_they_did() {
    let rename = modal_step(&ModalAction::RenameTag { tag: "old".to_owned() }, Some("new"), &folders(), None, "rust").unwrap();
    assert_eq!(step_status(&rename, 3), "tag renamed in 3 snippets");
    let delete = modal_step(&ModalAction::DeleteTag { tag: "old".to_owned() }, None, &folders(), None, "rust").unwrap();
    assert_eq!(step_status(&delete, 12), "tag removed from 12 snippets");
    let folder = modal_step(&ModalAction::RenameFolder { path: "a/b".to_owned() }, Some(" a/c "), &folders(), None, "rust").unwrap();
    match &folder {
        ModalStep::RenameFolder { from, to } => assert_eq!((from.as_str(), to.as_str()), ("a/b", "a/c")),
        other => panic!("unexpected step {other:?}"),
    }
    assert_eq!(step_status(&folder, 0), "folder renamed");
    let trash = modal_step(&ModalAction::DeleteSnippet { id: ID }, None, &folders(), None, "rust").unwrap();
    assert_eq!(step_status(&trash, 0), "snippet moved to trash");
    assert_eq!(step_status(&ModalStep::ForceSave, 0), "");
}

fn input(text: &str, cursor: usize) -> ModalState {
    ModalState::Input { value: text.chars().collect(), cursor }
}

fn text_of(state: &ModalState) -> (String, usize) {
    match state {
        ModalState::Input { value, cursor } => (value.iter().collect(), *cursor),
        other => panic!("not a text field: {other:?}"),
    }
}

#[test]
fn text_fields_edit_at_the_cursor() {
    let typed = modal_key(&input("ac", 1), KeyInput::Char { c: 'b', plain: true }, 0);
    assert_eq!((text_of(&typed.0), typed.1), (("abc".to_owned(), 2), ModalOutcome::Stay));
    let held = modal_key(&input("ac", 1), KeyInput::Char { c: 'b', plain: false }, 0);
    assert_eq!(text_of(&held.0), ("ac".to_owned(), 1));
    assert_eq!(text_of(&modal_key(&input("abc", 2), KeyInput::Backspace, 0).0), ("ac".to_owned(), 1));
    assert_eq!(text_of(&modal_key(&input("abc", 0), KeyInput::Backspace, 0).0), ("abc".to_owned(), 0));
    assert_eq!(text_of(&modal_key(&input("abc", 1), KeyInput::Delete, 0).0), ("ac".to_owned(), 1));
    assert_eq!(text_of(&modal_key(&input("abc", 3), KeyInput::Delete, 0).0), ("abc".to_owned(), 3));
    assert_eq!(text_of(&modal_key(&input("abc", 3), KeyInput::Right, 0).0).1, 3);
    assert_eq!(text_of(&modal_key(&input("abc", 0), KeyInput::Left, 0).0).1, 0);
    assert_eq!(text_of(&modal_key(&input("abc", 1), KeyInput::End, 0).0).1, 3);
    assert_eq!(text_of(&modal_key(&input("abc", 2), KeyInput::Home, 0).0).1, 0);
    assert_eq!(modal_key(&input("abc", 2), KeyInput::Enter, 0).1, ModalOutcome::Submit);
    assert_eq!(modal_key(&input("abc", 2), KeyInput::Esc, 0).1, ModalOutcome::Cancel);
}

#[test]
fn questions_answer_to_y_and_n() {
    for (key, outcome) in [
        (KeyInput::Char { c: 'y', plain: true }, ModalOutcome::Submit),
        (KeyInput::Char { c: 'Y', plain: true }, ModalOutcome::Submit),
        (KeyInput::Enter, ModalOutcome::Submit),
        (KeyInput::Char { c: 'n', plain: true }, ModalOutcome::Cancel),
        (KeyInput::Char { c: 'N', plain: false }, ModalOutcome::Cancel),
        (KeyInput::Esc, ModalOutcome::Cancel),
        (KeyInput::Char { c: 'x', plain: true }, ModalOutcome::Stay),
        (KeyInput::Down, ModalOutcome::Stay),
    ] {
        assert_eq!(modal_key(&ModalState::Confirm, key, 0).1, outcome);
    }
}

fn picker_of(state: &ModalState) -> (String, usize, bool) {
    match state {
        ModalState::Picker { filter, selected, error } => (filter.iter().collect(), *selected, *error),
        other => panic!("not a picker: {other:?}"),
    }
}

#[test]
fn pickers_move_filter_and_stay_on_their_rows() {
    let picker = ModalState::Picker { filter: vec!['r'], selected: 1, error: true };
    assert_eq!(picker_of(&modal_key(&picker, KeyInput::Down, 3).0), ("r".to_owned(), 2, true));
    assert_eq!(picker_of(&modal_key(&picker, KeyInput::Char { c: 'j', plain: true }, 2).0), ("r".to_owned(), 1, true));
    assert_eq!(picker_of(&modal_key(&picker, KeyInput::Char { c: 'k', plain: true }, 3).0), ("r".to_owned(), 0, true));
    assert_eq!(picker_of(&modal_key(&picker, KeyInput::End, 5).0), ("r".to_owned(), 4, true));
    assert_eq!(picker_of(&modal_key(&picker, KeyInput::End, 0).0), ("r".to_owned(), 0, true));
    assert_eq!(picker_of(&modal_key(&picker, KeyInput::Char { c: 'u', plain: true }, 3).0), ("ru".to_owned(), 0, false));
    assert_eq!(picker_of(&modal_key(&picker, KeyInput::Backspace, 3).0), ("".to_owned(), 1, false));
    assert_eq!(clamp_selected(4, 2), 1);
    assert_eq!(clamp_selected(1, 2), 1);
    assert_eq!(clamp_selected(3, 0), 0);
}

#[test]
fn dismissing_a_newer_version_question_discards_the_edit() {
    assert_eq!(cancel_status(&ModalAction::ForceEdit), "edited content discarded");
    assert_eq!(cancel_status(&ModalAction::CreateTitle), "");
}

#[test]
fn confirmed_dialogs_hand_on_their_text() {
    assert_eq!(submitted_value(&input("abc", 1), None), Ok(Some("abc".to_owned())));
    assert_eq!(submitted_value(&ModalState::Confirm, Some("x")), Ok(None));
    let picker = ModalState::Picker { filter: vec!['z'], selected: 0, error: false };
    assert_eq!(submitted_value(&picker, Some("rust")), Ok(Some("rust".to_owned())));
    assert_eq!(submitted_value(&picker, None), Err("no matching item".to_owned()));
}
