use notetui::editor::EditorState;
use notetui::keys::{
    action_for_key, allowed_while_editing, apply_editor_command, command_edits_text,
    editor_command_for_key, overlay_command_for_key, overlay_kind, search_command_for_key, Action,
    EditorCommand, Key, KeyPress, OverlayCommand, OverlayKind, SearchCommand,
};
use notetui::notes::NoteRecord;
use notetui::state::{AppState, BulkTrashAction};

fn plain(key: Key) -> KeyPress {
    KeyPress { key, control: false, alt: false, logo: false }
}

fn control(key: Key) -> KeyPress {
    KeyPress { key, control: true, alt: false, logo: false }
}

fn alt(key: Key) -> KeyPress {
    KeyPress { key, control: false, alt: true, logo: false }
}

#[test]
fn keys_of_the_list() {
    assert_eq!(action_for_key(plain(Key::Char('q'))), Some(Action::Quit));
    assert_eq!(action_for_key(control(Key::Char('c'))), Some(Action::Quit));
    assert_eq!(action_for_key(plain(Key::Char('c'))), None);
    assert_eq!(action_for_key(plain(Key::Char('j'))), Some(Action::SelectNext));
    assert_eq!(action_for_key(plain(Key::Down)), Some(Action::SelectNext));
    assert_eq!(action_for_key(plain(Key::Char('k'))), Some(Action::SelectPrevious));
    assert_eq!(action_for_key(plain(Key::Up)), Some(Action::SelectPrevious));
    assert_eq!(action_for_key(plain(Key::Tab)), Some(Action::ToggleFocus));
    assert_eq!(action_for_key(control(Key::Char('r'))), Some(Action::Refresh));
    assert_eq!(action_for_key(plain(Key::Char('r'))), Some(Action::RenameNote));
    assert_eq!(action_for_key(alt(Key::Char('r'))), None);
    assert_eq!(action_for_key(plain(Key::Char('a'))), Some(Action::NewNote));
    assert_eq!(action_for_key(plain(Key::Char('e'))), Some(Action::EnterEdit));
    assert_eq!(action_for_key(plain(Key::Char('p'))), Some(Action::TogglePin));
    assert_eq!(action_for_key(plain(Key::Char('d'))), Some(Action::DeleteNote));
    assert_eq!(action_for_key(plain(Key::Char('R'))), Some(Action::ToggleRegex));
    assert_eq!(action_for_key(alt(Key::Char('T'))), Some(Action::ToggleTrashView));
    assert_eq!(action_for_key(plain(Key::Char('u'))), Some(Action::RestoreNote));
    assert_eq!(action_for_key(plain(Key::Char('W'))), Some(Action::ToggleWrap));
    assert_eq!(action_for_key(plain(Key::Char('t'))), Some(Action::ShowTagEditor));
    assert_eq!(action_for_key(plain(Key::Char('A'))), Some(Action::ToggleArchive));
    assert_eq!(action_for_key(control(Key::Char('s'))), Some(Action::ManualSave));
    assert_eq!(action_for_key(plain(Key::Char('s'))), None);
    assert_eq!(action_for_key(plain(Key::Char('/'))), Some(Action::StartSearch));
    assert_eq!(action_for_key(plain(Key::Other)), None);
    assert!(allowed_while_editing(Action::ManualSave));
    assert!(allowed_while_editing(Action::Quit));
    assert!(allowed_while_editing(Action::ToggleWrap));
    assert!(!allowed_while_editing(Action::NewNote));
}

#[test]
fn keys_of_the_search_line() {
    assert_eq!(search_command_for_key(plain(Key::Esc)), Some(SearchCommand::Cancel));
    assert_eq!(search_command_for_key(plain(Key::Enter)), Some(SearchCommand::Finish));
    assert_eq!(search_command_for_key(plain(Key::Backspace)), Some(SearchCommand::Erase));
    assert_eq!(search_command_for_key(plain(Key::Char('q'))), Some(SearchCommand::Type('q')));
    assert_eq!(search_command_for_key(control(Key::Char('q'))), None);
    assert_eq!(search_command_for_key(plain(Key::Down)), None);
}

#[test]
fn keys_of_the_editor() {
    assert_eq!(editor_command_for_key(control(Key::Char('s'))), Some(EditorCommand::Save));
    assert_eq!(editor_command_for_key(control(Key::Char('z'))), Some(EditorCommand::Undo));
    assert_eq!(editor_command_for_key(control(Key::Char('y'))), Some(EditorCommand::Redo));
    assert_eq!(editor_command_for_key(control(Key::Left)), Some(EditorCommand::WordLeft));
    assert_eq!(editor_command_for_key(control(Key::Right)), Some(EditorCommand::WordRight));
    assert_eq!(editor_command_for_key(control(Key::Up)), Some(EditorCommand::Up));
    assert_eq!(editor_command_for_key(control(Key::Char('x'))), None);
    assert_eq!(editor_command_for_key(plain(Key::Esc)), Some(EditorCommand::Exit));
    assert_eq!(editor_command_for_key(plain(Key::Enter)), Some(EditorCommand::Newline));
    assert_eq!(editor_command_for_key(plain(Key::Backspace)), Some(EditorCommand::Backspace));
    assert_eq!(editor_command_for_key(plain(Key::Delete)), Some(EditorCommand::Delete));
    assert_eq!(editor_command_for_key(plain(Key::Tab)), Some(EditorCommand::Insert('\t')));
    assert_eq!(editor_command_for_key(plain(Key::Char('s'))), Some(EditorCommand::Insert('s')));
    assert_eq!(editor_command_for_key(plain(Key::Left)), Some(EditorCommand::Left));
    assert_eq!(editor_command_for_key(plain(Key::Home)), Some(EditorCommand::Home));
    assert_eq!(editor_command_for_key(plain(Key::End)), Some(EditorCommand::End));
    assert_eq!(editor_command_for_key(plain(Key::PageUp)), None);
    assert!(command_edits_text(EditorCommand::Insert('a')));
    assert!(command_edits_text(EditorCommand::Undo));
    assert!(!command_edits_text(EditorCommand::Left));
    assert!(!command_edits_text(EditorCommand::Save));
}

#[test]
fn editor_commands_are_carried_out() {
    let mut editor = EditorState::new(1, "ab cd".to_string());
    assert!(editor.is_well_formed());
    assert!(!apply_editor_command(&mut editor, EditorCommand::Save));
    assert!(!apply_editor_command(&mut editor, EditorCommand::Exit));
    assert!(apply_editor_command(&mut editor, EditorCommand::WordLeft));
    assert_eq!(editor.cursor(), 3);
    assert!(apply_editor_command(&mut editor, EditorCommand::Insert('x')));
    assert!(apply_editor_command(&mut editor, EditorCommand::Newline));
    assert_eq!(editor.buffer(), "ab x\ncd");
    assert!(apply_editor_command(&mut editor, EditorCommand::Up));
    assert_eq!(editor.cursor(), 0);
    assert!(apply_editor_command(&mut editor, EditorCommand::End));
    assert!(apply_editor_command(&mut editor, EditorCommand::Backspace));
    assert!(apply_editor_command(&mut editor, EditorCommand::Home));
    assert!(apply_editor_command(&mut editor, EditorCommand::Delete));
    assert!(apply_editor_command(&mut editor, EditorCommand::Right));
    assert!(apply_editor_command(&mut editor, EditorCommand::Left));
    assert!(apply_editor_command(&mut editor, EditorCommand::WordRight));
    assert!(apply_editor_command(&mut editor, EditorCommand::Down));
    assert_eq!(editor.buffer(), "b \ncd");
    assert!(apply_editor_command(&mut editor, EditorCommand::Undo));
    assert!(apply_editor_command(&mut editor, EditorCommand::Redo));
    assert!(editor.is_well_formed());
    editor.cursor = 99;
    assert!(!editor.is_well_formed());
    editor.cursor = 0;
    editor.buffer.push('!');
    assert!(!editor.is_well_formed());
}

#[test]
fn keys_of_the_overlays() {
    for kind in [OverlayKind::NewNote, OverlayKind::RenameNote, OverlayKind::TagInput] {
        assert_eq!(overlay_command_for_key(kind, plain(Key::Esc)), OverlayCommand::Cancel);
        assert_eq!(overlay_command_for_key(kind, plain(Key::Enter)), OverlayCommand::Submit);
        assert_eq!(overlay_command_for_key(kind, plain(Key::Backspace)), OverlayCommand::Erase);
        assert_eq!(overlay_command_for_key(kind, plain(Key::Char('y'))), OverlayCommand::Type('y'));
        assert_eq!(overlay_command_for_key(kind, control(Key::Char('y'))), OverlayCommand::Ignore);
        assert_eq!(overlay_command_for_key(kind, plain(Key::Up)), OverlayCommand::Ignore);
    }
    for kind in [OverlayKind::DeleteNote, OverlayKind::BulkTrash, OverlayKind::TagConfirmDelete] {
        assert_eq!(overlay_command_for_key(kind, plain(Key::Esc)), OverlayCommand::Cancel);
        assert_eq!(overlay_command_for_key(kind, plain(Key::Char('n'))), OverlayCommand::Cancel);
        assert_eq!(overlay_command_for_key(kind, plain(Key::Enter)), OverlayCommand::Submit);
        assert_eq!(overlay_command_for_key(kind, plain(Key::Char('y'))), OverlayCommand::Submit);
        assert_eq!(overlay_command_for_key(kind, plain(Key::Char('x'))), OverlayCommand::Ignore);
    }
    let browse = |press| overlay_command_for_key(OverlayKind::TagBrowse, press);
    assert_eq!(browse(plain(Key::Esc)), OverlayCommand::Cancel);
    assert_eq!(browse(plain(Key::Enter)), OverlayCommand::Submit);
    assert_eq!(browse(plain(Key::Char('a'))), OverlayCommand::Add);
    assert_eq!(browse(plain(Key::Char(' '))), OverlayCommand::Toggle);
    assert_eq!(browse(plain(Key::Char('v'))), OverlayCommand::Mark);
    assert_eq!(browse(plain(Key::Char('r'))), OverlayCommand::Rename);
    assert_eq!(browse(plain(Key::Char('m'))), OverlayCommand::Merge);
    assert_eq!(browse(plain(Key::Char('M'))), OverlayCommand::MergeMarked);
    assert_eq!(browse(plain(Key::Char('x'))), OverlayCommand::Delete);
    assert_eq!(browse(plain(Key::Char('1'))), OverlayCommand::Suggest(0));
    assert_eq!(browse(plain(Key::Char('9'))), OverlayCommand::Suggest(8));
    assert_eq!(browse(plain(Key::Char('0'))), OverlayCommand::Ignore);
    assert_eq!(browse(control(Key::Char('1'))), OverlayCommand::Ignore);
    assert_eq!(browse(control(Key::Char('j'))), OverlayCommand::Move(1));
    assert_eq!(browse(plain(Key::Down)), OverlayCommand::Move(1));
    assert_eq!(browse(plain(Key::Char('k'))), OverlayCommand::Move(-1));
    assert_eq!(browse(plain(Key::Up)), OverlayCommand::Move(-1));
    assert_eq!(browse(plain(Key::PageDown)), OverlayCommand::Move(5));
    assert_eq!(browse(plain(Key::PageUp)), OverlayCommand::Move(-5));
    assert_eq!(browse(control(Key::Char('a'))), OverlayCommand::Ignore);
    let recovery = |press| overlay_command_for_key(OverlayKind::Recovery, press);
    assert_eq!(recovery(plain(Key::Esc)), OverlayCommand::Cancel);
    assert_eq!(recovery(plain(Key::Enter)), OverlayCommand::Submit);
    assert_eq!(recovery(plain(Key::Char('d'))), OverlayCommand::Discard);
    assert_eq!(recovery(plain(Key::Char('D'))), OverlayCommand::DiscardAll);
    assert_eq!(recovery(plain(Key::Char('j'))), OverlayCommand::Move(1));
    assert_eq!(recovery(plain(Key::Up)), OverlayCommand::Move(-1));
    assert_eq!(recovery(plain(Key::Char('x'))), OverlayCommand::Ignore);
}

#[test]
fn overlays_have_their_kinds() {
    let record = NoteRecord {
        id: 1,
        title: "One".to_string(),
        body: String::new(),
        snippet: None,
        created_at: 0,
        updated_at: 0,
        pinned: false,
        archived: false,
        tags: vec!["a".to_string()],
        deleted_at: None,
    };
    let mut state = AppState::load(vec![record], 1, 30, 0);
    state.open_new_note();
    assert_eq!(overlay_kind(state.overlay().unwrap()), OverlayKind::NewNote);
    state.open_rename_note();
    assert_eq!(overlay_kind(state.overlay().unwrap()), OverlayKind::RenameNote);
    state.open_delete_note();
    assert_eq!(overlay_kind(state.overlay().unwrap()), OverlayKind::DeleteNote);
    state.open_bulk_trash_overlay(BulkTrashAction::RestoreAll);
    assert_eq!(overlay_kind(state.overlay().unwrap()), OverlayKind::BulkTrash);
    state.open_tag_editor(&Vec::new());
    assert_eq!(overlay_kind(state.overlay().unwrap()), OverlayKind::TagBrowse);
    state.tag_editor_begin_add();
    assert_eq!(overlay_kind(state.overlay().unwrap()), OverlayKind::TagInput);
    state.tag_editor_cancel_input();
    state.tag_editor_begin_delete();
    assert_eq!(overlay_kind(state.overlay().unwrap()), OverlayKind::TagConfirmDelete);
}
