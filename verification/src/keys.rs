//! What a key means: in the list, in the search line, in the editor, and
//! in an overlay.

use crate::editor::{EditorState, EditorView};
use crate::state::{OverlayState, TagEditorMode};
use vstd::prelude::*;

verus! {

/// A key of the keyboard.
#[derive(Debug, Clone, Copy, PartialEq, Eq, Structural)]
pub enum Key {
    Char(char),
    Enter,
    Esc,
    Backspace,
    Delete,
    Tab,
    Up,
    Down,
    Left,
    Right,
    Home,
    End,
    PageUp,
    PageDown,
    Other,
}

/// A key as it was pressed, with the modifiers held.
#[derive(Debug, Clone, Copy, PartialEq, Eq, Structural)]
pub struct KeyPress {
    pub key: Key,
    pub control: bool,
    pub alt: bool,
    pub logo: bool,
}

impl KeyPress {
    /// No modifier that changes the meaning of a letter is held.
    pub open spec fn plain(self) -> bool {
        !self.control && !self.alt && !self.logo
    }
}

/// What a key asks of the list.
#[derive(Debug, Clone, Copy, PartialEq, Eq, Structural)]
pub enum Action {
    Quit,
    SelectNext,
    SelectPrevious,
    ToggleFocus,
    Refresh,
    NewNote,
    RenameNote,
    EnterEdit,
    StartSearch,
    TogglePin,
    ToggleArchive,
    DeleteNote,
    ToggleRegex,
    ToggleTrashView,
    RestoreNote,
    ShowTagEditor,
    ToggleWrap,
    ManualSave,
}

/// What the key asks of the list; nothing for a key without a meaning.
pub open spec fn action_of(press: KeyPress) -> Option<Action> {
    match press.key {
        Key::Char('q') => Some(Action::Quit),
        Key::Char('c') if press.control => Some(Action::Quit),
        Key::Char('j') => Some(Action::SelectNext),
        Key::Down => Some(Action::SelectNext),
        Key::Char('k') => Some(Action::SelectPrevious),
        Key::Up => Some(Action::SelectPrevious),
        Key::Tab => Some(Action::ToggleFocus),
        Key::Char('r') if press.control => Some(Action::Refresh),
        Key::Char('a') if press.plain() => Some(Action::NewNote),
        Key::Char('r') if press.plain() => Some(Action::RenameNote),
        Key::Char('e') if press.plain() => Some(Action::EnterEdit),
        Key::Char('p') if press.plain() => Some(Action::TogglePin),
        Key::Char('d') if press.plain() => Some(Action::DeleteNote),
        Key::Char('R') if press.plain() => Some(Action::ToggleRegex),
        Key::Char('T') => Some(Action::ToggleTrashView),
        Key::Char('u') if press.plain() => Some(Action::RestoreNote),
        Key::Char('W') => Some(Action::ToggleWrap),
        Key::Char('t') if press.plain() => Some(Action::ShowTagEditor),
        Key::Char('A') => Some(Action::ToggleArchive),
        Key::Char('s') if press.control => Some(Action::ManualSave),
        Key::Char('/') if press.plain() => Some(Action::StartSearch),
        _ => None,
    }
}

/// Reads the key as an action on the list.
pub fn action_for_key(press: KeyPress) -> (action: Option<Action>)
    ensures
        action == action_of(press),
{
    let plain = !press.control && !press.alt && !press.logo;
    match press.key {
        Key::Char('q') => Some(Action::Quit),
        Key::Char('c') if press.control => Some(Action::Quit),
        Key::Char('j') => Some(Action::SelectNext),
        Key::Down => Some(Action::SelectNext),
        Key::Char('k') => Some(Action::SelectPrevious),
        Key::Up => Some(Action::SelectPrevious),
        Key::Tab => Some(Action::ToggleFocus),
        Key::Char('r') if press.control => Some(Action::Refresh),
        Key::Char('a') if plain => Some(Action::NewNote),
        Key::Char('r') if plain => Some(Action::RenameNote),
        Key::Char('e') if plain => Some(Action::EnterEdit),
        Key::Char('p') if plain => Some(Action::TogglePin),
        Key::Char('d') if plain => Some(Action::DeleteNote),
        Key::Char('R') if plain => Some(Action::ToggleRegex),
        Key::Char('T') => Some(Action::ToggleTrashView),
        Key::Char('u') if plain => Some(Action::RestoreNote),
        Key::Char('W') => Some(Action::ToggleWrap),
        Key::Char('t') if plain => Some(Action::ShowTagEditor),
        Key::Char('A') => Some(Action::ToggleArchive),
        Key::Char('s') if press.control => Some(Action::ManualSave),
        Key::Char('/') if plain => Some(Action::StartSearch),
        _ => None,
    }
}

/// Whether the action may be carried out while a note is edited: saving,
/// quitting, and switching the wrapping of lines.
pub fn allowed_while_editing(action: Action) -> (allowed: bool)
    ensures
        allowed == (action == Action::ManualSave || action == Action::Quit || action
            == Action::ToggleWrap),
{
    match action {
        Action::ManualSave => true,
        Action::Quit => true,
        Action::ToggleWrap => true,
        _ => false,
    }
}

/// What a key asks of the search line.
#[derive(Debug, Clone, Copy, PartialEq, Eq, Structural)]
pub enum SearchCommand {
    Cancel,
    Finish,
    Erase,
    Type(char),
}

/// What the key asks of the open search line; nothing for a key that the
/// line leaves to the list.
pub open spec fn search_command_of(press: KeyPress) -> Option<SearchCommand> {
    match press.key {
        Key::Esc => Some(SearchCommand::Cancel),
        Key::Enter => Some(SearchCommand::Finish),
        Key::Backspace => Some(SearchCommand::Erase),
        Key::Char(ch) if press.plain() => Some(SearchCommand::Type(ch)),
        _ => None,
    }
}

/// Reads the key as a command to the open search line.
pub fn search_command_for_key(press: KeyPress) -> (command: Option<SearchCommand>)
    ensures
        command == search_command_of(press),
{
    let plain = !press.control && !press.alt && !press.logo;
    match press.key {
        Key::Esc => Some(SearchCommand::Cancel),
        Key::Enter => Some(SearchCommand::Finish),
        Key::Backspace => Some(SearchCommand::Erase),
        Key::Char(ch) if plain => Some(SearchCommand::Type(ch)),
        _ => None,
    }
}

/// What a key asks of the editor.
#[derive(Debug, Clone, Copy, PartialEq, Eq, Structural)]
pub enum EditorCommand {
    Save,
    Undo,
    Redo,
    WordLeft,
    WordRight,
    Exit,
    Newline,
    Backspace,
    Delete,
    Insert(char),
    Left,
    Right,
    Up,
    Down,
    Home,
    End,
}

/// What the key asks of the editor; nothing for a key that the editor
/// leaves to the list. With the control key, `s`, `z`, `y` and the arrows
/// to the left and to the right have their own meaning.
pub open spec fn editor_command_of(press: KeyPress) -> Option<EditorCommand> {
    if press.control && press.key == Key::Char('s') {
        Some(EditorCommand::Save)
    } else if press.control && press.key == Key::Char('z') {
        Some(EditorCommand::Undo)
    } else if press.control && press.key == Key::Char('y') {
        Some(EditorCommand::Redo)
    } else if press.control && press.key == Key::Left {
        Some(EditorCommand::WordLeft)
    } else if press.control && press.key == Key::Right {
        Some(EditorCommand::WordRight)
    } else {
        match press.key {
            Key::Esc => Some(EditorCommand::Exit),
            Key::Enter => Some(EditorCommand::Newline),
            Key::Backspace => Some(EditorCommand::Backspace),
            Key::Delete => Some(EditorCommand::Delete),
            Key::Tab => Some(EditorCommand::Insert('\t')),
            Key::Char(ch) if press.plain() => Some(EditorCommand::Insert(ch)),
            Key::Left => Some(EditorCommand::Left),
            Key::Right => Some(EditorCommand::Right),
            Key::Up => Some(EditorCommand::Up),
            Key::Down => Some(EditorCommand::Down),
            Key::Home => Some(EditorCommand::Home),
            Key::End => Some(EditorCommand::End),
            _ => None,
        }
    }
}

/// Reads the key as a command to the editor.
pub fn editor_command_for_key(press: KeyPress) -> (command: Option<EditorCommand>)
    ensures
        command == editor_command_of(press),
{
    let plain = !press.control && !press.alt && !press.logo;
    if press.control {
        match press.key {
            Key::Char('s') => {
                return Some(EditorCommand::Save);
            },
            Key::Char('z') => {
                return Some(EditorCommand::Undo);
            },
            Key::Char('y') => {
                return Some(EditorCommand::Redo);
            },
            Key::Left => {
                return Some(EditorCommand::WordLeft);
            },
            Key::Right => {
                return Some(EditorCommand::WordRight);
            },
            _ => {},
        }
    }
    match press.key {
        Key::Esc => Some(EditorCommand::Exit),
        Key::Enter => Some(EditorCommand::Newline),
        Key::Backspace => Some(EditorCommand::Backspace),
        Key::Delete => Some(EditorCommand::Delete),
        Key::Tab => Some(EditorCommand::Insert('\t')),
        Key::Char(ch) if plain => Some(EditorCommand::Insert(ch)),
        Key::Left => Some(EditorCommand::Left),
        Key::Right => Some(EditorCommand::Right),
        Key::Up => Some(EditorCommand::Up),
        Key::Down => Some(EditorCommand::Down),
        Key::Home => Some(EditorCommand::Home),
        Key::End => Some(EditorCommand::End),
        _ => None,
    }
}

/// Whether the command changes the text of the editor where it does
/// anything, so that the list and the journal have to follow.
pub open spec fn edits_text(command: EditorCommand) -> bool {
    match command {
        EditorCommand::Newline => true,
        EditorCommand::Backspace => true,
        EditorCommand::Delete => true,
        EditorCommand::Insert(_) => true,
        EditorCommand::Undo => true,
        EditorCommand::Redo => true,
        _ => false,
    }
}

/// Tells whether the command changes the text of the editor where it does
/// anything.
pub fn command_edits_text(command: EditorCommand) -> (edits: bool)
    ensures
        edits == edits_text(command),
{
    match command {
        EditorCommand::Newline => true,
        EditorCommand::Backspace => true,
        EditorCommand::Delete => true,
        EditorCommand::Insert(_) => true,
        EditorCommand::Undo => true,
        EditorCommand::Redo => true,
        _ => false,
    }
}

/// The state of the editor after the command; saving and leaving are not
/// the editor's to do and change nothing.
pub open spec fn commanded(editor: EditorView, command: EditorCommand) -> EditorView {
    match command {
        EditorCommand::Save => editor,
        EditorCommand::Exit => editor,
        EditorCommand::Undo => editor.undone(),
        EditorCommand::Redo => editor.redone(),
        EditorCommand::Newline => editor.inserted('\n', Some(0int)),
        EditorCommand::Backspace => editor.backspaced(),
        EditorCommand::Delete => editor.deleted(),
        EditorCommand::Insert(ch) => editor.inserted(ch, None),
        EditorCommand::WordLeft => if editor.cursor == 0 {
            editor
        } else {
            EditorView {
                cursor: crate::editor::word_left_target(editor.text, editor.cursor),
                preferred_column: None,
                ..editor
            }
        },
        EditorCommand::WordRight => if editor.cursor >= crate::text::byte_len(editor.text) {
            editor
        } else {
            EditorView {
                cursor: crate::editor::word_right_target(editor.text, editor.cursor),
                preferred_column: None,
                ..editor
            }
        },
        EditorCommand::Left => editor.moved(
            crate::text::prev_boundary(editor.text, editor.cursor),
            None,
        ),
        EditorCommand::Right => editor.moved(
            crate::text::next_boundary(editor.text, editor.cursor),
            None,
        ),
        EditorCommand::Up => editor.moved(editor.up_target(), Some(editor.target_column())),
        EditorCommand::Down => editor.moved(editor.down_target(), Some(editor.target_column())),
        EditorCommand::Home => editor.moved(
            crate::text::line_start_of(editor.text, editor.cursor),
            Some(0int),
        ),
        EditorCommand::End => editor.moved(
            crate::text::line_end_of(editor.text, editor.cursor),
            Some(editor.end_column()),
        ),
    }
}

/// Whether the command does anything to the editor in the state `editor`:
/// an insertion always; a deletion, a step and a word jump unless the cursor
/// stands at the end they go towards; undo and redo unless the history ends
/// there; any other motion where it moves the cursor; saving and leaving
/// never.
pub open spec fn acts(editor: EditorView, command: EditorCommand) -> bool {
    match command {
        EditorCommand::Save => false,
        EditorCommand::Exit => false,
        EditorCommand::Undo => editor.index != 0,
        EditorCommand::Redo => editor.index + 1 < editor.history.len(),
        EditorCommand::Newline => true,
        EditorCommand::Insert(_) => true,
        EditorCommand::Backspace => editor.cursor != 0,
        EditorCommand::WordLeft => editor.cursor != 0,
        EditorCommand::Left => editor.cursor != 0,
        EditorCommand::Delete => editor.cursor < crate::text::byte_len(editor.text),
        EditorCommand::WordRight => editor.cursor < crate::text::byte_len(editor.text),
        EditorCommand::Right => editor.cursor < crate::text::byte_len(editor.text),
        EditorCommand::Up => commanded(editor, command).cursor != editor.cursor,
        EditorCommand::Down => commanded(editor, command).cursor != editor.cursor,
        EditorCommand::Home => commanded(editor, command).cursor != editor.cursor,
        EditorCommand::End => commanded(editor, command).cursor != editor.cursor,
    }
}

/// Carries the command out on the editor and tells whether it did
/// anything.
pub fn apply_editor_command(editor: &mut EditorState, command: EditorCommand) -> (changed: bool)
    requires
        old(editor)@.wf(),
    ensures
        final(editor)@.wf(),
        final(editor)@ == commanded(old(editor)@, command),
        changed == acts(old(editor)@, command),
{
    match command {
        EditorCommand::Save => false,
        EditorCommand::Exit => false,
        EditorCommand::Undo => editor.undo(),
        EditorCommand::Redo => editor.redo(),
        EditorCommand::Newline => editor.insert_newline(),
        EditorCommand::Backspace => editor.backspace(),
        EditorCommand::Delete => editor.delete(),
        EditorCommand::Insert(ch) => editor.insert_char(ch),
        EditorCommand::WordLeft => editor.move_word_left(),
        EditorCommand::WordRight => editor.move_word_right(),
        EditorCommand::Left => editor.move_left(),
        EditorCommand::Right => editor.move_right(),
        EditorCommand::Up => editor.move_up(),
        EditorCommand::Down => editor.move_down(),
        EditorCommand::Home => editor.move_home(),
        EditorCommand::End => editor.move_end(),
    }
}

/// The kinds of overlay, as far as keys tell them apart.
#[derive(Debug, Clone, Copy, PartialEq, Eq, Structural)]
pub enum OverlayKind {
    NewNote,
    RenameNote,
    DeleteNote,
    BulkTrash,
    TagBrowse,
    TagInput,
    TagConfirmDelete,
    Recovery,
}

/// The kind of the overlay.
pub open spec fn kind_of_overlay(overlay: OverlayState) -> OverlayKind {
    match overlay {
        OverlayState::NewNote(_) => OverlayKind::NewNote,
        OverlayState::RenameNote(_) => OverlayKind::RenameNote,
        OverlayState::DeleteNote(_) => OverlayKind::DeleteNote,
        OverlayState::BulkTrash(_) => OverlayKind::BulkTrash,
        OverlayState::Recovery(_) => OverlayKind::Recovery,
        OverlayState::TagEditor(editor) => match editor.mode {
            TagEditorMode::Browse => OverlayKind::TagBrowse,
            TagEditorMode::Input(_) => OverlayKind::TagInput,
            TagEditorMode::ConfirmDelete { .. } => OverlayKind::TagConfirmDelete,
        },
    }
}

/// Tells the kind of the overlay.
pub fn overlay_kind(overlay: &OverlayState) -> (kind: OverlayKind)
    ensures
        kind == kind_of_overlay(*overlay),
{
    match overlay {
        OverlayState::NewNote(_) => OverlayKind::NewNote,
        OverlayState::RenameNote(_) => OverlayKind::RenameNote,
        OverlayState::DeleteNote(_) => OverlayKind::DeleteNote,
        OverlayState::BulkTrash(_) => OverlayKind::BulkTrash,
        OverlayState::Recovery(_) => OverlayKind::Recovery,
        OverlayState::TagEditor(editor) => match &editor.mode {
            TagEditorMode::Browse => OverlayKind::TagBrowse,
            TagEditorMode::Input(_) => OverlayKind::TagInput,
            TagEditorMode::ConfirmDelete { .. } => OverlayKind::TagConfirmDelete,
        },
    }
}

/// What a key asks of an overlay.
#[derive(Debug, Clone, Copy, PartialEq, Eq, Structural)]
pub enum OverlayCommand {
    /// The key means nothing here.
    Ignore,
    /// Close the overlay and drop what was in it.
    Cancel,
    /// Carry out what the overlay is for.
    Submit,
    /// Take the last character of the text back.
    Erase,
    /// Take a character into the text.
    Type(char),
    /// Move the selection.
    Move(isize),
    /// Switch the selected entry on or off.
    Toggle,
    /// Mark the selected entry.
    Mark,
    /// Open the input for a new entry.
    Add,
    /// Open the input for a new name of the selected entry.
    Rename,
    /// Open the input for the target of a merge of the selected entry.
    Merge,
    /// Open the input for the target of a merge of the marked entries.
    MergeMarked,
    /// Ask whether the selected entry is to be deleted.
    Delete,
    /// Take the suggestion at the index.
    Suggest(usize),
    /// Discard the selected entry.
    Discard,
    /// Discard all entries.
    DiscardAll,
}

/// The index of the suggestion that a digit from 1 to 9 stands for.
pub open spec fn suggestion_of(ch: char) -> Option<usize> {
    if ch == '1' {
        Some(0usize)
    } else if ch == '2' {
        Some(1usize)
    } else if ch == '3' {
        Some(2usize)
    } else if ch == '4' {
        Some(3usize)
    } else if ch == '5' {
        Some(4usize)
    } else if ch == '6' {
        Some(5usize)
    } else if ch == '7' {
        Some(6usize)
    } else if ch == '8' {
        Some(7usize)
    } else if ch == '9' {
        Some(8usize)
    } else {
        None
    }
}

fn suggestion_index(ch: char) -> (index: Option<usize>)
    ensures
        index == suggestion_of(ch),
{
    if ch == '1' {
        Some(0)
    } else if ch == '2' {
        Some(1)
    } else if ch == '3' {
        Some(2)
    } else if ch == '4' {
        Some(3)
    } else if ch == '5' {
        Some(4)
    } else if ch == '6' {
        Some(5)
    } else if ch == '7' {
        Some(6)
    } else if ch == '8' {
        Some(7)
    } else if ch == '9' {
        Some(8)
    } else {
        None
    }
}

/// The most bytes that the title of a note takes in its draft.
pub const MAX_TITLE_BYTES: usize = 120;

/// What the key asks of an overlay of the kind `kind`.
pub open spec fn overlay_command_of(kind: OverlayKind, press: KeyPress) -> OverlayCommand {
    match kind {
        OverlayKind::NewNote => text_command_of(press),
        OverlayKind::RenameNote => text_command_of(press),
        OverlayKind::TagInput => text_command_of(press),
        OverlayKind::DeleteNote => confirm_command_of(press),
        OverlayKind::BulkTrash => confirm_command_of(press),
        OverlayKind::TagConfirmDelete => confirm_command_of(press),
        OverlayKind::TagBrowse => match press.key {
            Key::Esc => OverlayCommand::Cancel,
            Key::Enter => OverlayCommand::Submit,
            Key::Char('a') if press.plain() => OverlayCommand::Add,
            Key::Char(' ') if press.plain() => OverlayCommand::Toggle,
            Key::Char('v') if press.plain() => OverlayCommand::Mark,
            Key::Char('r') if press.plain() => OverlayCommand::Rename,
            Key::Char('m') if press.plain() => OverlayCommand::Merge,
            Key::Char('M') if press.plain() => OverlayCommand::MergeMarked,
            Key::Char('x') if press.plain() => OverlayCommand::Delete,
            Key::Char(ch) if press.plain() && suggestion_of(ch) is Some => OverlayCommand::Suggest(
                suggestion_of(ch)->0,
            ),
            Key::Char('j') => OverlayCommand::Move(1isize),
            Key::Down => OverlayCommand::Move(1isize),
            Key::Char('k') => OverlayCommand::Move(-1isize),
            Key::Up => OverlayCommand::Move(-1isize),
            Key::PageDown => OverlayCommand::Move(5isize),
            Key::PageUp => OverlayCommand::Move(-5isize),
            _ => OverlayCommand::Ignore,
        },
        OverlayKind::Recovery => match press.key {
            Key::Esc => OverlayCommand::Cancel,
            Key::Enter => OverlayCommand::Submit,
            Key::Char('d') if press.plain() => OverlayCommand::Discard,
            Key::Char('D') if press.plain() => OverlayCommand::DiscardAll,
            Key::Char('j') => OverlayCommand::Move(1isize),
            Key::Down => OverlayCommand::Move(1isize),
            Key::Char('k') => OverlayCommand::Move(-1isize),
            Key::Up => OverlayCommand::Move(-1isize),
            _ => OverlayCommand::Ignore,
        },
    }
}

/// What the key asks of an overlay with a line of text.
pub open spec fn text_command_of(press: KeyPress) -> OverlayCommand {
    match press.key {
        Key::Esc => OverlayCommand::Cancel,
        Key::Enter => OverlayCommand::Submit,
        Key::Backspace => OverlayCommand::Erase,
        Key::Char(ch) if press.plain() => OverlayCommand::Type(ch),
        _ => OverlayCommand::Ignore,
    }
}

/// What the key asks of an overlay with a question.
pub open spec fn confirm_command_of(press: KeyPress) -> OverlayCommand {
    match press.key {
        Key::Esc => OverlayCommand::Cancel,
        Key::Char('n') if press.plain() => OverlayCommand::Cancel,
        Key::Enter => OverlayCommand::Submit,
        Key::Char('y') if press.plain() => OverlayCommand::Submit,
        _ => OverlayCommand::Ignore,
    }
}

/// Reads the key as a command to an overlay of the kind `kind`.
pub fn overlay_command_for_key(kind: OverlayKind, press: KeyPress) -> (command: OverlayCommand)
    ensures
        command == overlay_command_of(kind, press),
{
    let plain = !press.control && !press.alt && !press.logo;
    match kind {
        OverlayKind::NewNote | OverlayKind::RenameNote | OverlayKind::TagInput => match press.key {
            Key::Esc => OverlayCommand::Cancel,
            Key::Enter => OverlayCommand::Submit,
            Key::Backspace => OverlayCommand::Erase,
            Key::Char(ch) if plain => OverlayCommand::Type(ch),
            _ => OverlayCommand::Ignore,
        },
        OverlayKind::DeleteNote | OverlayKind::BulkTrash | OverlayKind::TagConfirmDelete => match press.key {
            Key::Esc => OverlayCommand::Cancel,
            Key::Char('n') if plain => OverlayCommand::Cancel,
            Key::Enter => OverlayCommand::Submit,
            Key::Char('y') if plain => OverlayCommand::Submit,
            _ => OverlayCommand::Ignore,
        },
        OverlayKind::TagBrowse => match press.key {
            Key::Esc => OverlayCommand::Cancel,
            Key::Enter => OverlayCommand::Submit,
            Key::Char('a') if plain => OverlayCommand::Add,
            Key::Char(' ') if plain => OverlayCommand::Toggle,
            Key::Char('v') if plain => OverlayCommand::Mark,
            Key::Char('r') if plain => OverlayCommand::Rename,
            Key::Char('m') if plain => OverlayCommand::Merge,
            Key::Char('M') if plain => OverlayCommand::MergeMarked,
            Key::Char('x') if plain => OverlayCommand::Delete,
            Key::Char('j') => OverlayCommand::Move(1),
            Key::Char('k') => OverlayCommand::Move(-1),
            Key::Char(ch) => match suggestion_index(ch) {
                Some(index) if plain => OverlayCommand::Suggest(index),
                _ => OverlayCommand::Ignore,
            },
            Key::Down => OverlayCommand::Move(1),
            Key::Up => OverlayCommand::Move(-1),
            Key::PageDown => OverlayCommand::Move(5),
            Key::PageUp => OverlayCommand::Move(-5),
            _ => OverlayCommand::Ignore,
        },
        OverlayKind::Recovery => match press.key {
            Key::Esc => OverlayCommand::Cancel,
            Key::Enter => OverlayCommand::Submit,
            Key::Char('d') if plain => OverlayCommand::Discard,
            Key::Char('D') if plain => OverlayCommand::DiscardAll,
            Key::Char('j') => OverlayCommand::Move(1),
            Key::Down => OverlayCommand::Move(1),
            Key::Char('k') => OverlayCommand::Move(-1),
            Key::Up => OverlayCommand::Move(-1),
            _ => OverlayCommand::Ignore,
        },
    }
}

} // verus!
