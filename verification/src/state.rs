//! The state of the application between two keys: the list of notes and
//! its selection, the search, the overlay on top, and the editor.

use crate::autosave::AutoSaveStatus;
use crate::editor::{EditorState, EditorView};
use crate::notes::text_view;
use crate::stamp::{format_timestamp, timestamp_text};
use crate::strings::texts_of;
use crate::summary::{build_preview, preview_of, summary_views, NoteSummary, SummaryView};
use crate::journal::{lemma_filter_push, RecoverySnapshot, RecoveryView};
use crate::stamp::{datetime_text, format_datetime, format_relative_time, relative_text};
use crate::strings::{decimal_of, push_decimal, push_text};
use crate::summary::{build_recovery_preview, recovery_preview_of};
use crate::notes::{note_views, NoteRecord, NoteView};
use crate::search::{
    lemma_parsed_without_pattern, parse_query, parsed, pattern_of, regex_pattern_from_input,
    QueryView, SearchQuery,
};
use crate::strings::{trim, trim_of, words_of};
use crate::summary::{build_filter_chips, filter_chips_of, summarize_record, summary_of};
use crate::tag_editor::{ModeView, TagEditorView};
use crate::text::push_char;
use crate::text::string_of;
use crate::autosave::unix_seconds_of;
use vstd::prelude::*;
use vstd::string::*;

verus! {

/// The pane that takes the keys.
#[derive(Debug, Clone, Copy, PartialEq, Eq, Structural)]
pub enum FocusPane {
    List,
    Reader,
}

/// The search as the user has typed it, and what was read from it.
#[derive(Debug, Clone)]
pub struct SearchState {
    pub active: bool,
    pub query: String,
    pub last_error: Option<String>,
    pub terms: Vec<String>,
    pub tags: Vec<String>,
    pub filter_chips: Vec<String>,
    pub regex_enabled: bool,
    pub regex_pattern: Option<String>,
}

impl Default for SearchState {
    fn default() -> (search: Self)
        ensures
            !search.active,
            search.query@.len() == 0,
            search.last_error is None,
            search.terms@.len() == 0,
            search.tags@.len() == 0,
            search.filter_chips@.len() == 0,
            !search.regex_enabled,
            search.regex_pattern is None,
    {
        SearchState {
            active: false,
            query: String::new(),
            last_error: None,
            terms: Vec::new(),
            tags: Vec::new(),
            filter_chips: Vec::new(),
            regex_enabled: false,
            regex_pattern: None,
        }
    }
}

/// The draft of a new note.
#[derive(Debug, Clone)]
pub struct NewNoteOverlay {
    pub title: String,
}

impl Default for NewNoteOverlay {
    fn default() -> (overlay: Self)
        ensures
            overlay.title@.len() == 0,
    {
        NewNoteOverlay { title: String::new() }
    }
}

/// The draft of a new title for a note.
#[derive(Debug, Clone)]
pub struct RenameNoteOverlay {
    pub note_id: i64,
    pub title: String,
}

/// The note that the user is asked to confirm the deletion of.
#[derive(Debug, Clone)]
pub struct DeleteNoteOverlay {
    pub note_id: i64,
    pub title: String,
}

/// One tag in the tag editor.
#[derive(Debug, Clone)]
pub struct TagEditorItem {
    pub name: String,
    /// The note is to carry the tag.
    pub selected: bool,
    /// The note carried the tag when the editor was opened.
    pub original: bool,
    /// The tag is marked for an action on several tags.
    pub bulk_selected: bool,
}

/// What the tag editor is doing.
#[derive(Debug, Clone, PartialEq, Eq)]
pub enum TagEditorMode {
    Browse,
    Input(TagInputKind),
    ConfirmDelete { tag: String },
}

/// What the input of the tag editor is for.
#[derive(Debug, Clone, PartialEq, Eq)]
pub enum TagInputKind {
    Add,
    Rename { original: String },
    Merge { sources: Vec<String> },
}

impl Default for TagEditorMode {
    fn default() -> (mode: Self)
        ensures
            mode == TagEditorMode::Browse,
    {
        TagEditorMode::Browse
    }
}

/// The tag editor of one note.
#[derive(Debug, Clone)]
pub struct TagEditorOverlay {
    pub note_id: i64,
    pub items: Vec<TagEditorItem>,
    pub selected_index: usize,
    pub mode: TagEditorMode,
    pub input: String,
    pub status: Option<String>,
    pub suggestions: Vec<String>,
}

impl Default for TagEditorOverlay {
    fn default() -> (overlay: Self)
        ensures
            overlay.note_id == 0,
            overlay.items@.len() == 0,
            overlay.selected_index == 0,
            overlay.mode == TagEditorMode::Browse,
            overlay.input@.len() == 0,
            overlay.status is None,
            overlay.suggestions@.len() == 0,
    {
        TagEditorOverlay {
            note_id: 0,
            items: Vec::new(),
            selected_index: 0,
            mode: TagEditorMode::Browse,
            input: String::new(),
            status: None,
            suggestions: Vec::new(),
        }
    }
}

/// What is to happen to the whole trash.
#[derive(Debug, Clone, Copy, PartialEq, Eq, Structural)]
pub enum BulkTrashAction {
    RestoreAll,
    PurgeAll,
}

/// The action on the whole trash that the user is asked to confirm.
#[derive(Debug, Clone, Copy)]
pub struct BulkTrashOverlay {
    pub action: BulkTrashAction,
}

/// A draft that waits for recovery.
#[derive(Debug, Clone)]
pub struct RecoveryEntry {
    pub note_id: i64,
    pub title: String,
    pub saved_at: String,
    pub saved_relative: String,
    pub body: String,
    pub preview: Vec<String>,
    /// The store no longer holds the note.
    pub missing: bool,
}

/// The drafts that wait for recovery, and the one that is selected.
#[derive(Debug, Clone)]
pub struct RecoveryOverlay {
    pub entries: Vec<RecoveryEntry>,
    pub selected: usize,
}

impl Default for RecoveryOverlay {
    fn default() -> (overlay: Self)
        ensures
            overlay.entries@.len() == 0,
            overlay.selected == 0,
    {
        RecoveryOverlay { entries: Vec::new(), selected: 0 }
    }
}

/// What lies on top of the list.
#[derive(Debug, Clone)]
pub enum OverlayState {
    NewNote(NewNoteOverlay),
    RenameNote(RenameNoteOverlay),
    DeleteNote(DeleteNoteOverlay),
    TagEditor(TagEditorOverlay),
    BulkTrash(BulkTrashOverlay),
    Recovery(RecoveryOverlay),
}

/// The state of the application.
#[derive(Debug)]
pub struct AppState {
    pub focus: FocusPane,
    pub show_trash: bool,
    pub selected: usize,
    pub preview_lines: usize,
    pub retention_days: u32,
    pub notes: Vec<NoteSummary>,
    pub search: SearchState,
    pub status_message: Option<String>,
    pub overlay: Option<OverlayState>,
    pub editor: Option<EditorState>,
    pub autosave_status: AutoSaveStatus,
    pub wrap_enabled: bool,
}

/// `index` moved by `delta` and held inside a list of `len` entries, which
/// is not empty.
pub open spec fn stepped(index: usize, delta: isize, len: usize) -> usize {
    if index + delta < 0 {
        0
    } else if index + delta >= len {
        (len - 1) as usize
    } else {
        (index + delta) as usize
    }
}

/// Moves `index` by `delta` and holds it inside a list of `len` entries.
pub fn step_index(index: usize, delta: isize, len: usize) -> (next: usize)
    requires
        len > 0,
    ensures
        next == stepped(index, delta, len),
        next < len,
{
    let target: i128 = index as i128 + delta as i128;
    if target < 0 {
        0
    } else if target >= len as i128 {
        len - 1
    } else {
        target as usize
    }
}

/// `selected` held inside a list of `len` entries: the last entry where it
/// points behind the list, the first where the list is empty.
pub open spec fn normalized(selected: usize, len: nat) -> usize {
    if len == 0 {
        0
    } else if selected >= len {
        (len - 1) as usize
    } else {
        selected
    }
}

/// The index of the first note with the id `note_id`.
pub open spec fn first_with_id(notes: Seq<NoteSummary>, note_id: i64, i: int) -> bool {
    &&& 0 <= i < notes.len()
    &&& notes[i].id == note_id
    &&& forall|k: int| 0 <= k < i ==> (#[trigger] notes[k]).id != note_id
}

/// No note has the id `note_id`.
pub open spec fn no_note(notes: Seq<NoteSummary>, note_id: i64) -> bool {
    forall|k: int| 0 <= k < notes.len() ==> (#[trigger] notes[k]).id != note_id
}

fn find_note(notes: &Vec<NoteSummary>, note_id: i64) -> (at: Option<usize>)
    ensures
        match at {
            Some(i) => first_with_id(notes@, note_id, i as int),
            None => no_note(notes@, note_id),
        },
{
    let mut i: usize = 0;
    while i < notes.len()
        invariant
            i <= notes.len(),
            forall|k: int| 0 <= k < i ==> (#[trigger] notes@[k]).id != note_id,
        decreases notes.len() - i,
    {
        if notes[i].id == note_id {
            return Some(i);
        }
        i = i + 1;
    }
    None
}

impl AppState {
    /// The state at the start: the list over the summaries of `records`,
    /// the first note selected, nothing open.
    pub fn load(records: Vec<NoteRecord>, preview_lines: usize, retention_days: u32, now: i64) -> (state:
        Self)
        ensures
            state.focus == FocusPane::List,
            !state.show_trash,
            state.selected == 0,
            state.preview_lines == preview_lines,
            state.retention_days == retention_days,
            summary_views(state.notes@) == summaries_of(
                note_views(records@),
                preview_lines as int,
                retention_days,
                now,
            ),
            !state.search.active && state.search.query@.len() == 0 && state.search.last_error is None
                && state.search.terms@.len() == 0 && state.search.tags@.len() == 0
                && state.search.filter_chips@.len() == 0 && !state.search.regex_enabled
                && state.search.regex_pattern is None,
            state.status_message is None,
            state.overlay is None,
            state.editor is None,
            state.autosave_status == AutoSaveStatus::Inactive,
            state.wrap_enabled,
    {
        Self {
            focus: FocusPane::List,
            show_trash: false,
            selected: 0,
            preview_lines,
            retention_days,
            notes: summarize_all(records, preview_lines, retention_days, now),
            search: SearchState::default(),
            status_message: None,
            overlay: None,
            editor: None,
            autosave_status: AutoSaveStatus::Inactive,
            wrap_enabled: true,
        }
    }

    /// The number of notes in the list.
    pub fn len(&self) -> (len: usize)
        ensures
            len == self.notes@.len(),
    {
        self.notes.len()
    }

    pub fn is_empty(&self) -> (empty: bool)
        ensures
            empty == (self.notes@.len() == 0),
    {
        self.notes.is_empty()
    }

    /// The selected note, where the selection points at one.
    pub fn selected(&self) -> (note: Option<&NoteSummary>)
        ensures
            match note {
                Some(note) => self.selected < self.notes@.len() && *note
                    == self.notes@[self.selected as int],
                None => self.selected >= self.notes@.len(),
            },
    {
        if self.selected < self.notes.len() {
            Some(&self.notes[self.selected])
        } else {
            None
        }
    }

    /// The id of the selected note.
    pub fn selected_note_id(&self) -> (id: Option<i64>)
        ensures
            id == if self.selected < self.notes@.len() {
                Some(self.notes@[self.selected as int].id)
            } else {
                None
            },
    {
        match self.selected() {
            Some(note) => Some(note.id),
            None => None,
        }
    }

    /// The editor, while a note is being edited.
    pub fn editor(&self) -> (editor: Option<&EditorState>)
        ensures
            match editor {
                Some(editor) => self.editor == Some(*editor),
                None => self.editor is None,
            },
    {
        self.editor.as_ref()
    }

    /// Whether a note is being edited.
    pub fn is_editing(&self) -> (editing: bool)
        ensures
            editing == self.editor is Some,
    {
        self.editor.is_some()
    }

    /// Closes the editor.
    pub fn close_editor(&mut self)
        ensures
            *final(self) == (AppState { editor: None, ..*old(self) }),
    {
        self.editor = None;
    }

    /// The text in the editor.
    pub fn editor_buffer(&self) -> (text: Option<&str>)
        ensures
            match text {
                Some(text) => self.editor matches Some(editor) && text@ == editor@.text,
                None => self.editor is None,
            },
    {
        match &self.editor {
            Some(editor) => Some(editor.buffer()),
            None => None,
        }
    }

    /// Whether the editor holds changes that were not saved.
    pub fn editor_dirty(&self) -> (dirty: bool)
        ensures
            dirty == match self.editor {
                Some(editor) => editor@.dirty,
                None => false,
            },
    {
        match &self.editor {
            Some(editor) => editor.is_dirty(),
            None => false,
        }
    }

    /// The status of the autosave runtime as it was last taken down.
    pub fn autosave_status(&self) -> (status: &AutoSaveStatus)
        ensures
            *status == self.autosave_status,
    {
        &self.autosave_status
    }

    /// Takes down the status of the autosave runtime.
    pub fn set_autosave_status(&mut self, status: AutoSaveStatus)
        ensures
            *final(self) == (AppState { autosave_status: status, ..*old(self) }),
    {
        self.autosave_status = status;
    }

    pub fn wrap_enabled(&self) -> (enabled: bool)
        ensures
            enabled == self.wrap_enabled,
    {
        self.wrap_enabled
    }

    /// Switches line wrapping and tells what it is now.
    pub fn toggle_wrap(&mut self) -> (enabled: bool)
        ensures
            enabled == !old(self).wrap_enabled,
            *final(self) == (AppState { wrap_enabled: enabled, ..*old(self) }),
    {
        self.wrap_enabled = !self.wrap_enabled;
        self.wrap_enabled
    }

    /// Selects the first note with the id `note_id`; where there is none,
    /// the selection is held inside the list.
    pub fn select_note_by_id(&mut self, note_id: i64)
        ensures
            *final(self) == (AppState { selected: final(self).selected, ..*old(self) }),
            first_with_id(old(self).notes@, note_id, final(self).selected as int) || (no_note(
                old(self).notes@,
                note_id,
            ) && final(self).selected == normalized(old(self).selected, old(self).notes@.len())),
    {
        match find_note(&self.notes, note_id) {
            Some(idx) => {
                self.selected = idx;
            },
            None => {
                self.normalize_selection();
            },
        }
    }

    /// Moves the selection by `delta` notes, inside the list.
    pub fn move_selection(&mut self, delta: isize)
        ensures
            *final(self) == (AppState {
                selected: if old(self).notes@.len() == 0 {
                    old(self).selected
                } else {
                    stepped(old(self).selected, delta, old(self).notes.len())
                },
                ..*old(self)
            }),
    {
        if self.notes.is_empty() {
            return ;
        }
        self.selected = step_index(self.selected, delta, self.notes.len());
    }

    /// Moves the keys to the other pane.
    pub fn toggle_focus(&mut self)
        ensures
            *final(self) == (AppState {
                focus: match old(self).focus {
                    FocusPane::List => FocusPane::Reader,
                    FocusPane::Reader => FocusPane::List,
                },
                ..*old(self)
            }),
    {
        self.focus = match self.focus {
            FocusPane::List => FocusPane::Reader,
            FocusPane::Reader => FocusPane::List,
        };
    }

    /// Opens the search line.
    pub fn begin_search(&mut self)
        ensures
            *final(self) == (AppState {
                focus: FocusPane::List,
                search: SearchState { active: true, last_error: None, ..old(self).search },
                ..*old(self)
            }),
    {
        self.search.active = true;
        self.search.last_error = None;
        self.focus = FocusPane::List;
    }

    /// Closes the search line and keeps what was found.
    pub fn finish_search(&mut self)
        ensures
            *final(self) == (AppState {
                search: SearchState { active: false, ..old(self).search },
                ..*old(self)
            }),
    {
        self.search.active = false;
    }

    pub fn search_query(&self) -> (query: &str)
        ensures
            query@ == self.search.query@,
    {
        self.search.query.as_str()
    }

    pub fn search_error(&self) -> (error: Option<&str>)
        ensures
            match error {
                Some(error) => self.search.last_error matches Some(text) && text@ == error@,
                None => self.search.last_error is None,
            },
    {
        match &self.search.last_error {
            Some(error) => Some(error.as_str()),
            None => None,
        }
    }

    pub fn is_search_active(&self) -> (active: bool)
        ensures
            active == self.search.active,
    {
        self.search.active
    }

    pub fn is_regex_enabled(&self) -> (enabled: bool)
        ensures
            enabled == self.search.regex_enabled,
    {
        self.search.regex_enabled
    }

    /// The words to emphasise in the list: the terms of the search, then
    /// its tags.
    pub fn search_tokens(&self) -> (tokens: Vec<String>)
        ensures
            texts_of(tokens@) == texts_of(self.search.terms@) + texts_of(self.search.tags@),
    {
        let mut tokens = crate::search::clone_strings(&self.search.terms);
        let mut tags = crate::search::clone_strings(&self.search.tags);
        let ghost first = texts_of(tokens@);
        let ghost second = texts_of(tags@);
        tokens.append(&mut tags);
        assert(texts_of(tokens@) =~= first + second);
        tokens
    }

    pub fn search_tags(&self) -> (tags: &Vec<String>)
        ensures
            *tags == self.search.tags,
    {
        &self.search.tags
    }

    pub fn search_filter_chips(&self) -> (chips: &Vec<String>)
        ensures
            *chips == self.search.filter_chips,
    {
        &self.search.filter_chips
    }

    /// The tags of the selected note.
    pub fn selected_tags(&self) -> (tags: Vec<String>)
        ensures
            texts_of(tags@) == if self.selected < self.notes@.len() {
                texts_of(self.notes@[self.selected as int].tags@)
            } else {
                Seq::empty()
            },
    {
        match self.selected() {
            Some(note) => crate::search::clone_strings(&note.tags),
            None => {
                let none: Vec<String> = Vec::new();
                assert(texts_of(none@) =~= Seq::empty());
                none
            },
        }
    }

    /// Sets or clears the line of the status.
    pub fn set_status_message(&mut self, message: Option<String>)
        ensures
            *final(self) == (AppState { status_message: message, ..*old(self) }),
    {
        self.status_message = message;
    }

    pub fn clear_status_message(&mut self)
        ensures
            *final(self) == (AppState { status_message: None, ..*old(self) }),
    {
        self.status_message = None;
    }

    /// What lies on top of the list.
    pub fn overlay(&self) -> (overlay: Option<&OverlayState>)
        ensures
            match overlay {
                Some(overlay) => self.overlay == Some(*overlay),
                None => self.overlay is None,
            },
    {
        self.overlay.as_ref()
    }

    /// Opens the draft of a new note.
    pub fn open_new_note(&mut self)
        ensures
            final(self).overlay matches Some(OverlayState::NewNote(draft)) && draft.title@.len() == 0,
            *final(self) == (AppState { overlay: final(self).overlay, ..*old(self) }),
    {
        self.overlay = Some(OverlayState::NewNote(NewNoteOverlay { title: String::new() }));
    }

    /// Opens the draft of a new title for the selected note.
    pub fn open_rename_note(&mut self)
        ensures
            *final(self) == (AppState { overlay: final(self).overlay, ..*old(self) }),
            if old(self).selected < old(self).notes@.len() {
                final(self).overlay == Some(
                    OverlayState::RenameNote(
                        RenameNoteOverlay {
                            note_id: old(self).notes@[old(self).selected as int].id,
                            title: old(self).notes@[old(self).selected as int].title,
                        },
                    ),
                )
            } else {
                final(self).overlay == old(self).overlay
            },
    {
        if self.selected < self.notes.len() {
            let note = &self.notes[self.selected];
            let overlay = RenameNoteOverlay { note_id: note.id, title: note.title.clone() };
            self.overlay = Some(OverlayState::RenameNote(overlay));
        }
    }

    /// Asks whether the selected note is to be deleted.
    pub fn open_delete_note(&mut self)
        ensures
            *final(self) == (AppState { overlay: final(self).overlay, ..*old(self) }),
            if old(self).selected < old(self).notes@.len() {
                final(self).overlay == Some(
                    OverlayState::DeleteNote(
                        DeleteNoteOverlay {
                            note_id: old(self).notes@[old(self).selected as int].id,
                            title: old(self).notes@[old(self).selected as int].title,
                        },
                    ),
                )
            } else {
                final(self).overlay == old(self).overlay
            },
    {
        if self.selected < self.notes.len() {
            let note = &self.notes[self.selected];
            let overlay = DeleteNoteOverlay { note_id: note.id, title: note.title.clone() };
            self.overlay = Some(OverlayState::DeleteNote(overlay));
        }
    }

    /// Takes the overlay away.
    pub fn close_overlay(&mut self)
        ensures
            *final(self) == (AppState { overlay: None, ..*old(self) }),
    {
        self.overlay = None;
    }

    /// Asks whether `action` is to happen to the whole trash.
    pub fn open_bulk_trash_overlay(&mut self, action: BulkTrashAction)
        ensures
            *final(self) == (AppState {
                overlay: Some(OverlayState::BulkTrash(BulkTrashOverlay { action })),
                ..*old(self)
            }),
    {
        self.overlay = Some(OverlayState::BulkTrash(BulkTrashOverlay { action }));
    }

    pub fn new_note_overlay(&self) -> (overlay: Option<&NewNoteOverlay>)
        ensures
            match overlay {
                Some(overlay) => self.overlay == Some(OverlayState::NewNote(*overlay)),
                None => !(self.overlay matches Some(OverlayState::NewNote(_))),
            },
    {
        match &self.overlay {
            Some(OverlayState::NewNote(overlay)) => Some(overlay),
            _ => None,
        }
    }

    pub fn rename_note_overlay(&self) -> (overlay: Option<&RenameNoteOverlay>)
        ensures
            match overlay {
                Some(overlay) => self.overlay == Some(OverlayState::RenameNote(*overlay)),
                None => !(self.overlay matches Some(OverlayState::RenameNote(_))),
            },
    {
        match &self.overlay {
            Some(OverlayState::RenameNote(overlay)) => Some(overlay),
            _ => None,
        }
    }

    pub fn delete_note_overlay(&self) -> (overlay: Option<&DeleteNoteOverlay>)
        ensures
            match overlay {
                Some(overlay) => self.overlay == Some(OverlayState::DeleteNote(*overlay)),
                None => !(self.overlay matches Some(OverlayState::DeleteNote(_))),
            },
    {
        match &self.overlay {
            Some(OverlayState::DeleteNote(overlay)) => Some(overlay),
            _ => None,
        }
    }

    pub fn bulk_trash_overlay(&self) -> (overlay: Option<&BulkTrashOverlay>)
        ensures
            match overlay {
                Some(overlay) => self.overlay == Some(OverlayState::BulkTrash(*overlay)),
                None => !(self.overlay matches Some(OverlayState::BulkTrash(_))),
            },
    {
        match &self.overlay {
            Some(OverlayState::BulkTrash(overlay)) => Some(overlay),
            _ => None,
        }
    }

    /// The action on the whole trash that waits to be confirmed.
    pub fn bulk_trash_action(&self) -> (action: Option<BulkTrashAction>)
        ensures
            action == match self.overlay {
                Some(OverlayState::BulkTrash(overlay)) => Some(overlay.action),
                _ => None,
            },
    {
        match self.bulk_trash_overlay() {
            Some(overlay) => Some(overlay.action),
            None => None,
        }
    }

    pub fn tag_editor_overlay(&self) -> (overlay: Option<&TagEditorOverlay>)
        ensures
            match overlay {
                Some(overlay) => self.overlay == Some(OverlayState::TagEditor(*overlay)),
                None => !(self.overlay matches Some(OverlayState::TagEditor(_))),
            },
    {
        match &self.overlay {
            Some(OverlayState::TagEditor(overlay)) => Some(overlay),
            _ => None,
        }
    }

    pub fn recovery_overlay(&self) -> (overlay: Option<&RecoveryOverlay>)
        ensures
            match overlay {
                Some(overlay) => self.overlay == Some(OverlayState::Recovery(*overlay)),
                None => !(self.overlay matches Some(OverlayState::Recovery(_))),
            },
    {
        match &self.overlay {
            Some(OverlayState::Recovery(overlay)) => Some(overlay),
            _ => None,
        }
    }

    fn normalize_selection(&mut self)
        ensures
            *final(self) == (AppState {
                selected: normalized(old(self).selected, old(self).notes@.len()),
                ..*old(self)
            }),
    {
        if self.notes.is_empty() {
            self.selected = 0;
        } else if self.selected >= self.notes.len() {
            self.selected = self.notes.len() - 1;
        }
    }
}


/// The state differs from `before` in its overlay at most.
pub open spec fn only_overlay_changed(before: AppState, after: AppState) -> bool {
    after == (AppState { overlay: after.overlay, ..before })
}

/// The state differs from `before` in its tag editor at most, which went
/// from the state `from` to the state `to`; without a tag editor nothing
/// changed.
pub open spec fn tag_editor_stepped(
    before: AppState,
    after: AppState,
    step: spec_fn(TagEditorView) -> TagEditorView,
) -> bool {
    &&& only_overlay_changed(before, after)
    &&& match before.overlay {
        Some(OverlayState::TagEditor(editor)) => match after.overlay {
            Some(OverlayState::TagEditor(now)) => now@ == step(editor@),
            _ => false,
        },
        _ => after.overlay == before.overlay,
    }
}

impl AppState {
    /// Records in the editor that its text was saved.
    pub fn mark_editor_saved(&mut self)
        ensures
            *final(self) == (AppState { editor: final(self).editor, ..*old(self) }),
            match old(self).editor {
                Some(editor) => match final(self).editor {
                    Some(now) => now@ == editor@.marked_clean(),
                    None => false,
                },
                None => final(self).editor is None,
            },
    {
        match &mut self.editor {
            Some(editor) => {
                editor.mark_clean();
            },
            None => {},
        }
    }

    /// Switches the selected tag of the tag editor on or off for the note.
    pub fn tag_editor_toggle_selection(&mut self)
        ensures
            tag_editor_stepped(*old(self), *final(self), |v: TagEditorView| v.toggled()),
    {
        match &mut self.overlay {
            Some(OverlayState::TagEditor(editor)) => {
                editor.toggle_selection();
            },
            _ => {},
        }
    }
}


pub struct EntryView {
    pub note_id: i64,
    pub title: Seq<char>,
    pub saved_at: Seq<char>,
    pub saved_relative: Seq<char>,
    pub body: Seq<char>,
    pub preview: Seq<Seq<char>>,
    pub missing: bool,
}

impl View for RecoveryEntry {
    type V = EntryView;

    open spec fn view(&self) -> EntryView {
        EntryView {
            note_id: self.note_id,
            title: self.title@,
            saved_at: self.saved_at@,
            saved_relative: self.saved_relative@,
            body: self.body@,
            preview: texts_of(self.preview@),
            missing: self.missing,
        }
    }
}

/// The entries of a list, as mathematical values.
pub open spec fn entry_views(entries: Seq<RecoveryEntry>) -> Seq<EntryView> {
    entries.map_values(|entry: RecoveryEntry| entry@)
}

impl RecoveryEntry {
    /// A copy of the entry.
    pub fn duplicate(&self) -> (copy: Self)
        ensures
            copy@ == self@,
    {
        RecoveryEntry {
            note_id: self.note_id,
            title: self.title.clone(),
            saved_at: self.saved_at.clone(),
            saved_relative: self.saved_relative.clone(),
            body: self.body.clone(),
            preview: crate::search::clone_strings(&self.preview),
            missing: self.missing,
        }
    }
}

/// A draft found in the journal, with the title of its note where the store
/// still holds the note.
#[derive(Debug, Clone)]
pub struct RecoveredDraft {
    pub snapshot: RecoverySnapshot,
    pub title: Option<String>,
}

/// The title under which a draft is listed whose note is gone.
pub open spec fn missing_title(note_id: i64) -> Seq<char> {
    "Recovered note #"@ + decimal_of(note_id as int) + " (missing)"@
}

/// The entry that lists a draft at `now`.
pub open spec fn entry_of(snapshot: RecoveryView, title: Option<Seq<char>>, now: i128) -> EntryView {
    EntryView {
        note_id: snapshot.note_id,
        title: match title {
            Some(title) => title,
            None => missing_title(snapshot.note_id),
        },
        saved_at: datetime_text(snapshot.saved_at),
        saved_relative: relative_text(snapshot.saved_at, now),
        body: snapshot.body,
        preview: recovery_preview_of(snapshot.body),
        missing: title is None,
    }
}

/// Builds the entry that lists a draft.
pub fn recovery_entry(draft: &RecoveredDraft, now: i128) -> (entry: RecoveryEntry)
    ensures
        entry@ == entry_of(draft.snapshot@, text_view(draft.title), now),
{
    let note_id = draft.snapshot.note_id;
    let (title, missing) = match &draft.title {
        Some(title) => (title.clone(), false),
        None => {
            let mut out: Vec<char> = Vec::new();
            push_text(&mut out, "Recovered note #");
            push_decimal(&mut out, note_id);
            push_text(&mut out, " (missing)");
            assert(out@ =~= missing_title(note_id));
            (string_of(&out), true)
        },
    };
    RecoveryEntry {
        note_id,
        title,
        saved_at: format_datetime(draft.snapshot.saved_at),
        saved_relative: format_relative_time(draft.snapshot.saved_at, now),
        body: draft.snapshot.body.clone(),
        preview: build_recovery_preview(draft.snapshot.body.as_str()),
        missing,
    }
}

/// The state differs from `before` in its notes at most, of which the
/// first with the id `note_id` is now `to`; without such a note nothing
/// changed.
pub open spec fn note_replaced(
    before: AppState,
    after: AppState,
    note_id: i64,
    change: spec_fn(SummaryView) -> SummaryView,
) -> bool {
    &&& after == (AppState { notes: after.notes, ..before })
    &&& after.notes@.len() == before.notes@.len()
    &&& forall|i: int|
        0 <= i < before.notes@.len() ==> (#[trigger] after.notes@[i])@ == if first_with_id(
            before.notes@,
            note_id,
            i,
        ) {
            change(before.notes@[i]@)
        } else {
            before.notes@[i]@
        }
}

impl AppState {
    /// The selected note, to change it.
    pub fn selected_mut(&mut self) -> (note: Option<&mut NoteSummary>)
        ensures
            match note {
                Some(note) => old(self).selected < old(self).notes@.len() && *note == old(self).notes@[old(self).selected as int] && final(self).notes@ == old(self).notes@.update(
                    old(self).selected as int,
                    *final(note),
                ) && *final(self) == (AppState { notes: final(self).notes, ..*old(self) }),
                None => old(self).selected >= old(self).notes@.len() && *final(self) == *old(self),
            },
    {
        if self.selected < self.notes.len() {
            Some(&mut self.notes[self.selected])
        } else {
            None
        }
    }

    /// The editor, to change it.
    pub fn editor_mut(&mut self) -> (editor: Option<&mut EditorState>)
        ensures
            match editor {
                Some(editor) => old(self).editor == Some(*editor) && *final(self) == (AppState {
                    editor: Some(*final(editor)),
                    ..*old(self)
                }),
                None => old(self).editor is None && *final(self) == *old(self),
            },
    {
        self.editor.as_mut()
    }

    /// The overlay, to change it.
    pub fn overlay_mut(&mut self) -> (overlay: Option<&mut OverlayState>)
        ensures
            match overlay {
                Some(overlay) => old(self).overlay == Some(*overlay) && *final(self) == (AppState {
                    overlay: Some(*final(overlay)),
                    ..*old(self)
                }),
                None => old(self).overlay is None && *final(self) == *old(self),
            },
    {
        self.overlay.as_mut()
    }

    /// Opens the editor on `body` for the note `note_id` and shows the body
    /// in the list.
    pub fn begin_editor(&mut self, note_id: i64, body: String)
        ensures
            match final(self).editor {
                Some(editor) => editor@ == EditorView::initial(note_id, body@) && editor@.wf(),
                None => false,
            },
            note_replaced(
                AppState { editor: final(self).editor, ..*old(self) },
                *final(self),
                note_id,
                |note: SummaryView|
                    SummaryView {
                        body: body@,
                        preview: preview_of(body@, old(self).preview_lines as int),
                        ..note
                    },
            ),
    {
        self.editor = Some(EditorState::new(note_id, body.clone()));
        self.update_note_buffer(note_id, body.as_str());
    }

    /// Shows the text of the editor in the list.
    pub fn apply_editor_preview(&mut self)
        ensures
            match old(self).editor {
                Some(editor) => note_replaced(
                    *old(self),
                    *final(self),
                    editor@.note_id,
                    |note: SummaryView|
                        SummaryView {
                            body: editor@.text,
                            preview: preview_of(editor@.text, old(self).preview_lines as int),
                            ..note
                        },
                ),
                None => *final(self) == *old(self),
            },
    {
        let (note_id, buffer) = match &self.editor {
            Some(editor) => (editor.note_id(), String::from_str(editor.buffer())),
            None => {
                return ;
            },
        };
        self.update_note_buffer(note_id, buffer.as_str());
    }

    /// Takes down that the note `note_id` was saved at `timestamp`, an
    /// instant in nanoseconds since the Unix epoch: its editor is clean, and
    /// the list shows the instant and the preview of its body.
    pub fn on_autosave_saved(&mut self, note_id: i64, timestamp: i128)
        ensures
            match old(self).editor {
                Some(editor) => match final(self).editor {
                    Some(now) => now@ == if editor@.note_id == note_id {
                        editor@.marked_clean()
                    } else {
                        editor@
                    },
                    None => false,
                },
                None => final(self).editor is None,
            },
            note_replaced(
                AppState { editor: final(self).editor, ..*old(self) },
                *final(self),
                note_id,
                |note: SummaryView|
                    SummaryView {
                        updated_at: timestamp_text(unix_seconds_of(timestamp)),
                        preview: preview_of(note.body, old(self).preview_lines as int),
                        ..note
                    },
            ),
    {
        match &mut self.editor {
            Some(editor) => {
                if editor.note_id() == note_id {
                    editor.mark_clean();
                }
            },
            None => {},
        }
        match find_note(&self.notes, note_id) {
            Some(i) => {
                let mut note = self.notes[i].duplicate();
                note.updated_at = format_timestamp(crate::autosave::unix_seconds(timestamp));
                note.preview = build_preview(note.body.as_str(), self.preview_lines);
                self.notes.set(i, note);
            },
            None => {},
        }
    }

    fn update_note_buffer(&mut self, note_id: i64, buffer: &str)
        ensures
            note_replaced(
                *old(self),
                *final(self),
                note_id,
                |note: SummaryView|
                    SummaryView {
                        body: buffer@,
                        preview: preview_of(buffer@, old(self).preview_lines as int),
                        ..note
                    },
            ),
    {
        match find_note(&self.notes, note_id) {
            Some(i) => {
                let mut note = self.notes[i].duplicate();
                note.body = String::from_str(buffer);
                note.preview = build_preview(buffer, self.preview_lines);
                self.notes.set(i, note);
            },
            None => {},
        }
    }

    /// Shows the note `note_id` as archived or not.
    pub fn toggle_archive(&mut self, note_id: i64, archive: bool)
        ensures
            note_replaced(
                *old(self),
                *final(self),
                note_id,
                |note: SummaryView| SummaryView { archived: archive, ..note },
            ),
    {
        match find_note(&self.notes, note_id) {
            Some(i) => {
                let mut note = self.notes[i].duplicate();
                note.archived = archive;
                self.notes.set(i, note);
            },
            None => {},
        }
    }

    /// Lists the drafts that wait for recovery, where there are any.
    pub fn open_recovery_overlay(&mut self, drafts: &Vec<RecoveredDraft>, now: i128)
        ensures
            only_overlay_changed(*old(self), *final(self)),
            drafts@.len() == 0 ==> final(self).overlay == old(self).overlay,
            drafts@.len() > 0 ==> match final(self).overlay {
                Some(OverlayState::Recovery(overlay)) => overlay.selected == 0
                    && entry_views(overlay.entries@) == drafts@.map_values(
                    |draft: RecoveredDraft| entry_of(draft.snapshot@, text_view(draft.title), now),
                ),
                _ => false,
            },
    {
        if drafts.is_empty() {
            return ;
        }
        let ghost list = |draft: RecoveredDraft| entry_of(draft.snapshot@, text_view(draft.title), now);
        let mut entries: Vec<RecoveryEntry> = Vec::new();
        let mut i: usize = 0;
        assert(entry_views(entries@) =~= drafts@.take(0).map_values(list));
        while i < drafts.len()
            invariant
                i <= drafts.len(),
                list == (|draft: RecoveredDraft|
                    entry_of(draft.snapshot@, text_view(draft.title), now)),
                entry_views(entries@) == drafts@.take(i as int).map_values(list),
            decreases drafts.len() - i,
        {
            let entry = recovery_entry(&drafts[i], now);
            let ghost before = entry_views(entries@);
            entries.push(entry);
            assert(entry_views(entries@) =~= before.push(entry@));
            assert(drafts@.take(i + 1).map_values(list) =~= drafts@.take(i as int).map_values(
                list,
            ).push(list(drafts@[i as int])));
            i = i + 1;
        }
        assert(drafts@.take(drafts@.len() as int) =~= drafts@);
        self.overlay = Some(OverlayState::Recovery(RecoveryOverlay { entries, selected: 0 }));
    }

    /// Moves the selection in the list of drafts by `delta`.
    pub fn recovery_move_selection(&mut self, delta: isize)
        ensures
            only_overlay_changed(*old(self), *final(self)),
            match old(self).overlay {
                Some(OverlayState::Recovery(overlay)) => final(self).overlay == Some(
                    OverlayState::Recovery(
                        RecoveryOverlay {
                            selected: if overlay.entries@.len() == 0 {
                                0
                            } else {
                                stepped(overlay.selected, delta, overlay.entries.len())
                            },
                            ..overlay
                        },
                    ),
                ),
                _ => final(self).overlay == old(self).overlay,
            },
    {
        match &mut self.overlay {
            Some(OverlayState::Recovery(overlay)) => {
                if overlay.entries.is_empty() {
                    overlay.selected = 0;
                } else {
                    overlay.selected = step_index(overlay.selected, delta, overlay.entries.len());
                }
            },
            _ => {},
        }
    }

    /// The selected draft.
    pub fn recovery_selected_entry(&self) -> (entry: Option<&RecoveryEntry>)
        ensures
            match self.overlay {
                Some(OverlayState::Recovery(overlay)) => if overlay.selected < overlay.entries@.len() {
                    entry == Some(&overlay.entries@[overlay.selected as int])
                } else {
                    entry is None
                },
                _ => entry is None,
            },
    {
        match &self.overlay {
            Some(OverlayState::Recovery(overlay)) => {
                if overlay.selected < overlay.entries.len() {
                    Some(&overlay.entries[overlay.selected])
                } else {
                    None
                }
            },
            _ => None,
        }
    }

    /// The drafts that wait for recovery.
    pub fn recovery_entries(&self) -> (entries: Vec<RecoveryEntry>)
        ensures
            entry_views(entries@) == match self.overlay {
                Some(OverlayState::Recovery(overlay)) => entry_views(overlay.entries@),
                _ => Seq::empty(),
            },
    {
        let mut entries: Vec<RecoveryEntry> = Vec::new();
        match &self.overlay {
            Some(OverlayState::Recovery(overlay)) => {
                let mut i: usize = 0;
                assert(entry_views(entries@) =~= entry_views(overlay.entries@).take(0));
                while i < overlay.entries.len()
                    invariant
                        i <= overlay.entries.len(),
                        entry_views(entries@) == entry_views(overlay.entries@).take(i as int),
                    decreases overlay.entries.len() - i,
                {
                    let ghost before = entry_views(entries@);
                    entries.push(overlay.entries[i].duplicate());
                    assert(entry_views(entries@) =~= before.push(overlay.entries@[i as int]@));
                    assert(entry_views(overlay.entries@).take(i + 1) =~= entry_views(
                        overlay.entries@,
                    ).take(i as int).push(overlay.entries@[i as int]@));
                    i = i + 1;
                }
                assert(entry_views(overlay.entries@).take(overlay.entries@.len() as int)
                    =~= entry_views(overlay.entries@));
            },
            _ => {
                assert(entry_views(entries@) =~= Seq::empty());
            },
        }
        entries
    }

    /// Takes the selected draft off the list and returns it; the list is
    /// closed when it was the last one.
    pub fn recovery_remove_selected(&mut self) -> (removed: Option<RecoveryEntry>)
        requires
            match old(self).overlay {
                Some(OverlayState::Recovery(overlay)) => overlay.entries@.len() == 0
                    || overlay.selected < overlay.entries@.len(),
                _ => true,
            },
        ensures
            only_overlay_changed(*old(self), *final(self)),
            match old(self).overlay {
                Some(OverlayState::Recovery(overlay)) => if overlay.entries@.len() == 0 {
                    removed is None && final(self).overlay == old(self).overlay
                } else {
                    removed == Some(overlay.entries@[overlay.selected as int]) && if overlay.entries@.len()
                        == 1 {
                        final(self).overlay is None
                    } else {
                        final(self).overlay == Some(
                            OverlayState::Recovery(
                                RecoveryOverlay {
                                    entries: final(self).overlay->0->Recovery_0.entries,
                                    selected: if overlay.selected >= overlay.entries@.len() - 1 {
                                        (overlay.entries@.len() - 2) as usize
                                    } else {
                                        overlay.selected
                                    },
                                },
                            ),
                        ) && final(self).overlay->0->Recovery_0.entries@ == overlay.entries@.remove(
                            overlay.selected as int,
                        )
                    }
                },
                _ => removed is None && final(self).overlay == old(self).overlay,
            },
    {
        let mut should_clear = false;
        let removed = match &mut self.overlay {
            Some(OverlayState::Recovery(overlay)) => {
                if overlay.entries.is_empty() {
                    return None;
                }
                let removed = overlay.entries.remove(overlay.selected);
                if overlay.entries.is_empty() {
                    should_clear = true;
                } else if overlay.selected >= overlay.entries.len() {
                    overlay.selected = overlay.entries.len() - 1;
                }
                removed
            },
            _ => {
                return None;
            },
        };
        if should_clear {
            self.overlay = None;
        }
        Some(removed)
    }

    /// Takes the drafts of the note `note_id` off the list; the list is
    /// closed when none is left of a list that had some.
    pub fn recovery_remove_for_note(&mut self, note_id: i64)
        ensures
            only_overlay_changed(*old(self), *final(self)),
            match old(self).overlay {
                Some(OverlayState::Recovery(overlay)) => {
                    let kept = entry_views(overlay.entries@).filter(
                        |entry: EntryView| entry.note_id != note_id,
                    );
                    if kept.len() == 0 && overlay.entries@.len() > 0 {
                        final(self).overlay is None
                    } else {
                        match final(self).overlay {
                            Some(OverlayState::Recovery(now)) => entry_views(now.entries@) == kept
                                && now.selected == if kept.len() > 0 && overlay.selected
                                >= kept.len() {
                                (kept.len() - 1) as usize
                            } else {
                                overlay.selected
                            },
                            _ => false,
                        }
                    }
                },
                _ => final(self).overlay == old(self).overlay,
            },
    {
        let mut should_clear = false;
        match &mut self.overlay {
            Some(OverlayState::Recovery(overlay)) => {
                let original_len = overlay.entries.len();
                let ghost all = entry_views(overlay.entries@);
                let ghost keep = |entry: EntryView| entry.note_id != note_id;
                let mut kept: Vec<RecoveryEntry> = Vec::new();
                let mut i: usize = 0;
                assert(all.take(0) =~= Seq::empty());
                while i < overlay.entries.len()
                    invariant
                        i <= overlay.entries.len(),
                        all == entry_views(overlay.entries@),
                        keep == (|entry: EntryView| entry.note_id != note_id),
                        entry_views(kept@) == all.take(i as int).filter(keep),
                    decreases overlay.entries.len() - i,
                {
                    let entry = overlay.entries[i].duplicate();
                    proof {
                        lemma_filter_push(all.take(i as int), entry@, keep);
                        assert(all.take(i + 1) =~= all.take(i as int).push(entry@));
                    }
                    if entry.note_id != note_id {
                        let ghost before = entry_views(kept@);
                        kept.push(entry);
                        assert(entry_views(kept@) =~= before.push(entry@));
                    }
                    i = i + 1;
                }
                assert(all.take(all.len() as int) =~= all);
                overlay.entries = kept;
                if overlay.entries.is_empty() && original_len > 0 {
                    should_clear = true;
                } else if overlay.selected >= overlay.entries.len() && !overlay.entries.is_empty() {
                    overlay.selected = overlay.entries.len() - 1;
                }
            },
            _ => {},
        }
        if should_clear {
            self.overlay = None;
        }
    }
}


impl AppState {
    /// Opens the tag editor for the selected note, given the tags that the
    /// store knows.
    pub fn open_tag_editor(&mut self, tags: &Vec<String>)
        ensures
            only_overlay_changed(*old(self), *final(self)),
            if old(self).selected < old(self).notes@.len() {
                match final(self).overlay {
                    Some(OverlayState::TagEditor(editor)) => editor@ == TagEditorView::opened(
                        old(self).notes@[old(self).selected as int].id,
                        texts_of(old(self).notes@[old(self).selected as int].tags@),
                        texts_of(tags@),
                    ),
                    _ => false,
                }
            } else {
                final(self).overlay == old(self).overlay
            },
    {
        if self.selected < self.notes.len() {
            let overlay = TagEditorOverlay::open(&self.notes[self.selected], tags);
            self.overlay = Some(OverlayState::TagEditor(overlay));
        }
    }

    /// What the tag editor is doing; browsing where there is none.
    pub fn tag_editor_mode(&self) -> (mode: TagEditorMode)
        ensures
            mode@ == match self.overlay {
                Some(OverlayState::TagEditor(editor)) => editor@.mode,
                _ => ModeView::Browse,
            },
    {
        match &self.overlay {
            Some(OverlayState::TagEditor(editor)) => editor.mode.duplicate(),
            _ => TagEditorMode::Browse,
        }
    }

    /// Moves the selection of the tag editor by `delta` tags.
    pub fn tag_editor_move_selection(&mut self, delta: isize)
        ensures
            tag_editor_stepped(*old(self), *final(self), |v: TagEditorView| v.moved(delta)),
    {
        match &mut self.overlay {
            Some(OverlayState::TagEditor(editor)) => {
                editor.move_selection(delta);
            },
            _ => {},
        }
    }

    /// Opens the input of the tag editor for a new tag.
    pub fn tag_editor_begin_add(&mut self)
        ensures
            tag_editor_stepped(*old(self), *final(self), |v: TagEditorView| v.adding()),
    {
        match &mut self.overlay {
            Some(OverlayState::TagEditor(editor)) => {
                editor.begin_add();
            },
            _ => {},
        }
    }

    /// Opens the input of the tag editor for a new name of the selected tag.
    pub fn tag_editor_begin_rename(&mut self)
        ensures
            tag_editor_stepped(*old(self), *final(self), |v: TagEditorView| v.renaming()),
    {
        match &mut self.overlay {
            Some(OverlayState::TagEditor(editor)) => {
                editor.begin_rename();
            },
            _ => {},
        }
    }

    /// Opens the input of the tag editor for the target of a merge of the
    /// selected tag.
    pub fn tag_editor_begin_merge(&mut self)
        ensures
            tag_editor_stepped(*old(self), *final(self), |v: TagEditorView| v.merging()),
    {
        match &mut self.overlay {
            Some(OverlayState::TagEditor(editor)) => {
                editor.begin_merge();
            },
            _ => {},
        }
    }

    /// Opens the input of the tag editor for the target of a merge of the
    /// marked tags, where at least two are marked, and tells whether it did.
    pub fn tag_editor_begin_marked_merge(&mut self) -> (opened: bool)
        ensures
            tag_editor_stepped(*old(self), *final(self), |v: TagEditorView| v.merging_marked()),
            opened == match old(self).overlay {
                Some(OverlayState::TagEditor(editor)) => editor@.marked().len() >= 2,
                _ => false,
            },
    {
        match &mut self.overlay {
            Some(OverlayState::TagEditor(editor)) => editor.begin_marked_merge(),
            _ => false,
        }
    }

    /// Switches the mark of the selected tag of the tag editor.
    pub fn tag_editor_toggle_bulk_mark(&mut self)
        ensures
            tag_editor_stepped(*old(self), *final(self), |v: TagEditorView| v.mark_toggled()),
    {
        match &mut self.overlay {
            Some(OverlayState::TagEditor(editor)) => {
                editor.toggle_bulk_mark();
            },
            _ => {},
        }
    }

    /// Clears all marks of the tag editor.
    pub fn tag_editor_clear_bulk_marks(&mut self)
        ensures
            tag_editor_stepped(*old(self), *final(self), |v: TagEditorView| v.marks_cleared()),
    {
        match &mut self.overlay {
            Some(OverlayState::TagEditor(editor)) => {
                editor.clear_bulk_marks();
            },
            _ => {},
        }
    }

    /// Takes the suggestion at `index` of the tag editor as a tag of the
    /// note and returns it.
    pub fn tag_editor_apply_suggestion(&mut self, index: usize) -> (taken: Option<String>)
        ensures
            tag_editor_stepped(*old(self), *final(self), |v: TagEditorView| v.suggested(index)),
            text_view(taken) == match old(self).overlay {
                Some(OverlayState::TagEditor(editor)) => if index < editor@.suggestions.len() {
                    Some(editor@.suggestions[index as int])
                } else {
                    None
                },
                _ => None,
            },
    {
        match &mut self.overlay {
            Some(OverlayState::TagEditor(editor)) => editor.apply_suggestion(index),
            _ => None,
        }
    }

    /// Asks in the tag editor whether the selected tag is to be removed
    /// everywhere.
    pub fn tag_editor_begin_delete(&mut self)
        ensures
            tag_editor_stepped(*old(self), *final(self), |v: TagEditorView| v.deleting()),
    {
        match &mut self.overlay {
            Some(OverlayState::TagEditor(editor)) => {
                editor.begin_delete();
            },
            _ => {},
        }
    }

    /// Takes a character into the input of the tag editor.
    pub fn tag_editor_push_char(&mut self, ch: char)
        ensures
            tag_editor_stepped(*old(self), *final(self), |v: TagEditorView| v.typed(ch)),
    {
        match &mut self.overlay {
            Some(OverlayState::TagEditor(editor)) => {
                editor.push_char(ch);
            },
            _ => {},
        }
    }

    /// Takes the last character of the input of the tag editor back.
    pub fn tag_editor_pop_char(&mut self)
        ensures
            tag_editor_stepped(*old(self), *final(self), |v: TagEditorView| v.erased()),
    {
        match &mut self.overlay {
            Some(OverlayState::TagEditor(editor)) => {
                editor.pop_char();
            },
            _ => {},
        }
    }

    /// Adds the name in the input of the tag editor as a tag of the note.
    pub fn tag_editor_commit_input(&mut self)
        ensures
            tag_editor_stepped(*old(self), *final(self), |v: TagEditorView| v.committed()),
    {
        match &mut self.overlay {
            Some(OverlayState::TagEditor(editor)) => {
                editor.commit_input();
            },
            _ => {},
        }
    }

    /// Cancels the input or the question of the tag editor.
    pub fn tag_editor_cancel_input(&mut self)
        ensures
            tag_editor_stepped(*old(self), *final(self), |v: TagEditorView| v.cancelled()),
    {
        match &mut self.overlay {
            Some(OverlayState::TagEditor(editor)) => {
                editor.cancel_input();
            },
            _ => {},
        }
    }

    /// The name of the selected tag of the tag editor.
    pub fn tag_editor_selected_name(&self) -> (name: Option<String>)
        ensures
            text_view(name) == match self.overlay {
                Some(OverlayState::TagEditor(editor)) => editor@.selected_name(),
                _ => None,
            },
    {
        match &self.overlay {
            Some(OverlayState::TagEditor(editor)) => editor.selected_name(),
            _ => None,
        }
    }

    /// The input of the tag editor without the white space at its ends,
    /// while it is open.
    pub fn tag_editor_input_value(&self) -> (value: Option<String>)
        ensures
            text_view(value) == match self.overlay {
                Some(OverlayState::TagEditor(editor)) => if editor@.mode is Input {
                    Some(trim_of(editor@.input))
                } else {
                    None
                },
                _ => None,
            },
    {
        match &self.overlay {
            Some(OverlayState::TagEditor(editor)) => editor.input_value(),
            _ => None,
        }
    }

    /// Takes down in the tag editor that the tag `from` was renamed to `to`
    /// in the store.
    pub fn tag_editor_finish_rename(&mut self, from: &str, to: &str)
        ensures
            tag_editor_stepped(*old(self), *final(self), |v: TagEditorView| v.renamed(from@, to@)),
    {
        match &mut self.overlay {
            Some(OverlayState::TagEditor(editor)) => {
                editor.finish_rename(from, to);
            },
            _ => {},
        }
    }

    /// Takes down in the tag editor that the tag `from` was merged into
    /// `to` in the store.
    pub fn tag_editor_finish_merge(&mut self, from: &str, to: &str)
        ensures
            tag_editor_stepped(*old(self), *final(self), |v: TagEditorView| v.merged(from@, to@)),
    {
        match &mut self.overlay {
            Some(OverlayState::TagEditor(editor)) => {
                editor.finish_merge(from, to);
            },
            _ => {},
        }
    }

    /// Takes down in the tag editor that the tag `tag` was deleted in the
    /// store.
    pub fn tag_editor_finish_delete(&mut self, tag: &str)
        ensures
            tag_editor_stepped(*old(self), *final(self), |v: TagEditorView| v.deleted(tag@)),
    {
        match &mut self.overlay {
            Some(OverlayState::TagEditor(editor)) => {
                editor.finish_delete(tag);
            },
            _ => {},
        }
    }

    /// Sets the status line of the tag editor.
    pub fn tag_editor_set_status(&mut self, message: String)
        ensures
            tag_editor_stepped(
                *old(self),
                *final(self),
                |v: TagEditorView| TagEditorView { status: Some(message@), ..v },
            ),
    {
        match &mut self.overlay {
            Some(OverlayState::TagEditor(editor)) => {
                editor.set_status(message);
            },
            _ => {},
        }
    }

    /// What the note gains and loses by the tag editor, and the note.
    pub fn tag_editor_changes(&self) -> (changes: Option<(Vec<String>, Vec<String>, i64)>)
        ensures
            match self.overlay {
                Some(OverlayState::TagEditor(editor)) => match changes {
                    Some((add, remove, note_id)) => texts_of(add@) == editor@.added() && texts_of(
                        remove@,
                    ) == editor@.removed() && note_id == editor@.note_id,
                    None => false,
                },
                _ => changes is None,
            },
    {
        match &self.overlay {
            Some(OverlayState::TagEditor(editor)) => Some(editor.changes()),
            _ => None,
        }
    }

    /// The draft of a new note, to change it.
    pub fn new_note_overlay_mut(&mut self) -> (overlay: Option<&mut NewNoteOverlay>)
        ensures
            match overlay {
                Some(overlay) => old(self).overlay == Some(OverlayState::NewNote(*overlay))
                    && *final(self) == (AppState {
                    overlay: Some(OverlayState::NewNote(*final(overlay))),
                    ..*old(self)
                }),
                None => !(old(self).overlay matches Some(OverlayState::NewNote(_))) && *final(self)
                    == *old(self),
            },
    {
        match &mut self.overlay {
            Some(OverlayState::NewNote(overlay)) => Some(overlay),
            _ => None,
        }
    }

    /// The draft of a new title, to change it.
    pub fn rename_note_overlay_mut(&mut self) -> (overlay: Option<&mut RenameNoteOverlay>)
        ensures
            match overlay {
                Some(overlay) => old(self).overlay == Some(OverlayState::RenameNote(*overlay))
                    && *final(self) == (AppState {
                    overlay: Some(OverlayState::RenameNote(*final(overlay))),
                    ..*old(self)
                }),
                None => !(old(self).overlay matches Some(OverlayState::RenameNote(_))) && *final(self) == *old(self),
            },
    {
        match &mut self.overlay {
            Some(OverlayState::RenameNote(overlay)) => Some(overlay),
            _ => None,
        }
    }

    /// The question about a deletion, to change it.
    pub fn delete_note_overlay_mut(&mut self) -> (overlay: Option<&mut DeleteNoteOverlay>)
        ensures
            match overlay {
                Some(overlay) => old(self).overlay == Some(OverlayState::DeleteNote(*overlay))
                    && *final(self) == (AppState {
                    overlay: Some(OverlayState::DeleteNote(*final(overlay))),
                    ..*old(self)
                }),
                None => !(old(self).overlay matches Some(OverlayState::DeleteNote(_))) && *final(self) == *old(self),
            },
    {
        match &mut self.overlay {
            Some(OverlayState::DeleteNote(overlay)) => Some(overlay),
            _ => None,
        }
    }

    /// The question about the whole trash, to change it.
    pub fn bulk_trash_overlay_mut(&mut self) -> (overlay: Option<&mut BulkTrashOverlay>)
        ensures
            match overlay {
                Some(overlay) => old(self).overlay == Some(OverlayState::BulkTrash(*overlay))
                    && *final(self) == (AppState {
                    overlay: Some(OverlayState::BulkTrash(*final(overlay))),
                    ..*old(self)
                }),
                None => !(old(self).overlay matches Some(OverlayState::BulkTrash(_))) && *final(self)
                    == *old(self),
            },
    {
        match &mut self.overlay {
            Some(OverlayState::BulkTrash(overlay)) => Some(overlay),
            _ => None,
        }
    }

    /// The tag editor, to change it.
    pub fn tag_editor_overlay_mut(&mut self) -> (overlay: Option<&mut TagEditorOverlay>)
        ensures
            match overlay {
                Some(overlay) => old(self).overlay == Some(OverlayState::TagEditor(*overlay))
                    && *final(self) == (AppState {
                    overlay: Some(OverlayState::TagEditor(*final(overlay))),
                    ..*old(self)
                }),
                None => !(old(self).overlay matches Some(OverlayState::TagEditor(_))) && *final(self)
                    == *old(self),
            },
    {
        match &mut self.overlay {
            Some(OverlayState::TagEditor(overlay)) => Some(overlay),
            _ => None,
        }
    }

    /// The list of drafts, to change it.
    pub fn recovery_overlay_mut(&mut self) -> (overlay: Option<&mut RecoveryOverlay>)
        ensures
            match overlay {
                Some(overlay) => old(self).overlay == Some(OverlayState::Recovery(*overlay))
                    && *final(self) == (AppState {
                    overlay: Some(OverlayState::Recovery(*final(overlay))),
                    ..*old(self)
                }),
                None => !(old(self).overlay matches Some(OverlayState::Recovery(_))) && *final(self)
                    == *old(self),
            },
    {
        match &mut self.overlay {
            Some(OverlayState::Recovery(overlay)) => Some(overlay),
            _ => None,
        }
    }
}


pub struct SearchView {
    pub active: bool,
    pub query: Seq<char>,
    pub last_error: Option<Seq<char>>,
    pub terms: Seq<Seq<char>>,
    pub tags: Seq<Seq<char>>,
    pub filter_chips: Seq<Seq<char>>,
    pub regex_enabled: bool,
    pub regex_pattern: Option<Seq<char>>,
}

impl View for SearchState {
    type V = SearchView;

    open spec fn view(&self) -> SearchView {
        SearchView {
            active: self.active,
            query: self.query@,
            last_error: text_view(self.last_error),
            terms: texts_of(self.terms@),
            tags: texts_of(self.tags@),
            filter_chips: texts_of(self.filter_chips@),
            regex_enabled: self.regex_enabled,
            regex_pattern: text_view(self.regex_pattern),
        }
    }
}

/// The notes that the list asks the store for.
#[derive(Debug, Clone)]
pub enum NotesRequest {
    /// The notes changed last, at most `limit`.
    Recent { limit: usize },
    /// The notes in the trash, at most `limit`.
    Trashed { limit: usize },
    /// The notes that match `query`, at most `limit`.
    Search { query: SearchQuery, limit: usize },
}

pub enum RequestView {
    Recent { limit: usize },
    Trashed { limit: usize },
    Search { query: QueryView, limit: usize },
}

impl View for NotesRequest {
    type V = RequestView;

    open spec fn view(&self) -> RequestView {
        match self {
            NotesRequest::Recent { limit } => RequestView::Recent { limit: *limit },
            NotesRequest::Trashed { limit } => RequestView::Trashed { limit: *limit },
            NotesRequest::Search { query, limit } => RequestView::Search {
                query: query@,
                limit: *limit,
            },
        }
    }
}

/// The most notes that the list shows without a search.
pub const LIST_LIMIT: usize = 50;

/// The most notes that a search shows.
pub const SEARCH_LIMIT: usize = 200;

/// The query has neither terms nor filters.
pub open spec fn asks_nothing(query: QueryView) -> bool {
    query.terms.len() == 0 && query.title_terms.len() == 0 && query.tags.len() == 0
        && query.created.from is None && query.created.to is None && query.updated.from is None
        && query.updated.to is None
}

impl SearchView {
    /// The search without what was read from its line.
    pub open spec fn cleared(self) -> SearchView {
        SearchView { terms: seq![], tags: seq![], filter_chips: seq![], regex_pattern: None, ..self }
    }

    /// The query that the line spells.
    pub open spec fn typed_query(self) -> QueryView {
        parsed(words_of(trim_of(self.query)))
    }

    /// The pattern that the line spells, where patterns are switched on.
    pub open spec fn typed_pattern(self) -> Option<Seq<char>> {
        if self.regex_enabled {
            pattern_of(trim_of(self.query))
        } else {
            None
        }
    }

    /// Whether the line asks for a search: it is not blank and spells a term
    /// or a filter.
    pub open spec fn searches(self) -> bool {
        trim_of(self.query).len() > 0 && !asks_nothing(self.typed_query())
    }

    /// The search after its line has been read. A blank line is emptied
    /// and forgets the last error and what was read; a line that asks for
    /// nothing forgets what was read; else the terms, the tags, the chips and
    /// the pattern are those of the line.
    pub open spec fn applied(self) -> SearchView {
        if trim_of(self.query).len() == 0 {
            SearchView { query: seq![], last_error: None, ..self.cleared() }
        } else if !self.searches() {
            self.cleared()
        } else {
            SearchView {
                terms: self.typed_query().terms + self.typed_query().title_terms,
                tags: self.typed_query().tags,
                filter_chips: filter_chips_of(self.typed_query()),
                regex_pattern: self.typed_pattern(),
                ..self
            }
        }
    }

    /// The query that is handed to the store for the line: with a pattern,
    /// the query without its terms.
    pub open spec fn store_query(self) -> QueryView {
        if self.typed_pattern() is Some {
            QueryView {
                terms: seq![],
                title_terms: seq![],
                regex_pattern: self.typed_pattern(),
                ..self.typed_query()
            }
        } else {
            QueryView { regex_pattern: None, ..self.typed_query() }
        }
    }
}

/// The notes that the list shows without a search.
pub open spec fn plain_request(show_trash: bool) -> RequestView {
    if show_trash {
        RequestView::Trashed { limit: LIST_LIMIT }
    } else {
        RequestView::Recent { limit: LIST_LIMIT }
    }
}

/// What the list asks the store for when the search is `search`.
pub open spec fn request_of(search: SearchView, show_trash: bool) -> RequestView {
    if search.searches() {
        RequestView::Search { query: search.store_query(), limit: SEARCH_LIMIT }
    } else {
        plain_request(show_trash)
    }
}

/// The summaries of the records.
pub open spec fn summaries_of(records: Seq<NoteView>, preview_lines: int, retention_days: u32, now: i64) -> Seq<
    SummaryView,
> {
    records.map_values(|record: NoteView| summary_of(record, preview_lines, retention_days, now))
}

/// Summarises the records for the list.
pub fn summarize_all(records: Vec<NoteRecord>, preview_lines: usize, retention_days: u32, now: i64) -> (notes:
    Vec<NoteSummary>)
    ensures
        summary_views(notes@) == summaries_of(
            note_views(records@),
            preview_lines as int,
            retention_days,
            now,
        ),
{
    let ghost all = note_views(records@);
    let ghost brief = |record: NoteView| summary_of(record, preview_lines as int, retention_days, now);
    let mut notes: Vec<NoteSummary> = Vec::new();
    let mut i: usize = 0;
    assert(summary_views(notes@) =~= all.take(0).map_values(brief));
    while i < records.len()
        invariant
            i <= records.len(),
            all == note_views(records@),
            brief == (|record: NoteView|
                summary_of(record, preview_lines as int, retention_days, now)),
            summary_views(notes@) == all.take(i as int).map_values(brief),
        decreases records.len() - i,
    {
        let note = summarize_record(records[i].duplicate(), preview_lines, retention_days, now);
        let ghost before = summary_views(notes@);
        notes.push(note);
        assert(summary_views(notes@) =~= before.push(note@));
        assert(all.take(i + 1).map_values(brief) =~= all.take(i as int).map_values(brief).push(
            brief(all[i as int]),
        ));
        i = i + 1;
    }
    assert(all.take(all.len() as int) =~= all);
    notes
}

/// The state differs from `before` in its search at most, which is now
/// `search`.
pub open spec fn search_became(before: AppState, after: AppState, search: SearchView) -> bool {
    after == (AppState { search: after.search, ..before }) && after.search@ == search
}

/// What toggling the search by pattern did.
#[derive(Debug, Clone)]
pub struct RegexToggle {
    /// Whether patterns are switched on now.
    pub enabled: bool,
    /// Whether they were before.
    pub previous: bool,
    /// What the list asks the store for, where the line is not blank.
    pub request: Option<NotesRequest>,
}

impl AppState {
    fn plain(&self) -> (request: NotesRequest)
        ensures
            request@ == plain_request(self.show_trash),
    {
        if self.show_trash {
            NotesRequest::Trashed { limit: LIST_LIMIT }
        } else {
            NotesRequest::Recent { limit: LIST_LIMIT }
        }
    }

    /// Decides what the list has to ask the store for, after the line of
    /// the search has been read again where it is not empty.
    pub fn refresh(&mut self) -> (request: NotesRequest)
        ensures
            search_became(
                *old(self),
                *final(self),
                if old(self).search.query@.len() == 0 {
                    old(self).search@
                } else {
                    old(self).search@.applied()
                },
            ),
            request@ == if old(self).search.query@.len() == 0 {
                plain_request(old(self).show_trash)
            } else {
                request_of(old(self).search@, old(self).show_trash)
            },
    {
        if !self.search.query.as_str().is_empty() {
            return self.apply_search();
        }
        self.plain()
    }

    fn clear_search_terms(&mut self)
        ensures
            search_became(*old(self), *final(self), old(self).search@.cleared()),
    {
        self.search.terms = Vec::new();
        self.search.tags = Vec::new();
        self.search.filter_chips = Vec::new();
        self.search.regex_pattern = None;
        assert(texts_of(self.search.terms@) =~= seq![]);
        assert(texts_of(self.search.tags@) =~= seq![]);
        assert(texts_of(self.search.filter_chips@) =~= seq![]);
    }

    fn apply_search(&mut self) -> (request: NotesRequest)
        ensures
            search_became(*old(self), *final(self), old(self).search@.applied()),
            request@ == request_of(old(self).search@, old(self).show_trash),
    {
        let trimmed = trim(self.search.query.as_str());
        if trimmed.as_str().is_empty() {
            self.search.query = String::new();
            self.search.last_error = None;
            self.clear_search_terms();
            return self.plain();
        }
        let mut query = parse_query(trimmed.as_str());
        proof {
            lemma_parsed_without_pattern(words_of(trimmed@));
        }
        if self.search.regex_enabled {
            query.regex_pattern = regex_pattern_from_input(trimmed.as_str());
        }
        if !query.has_terms() && !query.has_filters() {
            self.clear_search_terms();
            return self.plain();
        }
        self.search.terms = query.highlight_terms();
        self.search.tags = crate::search::clone_strings(&query.tags);
        self.search.filter_chips = build_filter_chips(&query);
        self.search.regex_pattern = match &query.regex_pattern {
            Some(pattern) => Some(pattern.clone()),
            None => None,
        };
        let mut storage_query = query.duplicate();
        if self.search.regex_enabled && storage_query.regex_pattern.is_some() {
            storage_query.terms = Vec::new();
            storage_query.title_terms = Vec::new();
            assert(storage_query@.terms =~= seq![]);
            assert(storage_query@.title_terms =~= seq![]);
        }
        NotesRequest::Search { query: storage_query, limit: SEARCH_LIMIT }
    }

    /// Takes what the store gave for `request`. Notes are summarised and
    /// shown: for a search with the first note selected and the last error
    /// forgotten; else with what was read from the line forgotten and the
    /// selection held inside the list. A failure changes nothing but the last
    /// error of a search, and is handed on.
    pub fn complete_request(
        &mut self,
        request: &NotesRequest,
        outcome: Result<Vec<NoteRecord>, String>,
        now: i64,
    ) -> (done: Result<(), String>)
        ensures
            match outcome {
                Ok(records) => done is Ok && summary_views(final(self).notes@) == summaries_of(
                    note_views(records@),
                    old(self).preview_lines as int,
                    old(self).retention_days,
                    now,
                ) && *final(self) == (AppState {
                    notes: final(self).notes,
                    selected: final(self).selected,
                    search: final(self).search,
                    ..*old(self)
                }) && if request is Search {
                    final(self).selected == 0 && final(self).search@ == (SearchView {
                        last_error: None,
                        ..old(self).search@
                    })
                } else {
                    final(self).selected == normalized(old(self).selected, records@.len())
                        && final(self).search@ == old(self).search@.cleared()
                },
                Err(message) => done == Err::<(), String>(message) && search_became(
                    *old(self),
                    *final(self),
                    if request is Search {
                        SearchView { last_error: Some(message@), ..old(self).search@ }
                    } else {
                        old(self).search@
                    },
                ),
            },
    {
        let searching = match request {
            NotesRequest::Search { .. } => true,
            _ => false,
        };
        match outcome {
            Ok(records) => {
                let ghost count = records@.len();
                self.notes = summarize_all(records, self.preview_lines, self.retention_days, now);
                proof {
                    assert(summary_views(self.notes@).len() == self.notes@.len());
                    assert(note_views(records@).len() == count);
                    assert(self.notes@.len() == count);
                }
                if searching {
                    self.selected = 0;
                    self.normalize_selection();
                    self.search.last_error = None;
                } else {
                    self.clear_search_terms();
                    self.normalize_selection();
                }
                Ok(())
            },
            Err(message) => {
                if searching {
                    self.search.last_error = Some(message.clone());
                }
                Err(message)
            },
        }
    }

    /// Shows the trash or the notes; where that is a change, the list has
    /// to ask the store anew.
    pub fn set_trash_view(&mut self, enabled: bool) -> (request: Option<NotesRequest>)
        ensures
            old(self).show_trash == enabled ==> request is None && *final(self) == *old(self),
            old(self).show_trash != enabled ==> final(self).show_trash == enabled && match request {
                Some(request) => search_became(
                    AppState { show_trash: enabled, ..*old(self) },
                    *final(self),
                    if old(self).search.query@.len() == 0 {
                        old(self).search@
                    } else {
                        old(self).search@.applied()
                    },
                ) && request@ == if old(self).search.query@.len() == 0 {
                    plain_request(enabled)
                } else {
                    request_of(old(self).search@, enabled)
                },
                None => false,
            },
    {
        if self.show_trash == enabled {
            return None;
        }
        self.show_trash = enabled;
        Some(self.refresh())
    }

    /// The note that is to be taken out of the trash: the selected one.
    pub fn restore_selected_note(&self) -> (note_id: Option<i64>)
        ensures
            note_id == if self.selected < self.notes@.len() {
                Some(self.notes@[self.selected as int].id)
            } else {
                None
            },
    {
        self.selected_note_id()
    }

    /// Leaves the search: its line is emptied and the list asks the store
    /// for the notes without a search. Nothing happens while no search line is
    /// open.
    pub fn cancel_search(&mut self) -> (request: Option<NotesRequest>)
        ensures
            !old(self).search.active ==> request is None && *final(self) == *old(self),
            old(self).search.active ==> search_became(
                *old(self),
                *final(self),
                SearchView {
                    active: false,
                    query: seq![],
                    last_error: None,
                    ..old(self).search@.cleared()
                },
            ) && match request {
                Some(request) => request@ == plain_request(old(self).show_trash),
                None => false,
            },
    {
        if !self.search.active {
            return None;
        }
        self.search.active = false;
        self.search.query = String::new();
        self.search.last_error = None;
        self.clear_search_terms();
        Some(self.refresh())
    }

    /// Takes a character into the line of the search and reads the line.
    pub fn push_search_char(&mut self, ch: char) -> (request: NotesRequest)
        ensures
            search_became(
                *old(self),
                *final(self),
                (SearchView { query: old(self).search@.query.push(ch), ..old(self).search@ }).applied(),
            ),
            request@ == request_of(
                SearchView { query: old(self).search@.query.push(ch), ..old(self).search@ },
                old(self).show_trash,
            ),
    {
        push_char(&mut self.search.query, ch);
        self.apply_search()
    }

    /// Takes the last character of the line of the search back and reads
    /// the line; nothing happens on an empty line.
    pub fn pop_search_char(&mut self) -> (request: Option<NotesRequest>)
        ensures
            old(self).search@.query.len() == 0 ==> request is None && *final(self) == *old(self),
            old(self).search@.query.len() > 0 ==> {
                let shorter = SearchView {
                    query: old(self).search@.query.drop_last(),
                    ..old(self).search@
                };
                match request {
                    Some(request) => if shorter.query.len() == 0 {
                        search_became(
                            *old(self),
                            *final(self),
                            SearchView { last_error: None, ..shorter },
                        ) && request@ == plain_request(old(self).show_trash)
                    } else {
                        search_became(*old(self), *final(self), shorter.applied()) && request@
                            == request_of(shorter, old(self).show_trash)
                    },
                    None => false,
                }
            },
    {
        let mut chars = crate::text::chars_of(self.search.query.as_str());
        if chars.len() == 0 {
            return None;
        }
        chars.pop();
        self.search.query = string_of(&chars);
        if self.search.query.as_str().is_empty() {
            self.search.last_error = None;
            Some(self.refresh())
        } else {
            Some(self.apply_search())
        }
    }

    /// Switches the search by pattern on or off and reads the line again
    /// where it is not blank.
    pub fn toggle_regex_mode(&mut self) -> (toggle: RegexToggle)
        ensures
            toggle.previous == old(self).search.regex_enabled,
            toggle.enabled == !old(self).search.regex_enabled,
            if trim_of(old(self).search@.query).len() == 0 {
                toggle.request is None && search_became(
                    *old(self),
                    *final(self),
                    SearchView {
                        regex_enabled: toggle.enabled,
                        regex_pattern: None,
                        last_error: None,
                        ..old(self).search@
                    },
                )
            } else {
                let switched = SearchView { regex_enabled: toggle.enabled, ..old(self).search@ };
                match toggle.request {
                    Some(request) => search_became(*old(self), *final(self), switched.applied())
                        && request@ == request_of(switched, old(self).show_trash),
                    None => false,
                }
            },
    {
        let previous = self.search.regex_enabled;
        self.search.regex_enabled = !previous;
        if trim(self.search.query.as_str()).as_str().is_empty() {
            self.search.regex_pattern = None;
            self.search.last_error = None;
            return RegexToggle { enabled: !previous, previous, request: None };
        }
        let request = self.apply_search();
        RegexToggle { enabled: !previous, previous, request: Some(request) }
    }

    /// Takes a toggle of the search by pattern back after the search that
    /// it asked for has failed.
    pub fn revert_regex_mode(&mut self, previous: bool)
        ensures
            search_became(
                *old(self),
                *final(self),
                SearchView { regex_enabled: previous, ..old(self).search@ },
            ),
    {
        self.search.regex_enabled = previous;
    }
}

} // verus!
