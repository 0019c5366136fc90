//! The editing buffer: live text, a cursor that stays on character
//! boundaries, a remembered column for vertical motion, and a bounded,
//! linear undo history of whole-buffer snapshots.

use crate::text::{
    grapheme_clusters, snap_to_cluster,
    all_whitespace, byte_len, bytes_of, cluster_floor, column_at, column_of, is_cluster_boundary,
    is_blank, is_boundary, lemma_boundary_after_ascii, lemma_line_end,
    lemma_line_start, line_end, line_end_of, line_start, line_start_of, next_boundary,
    next_grapheme_boundary, position_for_column, position_of_column, prev_boundary,
    prev_grapheme_boundary, push_char, slice, splice, spliced, substring,
};
use vstd::prelude::*;
use vstd::string::*;
use vstd::utf8::*;

verus! {

broadcast use vstd::utf8::group_utf8_lib;

/// The largest number of snapshots the history retains.
pub const MAX_HISTORY: usize = 200;

/// The mathematical state of an [`EditorState`].
pub struct EditorView {
    pub note_id: i64,
    /// The live text.
    pub text: Seq<char>,
    /// The cursor, as a byte offset into the encoding of `text`.
    pub cursor: int,
    pub dirty: bool,
    /// The column that vertical motion tries to keep.
    pub preferred_column: Option<int>,
    /// The retained snapshots, oldest first.
    pub history: Seq<Seq<char>>,
    /// The snapshot that the live text was last synchronised with.
    pub index: int,
}

impl EditorView {
    /// The invariant of the editing buffer: the cursor lies on a character
    /// boundary inside the text, the history is non-empty and bounded, the
    /// index points into it, and the snapshot at the index is the live text.
    pub open spec fn wf(self) -> bool {
        &&& is_boundary(self.text, self.cursor)
        &&& self.history_wf()
    }

    /// The part of the invariant that speaks of the history: it is
    /// non-empty and bounded, the index points into it, and the snapshot at
    /// the index is the live text.
    pub open spec fn history_wf(self) -> bool {
        &&& 1 <= self.history.len() <= MAX_HISTORY
        &&& 0 <= self.index < self.history.len()
        &&& self.history[self.index] == self.text
    }

    /// A fresh buffer over `text`: cursor at the end, clean, one snapshot.
    pub open spec fn initial(note_id: i64, text: Seq<char>) -> EditorView {
        EditorView {
            note_id,
            text,
            cursor: byte_len(text),
            dirty: false,
            preferred_column: None,
            history: seq![text],
            index: 0,
        }
    }

    /// The state after the live text has been recorded in the history:
    /// nothing changes where the text equals the current snapshot;
    /// otherwise everything after the current snapshot is dropped, the text
    /// is appended, the oldest snapshots beyond the bound are evicted, and
    /// the index points at the newest snapshot.
    pub open spec fn recorded(self) -> EditorView {
        if self.history[self.index] == self.text {
            self
        } else {
            let kept = self.history.take(self.index + 1).push(self.text);
            let overflow = if kept.len() > MAX_HISTORY {
                kept.len() - MAX_HISTORY
            } else {
                0
            };
            let history = kept.skip(overflow);
            EditorView { history, index: history.len() - 1, ..self }
        }
    }

    /// The state after an edit that leaves `text` and `cursor`.
    pub open spec fn edited(
        self,
        text: Seq<char>,
        cursor: int,
        preferred_column: Option<int>,
    ) -> EditorView {
        EditorView { text, cursor, preferred_column, dirty: true, ..self }.recorded()
    }

    /// The state after `ch` has been inserted at the cursor.
    pub open spec fn inserted(self, ch: char, preferred_column: Option<int>) -> EditorView {
        self.edited(
            spliced(self.text, self.cursor, self.cursor, seq![ch]),
            self.cursor + byte_len(seq![ch]),
            preferred_column,
        )
    }

    /// The state after the cluster before the cursor has been deleted.
    pub open spec fn backspaced(self) -> EditorView {
        if self.cursor == 0 {
            self
        } else {
            let prev = prev_boundary(self.text, self.cursor);
            self.edited(spliced(self.text, prev, self.cursor, seq![]), prev, None)
        }
    }

    /// The state after the cluster at the cursor has been deleted.
    pub open spec fn deleted(self) -> EditorView {
        if self.cursor >= byte_len(self.text) {
            self
        } else {
            let next = next_boundary(self.text, self.cursor);
            self.edited(spliced(self.text, self.cursor, next, seq![]), self.cursor, None)
        }
    }

    /// The state with the cursor at `cursor` and the given remembered column.
    pub open spec fn moved(self, cursor: int, preferred_column: Option<int>) -> EditorView {
        if cursor == self.cursor {
            self
        } else {
            EditorView { cursor, preferred_column, ..self }
        }
    }

    /// The column that vertical motion aims for: the remembered one, or the
    /// column of the cursor on its line.
    pub open spec fn target_column(self) -> int {
        match self.preferred_column {
            Some(column) => column,
            None => column_of(self.text, line_start_of(self.text, self.cursor), self.cursor),
        }
    }

    /// The column of the end of the cursor's line, which `move_end` remembers.
    pub open spec fn end_column(self) -> int {
        let end = line_end_of(self.text, self.cursor);
        column_of(self.text, line_start_of(self.text, end), end)
    }

    /// Where `move_up` puts the cursor: on the previous line at the target
    /// column, or at the start of the text from the first line.
    pub open spec fn up_target(self) -> int {
        let start = line_start_of(self.text, self.cursor);
        if start == 0 {
            0
        } else {
            position_of_column(self.text, line_start_of(self.text, start - 1), self.target_column())
        }
    }

    /// Where `move_down` puts the cursor: on the next line at the target
    /// column, or at the end of the text from the last line.
    pub open spec fn down_target(self) -> int {
        let end = line_end_of(self.text, self.cursor);
        if end == byte_len(self.text) {
            byte_len(self.text)
        } else {
            position_of_column(self.text, end + 1, self.target_column())
        }
    }

    /// The state with the snapshot at the index as live text. The cursor
    /// keeps its offset where that is a cluster boundary of the snapshot;
    /// else it moves back to the start of the cluster of the snapshot that
    /// holds it, or to the end of the snapshot where it lay behind it.
    pub open spec fn restored(self) -> EditorView {
        let text = self.history[self.index];
        EditorView {
            text,
            cursor: cluster_floor(text, self.cursor),
            dirty: self.index != 0,
            preferred_column: None,
            ..self
        }
    }

    /// The state after one step back in the history.
    pub open spec fn undone(self) -> EditorView {
        if self.index == 0 {
            self
        } else {
            EditorView { index: self.index - 1, ..self }.restored()
        }
    }

    /// The state after one step forward in the history.
    pub open spec fn redone(self) -> EditorView {
        if self.index + 1 >= self.history.len() {
            self
        } else {
            EditorView { index: self.index + 1, ..self }.restored()
        }
    }

    /// The state after a successful save: clean, and the history collapsed
    /// to the live text alone.
    pub open spec fn marked_clean(self) -> EditorView {
        EditorView { dirty: false, history: seq![self.text], index: 0, ..self }
    }
}

/// Whether the cluster that ends at `idx` holds only white space.
pub open spec fn blank_before(text: Seq<char>, idx: int) -> bool {
    all_whitespace(slice(text, prev_boundary(text, idx), idx))
}

/// Whether the cluster that starts at `idx` holds only white space.
pub open spec fn blank_after(text: Seq<char>, idx: int) -> bool {
    all_whitespace(slice(text, idx, next_boundary(text, idx)))
}

/// From `idx` back over clusters while they are blank (`blank`) or while
/// they are not (`!blank`).
pub open spec fn skip_left(text: Seq<char>, idx: int, blank: bool) -> int
    decreases idx,
{
    let prev = prev_boundary(text, idx);
    if idx > 0 && 0 <= prev < idx && blank_before(text, idx) == blank {
        skip_left(text, prev, blank)
    } else {
        idx
    }
}

/// From `idx` forward over clusters while they are blank (`blank`) or while
/// they are not (`!blank`).
pub open spec fn skip_right(text: Seq<char>, idx: int, blank: bool) -> int
    decreases byte_len(text) - idx,
{
    let next = next_boundary(text, idx);
    if idx < byte_len(text) && idx < next <= byte_len(text) && blank_after(text, idx) == blank {
        skip_right(text, next, blank)
    } else {
        idx
    }
}

/// Where `move_word_left` puts the cursor: back over the white space before
/// the cursor, then back over the word before that.
pub open spec fn word_left_target(text: Seq<char>, cursor: int) -> int {
    skip_left(text, skip_left(text, cursor, true), false)
}

/// Where `move_word_right` puts the cursor: over the white space at the
/// cursor, over the word after it, and over the white space after that.
pub open spec fn word_right_target(text: Seq<char>, cursor: int) -> int {
    skip_right(text, skip_right(text, skip_right(text, cursor, true), false), true)
}

/// The texts of the snapshots in `history`.
pub open spec fn texts(history: Seq<String>) -> Seq<Seq<char>> {
    history.map_values(|snapshot: String| snapshot@)
}

/// The editing buffer of one note.
#[derive(Debug, Clone)]
pub struct EditorState {
    pub note_id: i64,
    pub buffer: String,
    pub cursor: usize,
    pub dirty: bool,
    preferred_column: Option<usize>,
    history: Vec<String>,
    history_index: usize,
}

impl View for EditorState {
    type V = EditorView;

    closed spec fn view(&self) -> EditorView {
        EditorView {
            note_id: self.note_id,
            text: self.buffer@,
            cursor: self.cursor as int,
            dirty: self.dirty,
            preferred_column: match self.preferred_column {
                Some(column) => Some(column as int),
                None => None,
            },
            history: texts(self.history@),
            index: self.history_index as int,
        }
    }
}

impl EditorState {
    /// Opens a buffer over `buffer` with the cursor at its end.
    pub fn new(note_id: i64, buffer: String) -> (editor: Self)
        ensures
            editor@ == EditorView::initial(note_id, buffer@),
            editor@.wf(),
    {
        let cursor = buffer.as_str().as_bytes().len();
        let mut history: Vec<String> = Vec::with_capacity(128);
        history.push(buffer.clone());
        proof {
            is_char_boundary_start_end_of_seq(bytes_of(buffer@));
            assert(texts(history@) =~= seq![buffer@]);
        }
        Self {
            note_id,
            buffer,
            cursor,
            dirty: false,
            preferred_column: None,
            history,
            history_index: 0,
        }
    }

    /// Whether the buffer meets its invariant. It does after every
    /// operation of the buffer; only a change made to its public fields from
    /// outside can break it.
    pub fn is_well_formed(&self) -> (ok: bool)
        ensures
            ok == self@.wf(),
    {
        let len = self.buffer.as_str().as_bytes().len();
        if self.cursor > len || !self.buffer.as_str().is_char_boundary(self.cursor) {
            return false;
        }
        if self.history.len() < 1 || self.history.len() > MAX_HISTORY {
            return false;
        }
        if self.history_index >= self.history.len() {
            return false;
        }
        assert(texts(self.history@)[self.history_index as int]
            == self.history@[self.history_index as int]@);
        self.history[self.history_index] == self.buffer
    }

    pub fn note_id(&self) -> (id: i64)
        ensures
            id == self@.note_id,
    {
        self.note_id
    }

    /// The cursor, as a byte offset into the buffer.
    pub fn cursor(&self) -> (cursor: usize)
        ensures
            cursor == self@.cursor,
    {
        self.cursor
    }

    pub fn buffer(&self) -> (text: &str)
        ensures
            text@ == self@.text,
    {
        self.buffer.as_str()
    }

    pub fn is_dirty(&self) -> (dirty: bool)
        ensures
            dirty == self@.dirty,
    {
        self.dirty
    }

    /// Records a successful save: the buffer is clean and the history holds
    /// the live text alone, so that undo cannot cross the save.
    pub fn mark_clean(&mut self)
        ensures
            final(self)@ == old(self)@.marked_clean(),
            is_boundary(old(self)@.text, old(self)@.cursor) ==> final(self)@.wf(),
    {
        self.dirty = false;
        self.history.clear();
        self.history.push(self.buffer.clone());
        self.history_index = 0;
        proof {
            assert(texts(self.history@) =~= seq![self.buffer@]);
        }
    }

    /// Inserts `ch` at the cursor and moves the cursor past it.
    pub fn insert_char(&mut self, ch: char) -> (changed: bool)
        requires
            old(self)@.wf(),
        ensures
            changed,
            final(self)@ == old(self)@.inserted(ch, None),
            final(self)@.wf(),
    {
        self.insert_at_cursor(ch, None);
        true
    }

    /// Inserts a line feed at the cursor; the remembered column becomes 0.
    pub fn insert_newline(&mut self) -> (changed: bool)
        requires
            old(self)@.wf(),
        ensures
            changed,
            final(self)@ == old(self)@.inserted('\n', Some(0int)),
            final(self)@.wf(),
    {
        self.insert_at_cursor('\n', Some(0));
        true
    }

    fn insert_at_cursor(&mut self, ch: char, preferred_column: Option<usize>)
        requires
            old(self)@.wf(),
        ensures
            final(self)@ == old(self)@.inserted(
                ch,
                match preferred_column {
                    Some(column) => Some(column as int),
                    None => None,
                },
            ),
            final(self)@.wf(),
    {
        let mut piece = String::new();
        push_char(&mut piece, ch);
        assert(piece@ =~= seq![ch]);
        let next = splice(self.buffer.as_str(), self.cursor, self.cursor, piece.as_str());
        let width = piece.as_str().as_bytes().len();
        self.buffer = next;
        self.cursor = self.cursor + width;
        self.preferred_column = preferred_column;
        self.after_edit();
    }

    /// Deletes the grapheme cluster before the cursor; does nothing at the
    /// start of the buffer.
    pub fn backspace(&mut self) -> (changed: bool)
        requires
            old(self)@.wf(),
        ensures
            changed == (old(self)@.cursor != 0),
            final(self)@ == old(self)@.backspaced(),
            final(self)@.wf(),
    {
        if self.cursor == 0 {
            return false;
        }
        let prev = prev_grapheme_boundary(self.buffer.as_str(), self.cursor);
        let next = splice(self.buffer.as_str(), prev, self.cursor, "");
        proof {
            reveal_strlit("");
            assert(""@ =~= Seq::<char>::empty());
        }
        self.buffer = next;
        self.cursor = prev;
        self.preferred_column = None;
        self.after_edit();
        true
    }

    /// Deletes the grapheme cluster at the cursor; does nothing at the end
    /// of the buffer.
    pub fn delete(&mut self) -> (changed: bool)
        requires
            old(self)@.wf(),
        ensures
            changed == (old(self)@.cursor < byte_len(old(self)@.text)),
            final(self)@ == old(self)@.deleted(),
            final(self)@.wf(),
    {
        if self.cursor >= self.buffer.as_str().as_bytes().len() {
            return false;
        }
        let next = next_grapheme_boundary(self.buffer.as_str(), self.cursor);
        if next == self.cursor {
            return false;
        }
        let rest = splice(self.buffer.as_str(), self.cursor, next, "");
        proof {
            reveal_strlit("");
            assert(""@ =~= Seq::<char>::empty());
        }
        self.buffer = rest;
        self.preferred_column = None;
        self.after_edit();
        true
    }

    /// Moves the cursor back over one grapheme cluster.
    pub fn move_left(&mut self) -> (moved: bool)
        requires
            old(self)@.wf(),
        ensures
            moved == (old(self)@.cursor != 0),
            final(self)@ == old(self)@.moved(
                prev_boundary(old(self)@.text, old(self)@.cursor),
                None,
            ),
            final(self)@.wf(),
    {
        if self.cursor == 0 {
            return false;
        }
        let prev = prev_grapheme_boundary(self.buffer.as_str(), self.cursor);
        self.cursor = prev;
        self.preferred_column = None;
        true
    }

    /// Moves the cursor forward over one grapheme cluster.
    pub fn move_right(&mut self) -> (moved: bool)
        requires
            old(self)@.wf(),
        ensures
            moved == (old(self)@.cursor < byte_len(old(self)@.text)),
            final(self)@ == old(self)@.moved(
                next_boundary(old(self)@.text, old(self)@.cursor),
                None,
            ),
            final(self)@.wf(),
    {
        if self.cursor >= self.buffer.as_str().as_bytes().len() {
            return false;
        }
        let next = next_grapheme_boundary(self.buffer.as_str(), self.cursor);
        if next == self.cursor {
            return false;
        }
        self.cursor = next;
        self.preferred_column = None;
        true
    }

    /// Moves the cursor to the start of its line.
    pub fn move_home(&mut self) -> (moved: bool)
        requires
            old(self)@.wf(),
        ensures
            moved == (final(self)@.cursor != old(self)@.cursor),
            final(self)@ == old(self)@.moved(
                line_start_of(old(self)@.text, old(self)@.cursor),
                Some(0int),
            ),
            final(self)@.wf(),
    {
        let start = line_start(self.buffer.as_str(), self.cursor);
        if self.cursor == start {
            return false;
        }
        self.cursor = start;
        self.preferred_column = Some(0);
        true
    }

    /// Moves the cursor to the end of its line and remembers the column
    /// reached.
    pub fn move_end(&mut self) -> (moved: bool)
        requires
            old(self)@.wf(),
        ensures
            moved == (final(self)@.cursor != old(self)@.cursor),
            final(self)@ == old(self)@.moved(
                line_end_of(old(self)@.text, old(self)@.cursor),
                Some(old(self)@.end_column()),
            ),
            final(self)@.wf(),
    {
        let end = line_end(self.buffer.as_str(), self.cursor);
        if self.cursor == end {
            return false;
        }
        self.cursor = end;
        let start = line_start(self.buffer.as_str(), self.cursor);
        self.preferred_column = Some(column_at(self.buffer.as_str(), start, self.cursor));
        true
    }

    /// Moves the cursor to the previous line, to the remembered column or
    /// the column it stands in; from the first line, to the start of the
    /// buffer.
    pub fn move_up(&mut self) -> (moved: bool)
        requires
            old(self)@.wf(),
        ensures
            moved == (final(self)@.cursor != old(self)@.cursor),
            final(self)@ == old(self)@.moved(
                old(self)@.up_target(),
                Some(old(self)@.target_column()),
            ),
            final(self)@.wf(),
    {
        let current_line_start = line_start(self.buffer.as_str(), self.cursor);
        let current_column = match self.preferred_column {
            Some(column) => column,
            None => column_at(self.buffer.as_str(), current_line_start, self.cursor),
        };
        if current_line_start == 0 {
            if self.cursor == 0 {
                return false;
            }
            self.cursor = 0;
            self.preferred_column = Some(current_column);
            proof {
                is_char_boundary_start_end_of_seq(bytes_of(self.buffer@));
            }
            return true;
        }
        let prev_line_end = current_line_start - 1;
        proof {
            let bytes = bytes_of(self.buffer@);
            lemma_line_start(bytes, self.cursor as int);
            lemma_boundary_after_ascii(bytes, prev_line_end as int);
        }
        let prev_line_start = line_start(self.buffer.as_str(), prev_line_end);
        let target = position_for_column(self.buffer.as_str(), prev_line_start, current_column);
        if self.cursor == target {
            return false;
        }
        self.cursor = target;
        self.preferred_column = Some(current_column);
        true
    }

    /// Moves the cursor to the next line, to the remembered column or the
    /// column it stands in; from the last line, to the end of the buffer.
    pub fn move_down(&mut self) -> (moved: bool)
        requires
            old(self)@.wf(),
        ensures
            moved == (final(self)@.cursor != old(self)@.cursor),
            final(self)@ == old(self)@.moved(
                old(self)@.down_target(),
                Some(old(self)@.target_column()),
            ),
            final(self)@.wf(),
    {
        let current_line_start = line_start(self.buffer.as_str(), self.cursor);
        let current_column = match self.preferred_column {
            Some(column) => column,
            None => column_at(self.buffer.as_str(), current_line_start, self.cursor),
        };
        let current_line_end = line_end(self.buffer.as_str(), self.cursor);
        let len = self.buffer.as_str().as_bytes().len();
        if current_line_end == len {
            if self.cursor == len {
                return false;
            }
            self.cursor = len;
            self.preferred_column = Some(current_column);
            proof {
                is_char_boundary_start_end_of_seq(bytes_of(self.buffer@));
            }
            return true;
        }
        proof {
            let bytes = bytes_of(self.buffer@);
            lemma_line_end(bytes, self.cursor as int);
            lemma_boundary_after_ascii(bytes, current_line_end as int);
        }
        let next_line_start = current_line_end + 1;
        let target = position_for_column(self.buffer.as_str(), next_line_start, current_column);
        if self.cursor == target {
            return false;
        }
        self.cursor = target;
        self.preferred_column = Some(current_column);
        true
    }

    /// Moves the cursor to the start of the previous word.
    pub fn move_word_left(&mut self) -> (moved: bool)
        requires
            old(self)@.wf(),
        ensures
            moved == (old(self)@.cursor != 0),
            moved ==> final(self)@ == (EditorView {
                cursor: word_left_target(old(self)@.text, old(self)@.cursor),
                preferred_column: None,
                ..old(self)@
            }),
            !moved ==> final(self)@ == old(self)@,
            final(self)@.cursor <= old(self)@.cursor,
            final(self)@.wf(),
    {
        if self.cursor == 0 {
            return false;
        }
        let idx = walk_left(self.buffer.as_str(), self.cursor, true);
        let idx = walk_left(self.buffer.as_str(), idx, false);
        self.cursor = idx;
        self.preferred_column = None;
        true
    }

    /// Moves the cursor to the start of the next word.
    pub fn move_word_right(&mut self) -> (moved: bool)
        requires
            old(self)@.wf(),
        ensures
            moved == (old(self)@.cursor < byte_len(old(self)@.text)),
            moved ==> final(self)@ == (EditorView {
                cursor: word_right_target(old(self)@.text, old(self)@.cursor),
                preferred_column: None,
                ..old(self)@
            }),
            !moved ==> final(self)@ == old(self)@,
            final(self)@.cursor >= old(self)@.cursor,
            final(self)@.wf(),
    {
        let len = self.buffer.as_str().as_bytes().len();
        if self.cursor >= len {
            return false;
        }
        let idx = walk_right(self.buffer.as_str(), self.cursor, true);
        let idx = walk_right(self.buffer.as_str(), idx, false);
        let idx = walk_right(self.buffer.as_str(), idx, true);
        if idx == self.cursor {
            return false;
        }
        self.cursor = if idx <= len { idx } else { len };
        self.preferred_column = None;
        true
    }

    /// Steps back to the previous snapshot; does nothing at the oldest one.
    pub fn undo(&mut self) -> (changed: bool)
        requires
            old(self)@.wf(),
        ensures
            changed == (old(self)@.index != 0),
            final(self)@ == old(self)@.undone(),
            final(self)@.wf(),
            changed ==> final(self)@.cursor == byte_len(final(self)@.text) || exists|i: int|
                0 <= i < grapheme_clusters(final(self)@.text).len() && (#[trigger] grapheme_clusters(
                    final(self)@.text,
                )[i]).0 == final(self)@.cursor,
    {
        if self.history_index == 0 {
            return false;
        }
        self.history_index -= 1;
        self.restore_history_snapshot();
        true
    }

    /// Steps forward to the next snapshot; does nothing at the newest one.
    pub fn redo(&mut self) -> (changed: bool)
        requires
            old(self)@.wf(),
        ensures
            changed == (old(self)@.index + 1 < old(self)@.history.len()),
            final(self)@ == old(self)@.redone(),
            final(self)@.wf(),
            changed ==> final(self)@.cursor == byte_len(final(self)@.text) || exists|i: int|
                0 <= i < grapheme_clusters(final(self)@.text).len() && (#[trigger] grapheme_clusters(
                    final(self)@.text,
                )[i]).0 == final(self)@.cursor,
    {
        if self.history_index + 1 >= self.history.len() {
            return false;
        }
        self.history_index += 1;
        self.restore_history_snapshot();
        true
    }

    fn after_edit(&mut self)
        requires
            1 <= old(self)@.history.len() <= MAX_HISTORY,
            0 <= old(self)@.index < old(self)@.history.len(),
            is_boundary(old(self)@.text, old(self)@.cursor),
        ensures
            final(self)@ == (EditorView { dirty: true, ..old(self)@ }).recorded(),
            final(self)@.wf(),
    {
        self.dirty = true;
        self.record_history();
    }

    fn record_history(&mut self)
        requires
            1 <= old(self)@.history.len() <= MAX_HISTORY,
            0 <= old(self)@.index < old(self)@.history.len(),
            is_boundary(old(self)@.text, old(self)@.cursor),
        ensures
            final(self)@ == old(self)@.recorded(),
            final(self)@.wf(),
    {
        if self.history_index < self.history.len() {
            if self.history[self.history_index] == self.buffer {
                return;
            }
        }
        let ghost before = texts(self.history@);
        self.history.truncate(self.history_index + 1);
        self.history.push(self.buffer.clone());
        let ghost kept = before.take(self.history_index + 1).push(self.buffer@);
        assert(texts(self.history@) =~= kept);
        if self.history.len() > MAX_HISTORY {
            let overflow = self.history.len() - MAX_HISTORY;
            assert(overflow == 1);
            self.history.remove(0);
            assert(texts(self.history@) =~= kept.skip(1));
        } else {
            assert(kept.skip(0) =~= kept);
        }
        self.history_index = self.history.len() - 1;
    }

    fn restore_history_snapshot(&mut self)
        requires
            1 <= old(self)@.history.len() <= MAX_HISTORY,
            0 <= old(self)@.index < old(self)@.history.len(),
        ensures
            final(self)@ == old(self)@.restored(),
            final(self)@.wf(),
            is_cluster_boundary(final(self)@.text, final(self)@.cursor),
    {
        if self.history_index < self.history.len() {
            let snapshot = self.history[self.history_index].clone();
            self.buffer = snapshot;
            self.cursor = snap_to_cluster(self.buffer.as_str(), self.cursor);
            self.dirty = self.history_index != 0;
            self.preferred_column = None;
        }
    }
}

/// Walks back from `from` over grapheme clusters while they are blank
/// (`blank`) or while they are not (`!blank`).
fn walk_left(text: &str, from: usize, blank: bool) -> (idx: usize)
    requires
        is_boundary(text@, from as int),
    ensures
        idx == skip_left(text@, from as int, blank),
        is_boundary(text@, idx as int),
        idx <= from,
        from > 0 && blank_before(text@, from as int) == blank ==> idx < from,
{
    let mut idx = from;
    let mut going = true;
    while going && idx > 0
        invariant
            is_boundary(text@, idx as int),
            idx <= from,
            skip_left(text@, idx as int, blank) == skip_left(text@, from as int, blank),
            !going ==> skip_left(text@, idx as int, blank) == idx,
            from > 0 && blank_before(text@, from as int) == blank ==> idx < from || going,
        decreases idx + (if going { 1int } else { 0int }),
    {
        let prev = prev_grapheme_boundary(text, idx);
        if is_blank(substring(text, prev, idx)) == blank {
            idx = prev;
        } else {
            going = false;
        }
    }
    idx
}

/// Walks forward from `from` over grapheme clusters while they are blank
/// (`blank`) or while they are not (`!blank`).
fn walk_right(text: &str, from: usize, blank: bool) -> (idx: usize)
    requires
        is_boundary(text@, from as int),
    ensures
        idx == skip_right(text@, from as int, blank),
        is_boundary(text@, idx as int),
        from <= idx,
        from < byte_len(text@) && blank_after(text@, from as int) == blank ==> from < idx,
{
    let len = text.as_bytes().len();
    let mut idx = from;
    let mut going = true;
    while going && idx < len
        invariant
            len == byte_len(text@),
            is_boundary(text@, idx as int),
            from <= idx <= len,
            skip_right(text@, idx as int, blank) == skip_right(text@, from as int, blank),
            !going ==> skip_right(text@, idx as int, blank) == idx,
            from < len && blank_after(text@, from as int) == blank ==> from < idx || going,
        decreases len - idx + (if going { 1int } else { 0int }),
    {
        let next = next_grapheme_boundary(text, idx);
        if is_blank(substring(text, idx, next)) == blank {
            idx = next;
        } else {
            going = false;
        }
    }
    idx
}


/// Recording an edit never lets the history grow past [`MAX_HISTORY`]:
/// when the bound is reached the oldest snapshot is evicted, the index
/// stays inside the history, and the snapshot at the index is the live
/// text.
pub proof fn lemma_history_stays_bounded(v: EditorView)
    requires
        1 <= v.history.len() <= MAX_HISTORY,
        0 <= v.index < v.history.len(),
    ensures
        1 <= v.recorded().history.len() <= MAX_HISTORY,
        0 <= v.recorded().index < v.recorded().history.len(),
        v.recorded().history[v.recorded().index] == v.text,
        v.history[v.index] != v.text ==> v.recorded().index == v.recorded().history.len() - 1,
        v.history[v.index] != v.text && v.index + 1 == MAX_HISTORY ==> v.recorded().history
            == v.history.skip(1).push(v.text),
        v.history[v.index] != v.text && v.index + 1 < MAX_HISTORY ==> v.recorded().history
            == v.history.take(v.index + 1).push(v.text),
{
    if v.history[v.index] != v.text {
        let kept = v.history.take(v.index + 1).push(v.text);
        if v.index + 1 == MAX_HISTORY {
            assert(v.history.take(v.index + 1) =~= v.history);
            assert(kept.skip(1) =~= v.history.skip(1).push(v.text));
        } else {
            assert(kept.skip(0) =~= kept);
        }
    }
}

/// Undo after an edit that changed the text brings back the text that the
/// edit was made on, whatever the history held before and however many
/// edits came earlier.
pub proof fn lemma_undo_reverts_edit(
    v: EditorView,
    text: Seq<char>,
    cursor: int,
    preferred_column: Option<int>,
)
    requires
        v.history_wf(),
        text != v.text,
    ensures
        v.edited(text, cursor, preferred_column).history_wf(),
        v.edited(text, cursor, preferred_column).text == text,
        v.edited(text, cursor, preferred_column).index >= 1,
        v.edited(text, cursor, preferred_column).undone().text == v.text,
        v.edited(text, cursor, preferred_column).undone().history_wf(),
{
    let changed = EditorView { text, cursor, preferred_column, dirty: true, ..v };
    lemma_history_stays_bounded(changed);
    let e = v.edited(text, cursor, preferred_column);
    assert(e.history[e.index - 1] == v.text);
}

/// Undo at the oldest retained snapshot changes nothing.
pub proof fn lemma_undo_at_oldest(v: EditorView)
    requires
        v.index == 0,
    ensures
        v.undone() == v,
{
}

/// Redo after undo restores the text that was undone, at the index it was
/// undone from; redo at the newest snapshot changes nothing.
pub proof fn lemma_redo_restores_undone(v: EditorView)
    requires
        v.history_wf(),
    ensures
        v.index > 0 ==> v.undone().redone().text == v.text,
        v.index > 0 ==> v.undone().redone().index == v.index,
        v.index > 0 ==> v.undone().redone().history == v.history,
        v.index > 0 ==> v.undone().redone().history_wf(),
        v.index + 1 == v.history.len() ==> v.redone() == v,
{
}

/// One edit of a run of edits: the text and the cursor it leaves, and the
/// column it remembers.
pub struct Edit {
    pub text: Seq<char>,
    pub cursor: int,
    pub preferred_column: Option<int>,
}

/// The state after the edits have been made one after the other.
pub open spec fn after_edits(v: EditorView, edits: Seq<Edit>) -> EditorView
    decreases edits.len(),
{
    if edits.len() == 0 {
        v
    } else {
        after_edits(v, edits.drop_last()).edited(
            edits.last().text,
            edits.last().cursor,
            edits.last().preferred_column,
        )
    }
}

/// The state after `count` steps back in the history.
pub open spec fn after_undos(v: EditorView, count: nat) -> EditorView
    decreases count,
{
    if count == 0 {
        v
    } else {
        after_undos(v, (count - 1) as nat).undone()
    }
}

/// The texts that a run of edits goes through, from the text it starts on.
pub open spec fn texts_through(start: Seq<char>, edits: Seq<Edit>) -> Seq<Seq<char>> {
    seq![start] + edits.map_values(|edit: Edit| edit.text)
}

/// Every edit of the run changes the text.
pub open spec fn each_changes(start: Seq<char>, edits: Seq<Edit>) -> bool {
    forall|j: int|
        0 <= j < edits.len() ==> (#[trigger] texts_through(start, edits)[j + 1]) != texts_through(
            start,
            edits,
        )[j]
}

/// The last `MAX_HISTORY` of the texts, or all of them where they are
/// fewer.
pub open spec fn retained(all: Seq<Seq<char>>) -> Seq<Seq<char>> {
    if all.len() > MAX_HISTORY {
        all.skip(all.len() - MAX_HISTORY)
    } else {
        all
    }
}

/// After a run of edits on a buffer that was fresh or just saved, the
/// history holds the last texts of the run, and the index points at the
/// newest.
pub proof fn lemma_history_after_edits(v: EditorView, edits: Seq<Edit>)
    requires
        v.history == seq![v.text],
        v.index == 0,
        each_changes(v.text, edits),
    ensures
        after_edits(v, edits).history == retained(texts_through(v.text, edits)),
        after_edits(v, edits).index == after_edits(v, edits).history.len() - 1,
        after_edits(v, edits).text == texts_through(v.text, edits).last(),
        after_edits(v, edits).history_wf(),
    decreases edits.len(),
{
    let all = texts_through(v.text, edits);
    if edits.len() == 0 {
        assert(all =~= seq![v.text]);
    } else {
        let before = edits.drop_last();
        let earlier = texts_through(v.text, before);
        assert(earlier =~= all.drop_last());
        assert forall|j: int| 0 <= j < before.len() implies (#[trigger] texts_through(
            v.text,
            before,
        )[j + 1]) != texts_through(v.text, before)[j] by {
            assert(texts_through(v.text, edits)[j + 1] != texts_through(v.text, edits)[j]);
        }
        lemma_history_after_edits(v, before);
        let w = after_edits(v, before);
        let last = edits.last();
        assert(all[edits.len() as int] == last.text);
        assert(all[edits.len() - 1] == w.text);
        let newest = edits.len() - 1;
        assert(texts_through(v.text, edits)[newest + 1] != texts_through(v.text, edits)[newest]);
        assert(last.text != w.text);
        let changed = EditorView {
            text: last.text,
            cursor: last.cursor,
            preferred_column: last.preferred_column,
            dirty: true,
            ..w
        };
        lemma_history_stays_bounded(changed);
        let kept = w.history.take(w.index + 1).push(last.text);
        assert(w.history.take(w.index + 1) =~= w.history);
        assert(all =~= earlier.push(last.text));
        if earlier.len() > MAX_HISTORY {
            assert(kept.skip(1) =~= all.skip(all.len() - MAX_HISTORY));
        } else if earlier.len() == MAX_HISTORY {
            assert(kept.skip(1) =~= all.skip(all.len() - MAX_HISTORY));
        } else {
            assert(kept.skip(0) =~= all);
        }
    }
}

/// Steps back in the history move the index and nothing else of the
/// history, and bring back the snapshot at the index.
pub proof fn lemma_after_undos(v: EditorView, count: nat)
    requires
        v.history_wf(),
        count <= v.index,
    ensures
        after_undos(v, count).history == v.history,
        after_undos(v, count).index == v.index - count,
        after_undos(v, count).text == v.history[v.index - count],
    decreases count,
{
    if count > 0 {
        lemma_after_undos(v, (count - 1) as nat);
    }
}

/// Undo walks back through a run of edits one edit at a time. After `n`
/// edits that each changed the text, made on a buffer that was fresh or
/// just saved, the `k`-th undo in a row succeeds and brings back the text as
/// it was after edit `n - k`, for every `k` up to `n` and up to what the
/// history retains.
pub proof fn lemma_undo_walks_back(v: EditorView, edits: Seq<Edit>, k: nat)
    requires
        v.history == seq![v.text],
        v.index == 0,
        each_changes(v.text, edits),
        1 <= k <= edits.len(),
        k <= MAX_HISTORY - 1,
    ensures
        after_undos(after_edits(v, edits), (k - 1) as nat).index != 0,
        after_undos(after_edits(v, edits), k).text == texts_through(v.text, edits)[edits.len() - k],
{
    let all = texts_through(v.text, edits);
    let w = after_edits(v, edits);
    lemma_history_after_edits(v, edits);
    lemma_after_undos(w, (k - 1) as nat);
    lemma_after_undos(w, k);
}

/// A save is an undo boundary: after `mark_clean`, undo changes nothing.
pub proof fn lemma_undo_stops_at_save(v: EditorView)
    ensures
        v.marked_clean().undone() == v.marked_clean(),
        v.marked_clean().redone() == v.marked_clean(),
        !v.marked_clean().dirty,
{
}

} // verus!
