//! The tag editor: the tags known to the store, which of them the note is
//! to carry, and the small dialogue to add, rename, merge and delete tags.

use crate::cli::{eq_ignore_ascii_case, same_ignoring_ascii_case};
use crate::journal::lemma_filter_push;
use crate::notes::text_view;
use crate::search::clone_strings;
use crate::state::{
    step_index, stepped, TagEditorItem, TagEditorMode, TagEditorOverlay, TagInputKind,
};
use crate::summary::NoteSummary;
use crate::strings::{
    decimal_of, lowercase, lowercase_of, push_text, push_unsigned, texts_of, trim, trim_of,
};
use crate::text::{byte_len, chars_of, push_char, string_of};
use vstd::prelude::*;
use vstd::string::*;

verus! {

pub struct ItemView {
    pub name: Seq<char>,
    pub selected: bool,
    pub original: bool,
    pub bulk_selected: bool,
}

impl View for TagEditorItem {
    type V = ItemView;

    open spec fn view(&self) -> ItemView {
        ItemView {
            name: self.name@,
            selected: self.selected,
            original: self.original,
            bulk_selected: self.bulk_selected,
        }
    }
}

pub enum InputView {
    Add,
    Rename { original: Seq<char> },
    Merge { sources: Seq<Seq<char>> },
}

pub enum ModeView {
    Browse,
    Input(InputView),
    ConfirmDelete { tag: Seq<char> },
}

impl View for TagInputKind {
    type V = InputView;

    open spec fn view(&self) -> InputView {
        match self {
            TagInputKind::Add => InputView::Add,
            TagInputKind::Rename { original } => InputView::Rename { original: original@ },
            TagInputKind::Merge { sources } => InputView::Merge { sources: texts_of(sources@) },
        }
    }
}

impl View for TagEditorMode {
    type V = ModeView;

    open spec fn view(&self) -> ModeView {
        match self {
            TagEditorMode::Browse => ModeView::Browse,
            TagEditorMode::Input(kind) => ModeView::Input(kind@),
            TagEditorMode::ConfirmDelete { tag } => ModeView::ConfirmDelete { tag: tag@ },
        }
    }
}

/// The mathematical state of a tag editor.
pub struct TagEditorView {
    pub note_id: i64,
    pub items: Seq<ItemView>,
    pub selected_index: usize,
    pub mode: ModeView,
    pub input: Seq<char>,
    pub status: Option<Seq<char>>,
    pub suggestions: Seq<Seq<char>>,
}

/// The items of a list, as mathematical values.
pub open spec fn item_views(items: Seq<TagEditorItem>) -> Seq<ItemView> {
    items.map_values(|item: TagEditorItem| item@)
}

impl View for TagEditorOverlay {
    type V = TagEditorView;

    open spec fn view(&self) -> TagEditorView {
        TagEditorView {
            note_id: self.note_id,
            items: item_views(self.items@),
            selected_index: self.selected_index,
            mode: self.mode@,
            input: self.input@,
            status: text_view(self.status),
            suggestions: texts_of(self.suggestions@),
        }
    }
}

impl TagEditorItem {
    /// A copy of the item.
    pub fn duplicate(&self) -> (copy: Self)
        ensures
            copy@ == self@,
    {
        TagEditorItem {
            name: self.name.clone(),
            selected: self.selected,
            original: self.original,
            bulk_selected: self.bulk_selected,
        }
    }
}

impl TagEditorMode {
    /// A copy of the mode.
    pub fn duplicate(&self) -> (copy: Self)
        ensures
            copy@ == self@,
    {
        match self {
            TagEditorMode::Browse => TagEditorMode::Browse,
            TagEditorMode::Input(kind) => TagEditorMode::Input(
                match kind {
                    TagInputKind::Add => TagInputKind::Add,
                    TagInputKind::Rename { original } => TagInputKind::Rename {
                        original: original.clone(),
                    },
                    TagInputKind::Merge { sources } => TagInputKind::Merge {
                        sources: clone_strings(sources),
                    },
                },
            ),
            TagEditorMode::ConfirmDelete { tag } => TagEditorMode::ConfirmDelete { tag: tag.clone() },
        }
    }
}

/// `a` comes before `b` or is `b`, character by character.
pub open spec fn lex_le(a: Seq<char>, b: Seq<char>) -> bool
    decreases a.len(),
{
    if a.len() == 0 {
        true
    } else if b.len() == 0 {
        false
    } else if a[0] != b[0] {
        (a[0] as u32) < (b[0] as u32)
    } else {
        lex_le(a.drop_first(), b.drop_first())
    }
}

/// Whether `a` comes before `b` or is `b`.
pub fn text_le(a: &str, b: &str) -> (le: bool)
    ensures
        le == lex_le(a@, b@),
{
    let left = chars_of(a);
    let right = chars_of(b);
    let mut i: usize = 0;
    assert(left@.skip(0) =~= left@);
    assert(right@.skip(0) =~= right@);
    while i < left.len() && i < right.len() && left[i] == right[i]
        invariant
            i <= left.len(),
            i <= right.len(),
            left@ == a@,
            right@ == b@,
            lex_le(left@.skip(i as int), right@.skip(i as int)) == lex_le(a@, b@),
        decreases left.len() - i,
    {
        assert(left@.skip(i as int).drop_first() =~= left@.skip(i + 1));
        assert(right@.skip(i as int).drop_first() =~= right@.skip(i + 1));
        i = i + 1;
    }
    if i >= left.len() {
        true
    } else if i >= right.len() {
        false
    } else {
        (left[i] as u32) < (right[i] as u32)
    }
}

/// The tag editor lists `a` before `b` or beside it: by their names in lower
/// case.
pub open spec fn item_le(a: ItemView, b: ItemView) -> bool {
    lex_le(lowercase_of(a.name), lowercase_of(b.name))
}

/// `list` with `item` behind the last entry that is listed before it or
/// beside it.
pub open spec fn inserted_item(list: Seq<ItemView>, item: ItemView) -> Seq<ItemView>
    decreases list.len(),
{
    if list.len() == 0 {
        seq![item]
    } else if item_le(list.last(), item) {
        list.push(item)
    } else {
        inserted_item(list.drop_last(), item).push(list.last())
    }
}

/// `list` in the order of the tag editor: by name in lower case, entries
/// with the same such name in the order they had.
pub open spec fn sorted_items(list: Seq<ItemView>) -> Seq<ItemView>
    decreases list.len(),
{
    if list.len() == 0 {
        seq![]
    } else {
        inserted_item(sorted_items(list.drop_last()), list.last())
    }
}

/// Sorting keeps the number of items.
pub proof fn lemma_sorted_len(list: Seq<ItemView>)
    ensures
        sorted_items(list).len() == list.len(),
    decreases list.len(),
{
    if list.len() > 0 {
        lemma_sorted_len(list.drop_last());
        lemma_inserted_len(sorted_items(list.drop_last()), list.last());
    }
}

/// Inserting adds one item.
pub proof fn lemma_inserted_len(list: Seq<ItemView>, item: ItemView)
    ensures
        inserted_item(list, item).len() == list.len() + 1,
    decreases list.len(),
{
    if list.len() > 0 && !item_le(list.last(), item) {
        lemma_inserted_len(list.drop_last(), item);
    }
}

/// Sorts the items of the tag editor.
pub fn sort_items(items: Vec<TagEditorItem>) -> (sorted: Vec<TagEditorItem>)
    ensures
        item_views(sorted@) == sorted_items(item_views(items@)),
        sorted@.len() == items@.len(),
{
    let ghost all = item_views(items@);
    let mut sorted: Vec<TagEditorItem> = Vec::new();
    let mut i: usize = 0;
    assert(all.take(0) =~= Seq::empty());
    assert(item_views(sorted@) =~= sorted_items(all.take(0)));
    while i < items.len()
        invariant
            i <= items.len(),
            all == item_views(items@),
            item_views(sorted@) == sorted_items(all.take(i as int)),
        decreases items.len() - i,
    {
        let item = items[i].duplicate();
        let key = lowercase(item.name.as_str());
        let ghost base = item_views(sorted@);
        let mut at: usize = sorted.len();
        proof {
            assert(base.take(at as int) =~= base);
            assert(inserted_item(base, item@) + base.skip(at as int) =~= inserted_item(
                base,
                item@,
            ));
        }
        while at > 0 && !text_le(lowercase(sorted[at - 1].name.as_str()).as_str(), key.as_str())
            invariant
                at <= sorted.len(),
                base == item_views(sorted@),
                key@ == lowercase_of(item@.name),
                inserted_item(base, item@) == inserted_item(base.take(at as int), item@)
                    + base.skip(at as int),
            decreases at,
        {
            proof {
                let head = base.take(at as int);
                assert(head.last() == sorted@[at - 1]@);
                assert(head.drop_last() =~= base.take(at - 1));
                assert(inserted_item(head.drop_last(), item@).push(head.last()) + base.skip(
                    at as int,
                ) =~= inserted_item(base.take(at - 1), item@) + base.skip(at - 1));
            }
            at = at - 1;
        }
        proof {
            let head = base.take(at as int);
            if at > 0 {
                assert(head.last() == sorted@[at - 1]@);
            }
            assert(inserted_item(head, item@) == head.push(item@));
            assert(all.take(i + 1).drop_last() =~= all.take(i as int));
        }
        sorted.insert(at, item);
        assert(item_views(sorted@) =~= base.take(at as int).push(item@) + base.skip(at as int));
        i = i + 1;
    }
    proof {
        assert(all.take(all.len() as int) =~= all);
        lemma_sorted_len(all);
    }
    sorted
}

/// The entry at `i` is the first whose name is `tag` but for the case of
/// ASCII letters.
pub open spec fn first_like(items: Seq<ItemView>, tag: Seq<char>, i: int) -> bool {
    &&& 0 <= i < items.len()
    &&& same_ignoring_ascii_case(items[i].name, tag)
    &&& forall|k: int| 0 <= k < i ==> !same_ignoring_ascii_case((#[trigger] items[k]).name, tag)
}

/// The index of the first entry whose name is `tag` but for the case of
/// ASCII letters.
pub open spec fn index_like(items: Seq<ItemView>, tag: Seq<char>) -> Option<int> {
    if exists|i: int| first_like(items, tag, i) {
        Some(choose|i: int| first_like(items, tag, i))
    } else {
        None
    }
}

fn find_like(items: &Vec<TagEditorItem>, tag: &str) -> (at: Option<usize>)
    ensures
        match at {
            Some(i) => index_like(item_views(items@), tag@) == Some(i as int) && i < items@.len(),
            None => index_like(item_views(items@), tag@) is None,
        },
{
    let mut i: usize = 0;
    while i < items.len()
        invariant
            i <= items.len(),
            forall|k: int|
                0 <= k < i ==> !same_ignoring_ascii_case((#[trigger] item_views(items@)[k]).name, tag@),
        decreases items.len() - i,
    {
        if eq_ignore_ascii_case(items[i].name.as_str(), tag) {
            proof {
                assert(first_like(item_views(items@), tag@, i as int));
                let other = choose|other: int| first_like(item_views(items@), tag@, other);
                assert(other == i);
            }
            return Some(i);
        }
        i = i + 1;
    }
    proof {
        assert forall|k: int| !first_like(item_views(items@), tag@, k) by {}
    }
    None
}

/// The entry at `i` is the first with the name `name`.
pub open spec fn first_exact(items: Seq<ItemView>, name: Seq<char>, i: int) -> bool {
    &&& 0 <= i < items.len()
    &&& items[i].name == name
    &&& forall|k: int| 0 <= k < i ==> (#[trigger] items[k]).name != name
}

/// The index of the first entry with the name `name`.
pub open spec fn index_exact(items: Seq<ItemView>, name: Seq<char>) -> Option<int> {
    if exists|i: int| first_exact(items, name, i) {
        Some(choose|i: int| first_exact(items, name, i))
    } else {
        None
    }
}

fn find_exact(items: &Vec<TagEditorItem>, name: &String) -> (at: Option<usize>)
    ensures
        match at {
            Some(i) => index_exact(item_views(items@), name@) == Some(i as int) && i < items@.len(),
            None => index_exact(item_views(items@), name@) is None,
        },
{
    let mut i: usize = 0;
    while i < items.len()
        invariant
            i <= items.len(),
            forall|k: int| 0 <= k < i ==> (#[trigger] item_views(items@)[k]).name != name@,
        decreases items.len() - i,
    {
        if items[i].name == *name {
            proof {
                assert(first_exact(item_views(items@), name@, i as int));
                let other = choose|other: int| first_exact(item_views(items@), name@, other);
                assert(other == i);
            }
            return Some(i);
        }
        i = i + 1;
    }
    proof {
        assert forall|k: int| !first_exact(item_views(items@), name@, k) by {}
    }
    None
}

/// A text between two others.
pub open spec fn framed(before: Seq<char>, text: Seq<char>, after: Seq<char>) -> Seq<char> {
    before + text + after
}

fn frame(before: &str, text: &str, after: &str) -> (out: String)
    ensures
        out@ == framed(before@, text@, after@),
{
    let mut out: Vec<char> = Vec::new();
    push_text(&mut out, before);
    push_text(&mut out, text);
    push_text(&mut out, after);
    assert(out@ =~= framed(before@, text@, after@));
    string_of(&out)
}

/// The most bytes that the input of the tag editor takes.
pub const MAX_INPUT_BYTES: usize = 64;

impl TagEditorView {
    /// The editor back in browsing, without input and without a status.
    pub open spec fn settled(self) -> TagEditorView {
        TagEditorView { mode: ModeView::Browse, input: seq![], status: None, ..self }
    }

    /// After the selection has moved by `delta`.
    pub open spec fn moved(self, delta: isize) -> TagEditorView {
        TagEditorView {
            selected_index: if self.items.len() == 0 {
                0
            } else {
                stepped(self.selected_index, delta, self.items.len() as usize)
            },
            ..self.settled()
        }
    }

    /// After the selected tag has been switched on or off for the note.
    pub open spec fn toggled(self) -> TagEditorView {
        TagEditorView {
            items: if self.selected_index < self.items.len() {
                self.items.update(
                    self.selected_index as int,
                    ItemView {
                        selected: !self.items[self.selected_index as int].selected,
                        ..self.items[self.selected_index as int]
                    },
                )
            } else {
                self.items
            },
            ..self.settled()
        }
    }

    /// After the input for a new tag has been opened.
    pub open spec fn adding(self) -> TagEditorView {
        TagEditorView {
            mode: ModeView::Input(InputView::Add),
            input: seq![],
            status: Some("New tag: type name, Enter to add, Esc to cancel"@),
            ..self
        }
    }

    /// The name of the selected tag.
    pub open spec fn selected_name(self) -> Option<Seq<char>> {
        if self.selected_index < self.items.len() {
            Some(self.items[self.selected_index as int].name)
        } else {
            None
        }
    }

    /// After the input for a new name of the selected tag has been opened.
    pub open spec fn renaming(self) -> TagEditorView {
        match self.selected_name() {
            Some(name) => TagEditorView {
                mode: ModeView::Input(InputView::Rename { original: name }),
                input: name,
                status: Some(
                    framed("Renaming '"@, name, "': edit and press Enter, Esc to cancel"@),
                ),
                ..self
            },
            None => self,
        }
    }

    /// After the input for the target of a merge of the selected tag has
    /// been opened.
    pub open spec fn merging(self) -> TagEditorView {
        match self.selected_name() {
            Some(name) => TagEditorView {
                mode: ModeView::Input(InputView::Merge { sources: seq![name] }),
                input: seq![],
                status: Some(framed("Merge '"@, name, "' into existing tag: type target name"@)),
                ..self
            },
            None => self,
        }
    }

    /// The names of the marked tags, in their order.
    pub open spec fn marked(self) -> Seq<Seq<char>> {
        self.items.filter(|item: ItemView| item.bulk_selected).map_values(
            |item: ItemView| item.name,
        )
    }

    /// After the input for the target of a merge of the marked tags has
    /// been asked for: opened where at least two tags are marked.
    pub open spec fn merging_marked(self) -> TagEditorView {
        if self.marked().len() < 2 {
            TagEditorView {
                status: Some("Mark at least two tags with 'v' before using bulk merge"@),
                ..self
            }
        } else {
            TagEditorView {
                mode: ModeView::Input(InputView::Merge { sources: self.marked() }),
                input: seq![],
                status: Some("Merge marked tags into existing tag: type target name"@),
                ..self
            }
        }
    }

    /// After the mark of the selected tag has been switched.
    pub open spec fn mark_toggled(self) -> TagEditorView {
        if self.selected_index < self.items.len() {
            let item = self.items[self.selected_index as int];
            TagEditorView {
                items: self.items.update(
                    self.selected_index as int,
                    ItemView { bulk_selected: !item.bulk_selected, ..item },
                ),
                status: Some(
                    if !item.bulk_selected {
                        framed("Marked '"@, item.name, "' for bulk actions"@)
                    } else {
                        framed("Unmarked '"@, item.name, "'"@)
                    },
                ),
                ..self
            }
        } else {
            self
        }
    }

    /// After all marks have been cleared.
    pub open spec fn marks_cleared(self) -> TagEditorView {
        let count = self.marked().len();
        TagEditorView {
            items: self.items.map_values(|item: ItemView| ItemView { bulk_selected: false, ..item }),
            status: Some(
                if count > 0 {
                    "Cleared "@ + decimal_of(count as int) + " bulk mark"@ + (if count == 1 {
                        seq![]
                    } else {
                        seq!['s']
                    })
                } else {
                    "No bulk marks to clear"@
                },
            ),
            ..self
        }
    }

    /// After the removal of the selected tag has been asked for.
    pub open spec fn deleting(self) -> TagEditorView {
        match self.selected_name() {
            Some(name) => TagEditorView {
                mode: ModeView::ConfirmDelete { tag: name },
                status: Some(
                    framed("Delete '"@, name, "'? Press y to confirm or n / Esc to cancel"@),
                ),
                ..self
            },
            None => self,
        }
    }

    /// After `ch` has been typed: taken while the input is open and shorter
    /// than [`MAX_INPUT_BYTES`] bytes.
    pub open spec fn typed(self, ch: char) -> TagEditorView {
        if self.mode is Input && byte_len(self.input) < MAX_INPUT_BYTES {
            TagEditorView { input: self.input.push(ch), status: None, ..self }
        } else {
            self
        }
    }

    /// After the last character of the input has been taken back.
    pub open spec fn erased(self) -> TagEditorView {
        if self.mode is Input {
            TagEditorView {
                input: if self.input.len() > 0 {
                    self.input.drop_last()
                } else {
                    self.input
                },
                status: None,
                ..self
            }
        } else {
            self
        }
    }

    /// After the input or the question has been cancelled.
    pub open spec fn cancelled(self) -> TagEditorView {
        if self.mode is Browse {
            self
        } else {
            self.settled()
        }
    }

    /// The items with the tag `tag` queued for the note: the first item of
    /// that name, case of ASCII letters aside, selected; else a new item,
    /// in its place in the order.
    pub open spec fn with_tag(self, tag: Seq<char>, unmark: bool) -> Seq<ItemView> {
        match index_like(self.items, tag) {
            Some(i) => self.items.update(
                i,
                ItemView {
                    selected: true,
                    bulk_selected: if unmark {
                        false
                    } else {
                        self.items[i].bulk_selected
                    },
                    ..self.items[i]
                },
            ),
            None => sorted_items(
                self.items.push(
                    ItemView { name: tag, selected: true, original: false, bulk_selected: false },
                ),
            ),
        }
    }

    /// After the name in the input has been added: nothing happens unless
    /// the input is open for a new tag; an empty name is refused; else the
    /// tag is queued for the note and the editor is back in browsing.
    pub open spec fn committed(self) -> TagEditorView {
        let name = trim_of(self.input);
        let items = self.with_tag(name, false);
        if self.mode != ModeView::Input(InputView::Add) {
            self
        } else if name.len() == 0 {
            TagEditorView { status: Some("Tag cannot be empty"@), ..self }
        } else {
            TagEditorView {
                items,
                selected_index: match index_like(self.items, name) {
                    Some(_) => self.selected_index,
                    None => match index_like(items, name) {
                        Some(i) => i as usize,
                        None => self.selected_index,
                    },
                },
                mode: ModeView::Browse,
                input: seq![],
                status: Some(
                    if index_like(self.items, name) is Some {
                        "Tag selected"@
                    } else {
                        "Tag added"@
                    },
                ),
                ..self
            }
        }
    }

    /// After the suggestion at `index` has been taken: refused where there
    /// is none; else it leaves the suggestions and is queued for the note.
    pub open spec fn suggested(self, index: usize) -> TagEditorView {
        if index >= self.suggestions.len() {
            TagEditorView { status: Some("No suggestion in that slot"@), ..self }
        } else {
            let tag = self.suggestions[index as int];
            let items = self.with_tag(tag, true);
            TagEditorView {
                suggestions: self.suggestions.remove(index as int),
                items,
                selected_index: match index_like(items, tag) {
                    Some(i) => i as usize,
                    None => self.selected_index,
                },
                status: Some(framed("Queued tag '"@, tag, "' (press Enter to save)"@)),
                ..self
            }
        }
    }

    /// What the note gains and loses by the editor: the tags that are
    /// selected and were not, and those that were and are no longer.
    pub open spec fn added(self) -> Seq<Seq<char>> {
        self.items.filter(|item: ItemView| item.selected && !item.original).map_values(
            |item: ItemView| item.name,
        )
    }

    pub open spec fn removed(self) -> Seq<Seq<char>> {
        self.items.filter(|item: ItemView| !item.selected && item.original).map_values(
            |item: ItemView| item.name,
        )
    }
}


fn names_where(items: &Vec<TagEditorItem>, marked: bool, gained: bool, lost: bool) -> (names: Vec<String>)
    requires
        (marked && !gained && !lost) || (!marked && gained && !lost) || (!marked && !gained && lost),
    ensures
        marked ==> texts_of(names@) == item_views(items@).filter(
            |item: ItemView| item.bulk_selected,
        ).map_values(|item: ItemView| item.name),
        gained ==> texts_of(names@) == item_views(items@).filter(
            |item: ItemView| item.selected && !item.original,
        ).map_values(|item: ItemView| item.name),
        lost ==> texts_of(names@) == item_views(items@).filter(
            |item: ItemView| !item.selected && item.original,
        ).map_values(|item: ItemView| item.name),
{
    let ghost all = item_views(items@);
    let ghost pick = |item: ItemView|
        if marked {
            item.bulk_selected
        } else if gained {
            item.selected && !item.original
        } else {
            !item.selected && item.original
        };
    let ghost name = |item: ItemView| item.name;
    let mut names: Vec<String> = Vec::new();
    let mut i: usize = 0;
    assert(all.take(0) =~= Seq::empty());
    assert(texts_of(names@) =~= all.take(0).filter(pick).map_values(name));
    while i < items.len()
        invariant
            i <= items.len(),
            all == item_views(items@),
            name == (|item: ItemView| item.name),
            pick == (|item: ItemView|
                if marked {
                    item.bulk_selected
                } else if gained {
                    item.selected && !item.original
                } else {
                    !item.selected && item.original
                }),
            texts_of(names@) == all.take(i as int).filter(pick).map_values(name),
        decreases items.len() - i,
    {
        let item = &items[i];
        proof {
            lemma_filter_push(all.take(i as int), item@, pick);
            assert(all.take(i + 1) =~= all.take(i as int).push(item@));
        }
        let take = if marked {
            item.bulk_selected
        } else if gained {
            item.selected && !item.original
        } else {
            !item.selected && item.original
        };
        if take {
            let ghost before = texts_of(names@);
            names.push(item.name.clone());
            assert(texts_of(names@) =~= before.push(item@.name));
            assert(all.take(i as int).filter(pick).push(item@).map_values(name) =~= all.take(
                i as int,
            ).filter(pick).map_values(name).push(item@.name));
        }
        i = i + 1;
    }
    proof {
        assert(all.take(all.len() as int) =~= all);
        if marked {
            assert(pick =~= (|item: ItemView| item.bulk_selected));
        } else if gained {
            assert(pick =~= (|item: ItemView| item.selected && !item.original));
        } else {
            assert(pick =~= (|item: ItemView| !item.selected && item.original));
        }
    }
    names
}

impl TagEditorOverlay {
    /// Moves the selection by `delta` tags and goes back to browsing.
    pub fn move_selection(&mut self, delta: isize)
        ensures
            final(self)@ == old(self)@.moved(delta),
    {
        if self.items.is_empty() {
            self.selected_index = 0;
        } else {
            self.selected_index = step_index(self.selected_index, delta, self.items.len());
        }
        self.status = None;
        self.mode = TagEditorMode::Browse;
        self.input = String::new();
    }

    /// Switches the selected tag on or off for the note.
    pub fn toggle_selection(&mut self)
        ensures
            final(self)@ == old(self)@.toggled(),
    {
        if self.selected_index < self.items.len() {
            let mut item = self.items[self.selected_index].duplicate();
            item.selected = !item.selected;
            let ghost before = item_views(self.items@);
            self.items.set(self.selected_index, item);
            assert(item_views(self.items@) =~= before.update(self.selected_index as int, item@));
        }
        self.status = None;
        self.mode = TagEditorMode::Browse;
        self.input = String::new();
    }

    /// Opens the input for a new tag.
    pub fn begin_add(&mut self)
        ensures
            final(self)@ == old(self)@.adding(),
    {
        self.mode = TagEditorMode::Input(TagInputKind::Add);
        self.input = String::new();
        self.status = Some(String::from_str("New tag: type name, Enter to add, Esc to cancel"));
    }

    /// Opens the input for a new name of the selected tag.
    pub fn begin_rename(&mut self)
        ensures
            final(self)@ == old(self)@.renaming(),
    {
        if self.selected_index < self.items.len() {
            let name = self.items[self.selected_index].name.clone();
            self.mode = TagEditorMode::Input(TagInputKind::Rename { original: name.clone() });
            self.status = Some(
                frame("Renaming '", name.as_str(), "': edit and press Enter, Esc to cancel"),
            );
            self.input = name;
        }
    }

    /// Opens the input for the target of a merge of the selected tag.
    pub fn begin_merge(&mut self)
        ensures
            final(self)@ == old(self)@.merging(),
    {
        if self.selected_index < self.items.len() {
            let name = self.items[self.selected_index].name.clone();
            let mut sources: Vec<String> = Vec::new();
            sources.push(name.clone());
            assert(texts_of(sources@) =~= seq![name@]);
            self.mode = TagEditorMode::Input(TagInputKind::Merge { sources });
            self.input = String::new();
            self.status = Some(
                frame("Merge '", name.as_str(), "' into existing tag: type target name"),
            );
        }
    }

    /// Opens the input for the target of a merge of the marked tags, where
    /// at least two are marked, and tells whether it did.
    pub fn begin_marked_merge(&mut self) -> (opened: bool)
        ensures
            final(self)@ == old(self)@.merging_marked(),
            opened == (old(self)@.marked().len() >= 2),
    {
        let sources = names_where(&self.items, true, false, false);
        if sources.len() < 2 {
            self.status = Some(
                String::from_str("Mark at least two tags with 'v' before using bulk merge"),
            );
            return false;
        }
        self.mode = TagEditorMode::Input(TagInputKind::Merge { sources });
        self.input = String::new();
        self.status = Some(
            String::from_str("Merge marked tags into existing tag: type target name"),
        );
        true
    }

    /// Switches the mark of the selected tag.
    pub fn toggle_bulk_mark(&mut self)
        ensures
            final(self)@ == old(self)@.mark_toggled(),
    {
        if self.selected_index < self.items.len() {
            let mut item = self.items[self.selected_index].duplicate();
            item.bulk_selected = !item.bulk_selected;
            if item.bulk_selected {
                self.status = Some(frame("Marked '", item.name.as_str(), "' for bulk actions"));
            } else {
                self.status = Some(frame("Unmarked '", item.name.as_str(), "'"));
            }
            let ghost before = item_views(self.items@);
            self.items.set(self.selected_index, item);
            assert(item_views(self.items@) =~= before.update(self.selected_index as int, item@));
        }
    }

    /// Clears all marks and says how many there were.
    pub fn clear_bulk_marks(&mut self)
        ensures
            final(self)@ == old(self)@.marks_cleared(),
    {
        let ghost all = item_views(self.items@);
        let ghost unmark = |item: ItemView| ItemView { bulk_selected: false, ..item };
        let ghost is_marked = |item: ItemView| item.bulk_selected;
        let mut cleared: usize = 0;
        let mut items: Vec<TagEditorItem> = Vec::new();
        let mut i: usize = 0;
        assert(all.take(0) =~= Seq::empty());
        assert(item_views(items@) =~= all.take(0).map_values(unmark));
        while i < self.items.len()
            invariant
                i <= self.items.len(),
                all == item_views(self.items@),
                *self == *old(self),
                unmark == (|item: ItemView| ItemView { bulk_selected: false, ..item }),
                is_marked == (|item: ItemView| item.bulk_selected),
                item_views(items@) == all.take(i as int).map_values(unmark),
                cleared == all.take(i as int).filter(is_marked).len(),
                cleared <= i,
            decreases self.items.len() - i,
        {
            let mut item = self.items[i].duplicate();
            proof {
                lemma_filter_push(all.take(i as int), item@, is_marked);
                assert(all.take(i + 1) =~= all.take(i as int).push(item@));
                assert(all.take(i + 1).map_values(unmark) =~= all.take(i as int).map_values(
                    unmark,
                ).push(unmark(item@)));
            }
            if item.bulk_selected {
                item.bulk_selected = false;
                cleared = cleared + 1;
            }
            let ghost before = item_views(items@);
            items.push(item);
            assert(item_views(items@) =~= before.push(item@));
            i = i + 1;
        }
        proof {
            assert(all.take(all.len() as int) =~= all);
        }
        self.items = items;
        if cleared > 0 {
            let mut out: Vec<char> = Vec::new();
            push_text(&mut out, "Cleared ");
            push_unsigned(&mut out, cleared as u64);
            push_text(&mut out, " bulk mark");
            if cleared != 1 {
                out.push('s');
            }
            assert(out@ =~= "Cleared "@ + decimal_of(cleared as int) + " bulk mark"@ + (if cleared
                == 1 {
                seq![]
            } else {
                seq!['s']
            }));
            self.status = Some(string_of(&out));
        } else {
            self.status = Some(String::from_str("No bulk marks to clear"));
        }
    }

    /// Asks whether the selected tag is to be removed everywhere.
    pub fn begin_delete(&mut self)
        ensures
            final(self)@ == old(self)@.deleting(),
    {
        if self.selected_index < self.items.len() {
            let name = self.items[self.selected_index].name.clone();
            self.status = Some(
                frame("Delete '", name.as_str(), "'? Press y to confirm or n / Esc to cancel"),
            );
            self.mode = TagEditorMode::ConfirmDelete { tag: name };
        }
    }

    /// Takes a character into the input.
    pub fn push_char(&mut self, ch: char)
        ensures
            final(self)@ == old(self)@.typed(ch),
    {
        let open = match &self.mode {
            TagEditorMode::Input(_) => true,
            _ => false,
        };
        if open && self.input.as_str().as_bytes().len() < MAX_INPUT_BYTES {
            push_char(&mut self.input, ch);
            self.status = None;
        }
    }

    /// Takes the last character of the input back.
    pub fn pop_char(&mut self)
        ensures
            final(self)@ == old(self)@.erased(),
    {
        let open = match &self.mode {
            TagEditorMode::Input(_) => true,
            _ => false,
        };
        if open {
            let mut chars = chars_of(self.input.as_str());
            if chars.len() > 0 {
                chars.pop();
                self.input = string_of(&chars);
            }
            self.status = None;
        }
    }

    /// Cancels the input or the question.
    pub fn cancel_input(&mut self)
        ensures
            final(self)@ == old(self)@.cancelled(),
    {
        let browsing = match &self.mode {
            TagEditorMode::Browse => true,
            _ => false,
        };
        if !browsing {
            self.mode = TagEditorMode::Browse;
            self.input = String::new();
            self.status = None;
        }
    }

    fn queue_tag(&mut self, tag: &String, unmark: bool) -> (was_listed: bool)
        ensures
            was_listed == index_like(old(self)@.items, tag@) is Some,
            final(self)@ == (TagEditorView {
                items: old(self)@.with_tag(tag@, unmark),
                selected_index: final(self)@.selected_index,
                ..old(self)@
            }),
            final(self)@.selected_index == if was_listed && !unmark {
                old(self)@.selected_index
            } else {
                match index_like(final(self)@.items, tag@) {
                    Some(i) => i as usize,
                    None => old(self)@.selected_index,
                }
            },
    {
        match find_like(&self.items, tag.as_str()) {
            Some(i) => {
                let mut item = self.items[i].duplicate();
                item.selected = true;
                if unmark {
                    item.bulk_selected = false;
                }
                let ghost before = item_views(self.items@);
                self.items.set(i, item);
                assert(item_views(self.items@) =~= before.update(i as int, item@));
                if unmark {
                    proof {
                        let after = item_views(self.items@);
                        assert(first_like(before, tag@, i as int));
                        assert forall|k: int| 0 <= k < i implies !same_ignoring_ascii_case(
                            (#[trigger] after[k]).name,
                            tag@,
                        ) by {
                            assert(after[k] == before[k]);
                        }
                        assert(first_like(after, tag@, i as int));
                        let other = choose|other: int| first_like(after, tag@, other);
                        assert(other == i);
                    }
                    self.selected_index = i;
                }
                true
            },
            None => {
                let ghost before = item_views(self.items@);
                let mut items: Vec<TagEditorItem> = Vec::new();
                core::mem::swap(&mut self.items, &mut items);
                items.push(
                    TagEditorItem {
                        name: tag.clone(),
                        selected: true,
                        original: false,
                        bulk_selected: false,
                    },
                );
                assert(item_views(items@) =~= before.push(
                    ItemView { name: tag@, selected: true, original: false, bulk_selected: false },
                ));
                self.items = sort_items(items);
                match find_like(&self.items, tag.as_str()) {
                    Some(i) => {
                        self.selected_index = i;
                    },
                    None => {},
                }
                false
            },
        }
    }

    /// Adds the name in the input as a tag of the note.
    pub fn commit_input(&mut self)
        ensures
            final(self)@ == old(self)@.committed(),
    {
        let adding = match &self.mode {
            TagEditorMode::Input(TagInputKind::Add) => true,
            _ => false,
        };
        if !adding {
            return ;
        }
        let name = trim(self.input.as_str());
        if name.as_str().is_empty() {
            self.status = Some(String::from_str("Tag cannot be empty"));
            return ;
        }
        let listed = self.queue_tag(&name, false);
        self.mode = TagEditorMode::Browse;
        self.input = String::new();
        if listed {
            self.status = Some(String::from_str("Tag selected"));
        } else {
            self.status = Some(String::from_str("Tag added"));
        }
    }

    /// Takes the suggestion at `index` as a tag of the note and returns it.
    pub fn apply_suggestion(&mut self, index: usize) -> (taken: Option<String>)
        ensures
            final(self)@ == old(self)@.suggested(index),
            text_view(taken) == if index < old(self)@.suggestions.len() {
                Some(old(self)@.suggestions[index as int])
            } else {
                None
            },
    {
        if index >= self.suggestions.len() {
            self.status = Some(String::from_str("No suggestion in that slot"));
            return None;
        }
        let ghost before = texts_of(self.suggestions@);
        let tag = self.suggestions.remove(index);
        assert(texts_of(self.suggestions@) =~= before.remove(index as int));
        self.queue_tag(&tag, true);
        self.status = Some(frame("Queued tag '", tag.as_str(), "' (press Enter to save)"));
        Some(tag)
    }

    /// The name of the selected tag.
    pub fn selected_name(&self) -> (name: Option<String>)
        ensures
            text_view(name) == self@.selected_name(),
    {
        if self.selected_index < self.items.len() {
            Some(self.items[self.selected_index].name.clone())
        } else {
            None
        }
    }

    /// The input without the white space at its ends, while it is open.
    pub fn input_value(&self) -> (value: Option<String>)
        ensures
            text_view(value) == if self@.mode is Input {
                Some(trim_of(self@.input))
            } else {
                None
            },
    {
        match &self.mode {
            TagEditorMode::Input(_) => Some(trim(self.input.as_str())),
            _ => None,
        }
    }

    /// Sets the status line of the editor.
    pub fn set_status(&mut self, message: String)
        ensures
            final(self)@ == (TagEditorView { status: Some(message@), ..old(self)@ }),
    {
        self.status = Some(message);
    }

    /// The tags that the note gains and those it loses, and the note.
    pub fn changes(&self) -> (changes: (Vec<String>, Vec<String>, i64))
        ensures
            texts_of(changes.0@) == self@.added(),
            texts_of(changes.1@) == self@.removed(),
            changes.2 == self@.note_id,
    {
        let add = names_where(&self.items, false, true, false);
        let remove = names_where(&self.items, false, false, true);
        (add, remove, self.note_id)
    }
}


/// The last item with the name `name`.
pub open spec fn last_exact(items: Seq<ItemView>, name: Seq<char>) -> Option<ItemView>
    decreases items.len(),
{
    if items.len() == 0 {
        None
    } else if items.last().name == name {
        Some(items.last())
    } else {
        last_exact(items.drop_last(), name)
    }
}

/// The items without those of the name `name`.
pub open spec fn items_without(items: Seq<ItemView>, name: Seq<char>) -> Seq<ItemView> {
    items.filter(|item: ItemView| item.name != name)
}

/// One of `names` is `name`.
pub open spec fn among(names: Seq<Seq<char>>, name: Seq<char>) -> bool {
    exists|k: int| 0 <= k < names.len() && #[trigger] names[k] == name
}

fn is_among(names: &Vec<String>, name: &String) -> (found: bool)
    ensures
        found == among(texts_of(names@), name@),
{
    let mut i: usize = 0;
    while i < names.len()
        invariant
            i <= names.len(),
            forall|k: int| 0 <= k < i ==> #[trigger] texts_of(names@)[k] != name@,
        decreases names.len() - i,
    {
        if names[i] == *name {
            assert(texts_of(names@)[i as int] == name@);
            return true;
        }
        i = i + 1;
    }
    false
}

/// A tag as an item that the note does not carry.
pub open spec fn plain_item(name: Seq<char>) -> ItemView {
    ItemView { name, selected: false, original: false, bulk_selected: false }
}

/// The names in the order of the tag editor.
pub open spec fn sorted_names(names: Seq<Seq<char>>) -> Seq<Seq<char>> {
    sorted_items(names.map_values(|name: Seq<char>| plain_item(name))).map_values(
        |item: ItemView| item.name,
    )
}

/// Sorts names into the order of the tag editor.
pub fn sort_names(names: &Vec<String>) -> (sorted: Vec<String>)
    ensures
        texts_of(sorted@) == sorted_names(texts_of(names@)),
{
    let ghost all = texts_of(names@);
    let ghost wrap = |name: Seq<char>| plain_item(name);
    let ghost unwrap = |item: ItemView| item.name;
    let mut items: Vec<TagEditorItem> = Vec::new();
    let mut i: usize = 0;
    assert(item_views(items@) =~= all.take(0).map_values(wrap));
    while i < names.len()
        invariant
            i <= names.len(),
            all == texts_of(names@),
            wrap == (|name: Seq<char>| plain_item(name)),
            item_views(items@) == all.take(i as int).map_values(wrap),
        decreases names.len() - i,
    {
        let ghost before = item_views(items@);
        let item = TagEditorItem {
            name: names[i].clone(),
            selected: false,
            original: false,
            bulk_selected: false,
        };
        items.push(item);
        assert(item_views(items@) =~= before.push(wrap(all[i as int])));
        assert(all.take(i + 1).map_values(wrap) =~= all.take(i as int).map_values(wrap).push(
            wrap(all[i as int]),
        ));
        i = i + 1;
    }
    assert(all.take(all.len() as int) =~= all);
    let ordered = sort_items(items);
    let ghost views = item_views(ordered@);
    let mut sorted: Vec<String> = Vec::new();
    let mut k: usize = 0;
    assert(texts_of(sorted@) =~= views.take(0).map_values(unwrap));
    while k < ordered.len()
        invariant
            k <= ordered.len(),
            views == item_views(ordered@),
            unwrap == (|item: ItemView| item.name),
            texts_of(sorted@) == views.take(k as int).map_values(unwrap),
        decreases ordered.len() - k,
    {
        let ghost before = texts_of(sorted@);
        sorted.push(ordered[k].name.clone());
        assert(texts_of(sorted@) =~= before.push(views[k as int].name));
        assert(views.take(k + 1).map_values(unwrap) =~= views.take(k as int).map_values(
            unwrap,
        ).push(unwrap(views[k as int])));
        k = k + 1;
    }
    assert(views.take(views.len() as int) =~= views);
    sorted
}

/// The most suggestions that the tag editor makes.
pub const MAX_SUGGESTIONS: usize = 5;

impl TagEditorView {
    /// After the tag `from` has been renamed to `to` in the store: the first
    /// item of the name `from` has the name `to`, the items are in order
    /// again, and the first item of the new name, case of ASCII letters
    /// aside, is selected.
    pub open spec fn renamed(self, from: Seq<char>, to: Seq<char>) -> TagEditorView {
        let changed = match index_exact(self.items, from) {
            Some(i) => self.items.update(i, ItemView { name: to, ..self.items[i] }),
            None => self.items,
        };
        let items = sorted_items(changed);
        TagEditorView {
            items,
            selected_index: match index_like(items, to) {
                Some(i) => i as usize,
                None => self.selected_index,
            },
            mode: ModeView::Browse,
            input: seq![],
            status: Some(
                "Renamed tag '"@ + from + "' \u{e2}\u{2020}\u{2019} '"@ + to + seq!['\''],
            ),
            ..self
        }
    }

    /// The items after the tag `from` has been merged into `to`: the items
    /// of the name `from` are gone; what the last of them had of `selected`
    /// and `original` goes to the first item of the name `to`, case of ASCII
    /// letters aside, or to a new item of that name.
    pub open spec fn merged_items(self, from: Seq<char>, to: Seq<char>) -> Seq<ItemView> {
        let rest = items_without(self.items, from);
        let carried_selected = match last_exact(self.items, from) {
            Some(item) => item.selected,
            None => false,
        };
        let carried_original = match last_exact(self.items, from) {
            Some(item) => item.original,
            None => false,
        };
        match index_like(rest, to) {
            Some(i) => rest.update(
                i,
                ItemView {
                    selected: rest[i].selected || carried_selected,
                    original: rest[i].original || carried_original,
                    bulk_selected: false,
                    ..rest[i]
                },
            ),
            None => rest.push(
                ItemView {
                    name: to,
                    selected: carried_selected,
                    original: carried_original,
                    bulk_selected: false,
                },
            ),
        }
    }

    /// After the tag `from` has been merged into `to` in the store.
    pub open spec fn merged(self, from: Seq<char>, to: Seq<char>) -> TagEditorView {
        let items = sorted_items(self.merged_items(from, to));
        TagEditorView {
            items: items.map_values(|item: ItemView| ItemView { bulk_selected: false, ..item }),
            selected_index: match index_like(items, to) {
                Some(i) => i as usize,
                None => 0,
            },
            mode: ModeView::Browse,
            input: seq![],
            status: Some("Merged '"@ + from + "' into '"@ + to + seq!['\'']),
            ..self
        }
    }

    /// After the tag `tag` has been deleted in the store.
    pub open spec fn deleted(self, tag: Seq<char>) -> TagEditorView {
        let items = items_without(self.items, tag);
        TagEditorView {
            items,
            selected_index: if items.len() > 0 && self.selected_index >= items.len() {
                (items.len() - 1) as usize
            } else {
                self.selected_index
            },
            mode: ModeView::Browse,
            input: seq![],
            status: Some(
                if items.len() == 0 {
                    "No tags remain"@
                } else {
                    framed("Deleted tag '"@, tag, "'"@)
                },
            ),
            ..self
        }
    }

    /// The editor as it opens for a note with the tags `note_tags` when the
    /// store knows the tags `known`: an item for every known tag, selected
    /// where the note carries it, and for every tag of the note that the
    /// store does not know; the first known tags that the note does not
    /// carry as suggestions.
    pub open spec fn opened(note_id: i64, note_tags: Seq<Seq<char>>, known: Seq<Seq<char>>) -> TagEditorView {
        let sorted = sorted_names(known);
        let listed = sorted.map_values(
            |name: Seq<char>|
                ItemView {
                    name,
                    selected: among(note_tags, name),
                    original: among(note_tags, name),
                    bulk_selected: false,
                },
        );
        let extra = note_tags.filter(|name: Seq<char>| !among(sorted, name)).map_values(
            |name: Seq<char>|
                ItemView { name, selected: true, original: true, bulk_selected: false },
        );
        let free = sorted.filter(|name: Seq<char>| !among(note_tags, name));
        TagEditorView {
            note_id,
            items: sorted_items(listed + extra),
            selected_index: 0,
            mode: ModeView::Browse,
            input: seq![],
            status: None,
            suggestions: if free.len() > MAX_SUGGESTIONS {
                free.take(MAX_SUGGESTIONS as int)
            } else {
                free
            },
        }
    }
}

fn remove_exact(items: &Vec<TagEditorItem>, name: &String) -> (out: (Vec<TagEditorItem>, Option<TagEditorItem>))
    ensures
        item_views(out.0@) == items_without(item_views(items@), name@),
        match out.1 {
            Some(item) => last_exact(item_views(items@), name@) == Some(item@),
            None => last_exact(item_views(items@), name@) is None,
        },
{
    let ghost all = item_views(items@);
    let ghost keep = |item: ItemView| item.name != name@;
    let mut kept: Vec<TagEditorItem> = Vec::new();
    let mut carried: Option<TagEditorItem> = None;
    let mut i: usize = 0;
    assert(all.take(0) =~= Seq::empty());
    while i < items.len()
        invariant
            i <= items.len(),
            all == item_views(items@),
            keep == (|item: ItemView| item.name != name@),
            item_views(kept@) == all.take(i as int).filter(keep),
            match carried {
                Some(item) => last_exact(all.take(i as int), name@) == Some(item@),
                None => last_exact(all.take(i as int), name@) is None,
            },
        decreases items.len() - i,
    {
        let item = items[i].duplicate();
        proof {
            lemma_filter_push(all.take(i as int), item@, keep);
            assert(all.take(i + 1) =~= all.take(i as int).push(item@));
            assert(all.take(i + 1).drop_last() =~= all.take(i as int));
        }
        if item.name == *name {
            carried = Some(item);
        } else {
            let ghost before = item_views(kept@);
            kept.push(item);
            assert(item_views(kept@) =~= before.push(item@));
        }
        i = i + 1;
    }
    assert(all.take(all.len() as int) =~= all);
    (kept, carried)
}

impl TagEditorOverlay {
    /// Takes down that the tag `from` was renamed to `to` in the store.
    pub fn finish_rename(&mut self, from: &str, to: &str)
        ensures
            final(self)@ == old(self)@.renamed(from@, to@),
    {
        let old_name = String::from_str(from);
        let mut items: Vec<TagEditorItem> = Vec::new();
        core::mem::swap(&mut self.items, &mut items);
        match find_exact(&items, &old_name) {
            Some(i) => {
                let mut item = items[i].duplicate();
                item.name = String::from_str(to);
                let ghost before = item_views(items@);
                items.set(i, item);
                assert(item_views(items@) =~= before.update(i as int, item@));
            },
            None => {},
        }
        self.items = sort_items(items);
        match find_like(&self.items, to) {
            Some(i) => {
                self.selected_index = i;
            },
            None => {},
        }
        self.mode = TagEditorMode::Browse;
        self.input = String::new();
        let mut out: Vec<char> = Vec::new();
        push_text(&mut out, "Renamed tag '");
        push_text(&mut out, from);
        push_text(&mut out, "' \u{e2}\u{2020}\u{2019} '");
        push_text(&mut out, to);
        out.push('\'');
        assert(out@ =~= "Renamed tag '"@ + from@ + "' \u{e2}\u{2020}\u{2019} '"@ + to@ + seq!['\'']);
        self.status = Some(string_of(&out));
    }

    /// Takes down that the tag `from` was merged into `to` in the store.
    pub fn finish_merge(&mut self, from: &str, to: &str)
        ensures
            final(self)@ == old(self)@.merged(from@, to@),
    {
        let old_name = String::from_str(from);
        let (mut rest, carried) = remove_exact(&self.items, &old_name);
        let (carried_selected, carried_original) = match &carried {
            Some(item) => (item.selected, item.original),
            None => (false, false),
        };
        match find_like(&rest, to) {
            Some(i) => {
                let mut target = rest[i].duplicate();
                if carried_selected {
                    target.selected = true;
                }
                if carried_original {
                    target.original = true;
                }
                target.bulk_selected = false;
                let ghost before = item_views(rest@);
                rest.set(i, target);
                assert(item_views(rest@) =~= before.update(i as int, target@));
            },
            None => {
                let ghost before = item_views(rest@);
                let item = TagEditorItem {
                    name: String::from_str(to),
                    selected: carried_selected,
                    original: carried_original,
                    bulk_selected: false,
                };
                rest.push(item);
                assert(item_views(rest@) =~= before.push(item@));
            },
        }
        assert(item_views(rest@) == old(self)@.merged_items(from@, to@));
        let sorted = sort_items(rest);
        self.selected_index = match find_like(&sorted, to) {
            Some(i) => i,
            None => 0,
        };
        let ghost views = item_views(sorted@);
        let ghost unmark = |item: ItemView| ItemView { bulk_selected: false, ..item };
        let mut items: Vec<TagEditorItem> = Vec::new();
        let mut k: usize = 0;
        assert(item_views(items@) =~= views.take(0).map_values(unmark));
        while k < sorted.len()
            invariant
                k <= sorted.len(),
                views == item_views(sorted@),
                unmark == (|item: ItemView| ItemView { bulk_selected: false, ..item }),
                item_views(items@) == views.take(k as int).map_values(unmark),
            decreases sorted.len() - k,
        {
            let mut item = sorted[k].duplicate();
            item.bulk_selected = false;
            let ghost before = item_views(items@);
            items.push(item);
            assert(item_views(items@) =~= before.push(unmark(views[k as int])));
            assert(views.take(k + 1).map_values(unmark) =~= views.take(k as int).map_values(
                unmark,
            ).push(unmark(views[k as int])));
            k = k + 1;
        }
        assert(views.take(views.len() as int) =~= views);
        self.items = items;
        self.mode = TagEditorMode::Browse;
        self.input = String::new();
        let mut out: Vec<char> = Vec::new();
        push_text(&mut out, "Merged '");
        push_text(&mut out, from);
        push_text(&mut out, "' into '");
        push_text(&mut out, to);
        out.push('\'');
        assert(out@ =~= "Merged '"@ + from@ + "' into '"@ + to@ + seq!['\'']);
        self.status = Some(string_of(&out));
    }

    /// Takes down that the tag `tag` was deleted in the store.
    pub fn finish_delete(&mut self, tag: &str)
        ensures
            final(self)@ == old(self)@.deleted(tag@),
    {
        let name = String::from_str(tag);
        let (rest, _) = remove_exact(&self.items, &name);
        self.items = rest;
        if self.selected_index >= self.items.len() && !self.items.is_empty() {
            self.selected_index = self.items.len() - 1;
        }
        self.mode = TagEditorMode::Browse;
        self.input = String::new();
        if self.items.is_empty() {
            self.status = Some(String::from_str("No tags remain"));
        } else {
            self.status = Some(frame("Deleted tag '", tag, "'"));
        }
    }

    /// Opens the editor for a note, given the tags that the store knows.
    pub fn open(note: &NoteSummary, known: &Vec<String>) -> (overlay: Self)
        ensures
            overlay@ == TagEditorView::opened(note.id, texts_of(note.tags@), texts_of(known@)),
    {
        let tags = sort_names(known);
        let ghost sorted = texts_of(tags@);
        let ghost note_tags = texts_of(note.tags@);
        let ghost list = |name: Seq<char>|
            ItemView {
                name,
                selected: among(note_tags, name),
                original: among(note_tags, name),
                bulk_selected: false,
            };
        let ghost unknown = |name: Seq<char>| !among(sorted, name);
        let ghost own = |name: Seq<char>|
            ItemView { name, selected: true, original: true, bulk_selected: false };
        let ghost unused = |name: Seq<char>| !among(note_tags, name);
        let mut items: Vec<TagEditorItem> = Vec::new();
        let mut free: Vec<String> = Vec::new();
        let mut i: usize = 0;
        assert(item_views(items@) =~= sorted.take(0).map_values(list));
        assert(sorted.take(0) =~= Seq::empty());
        assert(texts_of(free@) =~= Seq::empty());
        while i < tags.len()
            invariant
                i <= tags.len(),
                sorted == texts_of(tags@),
                note_tags == texts_of(note.tags@),
                list == (|name: Seq<char>|
                    ItemView {
                        name,
                        selected: among(note_tags, name),
                        original: among(note_tags, name),
                        bulk_selected: false,
                    }),
                unused == (|name: Seq<char>| !among(note_tags, name)),
                item_views(items@) == sorted.take(i as int).map_values(list),
                texts_of(free@) == sorted.take(i as int).filter(unused),
            decreases tags.len() - i,
        {
            let carried = is_among(&note.tags, &tags[i]);
            proof {
                lemma_filter_push(sorted.take(i as int), sorted[i as int], unused);
                assert(sorted.take(i + 1) =~= sorted.take(i as int).push(sorted[i as int]));
                assert(sorted.take(i + 1).map_values(list) =~= sorted.take(i as int).map_values(
                    list,
                ).push(list(sorted[i as int])));
            }
            let ghost before = item_views(items@);
            let item = TagEditorItem {
                name: tags[i].clone(),
                selected: carried,
                original: carried,
                bulk_selected: false,
            };
            items.push(item);
            assert(item_views(items@) =~= before.push(item@));
            if !carried {
                let ghost had = texts_of(free@);
                free.push(tags[i].clone());
                assert(texts_of(free@) =~= had.push(sorted[i as int]));
            }
            i = i + 1;
        }
        assert(sorted.take(sorted.len() as int) =~= sorted);
        let ghost listed = item_views(items@);
        let mut k: usize = 0;
        assert(note_tags.take(0) =~= Seq::empty());
        assert(item_views(items@) =~= listed + note_tags.take(0).filter(unknown).map_values(own));
        while k < note.tags.len()
            invariant
                k <= note.tags.len(),
                sorted == texts_of(tags@),
                note_tags == texts_of(note.tags@),
                unknown == (|name: Seq<char>| !among(sorted, name)),
                own == (|name: Seq<char>|
                    ItemView { name, selected: true, original: true, bulk_selected: false }),
                item_views(items@) == listed + note_tags.take(k as int).filter(unknown).map_values(
                    own,
                ),
            decreases note.tags.len() - k,
        {
            proof {
                lemma_filter_push(note_tags.take(k as int), note_tags[k as int], unknown);
                assert(note_tags.take(k + 1) =~= note_tags.take(k as int).push(note_tags[k as int]));
            }
            if !is_among(&tags, &note.tags[k]) {
                let ghost before = item_views(items@);
                let item = TagEditorItem {
                    name: note.tags[k].clone(),
                    selected: true,
                    original: true,
                    bulk_selected: false,
                };
                items.push(item);
                assert(item_views(items@) =~= before.push(own(note_tags[k as int])));
                assert(note_tags.take(k as int).filter(unknown).push(
                    note_tags[k as int],
                ).map_values(own) =~= note_tags.take(k as int).filter(unknown).map_values(own).push(
                    own(note_tags[k as int]),
                ));
            }
            k = k + 1;
        }
        assert(note_tags.take(note_tags.len() as int) =~= note_tags);
        let suggestions = if free.len() > MAX_SUGGESTIONS {
            let mut first: Vec<String> = Vec::new();
            let mut j: usize = 0;
            while j < MAX_SUGGESTIONS
                invariant
                    j <= MAX_SUGGESTIONS < free.len(),
                    texts_of(first@) == texts_of(free@).take(j as int),
                decreases MAX_SUGGESTIONS - j,
            {
                let ghost before = texts_of(first@);
                first.push(free[j].clone());
                assert(texts_of(first@) =~= before.push(texts_of(free@)[j as int]));
                assert(texts_of(free@).take(j + 1) =~= texts_of(free@).take(j as int).push(
                    texts_of(free@)[j as int],
                ));
                j = j + 1;
            }
            first
        } else {
            free
        };
        TagEditorOverlay {
            note_id: note.id,
            items: sort_items(items),
            selected_index: 0,
            mode: TagEditorMode::Browse,
            input: String::new(),
            status: None,
            suggestions,
        }
    }
}

} // verus!
