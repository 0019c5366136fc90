//! Notes as the list shows them: a preview of the body, printed dates, and
//! how long a trashed note has left.

use crate::journal::{lemma_filter_map_push};
use crate::notes::{text_view, NoteRecord, NoteView};
use crate::search::{clone_strings, QueryView, RangeFilter, SearchQuery};
use crate::stamp::{epoch_date_text, format_epoch_date, format_timestamp, timestamp_text};
use crate::strings::{
    chars_take, chars_trim, chars_trim_end, decimal_of, join, joined_of, lines_of, push_decimal,
    push_text, split_lines, texts_of, trim_end_of, trim_of,
};
use crate::text::{chars_of, string_of};
use vstd::prelude::*;
use vstd::string::*;

verus! {

/// How long a trashed note has left.
#[derive(Debug, Clone)]
pub struct TrashStatus {
    pub label: String,
    /// The retention has run out; the note is purged at the next pass.
    pub expired: bool,
    /// Nothing is purged by age.
    pub indefinite: bool,
}

pub struct TrashView {
    pub label: Seq<char>,
    pub expired: bool,
    pub indefinite: bool,
}

impl View for TrashStatus {
    type V = TrashView;

    open spec fn view(&self) -> TrashView {
        TrashView { label: self.label@, expired: self.expired, indefinite: self.indefinite }
    }
}

/// A note as the list shows it.
#[derive(Debug, Clone)]
pub struct NoteSummary {
    pub id: i64,
    pub title: String,
    pub updated_at: String,
    pub preview: String,
    pub body: String,
    pub pinned: bool,
    pub archived: bool,
    pub tags: Vec<String>,
    pub deleted_at: Option<i64>,
    pub deleted_label: Option<String>,
    pub trash_status: Option<TrashStatus>,
}

pub struct SummaryView {
    pub id: i64,
    pub title: Seq<char>,
    pub updated_at: Seq<char>,
    pub preview: Seq<char>,
    pub body: Seq<char>,
    pub pinned: bool,
    pub archived: bool,
    pub tags: Seq<Seq<char>>,
    pub deleted_at: Option<i64>,
    pub deleted_label: Option<Seq<char>>,
    pub trash_status: Option<TrashView>,
}

/// The status, as a mathematical value, where there is one.
pub open spec fn trash_view(status: Option<TrashStatus>) -> Option<TrashView> {
    match status {
        Some(status) => Some(status@),
        None => None,
    }
}

impl View for NoteSummary {
    type V = SummaryView;

    open spec fn view(&self) -> SummaryView {
        SummaryView {
            id: self.id,
            title: self.title@,
            updated_at: self.updated_at@,
            preview: self.preview@,
            body: self.body@,
            pinned: self.pinned,
            archived: self.archived,
            tags: texts_of(self.tags@),
            deleted_at: self.deleted_at,
            deleted_label: text_view(self.deleted_label),
            trash_status: trash_view(self.trash_status),
        }
    }
}

impl TrashStatus {
    /// A copy of the status.
    pub fn duplicate(&self) -> (copy: Self)
        ensures
            copy@ == self@,
    {
        TrashStatus { label: self.label.clone(), expired: self.expired, indefinite: self.indefinite }
    }
}

impl NoteSummary {
    /// A copy of the summary.
    pub fn duplicate(&self) -> (copy: Self)
        ensures
            copy@ == self@,
    {
        NoteSummary {
            id: self.id,
            title: self.title.clone(),
            updated_at: self.updated_at.clone(),
            preview: self.preview.clone(),
            body: self.body.clone(),
            pinned: self.pinned,
            archived: self.archived,
            tags: clone_strings(&self.tags),
            deleted_at: self.deleted_at,
            deleted_label: match &self.deleted_label {
                Some(label) => Some(label.clone()),
                None => None,
            },
            trash_status: match &self.trash_status {
                Some(status) => Some(status.duplicate()),
                None => None,
            },
        }
    }
}

/// The summaries of a list, as mathematical values.
pub open spec fn summary_views(notes: Seq<NoteSummary>) -> Seq<SummaryView> {
    notes.map_values(|note: NoteSummary| note@)
}

/// The mark that a preview ends with where the body goes on.
pub open spec fn more_mark() -> Seq<char> {
    seq!['\u{e2}', '\u{20ac}', '\u{a6}']
}

/// The preview of a body: its first `preview_lines` lines without the white
/// space at their ends, one below the other, and below them the mark
/// [`more_mark`] where the body has more lines; the mark alone where the
/// lines shown are empty.
pub open spec fn preview_of(body: Seq<char>, preview_lines: int) -> Seq<char> {
    let lines = lines_of(body);
    let shown = if preview_lines <= lines.len() {
        preview_lines
    } else {
        lines.len() as int
    };
    let text = joined_of(lines.take(shown).map_values(|line: Seq<char>| trim_end_of(line)), seq!['\n']);
    if preview_lines <= 0 {
        seq![]
    } else if lines.len() > preview_lines {
        if text.len() > 0 {
            text + seq!['\n'] + more_mark()
        } else {
            more_mark()
        }
    } else {
        text
    }
}

/// Builds the preview of a body.
pub fn build_preview(body: &str, preview_lines: usize) -> (preview: String)
    ensures
        preview@ == preview_of(body@, preview_lines as int),
{
    if preview_lines == 0 {
        let empty = String::new();
        return empty;
    }
    let lines = split_lines(&chars_of(body));
    let ghost all = texts_of(lines@);
    let ghost cut = |line: Seq<char>| trim_end_of(line);
    let shown = if preview_lines <= lines.len() {
        preview_lines
    } else {
        lines.len()
    };
    let mut collected: Vec<String> = Vec::new();
    let mut i: usize = 0;
    assert(texts_of(collected@) =~= all.take(0).map_values(cut));
    while i < shown
        invariant
            i <= shown <= lines.len(),
            all == texts_of(lines@),
            cut == (|line: Seq<char>| trim_end_of(line)),
            texts_of(collected@) == all.take(i as int).map_values(cut),
        decreases shown - i,
    {
        let line = string_of(&chars_trim_end(&chars_of(lines[i].as_str())));
        let ghost before = texts_of(collected@);
        collected.push(line);
        assert(texts_of(collected@) =~= before.push(line@));
        assert(all.take(i + 1).map_values(cut) =~= all.take(i as int).map_values(cut).push(
            cut(all[i as int]),
        ));
        i = i + 1;
    }
    proof {
        reveal_strlit("\n");
        assert("\n"@ =~= seq!['\n']);
    }
    let text = join(&collected, "\n");
    if lines.len() > preview_lines {
        let mut out = chars_of(text.as_str());
        if out.len() > 0 {
            out.push('\n');
        }
        out.push('\u{e2}');
        out.push('\u{20ac}');
        out.push('\u{a6}');
        proof {
            if text@.len() > 0 {
                assert(out@ =~= text@ + seq!['\n'] + more_mark());
            } else {
                assert(out@ =~= more_mark());
            }
        }
        string_of(&out)
    } else {
        text
    }
}

/// The most lines that the preview of a draft shows.
pub const MAX_DRAFT_LINES: usize = 4;

/// The most characters that a line of the preview of a draft shows.
pub const MAX_DRAFT_COLUMNS: usize = 80;

/// A line of the preview of a draft: the line itself, or its first
/// [`MAX_DRAFT_COLUMNS`] characters and the mark [`more_mark`].
pub open spec fn clipped(line: Seq<char>) -> Seq<char> {
    if line.len() > MAX_DRAFT_COLUMNS {
        line.take(MAX_DRAFT_COLUMNS as int) + more_mark()
    } else {
        line
    }
}

/// The words that stand for a draft without text.
pub open spec fn empty_draft() -> Seq<char> {
    seq!['(', 'e', 'm', 'p', 't', 'y', ' ', 'd', 'r', 'a', 'f', 't', ')']
}

/// The line of the body as the preview of a draft shows it: without the
/// white space at its ends; none where nothing is left.
pub open spec fn draft_line(line: Seq<char>) -> Option<Seq<char>> {
    if trim_of(line).len() == 0 {
        None
    } else {
        Some(clipped(trim_of(line)))
    }
}

/// The preview of a draft: the first [`MAX_DRAFT_LINES`] lines of the body
/// that are not blank, each clipped; [`empty_draft`] where there is none.
pub open spec fn recovery_preview_of(body: Seq<char>) -> Seq<Seq<char>> {
    let lines = lines_of(body).filter_map(|line: Seq<char>| draft_line(line));
    if lines.len() == 0 {
        seq![empty_draft()]
    } else if lines.len() > MAX_DRAFT_LINES {
        lines.take(MAX_DRAFT_LINES as int)
    } else {
        lines
    }
}

fn build_draft_line(line: &String) -> (shown: Option<String>)
    ensures
        text_view(shown) == draft_line(line@),
{
    let trimmed = chars_trim(&chars_of(line.as_str()));
    if trimmed.len() == 0 {
        return None;
    }
    let mut snippet = chars_take(&trimmed, MAX_DRAFT_COLUMNS);
    if trimmed.len() > MAX_DRAFT_COLUMNS {
        snippet.push('\u{e2}');
        snippet.push('\u{20ac}');
        snippet.push('\u{a6}');
        assert(snippet@ =~= trimmed@.take(MAX_DRAFT_COLUMNS as int) + more_mark());
    } else {
        assert(snippet@ =~= trimmed@);
    }
    Some(string_of(&snippet))
}

/// Builds the preview of a draft.
pub fn build_recovery_preview(body: &str) -> (preview: Vec<String>)
    ensures
        texts_of(preview@) == recovery_preview_of(body@),
{
    let lines = split_lines(&chars_of(body));
    let ghost all = texts_of(lines@);
    let ghost pick = |line: Seq<char>| draft_line(line);
    let mut preview: Vec<String> = Vec::new();
    let mut i: usize = 0;
    assert(texts_of(preview@) =~= all.take(0).filter_map(pick));
    while i < lines.len() && preview.len() < MAX_DRAFT_LINES
        invariant
            i <= lines.len(),
            all == texts_of(lines@),
            pick == (|line: Seq<char>| draft_line(line)),
            texts_of(preview@) == all.take(i as int).filter_map(pick),
            preview@.len() <= MAX_DRAFT_LINES,
        decreases lines.len() - i,
    {
        proof {
            lemma_filter_map_push(all.take(i as int), all[i as int], pick);
            assert(all.take(i + 1) =~= all.take(i as int).push(all[i as int]));
        }
        match build_draft_line(&lines[i]) {
            Some(line) => {
                let ghost before = texts_of(preview@);
                preview.push(line);
                assert(texts_of(preview@) =~= before.push(line@));
            },
            None => {},
        }
        i = i + 1;
    }
    proof {
        lemma_filter_map_prefix(all, pick, i as int);
        assert(all.take(all.len() as int) =~= all);
        let whole = all.filter_map(pick);
        let part = all.take(i as int).filter_map(pick);
        if i < lines.len() {
            assert(part.len() == MAX_DRAFT_LINES);
            assert(whole.take(MAX_DRAFT_LINES as int) =~= part);
        } else {
            assert(part == whole);
            if whole.len() == MAX_DRAFT_LINES {
                assert(whole.take(MAX_DRAFT_LINES as int) =~= whole);
            }
        }
    }
    if preview.is_empty() {
        proof {
            reveal_strlit("(empty draft)");
            assert("(empty draft)"@ =~= empty_draft());
        }
        preview.push(String::from_str("(empty draft)"));
        assert(texts_of(preview@) =~= seq![empty_draft()]);
    }
    preview
}

/// What the first entries of a sequence contribute stands at the start of
/// what the whole sequence contributes.
pub proof fn lemma_filter_map_prefix<A, B>(s: Seq<A>, f: spec_fn(A) -> Option<B>, upto: int)
    requires
        0 <= upto <= s.len(),
    ensures
        s.take(upto).filter_map(f).len() <= s.filter_map(f).len(),
        s.filter_map(f).take(s.take(upto).filter_map(f).len() as int) == s.take(upto).filter_map(f),
    decreases s.len() - upto,
{
    if upto == s.len() {
        assert(s.take(upto) =~= s);
        assert(s.filter_map(f).take(s.filter_map(f).len() as int) =~= s.filter_map(f));
    } else {
        lemma_filter_map_prefix(s, f, upto + 1);
        lemma_filter_map_push(s.take(upto), s[upto], f);
        assert(s.take(upto + 1) =~= s.take(upto).push(s[upto]));
        let short = s.take(upto).filter_map(f);
        let long = s.take(upto + 1).filter_map(f);
        assert(s.filter_map(f).take(short.len() as int) =~= s.filter_map(f).take(
            long.len() as int,
        ).take(short.len() as int));
        assert(long.take(short.len() as int) =~= short);
    }
}

/// The label of a note in a trash that nothing is purged from by age.
pub open spec fn manual_purge_label() -> Seq<char> {
    "Manual purge only"@
}

/// The label of a trashed note whose retention has run out.
pub open spec fn expired_label() -> Seq<char> {
    "Expired \u{e2}\u{20ac}\u{201d} purge soon"@
}

/// `count` and a unit.
pub open spec fn counted(count: int, unit: char) -> Seq<char> {
    decimal_of(count).push(unit)
}

/// The word behind a countdown.
pub open spec fn left_word() -> Seq<char> {
    seq![' ', 'l', 'e', 'f', 't']
}

/// The countdown for `remaining` seconds, which are more than none: whole
/// days from two days on; one day and the hours begun beyond it from one
/// day on; the hours begun from one hour on; else the minutes begun.
pub open spec fn countdown(remaining: int) -> Seq<char> {
    if remaining >= 2 * 86_400 {
        counted(remaining / 86_400, 'd') + left_word()
    } else if remaining >= 86_400 {
        let hours = (remaining % 86_400 + 3_599) / 3_600;
        if hours == 0 {
            counted(remaining / 86_400, 'd') + left_word()
        } else {
            counted(remaining / 86_400, 'd') + seq![' '] + counted(hours, 'h') + left_word()
        }
    } else if remaining >= 3_600 {
        counted((remaining + 3_599) / 3_600, 'h') + left_word()
    } else {
        counted((remaining + 59) / 60, 'm') + left_word()
    }
}

/// The status of a note that was trashed at `deleted_at`, when notes are
/// retained for `retention_days` days and it is `now`, both instants in
/// seconds since the Unix epoch.
pub open spec fn trash_status_of(deleted_at: Option<i64>, retention_days: u32, now: i64) -> Option<
    TrashView,
> {
    match deleted_at {
        None => None,
        Some(at) => {
            let remaining = at + retention_days * 86_400 - now;
            if retention_days == 0 {
                Some(TrashView { label: manual_purge_label(), expired: false, indefinite: true })
            } else if remaining <= 0 {
                Some(TrashView { label: expired_label(), expired: true, indefinite: false })
            } else {
                Some(TrashView { label: countdown(remaining), expired: false, indefinite: false })
            }
        },
    }
}

fn push_counted(out: &mut Vec<char>, count: i128, unit: char)
    requires
        0 <= count <= i64::MAX,
    ensures
        final(out)@ == old(out)@ + counted(count as int, unit),
{
    push_decimal(out, count as i64);
    out.push(unit);
    assert(final(out)@ =~= old(out)@ + counted(count as int, unit));
}

fn build_countdown(remaining: i128) -> (label: String)
    requires
        0 < remaining <= i64::MAX,
    ensures
        label@ == countdown(remaining as int),
{
    let mut out: Vec<char> = Vec::new();
    if remaining >= 2 * 86_400 {
        push_counted(&mut out, remaining / 86_400, 'd');
    } else if remaining >= 86_400 {
        let hours = (remaining % 86_400 + 3_599) / 3_600;
        push_counted(&mut out, remaining / 86_400, 'd');
        if hours != 0 {
            out.push(' ');
            push_counted(&mut out, hours, 'h');
        }
    } else if remaining >= 3_600 {
        push_counted(&mut out, (remaining + 3_599) / 3_600, 'h');
    } else {
        push_counted(&mut out, (remaining + 59) / 60, 'm');
    }
    proof {
        reveal_strlit(" left");
        assert(" left"@ =~= left_word());
    }
    push_text(&mut out, " left");
    assert(out@ =~= countdown(remaining as int));
    string_of(&out)
}

/// Computes the status of a trashed note.
pub fn compute_trash_status(deleted_at: Option<i64>, retention_days: u32, now: i64) -> (status: Option<
    TrashStatus,
>)
    ensures
        trash_view(status) == trash_status_of(deleted_at, retention_days, now),
{
    let at = match deleted_at {
        Some(at) => at,
        None => {
            return None;
        },
    };
    if retention_days == 0 {
        return Some(
            TrashStatus {
                label: String::from_str("Manual purge only"),
                expired: false,
                indefinite: true,
            },
        );
    }
    let days: i128 = retention_days as i128;
    let remaining: i128 = at as i128 + days * 86_400 - now as i128;
    if remaining <= 0 {
        return Some(
            TrashStatus {
                label: String::from_str("Expired \u{e2}\u{20ac}\u{201d} purge soon"),
                expired: true,
                indefinite: false,
            },
        );
    }
    let label = if remaining <= 9223372036854775807 {
        build_countdown(remaining)
    } else {
        let mut out: Vec<char> = Vec::new();
        let whole: i128 = remaining / 86_400;
        push_counted(&mut out, whole, 'd');
        proof {
            reveal_strlit(" left");
            assert(" left"@ =~= left_word());
        }
        push_text(&mut out, " left");
        assert(out@ =~= countdown(remaining as int));
        string_of(&out)
    };
    Some(TrashStatus { label, expired: false, indefinite: false })
}

/// The preview of a record in a list that shows `preview_lines` lines: the
/// snippet of the search that found it, without the white space at its
/// ends, where it has one that is not blank; else the preview of its body.
pub open spec fn record_preview(record: NoteView, preview_lines: int) -> Seq<char> {
    if preview_lines <= 0 {
        seq![]
    } else {
        match record.snippet {
            Some(snippet) if trim_of(snippet).len() > 0 => trim_of(snippet),
            _ => preview_of(record.body, preview_lines),
        }
    }
}

/// The summary of a record.
pub open spec fn summary_of(record: NoteView, preview_lines: int, retention_days: u32, now: i64) -> SummaryView {
    SummaryView {
        id: record.id,
        title: record.title,
        updated_at: timestamp_text(record.updated_at),
        preview: record_preview(record, preview_lines),
        body: record.body,
        pinned: record.pinned,
        archived: record.archived,
        tags: record.tags,
        deleted_at: record.deleted_at,
        deleted_label: match record.deleted_at {
            Some(at) => Some(timestamp_text(at)),
            None => None,
        },
        trash_status: trash_status_of(record.deleted_at, retention_days, now),
    }
}

/// Summarises a record for the list.
pub fn summarize_record(record: NoteRecord, preview_lines: usize, retention_days: u32, now: i64) -> (summary:
    NoteSummary)
    ensures
        summary@ == summary_of(record@, preview_lines as int, retention_days, now),
{
    let NoteRecord { id, title, body, snippet, created_at, updated_at, pinned, archived, tags, deleted_at } =
        record;
    let preview = if preview_lines == 0 {
        String::new()
    } else {
        match snippet {
            Some(snippet) => {
                let trimmed = chars_trim(&chars_of(snippet.as_str()));
                if trimmed.len() == 0 {
                    build_preview(body.as_str(), preview_lines)
                } else {
                    string_of(&trimmed)
                }
            },
            None => build_preview(body.as_str(), preview_lines),
        }
    };
    NoteSummary {
        id,
        title,
        updated_at: format_timestamp(updated_at),
        preview,
        body,
        pinned,
        archived,
        tags,
        deleted_at,
        deleted_label: match deleted_at {
            Some(at) => Some(format_timestamp(at)),
            None => None,
        },
        trash_status: compute_trash_status(deleted_at, retention_days, now),
    }
}

/// The chip of a date range under the name `label`: the name, a colon, and
/// the dates of its two ends with `..` between them, either of which may be
/// missing; none for a range without ends.
pub open spec fn range_chip_of(label: Seq<char>, range: RangeFilter) -> Option<Seq<char>> {
    match (range.from, range.to) {
        (Some(from), Some(to)) => Some(
            label.push(':') + epoch_date_text(from) + seq!['.', '.'] + epoch_date_text(to),
        ),
        (Some(from), None) => Some(label.push(':') + epoch_date_text(from) + seq!['.', '.']),
        (None, Some(to)) => Some(label.push(':') + seq!['.', '.'] + epoch_date_text(to)),
        (None, None) => None,
    }
}

/// Builds the chip of a date range.
pub fn format_range_chip(label: &str, range: &RangeFilter) -> (chip: Option<String>)
    ensures
        text_view(chip) == range_chip_of(label@, *range),
{
    if !range.has_range() {
        return None;
    }
    let mut out = chars_of(label);
    out.push(':');
    match range.from {
        Some(from) => {
            push_text(&mut out, format_epoch_date(from).as_str());
        },
        None => {},
    }
    out.push('.');
    out.push('.');
    match range.to {
        Some(to) => {
            push_text(&mut out, format_epoch_date(to).as_str());
        },
        None => {},
    }
    proof {
        let want = range_chip_of(label@, *range);
        assert(out@ =~= want->0);
    }
    Some(string_of(&out))
}

/// The chip of a tag.
pub open spec fn tag_chip_of(tag: Seq<char>) -> Seq<char> {
    seq!['t', 'a', 'g', ':'] + tag
}

/// The chips of a query: one for each tag, then the chip of the creation
/// range and the chip of the modification range, where they are bounded.
pub open spec fn filter_chips_of(query: QueryView) -> Seq<Seq<char>> {
    query.tags.map_values(|tag: Seq<char>| tag_chip_of(tag)) + match range_chip_of(
        "created"@,
        query.created,
    ) {
        Some(chip) => seq![chip],
        None => seq![],
    } + match range_chip_of("updated"@, query.updated) {
        Some(chip) => seq![chip],
        None => seq![],
    }
}

/// Builds the chips that show the filters of a query.
pub fn build_filter_chips(query: &SearchQuery) -> (chips: Vec<String>)
    ensures
        texts_of(chips@) == filter_chips_of(query@),
{
    let ghost tags = texts_of(query.tags@);
    let ghost chip = |tag: Seq<char>| tag_chip_of(tag);
    let mut chips: Vec<String> = Vec::new();
    let mut i: usize = 0;
    assert(texts_of(chips@) =~= tags.take(0).map_values(chip));
    while i < query.tags.len()
        invariant
            i <= query.tags.len(),
            tags == texts_of(query.tags@),
            chip == (|tag: Seq<char>| tag_chip_of(tag)),
            texts_of(chips@) == tags.take(i as int).map_values(chip),
        decreases query.tags.len() - i,
    {
        let mut out: Vec<char> = vec!['t', 'a', 'g', ':'];
        push_text(&mut out, query.tags[i].as_str());
        let text = string_of(&out);
        assert(text@ =~= tag_chip_of(tags[i as int]));
        let ghost before = texts_of(chips@);
        chips.push(text);
        assert(texts_of(chips@) =~= before.push(text@));
        assert(tags.take(i + 1).map_values(chip) =~= tags.take(i as int).map_values(chip).push(
            chip(tags[i as int]),
        ));
        i = i + 1;
    }
    assert(tags.take(tags.len() as int) =~= tags);
    let ghost first = texts_of(chips@);
    if let Some(created) = format_range_chip("created", &query.created) {
        chips.push(created);
    }
    let ghost second = texts_of(chips@);
    assert(second =~= first + match range_chip_of("created"@, query.created) {
        Some(chip) => seq![chip],
        None => seq![],
    });
    if let Some(updated) = format_range_chip("updated", &query.updated) {
        chips.push(updated);
    }
    assert(texts_of(chips@) =~= second + match range_chip_of("updated"@, query.updated) {
        Some(chip) => seq![chip],
        None => seq![],
    });
    chips
}

} // verus!
