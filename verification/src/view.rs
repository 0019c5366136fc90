//! What the screen shows of the state, as far as it can be said without a
//! screen: the segments of the body and of the tags, the place of the
//! cursor of the editor, and the spans of the status line.

use crate::editor::EditorState;
use crate::highlight::{
    highlight_line, highlighted, segment_views, source_of, Pattern, Segment, SegmentView,
};
use crate::autosave::{AutoSaveStatus, StatusView};
use crate::stamp::{format_time_short, time_short_text};
use crate::state::{AppState, FocusPane};
use crate::strings::{decimal_of, lines_of, push_count, push_text, split_lines, texts_of};
use crate::summary::{trash_view, TrashView};
use crate::summary::NoteSummary;
use crate::text::{
    chars_of, cluster_at, grapheme_clusters, grapheme_spans, slice, string_of, substring, tiles,
};
use unicode_width::UnicodeWidthStr;
use vstd::prelude::*;
use vstd::string::*;

verus! {

broadcast use vstd::utf8::group_utf8_lib;

/// A rectangle of the screen, in cells.
#[derive(Debug, Clone, Copy, PartialEq, Eq, Structural)]
pub struct Area {
    pub x: u16,
    pub y: u16,
    pub width: u16,
    pub height: u16,
}

impl Area {
    /// The rectangle lies inside the coordinates of the screen.
    pub open spec fn fits(self) -> bool {
        self.x + self.width <= u16::MAX && self.y + self.height <= u16::MAX
    }

    /// Whether the rectangle lies inside the coordinates of the screen.
    pub fn is_on_screen(&self) -> (ok: bool)
        ensures
            ok == self.fits(),
    {
        self.width <= u16::MAX - self.x && self.height <= u16::MAX - self.y
    }
}

/// The number of lines above the body in the reader: the title, the dates
/// and an empty line, and the tags where the note has any.
pub fn preview_body_offset(note: &NoteSummary) -> (offset: u16)
    ensures
        offset == if note.tags@.len() > 0 {
            4u16
        } else {
            3u16
        },
{
    let mut offset: u16 = 3;
    if !note.tags.is_empty() {
        offset += 1;
    }
    offset
}

/// The number of columns that `cluster` takes on the screen.
pub uninterp spec fn display_width(cluster: Seq<char>) -> usize;

/// Calls `UnicodeWidthStr::width`. Trusted: the result is the width named
/// [`display_width`].
#[verifier::external_body]
pub(crate) fn width_of(cluster: &str) -> (width: usize)
    ensures
        width == display_width(cluster@),
{
    UnicodeWidthStr::width(cluster)
}

/// A place on the screen: a row, and a column that is counted no further
/// than the largest `usize`.
pub struct Place {
    pub row: int,
    pub col: int,
}

/// The text of one line feed.
pub open spec fn line_feed() -> Seq<char> {
    seq!['\n']
}

/// The place after `cluster` has been written at `place`: a line feed
/// goes to the start of the next row; with wrapping, a cluster that does
/// not fit in the `limit` columns goes to the next row first.
pub open spec fn advanced(place: Place, cluster: Seq<char>, wrap: bool, limit: int) -> Place {
    let width = display_width(cluster) as int;
    if cluster == line_feed() {
        Place { row: place.row + 1, col: 0 }
    } else if wrap && width > 0 && place.col + width > limit {
        Place { row: place.row + 1, col: capped(width) }
    } else {
        Place { row: place.row, col: capped(place.col + width) }
    }
}

/// `col`, counted no further than the largest `usize`.
pub open spec fn capped(col: int) -> int {
    if col > usize::MAX {
        usize::MAX as int
    } else {
        col
    }
}

/// The clusters of `text`, as texts.
pub open spec fn cluster_texts(text: Seq<char>) -> Seq<Seq<char>> {
    grapheme_clusters(text).map_values(
        |span: (usize, usize)| slice(text, span.0 as int, span.0 + span.1),
    )
}

/// The place after the clusters have been written from the start of the
/// row `row`.
pub open spec fn placed(clusters: Seq<Seq<char>>, row: int, wrap: bool, limit: int) -> Place
    decreases clusters.len(),
{
    if clusters.len() == 0 {
        Place { row, col: 0 }
    } else {
        advanced(placed(clusters.drop_last(), row, wrap, limit), clusters.last(), wrap, limit)
    }
}

/// Where the cursor of the editor stands on the screen when the reader
/// fills `area`, border included: none where the border leaves no room;
/// else the place of the text before the cursor, held inside the room.
pub open spec fn cursor_cell(
    text: Seq<char>,
    cursor: int,
    offset: int,
    area: Area,
    wrap: bool,
) -> Option<(u16, u16)> {
    let inner_width = area.width - 2;
    let inner_height = area.height - 2;
    let place = placed(cluster_texts(slice(text, 0, cursor)), offset, wrap, inner_width);
    let row = if place.row > inner_height {
        inner_height
    } else {
        place.row
    };
    let col = if place.col > inner_width - 1 {
        inner_width - 1
    } else {
        place.col
    };
    if inner_width <= 0 || inner_height <= 0 {
        None
    } else {
        Some(((area.x + 1 + col) as u16, (area.y + 1 + row) as u16))
    }
}

/// `row`, counted no further than the largest `u16`.
pub open spec fn capped_row(row: int) -> int {
    if row > u16::MAX {
        u16::MAX as int
    } else {
        row
    }
}

fn advance(
    row: u16,
    col: usize,
    cluster: &str,
    wrap: bool,
    limit: usize,
    Ghost(place): Ghost<Place>,
) -> (next: (u16, usize))
    requires
        row == capped_row(place.row),
        col == place.col,
        place.row >= 0,
    ensures
        next.0 == capped_row(advanced(place, cluster@, wrap, limit as int).row),
        next.1 == advanced(place, cluster@, wrap, limit as int).col,
        advanced(place, cluster@, wrap, limit as int).row >= place.row,
{
    let chars = chars_of(cluster);
    let feed = chars.len() == 1 && chars[0] == '\n';
    assert(feed == (cluster@ == line_feed())) by {
        if feed {
            assert(cluster@ =~= line_feed());
        }
    }
    let lower: u16 = if row < u16::MAX {
        row + 1
    } else {
        row
    };
    if feed {
        return (lower, 0);
    }
    let glyph_width = width_of(cluster);
    if wrap && glyph_width > 0 && (col > limit || glyph_width > limit - col) {
        (lower, glyph_width)
    } else if glyph_width > usize::MAX - col {
        (row, usize::MAX)
    } else {
        (row, col + glyph_width)
    }
}

/// Finds the cell of the screen in which the cursor of the editor stands.
pub fn editor_cursor_screen_position(
    editor: &EditorState,
    note: &NoteSummary,
    area: Area,
    wrap_enabled: bool,
) -> (cell: Option<(u16, u16)>)
    requires
        editor@.wf(),
        area.fits(),
    ensures
        cell == cursor_cell(
            editor@.text,
            editor@.cursor,
            if note.tags@.len() > 0 {
                4
            } else {
                3
            },
            area,
            wrap_enabled,
        ),
{
    let inner_width: u16 = if area.width >= 2 {
        area.width - 2
    } else {
        0
    };
    let inner_height: u16 = if area.height >= 2 {
        area.height - 2
    } else {
        0
    };
    if inner_width == 0 || inner_height == 0 {
        return None;
    }
    let mut row: u16 = preview_body_offset(note);
    let mut col: usize = 0;
    let width_limit: usize = inner_width as usize;
    let buffer = editor.buffer();
    let cursor = editor.cursor();
    proof {
        vstd::utf8::is_char_boundary_start_end_of_seq(crate::text::bytes_of(buffer@));
    }
    let before = substring(buffer, 0, cursor);
    let spans = grapheme_spans(before);
    let ghost clusters = cluster_texts(before@);
    let ghost offset: int = if note.tags@.len() > 0 {
        4
    } else {
        3
    };
    let ghost limit = inner_width as int;
    let mut i: usize = 0;
    assert(clusters.take(0) =~= Seq::empty());
    while i < spans.len()
        invariant
            i <= spans.len(),
            spans@ == grapheme_clusters(before@),
            tiles(spans@, before@),
            clusters == cluster_texts(before@),
            width_limit == limit,
            row == capped_row(placed(clusters.take(i as int), offset, wrap_enabled, limit).row),
            col == placed(clusters.take(i as int), offset, wrap_enabled, limit).col,
            offset <= placed(clusters.take(i as int), offset, wrap_enabled, limit).row,
        decreases spans.len() - i,
    {
        let cluster = cluster_at(before, &spans, i);
        proof {
            assert(clusters.take(i + 1).drop_last() =~= clusters.take(i as int));
            assert(clusters.take(i + 1).last() == cluster@);
        }
        let next = advance(
            row,
            col,
            cluster,
            wrap_enabled,
            width_limit,
            Ghost(placed(clusters.take(i as int), offset, wrap_enabled, limit)),
        );
        row = next.0;
        col = next.1;
        i = i + 1;
    }
    assert(clusters.take(spans@.len() as int) =~= clusters);
    let row = if row > inner_height {
        inner_height
    } else {
        row
    };
    let col: u16 = if col > width_limit - 1 {
        (width_limit - 1) as u16
    } else {
        col as u16
    };
    let cursor_x = area.x + 1 + col;
    let cursor_y = area.y + 1 + row;
    Some((cursor_x, cursor_y))
}

/// The lines of a body, each cut into segments with the matches of the
/// pattern emphasised; one empty line for an empty body.
pub open spec fn body_segments(body: Seq<char>, source: Option<Seq<char>>) -> Seq<Seq<SegmentView>> {
    if body.len() == 0 {
        seq![seq![SegmentView { text: seq![], highlighted: false }]]
    } else {
        lines_of(body).map_values(|line: Seq<char>| highlighted(line, source))
    }
}

/// The segments of the lines of a list, as mathematical values.
pub open spec fn line_views(lines: Seq<Vec<Segment>>) -> Seq<Seq<SegmentView>> {
    lines.map_values(|line: Vec<Segment>| segment_views(line@))
}

/// Cuts the lines of a body into segments.
pub fn highlight_body(body: &str, pattern: Option<&Pattern>) -> (lines: Vec<Vec<Segment>>)
    ensures
        line_views(lines@) == body_segments(body@, source_of(pattern)),
{
    let mut lines: Vec<Vec<Segment>> = Vec::new();
    if body.is_empty() {
        let mut line: Vec<Segment> = Vec::new();
        line.push(Segment { text: String::new(), highlighted: false });
        assert(segment_views(line@) =~= seq![SegmentView { text: seq![], highlighted: false }]);
        lines.push(line);
        assert(line_views(lines@) =~= seq![seq![SegmentView { text: seq![], highlighted: false }]]);
        return lines;
    }
    let texts = split_lines(&chars_of(body));
    let ghost all = texts_of(texts@);
    let ghost source = source_of(pattern);
    let ghost mark = |line: Seq<char>| highlighted(line, source);
    let mut i: usize = 0;
    assert(line_views(lines@) =~= all.take(0).map_values(mark));
    while i < texts.len()
        invariant
            i <= texts.len(),
            all == texts_of(texts@),
            source == source_of(pattern),
            mark == (|line: Seq<char>| highlighted(line, source)),
            line_views(lines@) == all.take(i as int).map_values(mark),
        decreases texts.len() - i,
    {
        let line = highlight_line(texts[i].as_str(), pattern);
        let ghost before = line_views(lines@);
        lines.push(line);
        assert(line_views(lines@) =~= before.push(segment_views(line@)));
        assert(all.take(i + 1).map_values(mark) =~= all.take(i as int).map_values(mark).push(
            mark(all[i as int]),
        ));
        i = i + 1;
    }
    assert(all.take(all.len() as int) =~= all);
    lines
}

/// The segments of the line of tags from the tag at `from` on: each tag
/// behind a `#`, cut into segments, and a space between two tags.
pub open spec fn tag_segments(tags: Seq<Seq<char>>, source: Option<Seq<char>>, upto: int) -> Seq<
    SegmentView,
>
    decreases upto,
{
    if upto <= 0 {
        seq![]
    } else {
        tag_segments(tags, source, upto - 1) + highlighted(seq!['#'] + tags[upto - 1], source) + (
        if upto < tags.len() {
            seq![SegmentView { text: seq![' '], highlighted: false }]
        } else {
            seq![]
        })
    }
}

/// Cuts the line of tags into segments; none for a note without tags.
pub fn render_tag_line(tags: &Vec<String>, pattern: Option<&Pattern>) -> (line: Option<Vec<Segment>>)
    ensures
        match line {
            Some(line) => tags@.len() > 0 && segment_views(line@) == tag_segments(
                texts_of(tags@),
                source_of(pattern),
                tags@.len() as int,
            ),
            None => tags@.len() == 0,
        },
{
    if tags.is_empty() {
        return None;
    }
    let ghost all = texts_of(tags@);
    let ghost source = source_of(pattern);
    let mut line: Vec<Segment> = Vec::new();
    let mut i: usize = 0;
    assert(segment_views(line@) =~= tag_segments(all, source, 0));
    while i < tags.len()
        invariant
            i <= tags.len(),
            all == texts_of(tags@),
            source == source_of(pattern),
            segment_views(line@) == tag_segments(all, source, i as int),
        decreases tags.len() - i,
    {
        let mut token: Vec<char> = vec!['#'];
        let mut name = chars_of(tags[i].as_str());
        token.append(&mut name);
        assert(token@ =~= seq!['#'] + all[i as int]);
        let mut segments = highlight_line(string_of(&token).as_str(), pattern);
        let ghost before = segment_views(line@);
        let ghost added = segment_views(segments@);
        line.append(&mut segments);
        assert(segment_views(line@) =~= before + added);
        if i + 1 < tags.len() {
            proof {
                reveal_strlit(" ");
                assert(" "@ =~= seq![' ']);
            }
            line.push(Segment { text: String::from_str(" "), highlighted: false });
            assert(segment_views(line@) =~= before + added + seq![
                SegmentView { text: seq![' '], highlighted: false },
            ]);
        } else {
            assert(segment_views(line@) =~= before + added + Seq::<SegmentView>::empty());
        }
        i = i + 1;
    }
    Some(line)
}


/// The colours of the status line.
#[derive(Debug, Clone, Copy, PartialEq, Eq, Structural)]
pub enum Colour {
    Default,
    Red,
    Green,
    Yellow,
    Magenta,
    Cyan,
    Gray,
    DarkGray,
}

/// How a span of the status line is drawn.
#[derive(Debug, Clone, Copy, PartialEq, Eq, Structural)]
pub struct Tone {
    pub colour: Colour,
    pub bold: bool,
    pub italic: bool,
}

/// A span of the status line.
#[derive(Debug, Clone, PartialEq, Eq)]
pub struct StatusSpan {
    pub text: String,
    pub tone: Tone,
}

pub struct SpanView {
    pub text: Seq<char>,
    pub tone: Tone,
}

impl View for StatusSpan {
    type V = SpanView;

    open spec fn view(&self) -> SpanView {
        SpanView { text: self.text@, tone: self.tone }
    }
}

/// The spans of a list, as mathematical values.
pub open spec fn span_views(spans: Seq<StatusSpan>) -> Seq<SpanView> {
    spans.map_values(|span: StatusSpan| span@)
}

/// The lines of a list, as mathematical values.
pub open spec fn status_views(lines: Seq<Vec<StatusSpan>>) -> Seq<Seq<SpanView>> {
    lines.map_values(|line: Vec<StatusSpan>| span_views(line@))
}

/// A tone of the colour `colour`, upright and of normal weight.
pub open spec fn plain(colour: Colour) -> Tone {
    Tone { colour, bold: false, italic: false }
}

/// A bold tone of the colour `colour`.
pub open spec fn strong(colour: Colour) -> Tone {
    Tone { colour, bold: true, italic: false }
}

/// An italic tone of the colour `colour`.
pub open spec fn slanted(colour: Colour) -> Tone {
    Tone { colour, bold: false, italic: true }
}

/// A span of the text `text` in the tone `tone`.
pub open spec fn spanned(text: Seq<char>, tone: Tone) -> SpanView {
    SpanView { text, tone }
}

/// A span without a tone of its own.
pub open spec fn raw(text: Seq<char>) -> SpanView {
    SpanView { text, tone: plain(Colour::Default) }
}

fn span(text: &str, tone: Tone) -> (made: StatusSpan)
    ensures
        made@ == spanned(text@, tone),
{
    StatusSpan { text: String::from_str(text), tone }
}

fn raw_span(text: &str) -> (made: StatusSpan)
    ensures
        made@ == raw(text@),
{
    StatusSpan { text: String::from_str(text), tone: Tone { colour: Colour::Default, bold: false, italic: false } }
}

fn tone(colour: Colour, bold: bool, italic: bool) -> (made: Tone)
    ensures
        made == (Tone { colour, bold, italic }),
{
    Tone { colour, bold, italic }
}

/// The place of the selection in the list, as the status line shows it.
pub open spec fn position_text(selected: usize, total: nat) -> Seq<char> {
    if total == 0 {
        "0/0"@
    } else {
        decimal_of(selected + 1) + seq!['/'] + decimal_of(total as int)
    }
}

/// The start of the status line: how many notes there are, which one is
/// selected, and which pane takes the keys.
pub open spec fn head_spans(state: AppState) -> Seq<SpanView> {
    seq![
        raw("Total: "@ + decimal_of(state.notes@.len() as int) + seq![' ']),
        raw(" | Selected: "@),
        spanned(position_text(state.selected, state.notes@.len()), strong(Colour::Default)),
        raw(" | Focus: "@),
        spanned(
            match state.focus {
                FocusPane::List => "List"@,
                FocusPane::Reader => "Reader"@,
            },
            strong(Colour::Default),
        ),
    ]
}

fn build_head(state: &AppState) -> (spans: Vec<StatusSpan>)
    ensures
        span_views(spans@) == head_spans(*state),
{
    let total = state.notes.len();
    let mut first: Vec<char> = Vec::new();
    push_text(&mut first, "Total: ");
    push_count(&mut first, total as u128);
    first.push(' ');
    assert(first@ =~= "Total: "@ + decimal_of(total as int) + seq![' ']);
    let position = if total == 0 {
        String::from_str("0/0")
    } else {
        let mut out: Vec<char> = Vec::new();
        push_count(&mut out, state.selected as u128 + 1);
        out.push('/');
        push_count(&mut out, total as u128);
        assert(out@ =~= decimal_of(state.selected + 1) + seq!['/'] + decimal_of(total as int));
        string_of(&out)
    };
    let focus = match state.focus {
        FocusPane::List => "List",
        FocusPane::Reader => "Reader",
    };
    let mut spans: Vec<StatusSpan> = Vec::new();
    spans.push(raw_span(string_of(&first).as_str()));
    spans.push(raw_span(" | Selected: "));
    spans.push(span(position.as_str(), tone(Colour::Default, true, false)));
    spans.push(raw_span(" | Focus: "));
    spans.push(span(focus, tone(Colour::Default, true, false)));
    assert(span_views(spans@) =~= head_spans(*state));
    spans
}

/// The tone of the label of a trashed note.
pub open spec fn purge_tone(status: TrashView) -> Tone {
    if status.expired {
        Tone { colour: Colour::Red, bold: true, italic: true }
    } else if status.indefinite {
        slanted(Colour::Cyan)
    } else {
        slanted(Colour::Yellow)
    }
}

/// The part of the status line about the trash: nothing outside the
/// trash; else that the trash is shown, and how long the selected note has
/// left.
pub open spec fn trash_spans(state: AppState) -> Seq<SpanView> {
    if !state.show_trash {
        seq![]
    } else if state.selected >= state.notes@.len() {
        seq![raw(" | View: "@), spanned("Trash"@, Tone { colour: Colour::Red, bold: true, italic: true })]
    } else {
        seq![
            raw(" | View: "@),
            spanned("Trash"@, Tone { colour: Colour::Red, bold: true, italic: true }),
            raw(" | Purge: "@),
            match trash_view(state.notes@[state.selected as int].trash_status) {
                Some(status) => spanned(status.label, purge_tone(status)),
                None => spanned("n/a"@, plain(Colour::Gray)),
            },
        ]
    }
}

fn build_trash(state: &AppState) -> (spans: Vec<StatusSpan>)
    ensures
        span_views(spans@) == trash_spans(*state),
{
    let mut spans: Vec<StatusSpan> = Vec::new();
    if !state.show_trash {
        assert(span_views(spans@) =~= trash_spans(*state));
        return spans;
    }
    spans.push(raw_span(" | View: "));
    spans.push(span("Trash", tone(Colour::Red, true, true)));
    if state.selected < state.notes.len() {
        spans.push(raw_span(" | Purge: "));
        match &state.notes[state.selected].trash_status {
            Some(status) => {
                let label_tone = if status.expired {
                    tone(Colour::Red, true, true)
                } else if status.indefinite {
                    tone(Colour::Cyan, false, true)
                } else {
                    tone(Colour::Yellow, false, true)
                };
                spans.push(span(status.label.as_str(), label_tone));
            },
            None => {
                spans.push(span("n/a", tone(Colour::Gray, false, false)));
            },
        }
    }
    assert(span_views(spans@) =~= trash_spans(*state));
    spans
}

/// Whether the status line shows the search: its line is open, or it
/// holds terms, tags or chips, or patterns are switched on.
pub open spec fn search_shown(state: AppState) -> bool {
    state.search.active || state.search.terms@.len() > 0 || state.search.tags@.len() > 0
        || state.search.filter_chips@.len() > 0 || state.search.regex_enabled
}

/// The chips of the search, each in brackets behind a space.
pub open spec fn chip_spans(chips: Seq<Seq<char>>, upto: int) -> Seq<SpanView>
    decreases upto,
{
    if upto <= 0 {
        seq![]
    } else {
        chip_spans(chips, upto - 1) + seq![
            raw(seq![' ']),
            spanned(seq!['['] + chips[upto - 1] + seq![']'], plain(Colour::Green)),
        ]
    }
}

/// The start of the part about the search: the label, the line or a hint,
/// the caret while the line is open, and the mark of patterns.
pub open spec fn search_lead(state: AppState) -> Seq<SpanView> {
    seq![
        raw(" | Search "@),
        spanned(
            seq!['/'],
            if state.search.active {
                strong(Colour::Cyan)
            } else {
                plain(Colour::Gray)
            },
        ),
        if state.search.terms@.len() == 0 && state.search.tags@.len() == 0
            && state.search.query@.len() == 0 {
            spanned("(type to search)"@, plain(Colour::DarkGray))
        } else {
            spanned(state.search.query@, strong(Colour::Default))
        },
    ] + (if state.search.active {
        seq![spanned(" \u{258c}"@, plain(Colour::Cyan))]
    } else {
        seq![]
    }) + (if state.search.regex_enabled {
        seq![raw(seq![' ']), spanned("[regex]"@, strong(Colour::Magenta))]
    } else {
        seq![]
    })
}

/// The part of the status line about the search.
pub open spec fn search_spans(state: AppState) -> Seq<SpanView> {
    if !search_shown(state) {
        seq![]
    } else {
        search_lead(state) + chip_spans(
            texts_of(state.search.filter_chips@),
            state.search.filter_chips@.len() as int,
        ) + (match state.search.last_error {
            Some(error) => seq![
                raw(seq![' ']),
                spanned(seq!['!', ' '] + error@, plain(Colour::Red)),
            ],
            None => seq![],
        })
    }
}

fn build_search_lead(state: &AppState) -> (spans: Vec<StatusSpan>)
    ensures
        span_views(spans@) == search_lead(*state),
{
    proof {
        reveal_strlit("/");
        assert("/"@ =~= seq!['/']);
        reveal_strlit(" ");
        assert(" "@ =~= seq![' ']);
    }
    let mut spans: Vec<StatusSpan> = Vec::new();
    let label_tone = if state.search.active {
        tone(Colour::Cyan, true, false)
    } else {
        tone(Colour::Gray, false, false)
    };
    spans.push(raw_span(" | Search "));
    spans.push(span("/", label_tone));
    if state.search.terms.is_empty() && state.search.tags.is_empty()
        && state.search.query.as_str().is_empty() {
        spans.push(span("(type to search)", tone(Colour::DarkGray, false, false)));
    } else {
        spans.push(span(state.search.query.as_str(), tone(Colour::Default, true, false)));
    }
    if state.search.active {
        spans.push(span(" \u{258c}", tone(Colour::Cyan, false, false)));
    }
    if state.search.regex_enabled {
        spans.push(raw_span(" "));
        spans.push(span("[regex]", tone(Colour::Magenta, true, false)));
    }
    assert(span_views(spans@) =~= search_lead(*state));
    spans
}

fn build_search(state: &AppState) -> (spans: Vec<StatusSpan>)
    ensures
        span_views(spans@) == search_spans(*state),
{
    let mut spans: Vec<StatusSpan> = Vec::new();
    let shown = state.search.active || !state.search.terms.is_empty()
        || !state.search.tags.is_empty() || !state.search.filter_chips.is_empty()
        || state.search.regex_enabled;
    if !shown {
        assert(span_views(spans@) =~= search_spans(*state));
        return spans;
    }
    proof {
        reveal_strlit(" ");
        assert(" "@ =~= seq![' ']);
    }
    let mut lead = build_search_lead(state);
    spans.append(&mut lead);
    assert(span_views(spans@) =~= search_lead(*state));
    let ghost chips = texts_of(state.search.filter_chips@);
    let mut i: usize = 0;
    assert(span_views(spans@) =~= search_lead(*state) + chip_spans(chips, 0));
    while i < state.search.filter_chips.len()
        invariant
            i <= state.search.filter_chips.len(),
            chips == texts_of(state.search.filter_chips@),
            " "@ == seq![' '],
            span_views(spans@) == search_lead(*state) + chip_spans(chips, i as int),
        decreases state.search.filter_chips.len() - i,
    {
        let mut out: Vec<char> = vec!['['];
        push_text(&mut out, state.search.filter_chips[i].as_str());
        out.push(']');
        assert(out@ =~= seq!['['] + chips[i as int] + seq![']']);
        let ghost before = span_views(spans@);
        spans.push(raw_span(" "));
        spans.push(span(string_of(&out).as_str(), tone(Colour::Green, false, false)));
        assert(span_views(spans@) =~= before + seq![
            raw(seq![' ']),
            spanned(seq!['['] + chips[i as int] + seq![']'], plain(Colour::Green)),
        ]);
        assert(span_views(spans@) =~= search_lead(*state) + chip_spans(chips, i + 1));
        i = i + 1;
    }
    let ghost upto = span_views(spans@);
    match &state.search.last_error {
        Some(error) => {
            let mut out: Vec<char> = vec!['!', ' '];
            push_text(&mut out, error.as_str());
            assert(out@ =~= seq!['!', ' '] + error@);
            spans.push(raw_span(" "));
            spans.push(span(string_of(&out).as_str(), tone(Colour::Red, false, false)));
            assert(span_views(spans@) =~= upto + seq![
                raw(seq![' ']),
                spanned(seq!['!', ' '] + error@, plain(Colour::Red)),
            ]);
        },
        None => {
            assert(span_views(spans@) =~= upto + Seq::<SpanView>::empty());
        },
    }
    spans
}

/// The part of the status line about the autosave runtime.
pub open spec fn autosave_spans(status: StatusView) -> Seq<SpanView> {
    match status {
        StatusView::Disabled => seq![raw(" | Autosave: disabled"@)],
        StatusView::Inactive => seq![raw(" | Autosave: idle"@)],
        StatusView::Idle { note_id, last_saved_at } => match last_saved_at {
            Some(at) => seq![
                raw(" | Autosave: saved"@),
                raw(seq![' ']),
                spanned(time_short_text(at), plain(Colour::Gray)),
            ],
            None => seq![raw(" | Autosave: saved"@)],
        },
        StatusView::Pending { note_id, since } => seq![
            raw(" | Autosave: "@),
            spanned("pending"@, strong(Colour::Yellow)),
            raw(" since "@),
            spanned(time_short_text(since), plain(Colour::Gray)),
        ],
        StatusView::Error { note_id, message, occurred_at } => seq![
            raw(" | Autosave: "@),
            spanned("error ("@ + message + seq![')'], plain(Colour::Red)),
        ],
    }
}

fn build_autosave(status: &AutoSaveStatus) -> (spans: Vec<StatusSpan>)
    ensures
        span_views(spans@) == autosave_spans(status@),
{
    proof {
        reveal_strlit(" ");
        assert(" "@ =~= seq![' ']);
    }
    let mut spans: Vec<StatusSpan> = Vec::new();
    match status {
        AutoSaveStatus::Disabled => {
            spans.push(raw_span(" | Autosave: disabled"));
        },
        AutoSaveStatus::Inactive => {
            spans.push(raw_span(" | Autosave: idle"));
        },
        AutoSaveStatus::Idle { note_id, last_saved_at } => {
            spans.push(raw_span(" | Autosave: saved"));
            match last_saved_at {
                Some(at) => {
                    spans.push(raw_span(" "));
                    spans.push(
                        span(format_time_short(*at).as_str(), tone(Colour::Gray, false, false)),
                    );
                },
                None => {},
            }
        },
        AutoSaveStatus::Pending { note_id, since } => {
            spans.push(raw_span(" | Autosave: "));
            spans.push(span("pending", tone(Colour::Yellow, true, false)));
            spans.push(raw_span(" since "));
            spans.push(span(format_time_short(*since).as_str(), tone(Colour::Gray, false, false)));
        },
        AutoSaveStatus::Error { note_id, message, occurred_at } => {
            let mut out: Vec<char> = Vec::new();
            push_text(&mut out, "error (");
            push_text(&mut out, message.as_str());
            out.push(')');
            assert(out@ =~= "error ("@ + message@ + seq![')']);
            spans.push(raw_span(" | Autosave: "));
            spans.push(span(string_of(&out).as_str(), tone(Colour::Red, false, false)));
        },
    }
    assert(span_views(spans@) =~= autosave_spans(status@));
    spans
}

/// The end of the first line of the status: the mode while a note is
/// edited, whether lines wrap, the autosave runtime, and the message.
pub open spec fn tail_spans(state: AppState) -> Seq<SpanView> {
    (match state.editor {
        Some(editor) => seq![
            raw(" | Mode: "@),
            spanned(
                if editor@.dirty {
                    "EDIT*"@
                } else {
                    "EDIT"@
                },
                strong(Colour::Magenta),
            ),
        ],
        None => seq![],
    }) + seq![
        raw(" | Wrap: "@),
        spanned(
            if state.wrap_enabled {
                "on"@
            } else {
                "off"@
            },
            plain(Colour::Gray),
        ),
    ] + autosave_spans(state.autosave_status@) + (match state.status_message {
        Some(message) => seq![raw(" | "@), spanned(message@, plain(Colour::Cyan))],
        None => seq![],
    })
}

fn build_tail(state: &AppState) -> (spans: Vec<StatusSpan>)
    ensures
        span_views(spans@) == tail_spans(*state),
{
    let mut spans: Vec<StatusSpan> = Vec::new();
    match &state.editor {
        Some(editor) => {
            spans.push(raw_span(" | Mode: "));
            let label = if editor.is_dirty() {
                "EDIT*"
            } else {
                "EDIT"
            };
            spans.push(span(label, tone(Colour::Magenta, true, false)));
        },
        None => {},
    }
    spans.push(raw_span(" | Wrap: "));
    spans.push(
        span(
            if state.wrap_enabled {
                "on"
            } else {
                "off"
            },
            tone(Colour::Gray, false, false),
        ),
    );
    let ghost first = span_views(spans@);
    let mut saving = build_autosave(&state.autosave_status);
    spans.append(&mut saving);
    assert(span_views(spans@) =~= first + autosave_spans(state.autosave_status@));
    let ghost second = span_views(spans@);
    match &state.status_message {
        Some(message) => {
            spans.push(raw_span(" | "));
            spans.push(span(message.as_str(), tone(Colour::Cyan, false, false)));
            assert(span_views(spans@) =~= second + seq![
                raw(" | "@),
                spanned(message@, plain(Colour::Cyan)),
            ]);
        },
        None => {
            assert(span_views(spans@) =~= second + Seq::<SpanView>::empty());
        },
    }
    assert(span_views(spans@) =~= tail_spans(*state));
    spans
}

/// The three lines that name the keys.
pub open spec fn key_lines() -> Seq<Seq<SpanView>> {
    seq![
        seq![
            spanned("Keys: "@, strong(Colour::Gray)),
            spanned(
                "j/k move \u{2022} Tab focus \u{2022} / search \u{2022} Shift+R regex \u{2022} a add \u{2022} p pin \u{2022} A archive"@,
                plain(Colour::DarkGray),
            ),
        ],
        seq![
            spanned(
                "      e edit \u{2022} Ctrl-s save \u{2022} Ctrl-z undo \u{2022} Ctrl-y redo \u{2022} Ctrl-\u{2190}/\u{2192} word jump"@,
                plain(Colour::DarkGray),
            ),
        ],
        seq![
            spanned(
                "      Shift+W wrap \u{2022} d delete \u{2022} T trash view \u{2022} q quit"@,
                plain(Colour::DarkGray),
            ),
        ],
    ]
}

/// The lines of the status: the state in one line, and the keys in three.
pub open spec fn status_lines(state: AppState) -> Seq<Seq<SpanView>> {
    seq![head_spans(state) + trash_spans(state) + search_spans(state) + tail_spans(state)]
        + key_lines()
}

/// Builds the lines of the status.
pub fn build_status_line(state: &AppState) -> (lines: Vec<Vec<StatusSpan>>)
    ensures
        status_views(lines@) == status_lines(*state),
{
    let mut first = build_head(state);
    let mut trash = build_trash(state);
    let mut search = build_search(state);
    let mut tail = build_tail(state);
    first.append(&mut trash);
    first.append(&mut search);
    first.append(&mut tail);
    assert(span_views(first@) =~= head_spans(*state) + trash_spans(*state) + search_spans(*state)
        + tail_spans(*state));
    let mut keys1: Vec<StatusSpan> = Vec::new();
    keys1.push(span("Keys: ", tone(Colour::Gray, true, false)));
    keys1.push(
        span(
            "j/k move \u{2022} Tab focus \u{2022} / search \u{2022} Shift+R regex \u{2022} a add \u{2022} p pin \u{2022} A archive",
            tone(Colour::DarkGray, false, false),
        ),
    );
    let mut keys2: Vec<StatusSpan> = Vec::new();
    keys2.push(
        span(
            "      e edit \u{2022} Ctrl-s save \u{2022} Ctrl-z undo \u{2022} Ctrl-y redo \u{2022} Ctrl-\u{2190}/\u{2192} word jump",
            tone(Colour::DarkGray, false, false),
        ),
    );
    let mut keys3: Vec<StatusSpan> = Vec::new();
    keys3.push(
        span(
            "      Shift+W wrap \u{2022} d delete \u{2022} T trash view \u{2022} q quit",
            tone(Colour::DarkGray, false, false),
        ),
    );
    assert(span_views(keys1@) =~= key_lines()[0]);
    assert(span_views(keys2@) =~= key_lines()[1]);
    assert(span_views(keys3@) =~= key_lines()[2]);
    let mut lines: Vec<Vec<StatusSpan>> = Vec::new();
    lines.push(first);
    lines.push(keys1);
    lines.push(keys2);
    lines.push(keys3);
    assert(status_views(lines@) =~= status_lines(*state));
    lines
}

} // verus!
