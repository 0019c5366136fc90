//! The command line: its arguments, what is checked of them before the
//! store is asked, and what is printed afterwards.

use crate::journal::{lemma_filter_map_push};
use crate::notes::{note_views, text_view, NoteRecord, NoteView, TagDeleteOutcome, TagRenameOutcome};
use crate::search::{parse_query, parsed, pattern_of, regex_pattern_from_input, QueryView, SearchQuery};
use crate::stamp::{format_timestamp, timestamp_text};
use crate::strings::{
    chars_replace, chars_take, chars_trim, decimal_of, join, joined_of, lines_of, push_decimal,
    push_text, push_unsigned, replaced_of, split_lines, texts_of, trim, trim_of, words_of,
};
use crate::text::{byte_len, chars_of, is_boundary, string_of, substring};
use vstd::prelude::*;
use vstd::string::*;

verus! {

broadcast use vstd::utf8::group_utf8_lib;

/// The arguments of `new`.
#[derive(Debug, Clone)]
pub struct NewArgs {
    /// The title of the note; asked for where it is missing.
    pub title: Option<String>,
    /// The body of the note; read from the standard input where it is
    /// missing.
    pub body: Option<String>,
    /// Whether the note is pinned.
    pub pin: bool,
}

/// The arguments of `search`.
#[derive(Debug, Clone)]
pub struct SearchArgs {
    /// The words of the query.
    pub query: Vec<String>,
    /// Whether the words that are no filters are one regular expression.
    pub regex: bool,
    /// The most results to print.
    pub limit: usize,
}

/// The arguments of `tag add`.
#[derive(Debug, Clone)]
pub struct TagAddArgs {
    pub note_id: i64,
    pub tag: String,
}

/// The arguments of `tag remove`.
#[derive(Debug, Clone)]
pub struct TagRemoveArgs {
    pub note_id: i64,
    pub tag: String,
}

/// The arguments of `tag list`.
#[derive(Debug, Clone, Copy)]
pub struct TagListArgs {
    pub note_id: i64,
}

/// The arguments of `tag rename`.
#[derive(Debug, Clone)]
pub struct TagRenameArgs {
    pub from: String,
    pub to: String,
}

/// The arguments of `tag merge`.
#[derive(Debug, Clone)]
pub struct TagMergeArgs {
    pub from: String,
    pub into: String,
}

/// The arguments of `tag delete`.
#[derive(Debug, Clone)]
pub struct TagDeleteArgs {
    pub tag: String,
}

/// The commands under `tag`.
#[derive(Debug, Clone)]
pub enum TagCommand {
    Add(TagAddArgs),
    Remove(TagRemoveArgs),
    List(TagListArgs),
    Rename(TagRenameArgs),
    Merge(TagMergeArgs),
    Delete(TagDeleteArgs),
}

/// The arguments of `tag`.
#[derive(Debug, Clone)]
pub struct TagArgs {
    pub command: TagCommand,
}

/// The commands of the program.
#[derive(Debug, Clone)]
pub enum Commands {
    /// The interactive application, which is the default.
    Tui,
    New(NewArgs),
    Search(SearchArgs),
    Tag(TagArgs),
}

/// The command line as a whole.
#[derive(Debug, Clone)]
pub struct Cli {
    pub command: Option<Commands>,
    /// The configuration file to use in place of the discovered one.
    pub config: Option<String>,
    /// The data directory to use in place of the discovered one.
    pub data_dir: Option<String>,
    /// The least level of what is logged.
    pub log_level: String,
}

/// What is wrong with the arguments of a command.
#[derive(Debug, Clone, Copy, PartialEq, Eq, Structural)]
pub enum CliError {
    EmptyTitle,
    EmptyQuery,
    NoTermsOrFilters,
    EmptyTag,
    EmptySourceTag,
    EmptyDestinationTag,
    EmptyTargetTag,
    SameTags,
    SameMergeTags,
}

impl CliError {
    /// The message of the error.
    pub open spec fn text(self) -> Seq<char> {
        match self {
            CliError::EmptyTitle => "note title cannot be empty"@,
            CliError::EmptyQuery => "search query cannot be empty"@,
            CliError::NoTermsOrFilters => "search query must contain terms or filters"@,
            CliError::EmptyTag => "tag cannot be empty"@,
            CliError::EmptySourceTag => "source tag cannot be empty"@,
            CliError::EmptyDestinationTag => "destination tag cannot be empty"@,
            CliError::EmptyTargetTag => "target tag cannot be empty"@,
            CliError::SameTags => "source and destination tags are the same"@,
            CliError::SameMergeTags => "source and target tags must differ"@,
        }
    }

    /// The message of the error.
    pub fn message(&self) -> (text: String)
        ensures
            text@ == self.text(),
    {
        match self {
            CliError::EmptyTitle => String::from_str("note title cannot be empty"),
            CliError::EmptyQuery => String::from_str("search query cannot be empty"),
            CliError::NoTermsOrFilters => String::from_str(
                "search query must contain terms or filters",
            ),
            CliError::EmptyTag => String::from_str("tag cannot be empty"),
            CliError::EmptySourceTag => String::from_str("source tag cannot be empty"),
            CliError::EmptyDestinationTag => String::from_str("destination tag cannot be empty"),
            CliError::EmptyTargetTag => String::from_str("target tag cannot be empty"),
            CliError::SameTags => String::from_str("source and destination tags are the same"),
            CliError::SameMergeTags => String::from_str("source and target tags must differ"),
        }
    }
}

/// The longest tag, in bytes.
pub const MAX_TAG_BYTES: usize = 64;

/// The tag can be cut to [`MAX_TAG_BYTES`] bytes: it is no longer, or the
/// cut falls between two characters.
pub open spec fn clippable(tag: Seq<char>) -> bool {
    byte_len(tag) <= MAX_TAG_BYTES || is_boundary(tag, MAX_TAG_BYTES as int)
}

/// The tag cut to [`MAX_TAG_BYTES`] bytes.
pub open spec fn clipped_tag(tag: Seq<char>) -> Seq<char> {
    if byte_len(tag) > MAX_TAG_BYTES {
        crate::text::slice(tag, 0, MAX_TAG_BYTES as int)
    } else {
        tag
    }
}

/// Whether the tag, once trimmed, can be cut to [`MAX_TAG_BYTES`] bytes.
pub fn tag_fits(tag: &str) -> (fits: bool)
    ensures
        fits == clippable(trim_of(tag@)),
{
    let trimmed = trim(tag);
    let len = trimmed.as_str().as_bytes().len();
    len <= MAX_TAG_BYTES || trimmed.as_str().is_char_boundary(MAX_TAG_BYTES)
}

fn clip_tag(tag: String) -> (cut: String)
    requires
        clippable(tag@),
    ensures
        cut@ == clipped_tag(tag@),
{
    if tag.as_str().as_bytes().len() > MAX_TAG_BYTES {
        proof {
            vstd::utf8::is_char_boundary_start_end_of_seq(crate::text::bytes_of(tag@));
        }
        String::from_str(substring(tag.as_str(), 0, MAX_TAG_BYTES))
    } else {
        tag
    }
}

/// The lower-case form of an ASCII letter; any other character itself.
pub open spec fn ascii_lower(c: char) -> char {
    if 'A' <= c <= 'Z' {
        ((c as u8) + 32) as char
    } else {
        c
    }
}

/// The two texts are the same but for the case of their ASCII letters.
pub open spec fn same_ignoring_ascii_case(a: Seq<char>, b: Seq<char>) -> bool {
    a.len() == b.len() && forall|i: int|
        0 <= i < a.len() ==> ascii_lower(#[trigger] a[i]) == ascii_lower(b[i])
}

fn lower_ascii(c: char) -> (lower: char)
    ensures
        lower == ascii_lower(c),
{
    if 'A' <= c && c <= 'Z' {
        ((c as u8) + 32) as char
    } else {
        c
    }
}

/// Whether the two texts are the same but for the case of their ASCII
/// letters.
pub fn eq_ignore_ascii_case(a: &str, b: &str) -> (same: bool)
    ensures
        same == same_ignoring_ascii_case(a@, b@),
{
    let left = chars_of(a);
    let right = chars_of(b);
    if left.len() != right.len() {
        return false;
    }
    let mut i: usize = 0;
    while i < left.len()
        invariant
            i <= left.len(),
            left.len() == right.len(),
            left@ == a@,
            right@ == b@,
            forall|k: int| 0 <= k < i ==> ascii_lower(#[trigger] left@[k]) == ascii_lower(right@[k]),
        decreases left.len() - i,
    {
        if lower_ascii(left[i]) != lower_ascii(right[i]) {
            assert(ascii_lower(a@[i as int]) != ascii_lower(b@[i as int]));
            return false;
        }
        i = i + 1;
    }
    true
}

/// The tag of `tag add`, checked: trimmed and cut to length; an error where
/// nothing is left of it.
pub fn checked_tag(tag: &str) -> (checked: Result<String, CliError>)
    requires
        clippable(trim_of(tag@)),
    ensures
        match checked {
            Ok(kept) => trim_of(tag@).len() > 0 && kept@ == clipped_tag(trim_of(tag@)),
            Err(error) => trim_of(tag@).len() == 0 && error == CliError::EmptyTag,
        },
{
    let trimmed = trim(tag);
    if trimmed.as_str().is_empty() {
        return Err(CliError::EmptyTag);
    }
    Ok(clip_tag(trimmed))
}

/// The tag of `tag remove` and of `tag delete`, checked: trimmed; an error
/// where nothing is left of it.
pub fn checked_plain_tag(tag: &str) -> (checked: Result<String, CliError>)
    ensures
        match checked {
            Ok(kept) => trim_of(tag@).len() > 0 && kept@ == trim_of(tag@),
            Err(error) => trim_of(tag@).len() == 0 && error == CliError::EmptyTag,
        },
{
    let trimmed = trim(tag);
    if trimmed.as_str().is_empty() {
        return Err(CliError::EmptyTag);
    }
    Ok(trimmed)
}

/// The two tags of a rename or a merge, checked: both trimmed, the second
/// cut to length. The errors, in this order: the first is empty, the second
/// is empty, the two are the same but for the case of their ASCII letters.
pub open spec fn checked_pair_of(
    from: Seq<char>,
    to: Seq<char>,
    empty_first: CliError,
    empty_second: CliError,
    same: CliError,
) -> Result<(Seq<char>, Seq<char>), CliError> {
    if trim_of(from).len() == 0 {
        Err(empty_first)
    } else if trim_of(to).len() == 0 {
        Err(empty_second)
    } else if same_ignoring_ascii_case(trim_of(from), clipped_tag(trim_of(to))) {
        Err(same)
    } else {
        Ok((trim_of(from), clipped_tag(trim_of(to))))
    }
}

fn checked_pair(
    from: &str,
    to: &str,
    empty_first: CliError,
    empty_second: CliError,
    same: CliError,
) -> (checked: Result<(String, String), CliError>)
    requires
        clippable(trim_of(to@)),
    ensures
        match checked {
            Ok((first, second)) => checked_pair_of(from@, to@, empty_first, empty_second, same)
                == Ok::<(Seq<char>, Seq<char>), CliError>((first@, second@)),
            Err(error) => checked_pair_of(from@, to@, empty_first, empty_second, same) == Err::<
                (Seq<char>, Seq<char>),
                CliError,
            >(error),
        },
{
    let first = trim(from);
    if first.as_str().is_empty() {
        return Err(empty_first);
    }
    let second = trim(to);
    if second.as_str().is_empty() {
        return Err(empty_second);
    }
    let second = clip_tag(second);
    if eq_ignore_ascii_case(first.as_str(), second.as_str()) {
        return Err(same);
    }
    Ok((first, second))
}

/// The two tags of `tag rename`, checked.
pub fn checked_rename(args: &TagRenameArgs) -> (checked: Result<(String, String), CliError>)
    requires
        clippable(trim_of(args.to@)),
    ensures
        match checked {
            Ok((first, second)) => checked_pair_of(
                args.from@,
                args.to@,
                CliError::EmptySourceTag,
                CliError::EmptyDestinationTag,
                CliError::SameTags,
            ) == Ok::<(Seq<char>, Seq<char>), CliError>((first@, second@)),
            Err(error) => checked_pair_of(
                args.from@,
                args.to@,
                CliError::EmptySourceTag,
                CliError::EmptyDestinationTag,
                CliError::SameTags,
            ) == Err::<(Seq<char>, Seq<char>), CliError>(error),
        },
{
    checked_pair(
        args.from.as_str(),
        args.to.as_str(),
        CliError::EmptySourceTag,
        CliError::EmptyDestinationTag,
        CliError::SameTags,
    )
}

/// The two tags of `tag merge`, checked.
pub fn checked_merge(args: &TagMergeArgs) -> (checked: Result<(String, String), CliError>)
    requires
        clippable(trim_of(args.into@)),
    ensures
        match checked {
            Ok((first, second)) => checked_pair_of(
                args.from@,
                args.into@,
                CliError::EmptySourceTag,
                CliError::EmptyTargetTag,
                CliError::SameMergeTags,
            ) == Ok::<(Seq<char>, Seq<char>), CliError>((first@, second@)),
            Err(error) => checked_pair_of(
                args.from@,
                args.into@,
                CliError::EmptySourceTag,
                CliError::EmptyTargetTag,
                CliError::SameMergeTags,
            ) == Err::<(Seq<char>, Seq<char>), CliError>(error),
        },
{
    checked_pair(
        args.from.as_str(),
        args.into.as_str(),
        CliError::EmptySourceTag,
        CliError::EmptyTargetTag,
        CliError::SameMergeTags,
    )
}

/// The title of `new`, checked: trimmed; an error where nothing is left of
/// it.
pub fn checked_title(title: &str) -> (checked: Result<String, CliError>)
    ensures
        match checked {
            Ok(kept) => trim_of(title@).len() > 0 && kept@ == trim_of(title@),
            Err(error) => trim_of(title@).len() == 0 && error == CliError::EmptyTitle,
        },
{
    let trimmed = trim(title);
    if trimmed.as_str().is_empty() {
        return Err(CliError::EmptyTitle);
    }
    Ok(trimmed)
}

/// The query that `search` hands to the store for the line `line`: the
/// query read from the trimmed line; with `regex`, the pattern of the line
/// too, and then without terms where there is a pattern.
pub open spec fn store_query_of(line: Seq<char>, regex: bool) -> Result<QueryView, CliError> {
    let trimmed = trim_of(line);
    let query = parsed(words_of(trimmed));
    let pattern = if regex {
        pattern_of(trimmed)
    } else {
        None
    };
    if trimmed.len() == 0 {
        Err(CliError::EmptyQuery)
    } else if query.terms.len() == 0 && query.title_terms.len() == 0 && query.tags.len() == 0
        && query.created.from is None && query.created.to is None && query.updated.from is None
        && query.updated.to is None {
        Err(CliError::NoTermsOrFilters)
    } else if pattern is Some {
        Ok(QueryView { terms: seq![], title_terms: seq![], regex_pattern: pattern, ..query })
    } else {
        Ok(QueryView { regex_pattern: None, ..query })
    }
}

/// Builds the query that `search` hands to the store.
pub fn search_request(args: &SearchArgs) -> (request: Result<SearchQuery, CliError>)
    ensures
        match request {
            Ok(query) => store_query_of(joined_of(texts_of(args.query@), seq![' ']), args.regex)
                == Ok::<QueryView, CliError>(query@),
            Err(error) => store_query_of(joined_of(texts_of(args.query@), seq![' ']), args.regex)
                == Err::<QueryView, CliError>(error),
        },
{
    proof {
        reveal_strlit(" ");
        assert(" "@ =~= seq![' ']);
    }
    let raw_query = join(&args.query, " ");
    let trimmed = trim(raw_query.as_str());
    if trimmed.as_str().is_empty() {
        return Err(CliError::EmptyQuery);
    }
    let mut query = parse_query(trimmed.as_str());
    proof {
        crate::search::lemma_parsed_without_pattern(words_of(trimmed@));
    }
    if !query.has_terms() && !query.has_filters() {
        return Err(CliError::NoTermsOrFilters);
    }
    if args.regex {
        query.regex_pattern = regex_pattern_from_input(trimmed.as_str());
    }
    let mut storage_query = query.duplicate();
    if args.regex && storage_query.regex_pattern.is_some() {
        storage_query.terms.clear();
        storage_query.title_terms.clear();
        assert(storage_query@.terms =~= seq![]);
        assert(storage_query@.title_terms =~= seq![]);
    }
    Ok(storage_query)
}

/// The tags as one line: each behind a `#`, with a space between them.
pub open spec fn tags_line(tags: Seq<Seq<char>>) -> Seq<char> {
    joined_of(tags.map_values(|tag: Seq<char>| seq!['#'] + tag), seq![' '])
}

/// Prints the tags as one line.
pub fn format_tags(tags: &Vec<String>) -> (line: String)
    ensures
        line@ == tags_line(texts_of(tags@)),
{
    let ghost all = texts_of(tags@);
    let ghost mark = |tag: Seq<char>| seq!['#'] + tag;
    let mut marked: Vec<String> = Vec::new();
    let mut i: usize = 0;
    assert(texts_of(marked@) =~= all.take(0).map_values(mark));
    while i < tags.len()
        invariant
            i <= tags.len(),
            all == texts_of(tags@),
            mark == (|tag: Seq<char>| seq!['#'] + tag),
            texts_of(marked@) == all.take(i as int).map_values(mark),
        decreases tags.len() - i,
    {
        let mut out: Vec<char> = vec!['#'];
        push_text(&mut out, tags[i].as_str());
        let text = string_of(&out);
        assert(text@ =~= mark(all[i as int]));
        let ghost before = texts_of(marked@);
        marked.push(text);
        assert(texts_of(marked@) =~= before.push(text@));
        assert(all.take(i + 1).map_values(mark) =~= all.take(i as int).map_values(mark).push(
            mark(all[i as int]),
        ));
        i = i + 1;
    }
    assert(all.take(all.len() as int) =~= all);
    proof {
        reveal_strlit(" ");
        assert(" "@ =~= seq![' ']);
    }
    join(&marked, " ")
}

/// The most characters of a snippet that is made from the body.
pub const MAX_SNIPPET_CHARS: usize = 160;

/// A line of the body for a snippet: trimmed; none where nothing is left.
pub open spec fn snippet_line(line: Seq<char>) -> Option<Seq<char>> {
    if trim_of(line).len() == 0 {
        None
    } else {
        Some(trim_of(line))
    }
}

/// The snippet that is printed for a note. It is the snippet of the search
/// that found the note, on one line and trimmed, where that is not empty.
/// Else it is made from the first `fallback_lines` lines of the body: those
/// that are not blank, trimmed, with a space between them, and cut to
/// [`MAX_SNIPPET_CHARS`] characters; none where there is no such line.
pub open spec fn snippet_of(note: NoteView, fallback_lines: int) -> Option<Seq<char>> {
    let cleaned = match note.snippet {
        Some(snippet) => trim_of(replaced_of(snippet, '\n', seq![' '])),
        None => seq![],
    };
    let lines = lines_of(note.body);
    let first = lines.take(if fallback_lines <= lines.len() { fallback_lines } else { lines.len() as int });
    let segments = first.filter_map(|line: Seq<char>| snippet_line(line));
    let text = joined_of(segments, seq![' ']);
    if cleaned.len() > 0 {
        Some(cleaned)
    } else if fallback_lines <= 0 || segments.len() == 0 {
        None
    } else if text.len() > MAX_SNIPPET_CHARS {
        Some(text.take(MAX_SNIPPET_CHARS as int))
    } else {
        Some(text)
    }
}

/// Builds the snippet that is printed for a note.
pub fn build_snippet(note: &NoteRecord, fallback_lines: usize) -> (snippet: Option<String>)
    ensures
        text_view(snippet) == snippet_of(note@, fallback_lines as int),
{
    if let Some(snippet) = &note.snippet {
        let space: Vec<char> = vec![' '];
        assert(space@ =~= seq![' ']);
        let cleaned = chars_trim(&chars_replace(&chars_of(snippet.as_str()), '\n', &space));
        if cleaned.len() > 0 {
            return Some(string_of(&cleaned));
        }
    }
    if fallback_lines == 0 {
        return None;
    }
    let lines = split_lines(&chars_of(note.body.as_str()));
    let ghost all = texts_of(lines@);
    let ghost pick = |line: Seq<char>| snippet_line(line);
    let shown = if fallback_lines <= lines.len() {
        fallback_lines
    } else {
        lines.len()
    };
    let mut segments: Vec<String> = Vec::new();
    let mut i: usize = 0;
    assert(texts_of(segments@) =~= all.take(shown as int).take(0).filter_map(pick));
    while i < shown
        invariant
            i <= shown <= lines.len(),
            all == texts_of(lines@),
            pick == (|line: Seq<char>| snippet_line(line)),
            texts_of(segments@) == all.take(shown as int).take(i as int).filter_map(pick),
        decreases shown - i,
    {
        let ghost first = all.take(shown as int);
        proof {
            lemma_filter_map_push(first.take(i as int), first[i as int], pick);
            assert(first.take(i + 1) =~= first.take(i as int).push(first[i as int]));
        }
        let trimmed = chars_trim(&chars_of(lines[i].as_str()));
        if trimmed.len() > 0 {
            let text = string_of(&trimmed);
            let ghost before = texts_of(segments@);
            segments.push(text);
            assert(texts_of(segments@) =~= before.push(text@));
        }
        i = i + 1;
    }
    assert(all.take(shown as int).take(shown as int) =~= all.take(shown as int));
    if segments.is_empty() {
        None
    } else {
        proof {
            reveal_strlit(" ");
            assert(" "@ =~= seq![' ']);
        }
        let text = chars_of(join(&segments, " ").as_str());
        let cut = chars_take(&text, MAX_SNIPPET_CHARS);
        proof {
            if text@.len() <= MAX_SNIPPET_CHARS {
                assert(cut@ =~= text@);
            }
        }
        Some(string_of(&cut))
    }
}

/// The headline of a note that a search found: its id, its title and its
/// marks.
pub open spec fn result_headline(note: NoteView) -> Seq<char> {
    seq!['#'] + decimal_of(note.id as int) + "  "@ + note.title + (if note.pinned {
        "  [PINNED]"@
    } else {
        seq![]
    }) + (if note.archived {
        "  [ARCHIVED]"@
    } else {
        seq![]
    }) + seq!['\n']
}

/// The line with the tags of a note that a search found; nothing for a
/// note without tags.
pub open spec fn result_tags(note: NoteView) -> Seq<char> {
    if note.tags.len() > 0 {
        "    tags    "@ + tags_line(note.tags) + seq!['\n']
    } else {
        seq![]
    }
}

/// The line with the snippet of a note that a search found; nothing for a
/// note without one.
pub open spec fn result_snippet(note: NoteView) -> Seq<char> {
    match snippet_of(note, 2) {
        Some(snippet) => "    "@ + snippet + seq!['\n'],
        None => seq![],
    }
}

/// What is printed for one note that a search found: its headline, the
/// instant of its last change, its tags, its snippet, and an empty line.
pub open spec fn result_block(note: NoteView) -> Seq<char> {
    result_headline(note) + ("    updated "@ + timestamp_text(note.updated_at) + seq!['\n'])
        + result_tags(note) + result_snippet(note) + seq!['\n']
}

/// The blocks of the notes, one after the other.
pub open spec fn result_blocks(notes: Seq<NoteView>) -> Seq<char>
    decreases notes.len(),
{
    if notes.len() == 0 {
        seq![]
    } else {
        result_blocks(notes.drop_last()) + result_block(notes.last())
    }
}

/// What `search` prints for the notes it found.
pub open spec fn results_text(notes: Seq<NoteView>) -> Seq<char> {
    if notes.len() == 0 {
        "No matches found.\n"@
    } else {
        result_blocks(notes)
    }
}

fn headline(note: &NoteRecord) -> (out: Vec<char>)
    ensures
        out@ == result_headline(note@),
{
    let mut out: Vec<char> = Vec::new();
    out.push('#');
    push_decimal(&mut out, note.id);
    push_text(&mut out, "  ");
    push_text(&mut out, note.title.as_str());
    if note.pinned {
        push_text(&mut out, "  [PINNED]");
    }
    if note.archived {
        push_text(&mut out, "  [ARCHIVED]");
    }
    out.push('\n');
    assert(out@ =~= result_headline(note@));
    out
}

fn updated_line(note: &NoteRecord) -> (out: Vec<char>)
    ensures
        out@ == "    updated "@ + timestamp_text(note.updated_at) + seq!['\n'],
{
    let mut out: Vec<char> = Vec::new();
    push_text(&mut out, "    updated ");
    push_text(&mut out, format_timestamp(note.updated_at).as_str());
    out.push('\n');
    assert(out@ =~= "    updated "@ + timestamp_text(note.updated_at) + seq!['\n']);
    out
}

fn tags_part(note: &NoteRecord) -> (out: Vec<char>)
    ensures
        out@ == result_tags(note@),
{
    let mut out: Vec<char> = Vec::new();
    if !note.tags.is_empty() {
        push_text(&mut out, "    tags    ");
        push_text(&mut out, format_tags(&note.tags).as_str());
        out.push('\n');
        assert(out@ =~= result_tags(note@));
    }
    out
}

fn snippet_part(note: &NoteRecord) -> (out: Vec<char>)
    ensures
        out@ == result_snippet(note@),
{
    let mut out: Vec<char> = Vec::new();
    if let Some(snippet) = build_snippet(note, 2) {
        push_text(&mut out, "    ");
        push_text(&mut out, snippet.as_str());
        out.push('\n');
        assert(out@ =~= result_snippet(note@));
    }
    out
}

fn push_result_block(out: &mut Vec<char>, note: &NoteRecord)
    ensures
        final(out)@ == old(out)@ + result_block(note@),
{
    let ghost start = out@;
    let mut first = headline(note);
    let mut second = updated_line(note);
    let mut third = tags_part(note);
    let mut fourth = snippet_part(note);
    out.append(&mut first);
    out.append(&mut second);
    out.append(&mut third);
    out.append(&mut fourth);
    out.push('\n');
    assert(out@ =~= start + result_block(note@));
}

/// Prints the notes that a search found.
pub fn format_search_results(notes: &Vec<NoteRecord>) -> (text: String)
    ensures
        text@ == results_text(note_views(notes@)),
{
    if notes.is_empty() {
        return String::from_str("No matches found.\n");
    }
    let ghost all = note_views(notes@);
    let mut out: Vec<char> = Vec::new();
    let mut i: usize = 0;
    assert(all.take(0) =~= Seq::empty());
    while i < notes.len()
        invariant
            i <= notes.len(),
            all == note_views(notes@),
            out@ == result_blocks(all.take(i as int)),
        decreases notes.len() - i,
    {
        assert(all.take(i + 1).drop_last() =~= all.take(i as int));
        push_result_block(&mut out, &notes[i]);
        i = i + 1;
    }
    assert(all.take(all.len() as int) =~= all);
    string_of(&out)
}

/// An `s` for a count other than one.
pub open spec fn plural(count: int) -> Seq<char> {
    if count == 1 {
        seq![]
    } else {
        seq!['s']
    }
}

/// What is printed after a tag was merged into another.
pub open spec fn merged_text(from: Seq<char>, to: Seq<char>, reassigned: int) -> Seq<char> {
    "Merged tag '"@ + from + "' into '"@ + to + "' (relinked "@ + decimal_of(reassigned)
        + " note"@ + plural(reassigned) + seq![')']
}

/// What `tag rename` prints.
pub open spec fn rename_text(outcome: TagRenameOutcome) -> Seq<char> {
    match outcome {
        TagRenameOutcome::Renamed { from, to } => "Renamed tag '"@ + from@ + "' to '"@ + to@
            + seq!['\''],
        TagRenameOutcome::Merged { from, to, reassigned } => merged_text(
            from@,
            to@,
            reassigned as int,
        ),
    }
}

/// What `tag merge` prints.
pub open spec fn merge_text(outcome: TagRenameOutcome) -> Seq<char> {
    match outcome {
        TagRenameOutcome::Renamed { from, to } => "Renamed tag '"@ + from@ + "' to '"@ + to@
            + "' (target was missing, renamed instead)"@,
        TagRenameOutcome::Merged { from, to, reassigned } => merged_text(
            from@,
            to@,
            reassigned as int,
        ),
    }
}

fn merged_report(from: &String, to: &String, reassigned: usize) -> (text: String)
    ensures
        text@ == merged_text(from@, to@, reassigned as int),
{
    let mut out: Vec<char> = Vec::new();
    push_text(&mut out, "Merged tag '");
    push_text(&mut out, from.as_str());
    push_text(&mut out, "' into '");
    push_text(&mut out, to.as_str());
    push_text(&mut out, "' (relinked ");
    push_unsigned(&mut out, reassigned as u64);
    push_text(&mut out, " note");
    if reassigned != 1 {
        out.push('s');
    }
    out.push(')');
    assert(out@ =~= merged_text(from@, to@, reassigned as int));
    string_of(&out)
}

/// Says what `tag rename` did.
pub fn rename_report(outcome: &TagRenameOutcome) -> (text: String)
    ensures
        text@ == rename_text(*outcome),
{
    match outcome {
        TagRenameOutcome::Renamed { from, to } => {
            let mut out: Vec<char> = Vec::new();
            push_text(&mut out, "Renamed tag '");
            push_text(&mut out, from.as_str());
            push_text(&mut out, "' to '");
            push_text(&mut out, to.as_str());
            out.push('\'');
            assert(out@ =~= rename_text(*outcome));
            string_of(&out)
        },
        TagRenameOutcome::Merged { from, to, reassigned } => merged_report(from, to, *reassigned),
    }
}

/// Says what `tag merge` did.
pub fn merge_report(outcome: &TagRenameOutcome) -> (text: String)
    ensures
        text@ == merge_text(*outcome),
{
    match outcome {
        TagRenameOutcome::Renamed { from, to } => {
            let mut out: Vec<char> = Vec::new();
            push_text(&mut out, "Renamed tag '");
            push_text(&mut out, from.as_str());
            push_text(&mut out, "' to '");
            push_text(&mut out, to.as_str());
            push_text(&mut out, "' (target was missing, renamed instead)");
            assert(out@ =~= merge_text(*outcome));
            string_of(&out)
        },
        TagRenameOutcome::Merged { from, to, reassigned } => merged_report(from, to, *reassigned),
    }
}

/// What `tag delete` prints.
pub open spec fn delete_text(outcome: TagDeleteOutcome) -> Seq<char> {
    "Deleted tag '"@ + outcome.tag@ + "' (removed from "@ + decimal_of(outcome.detached as int)
        + " note"@ + plural(outcome.detached as int) + seq![')']
}

/// Says what `tag delete` did.
pub fn delete_report(outcome: &TagDeleteOutcome) -> (text: String)
    ensures
        text@ == delete_text(*outcome),
{
    let mut out: Vec<char> = Vec::new();
    push_text(&mut out, "Deleted tag '");
    push_text(&mut out, outcome.tag.as_str());
    push_text(&mut out, "' (removed from ");
    push_unsigned(&mut out, outcome.detached as u64);
    push_text(&mut out, " note");
    if outcome.detached != 1 {
        out.push('s');
    }
    out.push(')');
    assert(out@ =~= delete_text(*outcome));
    string_of(&out)
}

/// What `new` prints.
pub open spec fn created_text(note_id: i64, pinned: bool) -> Seq<char> {
    "Created note #"@ + decimal_of(note_id as int) + (if pinned {
        " (pinned)"@
    } else {
        seq![]
    })
}

/// Says that `new` created a note.
pub fn created_report(note_id: i64, pinned: bool) -> (text: String)
    ensures
        text@ == created_text(note_id, pinned),
{
    let mut out: Vec<char> = Vec::new();
    push_text(&mut out, "Created note #");
    push_decimal(&mut out, note_id);
    if pinned {
        push_text(&mut out, " (pinned)");
    }
    assert(out@ =~= created_text(note_id, pinned));
    string_of(&out)
}

} // verus!
