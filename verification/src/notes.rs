//! Note records as the store hands them out, and what the library computes
//! on them without the store: tag lists, match expressions for the
//! full-text index, the ranking of title matches, and filters.

use crate::journal::{lemma_filter_map_push, lemma_filter_push};
use crate::search::{clone_strings, QueryView, RangeFilter, SearchQuery};
use crate::strings::{
    any_whitespace, chars_any_whitespace, chars_contain, chars_replace, chars_trim, contains_text,
    join, joined_of, lowercase, lowercase_of, pieces_of, replaced_of, split_on, texts_of, trim_of,
};
use crate::text::{chars_of, string_of};
use vstd::prelude::*;
use vstd::string::*;

verus! {

/// The most rows that a full-text query fetches at least.
pub const FTS_ROW_LIMIT: usize = 200;

/// What a passive checkpoint of the write-ahead log reports.
#[derive(Debug, Clone, Copy)]
pub struct WalCheckpointStats {
    pub busy_frames: i64,
    pub wal_frames: i64,
    pub checkpointed_frames: i64,
}

/// A note as the store holds it.
#[derive(Debug, Clone)]
pub struct NoteRecord {
    pub id: i64,
    pub title: String,
    pub body: String,
    pub snippet: Option<String>,
    pub created_at: i64,
    pub updated_at: i64,
    pub pinned: bool,
    pub archived: bool,
    pub tags: Vec<String>,
    pub deleted_at: Option<i64>,
}

pub struct NoteView {
    pub id: i64,
    pub title: Seq<char>,
    pub body: Seq<char>,
    pub snippet: Option<Seq<char>>,
    pub created_at: i64,
    pub updated_at: i64,
    pub pinned: bool,
    pub archived: bool,
    pub tags: Seq<Seq<char>>,
    pub deleted_at: Option<i64>,
}

impl View for NoteRecord {
    type V = NoteView;

    open spec fn view(&self) -> NoteView {
        NoteView {
            id: self.id,
            title: self.title@,
            body: self.body@,
            snippet: match self.snippet {
                Some(snippet) => Some(snippet@),
                None => None,
            },
            created_at: self.created_at,
            updated_at: self.updated_at,
            pinned: self.pinned,
            archived: self.archived,
            tags: texts_of(self.tags@),
            deleted_at: self.deleted_at,
        }
    }
}

impl NoteRecord {
    /// A copy of the record.
    pub fn duplicate(&self) -> (copy: Self)
        ensures
            copy@ == self@,
    {
        NoteRecord {
            id: self.id,
            title: self.title.clone(),
            body: self.body.clone(),
            snippet: match &self.snippet {
                Some(snippet) => Some(snippet.clone()),
                None => None,
            },
            created_at: self.created_at,
            updated_at: self.updated_at,
            pinned: self.pinned,
            archived: self.archived,
            tags: clone_strings(&self.tags),
            deleted_at: self.deleted_at,
        }
    }
}

/// The records of a list, as mathematical values.
pub open spec fn note_views(notes: Seq<NoteRecord>) -> Seq<NoteView> {
    notes.map_values(|note: NoteRecord| note@)
}

/// What renaming a tag did.
#[derive(Debug, Clone, PartialEq, Eq)]
pub enum TagRenameOutcome {
    /// The tag has a new name.
    Renamed { from: String, to: String },
    /// The new name was taken: the tag was merged into the tag of that
    /// name, and `reassigned` notes were linked to it.
    Merged { from: String, to: String, reassigned: usize },
}

/// What deleting a tag did.
#[derive(Debug, Clone, PartialEq, Eq)]
pub struct TagDeleteOutcome {
    pub tag: String,
    /// The number of notes that carried the tag.
    pub detached: usize,
}

/// The mark between two tags in the list that the store hands out.
pub open spec fn tag_delimiter() -> Seq<char> {
    seq!['|', ':', '|']
}

/// The tags in a delimited list: its pieces that are not empty.
pub open spec fn tags_of(raw: Seq<char>) -> Seq<Seq<char>> {
    pieces_of(raw, tag_delimiter()).filter(|piece: Seq<char>| piece.len() > 0)
}

/// Reads the tags of a note from the delimited list that the store hands
/// out.
pub fn parse_tags(raw: &str) -> (tags: Vec<String>)
    ensures
        texts_of(tags@) == tags_of(raw@),
{
    let mut tags: Vec<String> = Vec::new();
    assert(texts_of(tags@) =~= Seq::empty());
    let delimiter: Vec<char> = vec!['|', ':', '|'];
    assert(delimiter@ =~= tag_delimiter());
    let pieces = split_on(&chars_of(raw), &delimiter);
    let ghost kept = |piece: Seq<char>| piece.len() > 0;
    let mut i: usize = 0;
    assert(texts_of(pieces@).take(0) =~= Seq::empty());
    while i < pieces.len()
        invariant
            i <= pieces.len(),
            kept == (|piece: Seq<char>| piece.len() > 0),
            texts_of(tags@) == texts_of(pieces@).take(i as int).filter(kept),
        decreases pieces.len() - i,
    {
        let piece = chars_of(pieces[i].as_str());
        proof {
            lemma_filter_push(texts_of(pieces@).take(i as int), piece@, kept);
            assert(texts_of(pieces@).take(i + 1) =~= texts_of(pieces@).take(i as int).push(
                piece@,
            ));
        }
        if piece.len() > 0 {
            let ghost before = texts_of(tags@);
            tags.push(pieces[i].clone());
            assert(texts_of(tags@) =~= before.push(piece@));
        }
        i = i + 1;
    }
    assert(texts_of(pieces@).take(pieces@.len() as int) =~= texts_of(pieces@));
    tags
}

/// A column name and its colon, or nothing.
pub open spec fn column_prefix(column: Option<Seq<char>>) -> Seq<char> {
    match column {
        Some(name) => name.push(':'),
        None => seq![],
    }
}

/// The fragment of a match expression for one term; none for a term that
/// is blank. A term with white space in it is a phrase in double quotes,
/// with its own double quotes doubled. Any other term is a prefix query: its
/// double quotes doubled, its colons turned to spaces, and a star behind it.
pub open spec fn fragment_of(column: Option<Seq<char>>, term: Seq<char>) -> Option<Seq<char>> {
    let trimmed = trim_of(term);
    let escaped = replaced_of(trimmed, '"', seq!['"', '"']);
    if trimmed.len() == 0 {
        None
    } else if any_whitespace(trimmed) {
        Some(column_prefix(column) + seq!['"'] + escaped + seq!['"'])
    } else {
        Some(column_prefix(column) + replaced_of(escaped, ':', seq![' ']) + seq!['*'])
    }
}

/// The word between the fragments and the clauses of a match expression.
pub open spec fn and_word() -> Seq<char> {
    seq![' ', 'A', 'N', 'D', ' ']
}

/// The clause of a match expression for the terms of one column: their
/// fragments joined by `AND`; none where no term has a fragment.
pub open spec fn clause_of(column: Option<Seq<char>>, terms: Seq<Seq<char>>) -> Option<Seq<char>> {
    let parts = terms.filter_map(|term: Seq<char>| fragment_of(column, term));
    if parts.len() == 0 {
        None
    } else {
        Some(joined_of(parts, and_word()))
    }
}

/// The name of the title column.
pub open spec fn title_column() -> Seq<char> {
    seq!['t', 'i', 't', 'l', 'e']
}

/// The match expression of a query: the clause of its free terms and the
/// clause of its title terms, joined by `AND`; none where it has neither.
pub open spec fn match_expression_of(query: QueryView) -> Option<Seq<char>> {
    match (clause_of(None, query.terms), clause_of(Some(title_column()), query.title_terms)) {
        (Some(free), Some(title)) => Some(free + and_word() + title),
        (Some(free), None) => Some(free),
        (None, Some(title)) => Some(title),
        (None, None) => None,
    }
}

/// The text, as a mathematical value, where there is one.
pub open spec fn text_view(text: Option<String>) -> Option<Seq<char>> {
    match text {
        Some(text) => Some(text@),
        None => None,
    }
}

fn build_fragment(column: &Option<String>, term: &String) -> (fragment: Option<String>)
    ensures
        text_view(fragment) == fragment_of(text_view(*column), term@),
{
    let trimmed = chars_trim(&chars_of(term.as_str()));
    if trimmed.len() == 0 {
        return None;
    }
    let quotes: Vec<char> = vec!['"', '"'];
    assert(quotes@ =~= seq!['"', '"']);
    let escaped = chars_replace(&trimmed, '"', &quotes);
    let mut out: Vec<char> = Vec::new();
    match column {
        Some(name) => {
            let mut prefix = chars_of(name.as_str());
            out.append(&mut prefix);
            out.push(':');
        },
        None => {},
    }
    assert(out@ =~= column_prefix(text_view(*column)));
    if chars_any_whitespace(&trimmed) {
        out.push('"');
        let mut body = escaped;
        out.append(&mut body);
        out.push('"');
        assert(out@ =~= column_prefix(text_view(*column)) + seq!['"'] + replaced_of(
            trimmed@,
            '"',
            seq!['"', '"'],
        ) + seq!['"']);
    } else {
        let space: Vec<char> = vec![' '];
        assert(space@ =~= seq![' ']);
        let mut token = chars_replace(&escaped, ':', &space);
        out.append(&mut token);
        out.push('*');
        assert(out@ =~= column_prefix(text_view(*column)) + replaced_of(
            replaced_of(trimmed@, '"', seq!['"', '"']),
            ':',
            seq![' '],
        ) + seq!['*']);
    }
    Some(string_of(&out))
}

/// Builds the clause of a match expression for the terms of one column.
pub fn build_clause(column: Option<String>, terms: &Vec<String>) -> (clause: Option<String>)
    ensures
        text_view(clause) == clause_of(text_view(column), texts_of(terms@)),
{
    let ghost col = text_view(column);
    let ghost fragment = |term: Seq<char>| fragment_of(col, term);
    let mut parts: Vec<String> = Vec::new();
    let mut i: usize = 0;
    assert(texts_of(terms@).take(0) =~= Seq::empty());
    assert(texts_of(parts@) =~= texts_of(terms@).take(0).filter_map(fragment));
    while i < terms.len()
        invariant
            i <= terms.len(),
            col == text_view(column),
            fragment == (|term: Seq<char>| fragment_of(col, term)),
            texts_of(parts@) == texts_of(terms@).take(i as int).filter_map(fragment),
        decreases terms.len() - i,
    {
        proof {
            lemma_filter_map_push(texts_of(terms@).take(i as int), terms@[i as int]@, fragment);
            assert(texts_of(terms@).take(i + 1) =~= texts_of(terms@).take(i as int).push(
                terms@[i as int]@,
            ));
        }
        match build_fragment(&column, &terms[i]) {
            Some(part) => {
                let ghost before = texts_of(parts@);
                parts.push(part);
                assert(texts_of(parts@) =~= before.push(part@));
            },
            None => {},
        }
        i = i + 1;
    }
    assert(texts_of(terms@).take(terms@.len() as int) =~= texts_of(terms@));
    if parts.is_empty() {
        None
    } else {
        proof {
            reveal_strlit(" AND ");
            assert(" AND "@ =~= and_word());
        }
        Some(join(&parts, " AND "))
    }
}

/// Builds the match expression of a query for the full-text index.
pub fn build_match_expression(query: &SearchQuery) -> (expression: Option<String>)
    ensures
        text_view(expression) == match_expression_of(query@),
{
    proof {
        reveal_strlit("title");
        assert("title"@ =~= title_column());
        reveal_strlit(" AND ");
        assert(" AND "@ =~= and_word());
    }
    let free = build_clause(None, &query.terms);
    let title = build_clause(Some(String::from_str("title")), &query.title_terms);
    match (free, title) {
        (Some(free), Some(title)) => {
            let mut out = free;
            out.append(" AND ");
            out.append(title.as_str());
            Some(out)
        },
        (Some(free), None) => Some(free),
        (None, Some(title)) => Some(title),
        (None, None) => None,
    }
}

/// Some token that is not empty stands in the title, lower case taken:
/// the tokens are expected in lower case already.
pub open spec fn title_matches(title: Seq<char>, tokens: Seq<Seq<char>>) -> bool {
    exists|i: int|
        0 <= i < tokens.len() && (#[trigger] tokens[i]).len() > 0 && contains_text(
            lowercase_of(title),
            tokens[i],
        )
}

/// Whether the title holds one of the tokens.
pub fn title_contains_any(title: &str, tokens: &Vec<String>) -> (found: bool)
    ensures
        found == title_matches(title@, texts_of(tokens@)),
{
    if tokens.is_empty() {
        return false;
    }
    let haystack = chars_of(lowercase(title).as_str());
    let mut i: usize = 0;
    while i < tokens.len()
        invariant
            i <= tokens.len(),
            haystack@ == lowercase_of(title@),
            forall|k: int|
                0 <= k < i ==> !((#[trigger] texts_of(tokens@)[k]).len() > 0 && contains_text(
                    lowercase_of(title@),
                    texts_of(tokens@)[k],
                )),
        decreases tokens.len() - i,
    {
        let token = chars_of(tokens[i].as_str());
        if token.len() > 0 && chars_contain(&haystack, &token) {
            assert(texts_of(tokens@)[i as int] == token@);
            return true;
        }
        i = i + 1;
    }
    false
}

/// The notes whose title holds one of the tokens, in their order, and
/// behind them the others, in theirs.
pub open spec fn title_first(notes: Seq<NoteView>, tokens: Seq<Seq<char>>) -> Seq<NoteView> {
    notes.filter(|note: NoteView| title_matches(note.title, tokens)) + notes.filter(
        |note: NoteView| !title_matches(note.title, tokens),
    )
}

/// Moves the notes whose title holds one of the tokens to the front.
pub fn prioritize_title_matches(notes: Vec<NoteRecord>, tokens: &Vec<String>) -> (ranked: Vec<
    NoteRecord,
>)
    ensures
        note_views(ranked@) == title_first(note_views(notes@), texts_of(tokens@)),
{
    let ghost all = note_views(notes@);
    let ghost hit = |note: NoteView| title_matches(note.title, texts_of(tokens@));
    let ghost miss = |note: NoteView| !title_matches(note.title, texts_of(tokens@));
    let mut with_title: Vec<NoteRecord> = Vec::new();
    let mut without_title: Vec<NoteRecord> = Vec::new();
    let mut i: usize = 0;
    assert(all.take(0) =~= Seq::empty());
    while i < notes.len()
        invariant
            i <= notes.len(),
            all == note_views(notes@),
            hit == (|note: NoteView| title_matches(note.title, texts_of(tokens@))),
            miss == (|note: NoteView| !title_matches(note.title, texts_of(tokens@))),
            note_views(with_title@) == all.take(i as int).filter(hit),
            note_views(without_title@) == all.take(i as int).filter(miss),
        decreases notes.len() - i,
    {
        let note = notes[i].duplicate();
        proof {
            lemma_filter_push(all.take(i as int), note@, hit);
            lemma_filter_push(all.take(i as int), note@, miss);
            assert(all.take(i + 1) =~= all.take(i as int).push(note@));
        }
        if title_contains_any(note.title.as_str(), tokens) {
            let ghost before = note_views(with_title@);
            with_title.push(note);
            assert(note_views(with_title@) =~= before.push(note@));
        } else {
            let ghost before = note_views(without_title@);
            without_title.push(note);
            assert(note_views(without_title@) =~= before.push(note@));
        }
        i = i + 1;
    }
    assert(all.take(all.len() as int) =~= all);
    let ghost first = note_views(with_title@);
    let ghost second = note_views(without_title@);
    with_title.append(&mut without_title);
    assert(note_views(with_title@) =~= first + second);
    with_title
}

/// One of the note's tags is `tag`, lower case taken on both sides.
pub open spec fn carries_tag(note_tags: Seq<Seq<char>>, tag: Seq<char>) -> bool {
    exists|i: int|
        0 <= i < note_tags.len() && lowercase_of(#[trigger] note_tags[i]) == lowercase_of(tag)
}

/// The instant lies in the range.
pub open spec fn in_range(at: i64, range: RangeFilter) -> bool {
    &&& match range.from {
        Some(from) => at >= from,
        None => true,
    }
    &&& match range.to {
        Some(to) => at < to,
        None => true,
    }
}

/// The note passes the filters of the query: it carries every tag of the
/// query, and it was created and updated in the ranges of the query.
pub open spec fn passes(note: NoteView, query: QueryView) -> bool {
    &&& forall|i: int| 0 <= i < query.tags.len() ==> carries_tag(note.tags, #[trigger] query.tags[i])
    &&& in_range(note.created_at, query.created)
    &&& in_range(note.updated_at, query.updated)
}

fn has_tag(lowered: &Vec<String>, wanted: &String, Ghost(tags): Ghost<Seq<Seq<char>>>, Ghost(tag): Ghost<Seq<char>>) -> (found: bool)
    requires
        lowered@.len() == tags.len(),
        forall|i: int| 0 <= i < tags.len() ==> (#[trigger] lowered@[i])@ == lowercase_of(tags[i]),
        wanted@ == lowercase_of(tag),
    ensures
        found == carries_tag(tags, tag),
{
    let mut i: usize = 0;
    while i < lowered.len()
        invariant
            i <= lowered.len(),
            lowered@.len() == tags.len(),
            forall|k: int| 0 <= k < tags.len() ==> (#[trigger] lowered@[k])@ == lowercase_of(tags[k]),
            wanted@ == lowercase_of(tag),
            forall|k: int| 0 <= k < i ==> lowercase_of(#[trigger] tags[k]) != lowercase_of(tag),
        decreases lowered.len() - i,
    {
        if lowered[i] == *wanted {
            assert(lowercase_of(tags[i as int]) == lowercase_of(tag));
            return true;
        }
        assert(lowered@[i as int]@ == lowercase_of(tags[i as int]));
        i = i + 1;
    }
    false
}

fn lowered_tags(tags: &Vec<String>) -> (lowered: Vec<String>)
    ensures
        lowered@.len() == tags@.len(),
        forall|i: int|
            0 <= i < tags@.len() ==> (#[trigger] lowered@[i])@ == lowercase_of(texts_of(tags@)[i]),
{
    let mut lowered: Vec<String> = Vec::new();
    let mut i: usize = 0;
    while i < tags.len()
        invariant
            i <= tags.len(),
            lowered@.len() == i,
            forall|k: int| 0 <= k < i ==> (#[trigger] lowered@[k])@ == lowercase_of(texts_of(tags@)[k]),
        decreases tags.len() - i,
    {
        lowered.push(lowercase(tags[i].as_str()));
        i = i + 1;
    }
    lowered
}

fn note_passes(note: &NoteRecord, query: &SearchQuery, wanted: &Vec<String>) -> (pass: bool)
    requires
        wanted@.len() == query.tags@.len(),
        forall|i: int|
            0 <= i < query.tags@.len() ==> (#[trigger] wanted@[i])@ == lowercase_of(
                texts_of(query.tags@)[i],
            ),
    ensures
        pass == passes(note@, query@),
{
    let note_tags = lowered_tags(&note.tags);
    let mut i: usize = 0;
    while i < wanted.len()
        invariant
            i <= wanted.len(),
            wanted@.len() == query.tags@.len(),
            forall|k: int|
                0 <= k < query.tags@.len() ==> (#[trigger] wanted@[k])@ == lowercase_of(
                    texts_of(query.tags@)[k],
                ),
            note_tags@.len() == note.tags@.len(),
            forall|k: int|
                0 <= k < note.tags@.len() ==> (#[trigger] note_tags@[k])@ == lowercase_of(
                    texts_of(note.tags@)[k],
                ),
            forall|k: int| 0 <= k < i ==> carries_tag(note@.tags, #[trigger] query@.tags[k]),
        decreases wanted.len() - i,
    {
        if !has_tag(
            &note_tags,
            &wanted[i],
            Ghost(texts_of(note.tags@)),
            Ghost(texts_of(query.tags@)[i as int]),
        ) {
            assert(!carries_tag(note@.tags, query@.tags[i as int]));
            return false;
        }
        i = i + 1;
    }
    if let Some(from) = query.created.from {
        if note.created_at < from {
            return false;
        }
    }
    if let Some(to) = query.created.to {
        if note.created_at >= to {
            return false;
        }
    }
    if let Some(from) = query.updated.from {
        if note.updated_at < from {
            return false;
        }
    }
    if let Some(to) = query.updated.to {
        if note.updated_at >= to {
            return false;
        }
    }
    true
}

/// A filter that everything passes keeps everything.
pub proof fn lemma_filter_all<A>(s: Seq<A>, pred: spec_fn(A) -> bool)
    requires
        forall|k: int| 0 <= k < s.len() ==> pred(#[trigger] s[k]),
    ensures
        s.filter(pred) == s,
    decreases s.len(),
{
    reveal(Seq::filter);
    if s.len() > 0 {
        assert forall|k: int| 0 <= k < s.drop_last().len() implies pred(
            #[trigger] s.drop_last()[k],
        ) by {
            assert(s.drop_last()[k] == s[k]);
        }
        lemma_filter_all(s.drop_last(), pred);
        assert(pred(s[s.len() - 1]));
        assert(s.drop_last().push(s.last()) =~= s);
    }
}

/// Keeps the notes that pass the filters of the query. A query without
/// filters keeps them all.
pub fn apply_filters(notes: &mut Vec<NoteRecord>, query: &SearchQuery)
    ensures
        note_views(final(notes)@) == note_views(old(notes)@).filter(
            |note: NoteView| passes(note, query@),
        ),
        !(query@.tags.len() > 0 || query@.created.from is Some || query@.created.to is Some
            || query@.updated.from is Some || query@.updated.to is Some) ==> note_views(
            final(notes)@,
        ) == note_views(old(notes)@),
{
    let ghost all = note_views(notes@);
    let ghost pass = |note: NoteView| passes(note, query@);
    if !query.has_filters() {
        proof {
            assert forall|k: int| 0 <= k < all.len() implies pass(#[trigger] all[k]) by {}
            lemma_filter_all(all, pass);
        }
        return ;
    }
    let wanted = lowered_tags(&query.tags);
    let mut kept: Vec<NoteRecord> = Vec::new();
    let mut i: usize = 0;
    assert(all.take(0) =~= Seq::empty());
    while i < notes.len()
        invariant
            i <= notes.len(),
            all == note_views(notes@),
            pass == (|note: NoteView| passes(note, query@)),
            wanted@.len() == query.tags@.len(),
            forall|k: int|
                0 <= k < query.tags@.len() ==> (#[trigger] wanted@[k])@ == lowercase_of(
                    texts_of(query.tags@)[k],
                ),
            note_views(kept@) == all.take(i as int).filter(pass),
        decreases notes.len() - i,
    {
        proof {
            lemma_filter_push(all.take(i as int), notes@[i as int]@, pass);
            assert(all.take(i + 1) =~= all.take(i as int).push(notes@[i as int]@));
        }
        if note_passes(&notes[i], query, &wanted) {
            let ghost before = note_views(kept@);
            kept.push(notes[i].duplicate());
            assert(note_views(kept@) =~= before.push(notes@[i as int]@));
        }
        i = i + 1;
    }
    assert(all.take(all.len() as int) =~= all);
    *notes = kept;
}

} // verus!
