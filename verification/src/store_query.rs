//! How a search is carried out against the store: what is fetched, and what
//! is done to the notes that come back.

use crate::highlight::{compiles, matches_in, Pattern};
use crate::journal::lemma_filter_push;
use crate::notes::{
    apply_filters, build_match_expression, match_expression_of, note_views, passes,
    prioritize_title_matches, text_view, title_first, NoteRecord, NoteView, FTS_ROW_LIMIT,
};
use crate::search::{QueryView, SearchQuery};
use crate::strings::{lowercase, lowercase_of, texts_of};
use vstd::prelude::*;
use vstd::string::*;

verus! {

/// How the store is asked for the notes of a search.
#[derive(Debug)]
pub enum SearchPlan {
    /// The notes changed last, at most `limit`, as they are.
    Recent { limit: usize },
    /// All notes, `batch_size` at a time, until enough of them match the
    /// pattern.
    Scan { batch_size: usize, pattern: Pattern },
    /// The notes that the full-text index finds for `expression`, at most
    /// `fetch_limit`; none without an expression. Notes whose title holds
    /// one of `title_tokens` come first.
    Terms {
        expression: Option<String>,
        fetch_limit: usize,
        title_tokens: Vec<String>,
        pattern: Option<Pattern>,
    },
    /// The notes changed last, at most `fetch_limit`, to be filtered.
    Filtered { fetch_limit: usize },
}

/// Why a search cannot be carried out.
#[derive(Debug, Clone, Copy, PartialEq, Eq, Structural)]
pub enum SearchPlanError {
    /// The pattern is no regular expression.
    BadPattern,
}

/// The query has a free term or a title term.
pub open spec fn with_terms(query: QueryView) -> bool {
    query.terms.len() > 0 || query.title_terms.len() > 0
}

/// The query has a tag or a date range.
pub open spec fn with_filters(query: QueryView) -> bool {
    query.tags.len() > 0 || query.created.from is Some || query.created.to is Some
        || query.updated.from is Some || query.updated.to is Some
}

/// The larger of `limit` and the fewest rows that a search fetches.
pub open spec fn fetch_limit_of(limit: usize) -> usize {
    if limit >= FTS_ROW_LIMIT {
        limit
    } else {
        FTS_ROW_LIMIT
    }
}

/// The source of the pattern, where there is one.
pub open spec fn plan_source(pattern: Option<Pattern>) -> Option<Seq<char>> {
    match pattern {
        Some(pattern) => Some(pattern.source()),
        None => None,
    }
}

/// The plan is the one for `query` and `limit`.
pub open spec fn plans(plan: SearchPlan, query: QueryView, limit: usize) -> bool {
    match plan {
        SearchPlan::Recent { limit: most } => !with_terms(query) && !with_filters(query)
            && query.regex_pattern is None && most == limit,
        SearchPlan::Scan { batch_size, pattern } => !with_terms(query) && query.regex_pattern
            == Some(pattern.source()) && batch_size == fetch_limit_of(limit),
        SearchPlan::Terms { expression, fetch_limit, title_tokens, pattern } => with_terms(query)
            && text_view(expression) == match_expression_of(query) && fetch_limit
            == fetch_limit_of(limit) && texts_of(title_tokens@) == (query.terms
            + query.title_terms).map_values(|token: Seq<char>| lowercase_of(token))
            && plan_source(pattern) == query.regex_pattern,
        SearchPlan::Filtered { fetch_limit } => !with_terms(query) && with_filters(query)
            && query.regex_pattern is None && fetch_limit == fetch_limit_of(limit),
    }
}

/// Decides how the store is asked for the notes of `query`. Fails where
/// the query has a pattern that is no regular expression.
pub fn plan_search(query: &SearchQuery, limit: usize) -> (plan: Result<SearchPlan, SearchPlanError>)
    ensures
        match plan {
            Ok(plan) => plans(plan, query@, limit) && match query@.regex_pattern {
                Some(source) => compiles(source),
                None => true,
            },
            Err(error) => error == SearchPlanError::BadPattern && match query@.regex_pattern {
                Some(source) => !compiles(source),
                None => false,
            },
        },
{
    if !query.has_terms() && !query.has_filters() && query.regex_pattern.is_none() {
        return Ok(SearchPlan::Recent { limit });
    }
    let fetch_limit = if limit >= FTS_ROW_LIMIT {
        limit
    } else {
        FTS_ROW_LIMIT
    };
    let pattern = match &query.regex_pattern {
        Some(source) => match Pattern::compile(source.as_str()) {
            Some(pattern) => Some(pattern),
            None => {
                return Err(SearchPlanError::BadPattern);
            },
        },
        None => None,
    };
    if !query.has_terms() {
        return match pattern {
            Some(pattern) => Ok(SearchPlan::Scan { batch_size: fetch_limit, pattern }),
            None => Ok(SearchPlan::Filtered { fetch_limit }),
        };
    }
    let terms = query.highlight_terms();
    let ghost all = texts_of(terms@);
    let ghost lower = |token: Seq<char>| lowercase_of(token);
    let mut title_tokens: Vec<String> = Vec::new();
    let mut i: usize = 0;
    assert(texts_of(title_tokens@) =~= all.take(0).map_values(lower));
    while i < terms.len()
        invariant
            i <= terms.len(),
            all == texts_of(terms@),
            lower == (|token: Seq<char>| lowercase_of(token)),
            texts_of(title_tokens@) == all.take(i as int).map_values(lower),
        decreases terms.len() - i,
    {
        let ghost before = texts_of(title_tokens@);
        title_tokens.push(lowercase(terms[i].as_str()));
        assert(texts_of(title_tokens@) =~= before.push(lower(all[i as int])));
        assert(all.take(i + 1).map_values(lower) =~= all.take(i as int).map_values(lower).push(
            lower(all[i as int]),
        ));
        i = i + 1;
    }
    assert(all.take(all.len() as int) =~= all);
    Ok(
        SearchPlan::Terms {
            expression: build_match_expression(query),
            fetch_limit,
            title_tokens,
            pattern,
        },
    )
}

/// The pattern finds something in the title or in the body of the note;
/// without a pattern every note counts.
pub open spec fn found_by(source: Option<Seq<char>>, note: NoteView) -> bool {
    match source {
        Some(source) => matches_in(source, note.title) || matches_in(source, note.body),
        None => true,
    }
}

/// The notes that pass the filters of the query and that the pattern
/// finds.
pub open spec fn sifted(notes: Seq<NoteView>, query: QueryView, source: Option<Seq<char>>) -> Seq<
    NoteView,
> {
    notes.filter(|note: NoteView| passes(note, query)).filter(|note: NoteView| found_by(source, note))
}

/// The first `limit` of the notes, or all of them where they are fewer.
pub open spec fn first_of(notes: Seq<NoteView>, limit: usize) -> Seq<NoteView> {
    if notes.len() > limit {
        notes.take(limit as int)
    } else {
        notes
    }
}

/// The source of the pattern, where there is one.
pub open spec fn pattern_source(pattern: Option<&Pattern>) -> Option<Seq<char>> {
    match pattern {
        Some(pattern) => Some(pattern.source()),
        None => None,
    }
}

fn sift(notes: &mut Vec<NoteRecord>, query: &SearchQuery, pattern: Option<&Pattern>)
    ensures
        note_views(final(notes)@) == sifted(note_views(old(notes)@), query@, pattern_source(pattern)),
{
    apply_filters(notes, query);
    let ghost all = note_views(notes@);
    let ghost source = pattern_source(pattern);
    let ghost found = |note: NoteView| found_by(source, note);
    let mut kept: Vec<NoteRecord> = Vec::new();
    let mut i: usize = 0;
    assert(all.take(0) =~= Seq::empty());
    while i < notes.len()
        invariant
            i <= notes.len(),
            all == note_views(notes@),
            source == pattern_source(pattern),
            found == (|note: NoteView| found_by(source, note)),
            note_views(kept@) == all.take(i as int).filter(found),
        decreases notes.len() - i,
    {
        let note = &notes[i];
        proof {
            lemma_filter_push(all.take(i as int), note@, found);
            assert(all.take(i + 1) =~= all.take(i as int).push(note@));
        }
        let keep = match pattern {
            Some(pattern) => pattern.matches(note.title.as_str()) || pattern.matches(
                note.body.as_str(),
            ),
            None => true,
        };
        if keep {
            let ghost before = note_views(kept@);
            kept.push(note.duplicate());
            assert(note_views(kept@) =~= before.push(note@));
        }
        i = i + 1;
    }
    assert(all.take(all.len() as int) =~= all);
    *notes = kept;
}

fn cut_to(notes: &mut Vec<NoteRecord>, limit: usize)
    ensures
        note_views(final(notes)@) == first_of(note_views(old(notes)@), limit),
{
    if notes.len() > limit {
        notes.truncate(limit);
        assert(note_views(notes@) =~= note_views(old(notes)@).take(limit as int));
    }
}

/// What is shown of the notes that the store gave for a search: those
/// that pass the filters of the query and that the pattern finds, at most
/// `limit`.
pub fn refine_results(
    notes: &mut Vec<NoteRecord>,
    query: &SearchQuery,
    pattern: Option<&Pattern>,
    limit: usize,
)
    ensures
        note_views(final(notes)@) == first_of(
            sifted(note_views(old(notes)@), query@, pattern_source(pattern)),
            limit,
        ),
{
    sift(notes, query, pattern);
    cut_to(notes, limit);
}

/// The notes that the full-text index found, with those first whose title
/// holds one of the tokens; as they are without tokens.
pub fn rank_results(notes: Vec<NoteRecord>, title_tokens: &Vec<String>) -> (ranked: Vec<NoteRecord>)
    ensures
        note_views(ranked@) == if title_tokens@.len() == 0 {
            note_views(notes@)
        } else {
            title_first(note_views(notes@), texts_of(title_tokens@))
        },
{
    if title_tokens.is_empty() {
        notes
    } else {
        prioritize_title_matches(notes, title_tokens)
    }
}

/// Takes one batch of a scan of all notes: what passes the filters and the
/// pattern finds is added to the results. Tells whether the scan is over:
/// the batch was empty, or the results have reached `limit`.
pub fn scan_batch(
    results: &mut Vec<NoteRecord>,
    batch: Vec<NoteRecord>,
    query: &SearchQuery,
    pattern: &Pattern,
    limit: usize,
) -> (done: bool)
    ensures
        note_views(final(results)@) == note_views(old(results)@) + sifted(
            note_views(batch@),
            query@,
            Some(pattern.source()),
        ),
        done == (batch@.len() == 0 || final(results)@.len() >= limit),
{
    let ghost before = note_views(results@);
    if batch.is_empty() {
        proof {
            assert(note_views(batch@) =~= Seq::empty());
            assert(sifted(note_views(batch@), query@, Some(pattern.source())) =~= Seq::empty());
            assert(before + Seq::<NoteView>::empty() =~= before);
        }
        return true;
    }
    let mut found = batch;
    sift(&mut found, query, Some(pattern));
    let ghost added = note_views(found@);
    results.append(&mut found);
    assert(note_views(results@) =~= before + added);
    results.len() >= limit
}

/// Ends a scan: the results are cut to `limit`.
pub fn finish_scan(results: &mut Vec<NoteRecord>, limit: usize)
    ensures
        note_views(final(results)@) == first_of(note_views(old(results)@), limit),
{
    cut_to(results, limit);
}

} // verus!
