//! The search query: free terms, title terms, tags, and date ranges, read
//! from one line of input.

use crate::strings::{
    char_is_alphanumeric, chars_find, chars_start_with, chars_strip_prefix, found_at,
    is_alphanumeric, is_prefix, join, joined_of, lowercase, lowercase_of, split_words,
    stripped_of, texts_of, words_of, chars_between,
};
use crate::journal::{lemma_filter_push, MIN_UNIX_SECONDS};
use crate::text::{chars_of, string_of};
use time::{Date, Time};
use vstd::prelude::*;
use vstd::string::*;

verus! {

/// The number of seconds in a day.
pub const SECONDS_PER_DAY: i64 = 86_400;

/// Midnight of the last day that a date can hold, the last of the year
/// 9999, in seconds since the Unix epoch.
pub const LAST_MIDNIGHT: i64 = 253402214400;

/// A range of instants in seconds since the Unix epoch: from `from` on,
/// and before `to`.
#[derive(Debug, Clone, Copy, PartialEq, Eq, Structural)]
pub struct RangeFilter {
    pub from: Option<i64>,
    /// The end of the range, which is not part of it.
    pub to: Option<i64>,
}

impl Default for RangeFilter {
    fn default() -> (range: Self)
        ensures
            range == (RangeFilter { from: None, to: None }),
    {
        RangeFilter { from: None, to: None }
    }
}

impl RangeFilter {
    /// The range that lies in both `self` and `other`: the later start and
    /// the earlier end.
    pub open spec fn merged(self, other: RangeFilter) -> RangeFilter {
        RangeFilter {
            from: match (self.from, other.from) {
                (Some(mine), Some(theirs)) => Some(if mine >= theirs { mine } else { theirs }),
                (None, Some(theirs)) => Some(theirs),
                (mine, None) => mine,
            },
            to: match (self.to, other.to) {
                (Some(mine), Some(theirs)) => Some(if mine <= theirs { mine } else { theirs }),
                (None, Some(theirs)) => Some(theirs),
                (mine, None) => mine,
            },
        }
    }

    /// Whether the range is bounded on either side.
    pub fn has_range(&self) -> (bounded: bool)
        ensures
            bounded == (self.from is Some || self.to is Some),
    {
        self.from.is_some() || self.to.is_some()
    }

    /// Narrows the range to what lies in `other` too.
    pub fn merge(&mut self, other: RangeFilter)
        ensures
            *final(self) == old(self).merged(other),
    {
        if let Some(from) = other.from {
            self.from = Some(
                match self.from {
                    Some(existing) => if existing >= from {
                        existing
                    } else {
                        from
                    },
                    None => from,
                },
            );
        }
        if let Some(to) = other.to {
            self.to = Some(
                match self.to {
                    Some(existing) => if existing <= to {
                        existing
                    } else {
                        to
                    },
                    None => to,
                },
            );
        }
    }
}

/// A search query.
#[derive(Debug, Clone)]
pub struct SearchQuery {
    pub terms: Vec<String>,
    pub title_terms: Vec<String>,
    pub tags: Vec<String>,
    pub created: RangeFilter,
    pub updated: RangeFilter,
    pub regex_pattern: Option<String>,
}

pub struct QueryView {
    pub terms: Seq<Seq<char>>,
    pub title_terms: Seq<Seq<char>>,
    pub tags: Seq<Seq<char>>,
    pub created: RangeFilter,
    pub updated: RangeFilter,
    pub regex_pattern: Option<Seq<char>>,
}

impl View for SearchQuery {
    type V = QueryView;

    open spec fn view(&self) -> QueryView {
        QueryView {
            terms: texts_of(self.terms@),
            title_terms: texts_of(self.title_terms@),
            tags: texts_of(self.tags@),
            created: self.created,
            updated: self.updated,
            regex_pattern: match self.regex_pattern {
                Some(pattern) => Some(pattern@),
                None => None,
            },
        }
    }
}

impl QueryView {
    /// The query that asks for nothing.
    pub open spec fn empty() -> QueryView {
        QueryView {
            terms: seq![],
            title_terms: seq![],
            tags: seq![],
            created: RangeFilter { from: None, to: None },
            updated: RangeFilter { from: None, to: None },
            regex_pattern: None,
        }
    }

    /// The query after the word `raw` of the input has been read: a tag after
    /// `tag:`, in lower case; a title term after `title:`; a date range after
    /// `created:` or `updated:`; else a free term. Terms and tags are
    /// sanitised, and dropped where nothing is left of them.
    pub open spec fn absorb(self, raw: Seq<char>) -> QueryView {
        if stripped_of(raw, tag_prefix()) is Some {
            match sanitized(stripped_of(raw, tag_prefix())->0) {
                Some(value) => QueryView { tags: self.tags.push(lowercase_of(value)), ..self },
                None => self,
            }
        } else if stripped_of(raw, title_prefix()) is Some {
            match sanitized(stripped_of(raw, title_prefix())->0) {
                Some(value) => QueryView { title_terms: self.title_terms.push(value), ..self },
                None => self,
            }
        } else if stripped_of(raw, created_prefix()) is Some {
            QueryView {
                created: self.created.merged(
                    date_range_of(stripped_of(raw, created_prefix())->0),
                ),
                ..self
            }
        } else if stripped_of(raw, updated_prefix()) is Some {
            QueryView {
                updated: self.updated.merged(
                    date_range_of(stripped_of(raw, updated_prefix())->0),
                ),
                ..self
            }
        } else {
            match sanitized(raw) {
                Some(value) => QueryView { terms: self.terms.push(value), ..self },
                None => self,
            }
        }
    }
}

impl Default for SearchQuery {
    fn default() -> (query: Self)
        ensures
            query@ == QueryView::empty(),
    {
        let query = SearchQuery {
            terms: Vec::new(),
            title_terms: Vec::new(),
            tags: Vec::new(),
            created: RangeFilter { from: None, to: None },
            updated: RangeFilter { from: None, to: None },
            regex_pattern: None,
        };
        assert(query@.terms =~= Seq::empty());
        assert(query@.title_terms =~= Seq::empty());
        assert(query@.tags =~= Seq::empty());
        query
    }
}

/// A copy of a list of strings.
pub fn clone_strings(list: &Vec<String>) -> (copy: Vec<String>)
    ensures
        texts_of(copy@) == texts_of(list@),
{
    let mut copy: Vec<String> = Vec::new();
    let mut i: usize = 0;
    while i < list.len()
        invariant
            i <= list.len(),
            texts_of(copy@) == texts_of(list@).take(i as int),
        decreases list.len() - i,
    {
        let ghost before = texts_of(copy@);
        copy.push(list[i].clone());
        assert(texts_of(copy@) =~= before.push(list@[i as int]@));
        assert(texts_of(list@).take(i + 1) =~= texts_of(list@).take(i as int).push(list@[i as int]@));
        i = i + 1;
    }
    assert(texts_of(list@).take(list@.len() as int) =~= texts_of(list@));
    copy
}

impl SearchQuery {
    /// Whether the query holds a free term or a title term.
    pub fn has_terms(&self) -> (any: bool)
        ensures
            any == (self@.terms.len() > 0 || self@.title_terms.len() > 0),
    {
        !self.terms.is_empty() || !self.title_terms.is_empty()
    }

    /// Whether the query filters by tag or by date.
    pub fn has_filters(&self) -> (any: bool)
        ensures
            any == (self@.tags.len() > 0 || self@.created.from is Some || self@.created.to is Some
                || self@.updated.from is Some || self@.updated.to is Some),
    {
        !self.tags.is_empty() || self.created.has_range() || self.updated.has_range()
    }

    /// The terms to emphasise in results: the free terms, then the title
    /// terms.
    pub fn highlight_terms(&self) -> (terms: Vec<String>)
        ensures
            texts_of(terms@) == self@.terms + self@.title_terms,
    {
        let mut terms = clone_strings(&self.terms);
        let mut titles = clone_strings(&self.title_terms);
        let ghost first = texts_of(terms@);
        let ghost second = texts_of(titles@);
        terms.append(&mut titles);
        assert(texts_of(terms@) =~= first + second);
        terms
    }

    /// A copy of the query.
    pub fn duplicate(&self) -> (copy: Self)
        ensures
            copy@ == self@,
    {
        SearchQuery {
            terms: clone_strings(&self.terms),
            title_terms: clone_strings(&self.title_terms),
            tags: clone_strings(&self.tags),
            created: self.created,
            updated: self.updated,
            regex_pattern: match &self.regex_pattern {
                Some(pattern) => Some(pattern.clone()),
                None => None,
            },
        }
    }
}

/// The prefix of a tag filter.
pub open spec fn tag_prefix() -> Seq<char> {
    seq!['t', 'a', 'g', ':']
}

/// The prefix of a title term.
pub open spec fn title_prefix() -> Seq<char> {
    seq!['t', 'i', 't', 'l', 'e', ':']
}

/// The prefix of a filter by creation date.
pub open spec fn created_prefix() -> Seq<char> {
    seq!['c', 'r', 'e', 'a', 't', 'e', 'd', ':']
}

/// The prefix of a filter by modification date.
pub open spec fn updated_prefix() -> Seq<char> {
    seq!['u', 'p', 'd', 'a', 't', 'e', 'd', ':']
}

/// The separator of the two ends of a date range.
pub open spec fn range_separator() -> Seq<char> {
    seq!['.', '.']
}

/// Whether a term keeps the character `c`: letters, digits, and the four
/// marks `-`, `_`, `.` and `/`.
pub open spec fn term_char(c: char) -> bool {
    is_alphanumeric(c) || c == '-' || c == '_' || c == '.' || c == '/'
}

/// The term that is left of `raw` when only [`term_char`]s are kept; none
/// where nothing is left.
pub open spec fn sanitized(raw: Seq<char>) -> Option<Seq<char>> {
    let term = raw.filter(|c: char| term_char(c));
    if term.len() == 0 {
        None
    } else {
        Some(term)
    }
}

/// The query that the words of an input spell, read from the first to the
/// last.
pub open spec fn parsed(words: Seq<Seq<char>>) -> QueryView
    decreases words.len(),
{
    if words.len() == 0 {
        QueryView::empty()
    } else {
        parsed(words.drop_last()).absorb(words.last())
    }
}

/// Reading words never sets a pattern.
pub proof fn lemma_parsed_without_pattern(words: Seq<Seq<char>>)
    ensures
        parsed(words).regex_pattern is None,
    decreases words.len(),
{
    if words.len() > 0 {
        lemma_parsed_without_pattern(words.drop_last());
    }
}

/// Midnight, in seconds since the Unix epoch and in UTC, of the day that
/// `input` names when it is read by the format description `description` of
/// the `time` crate; none where the description is none of the crate's or
/// `input` names no day by it.
pub uninterp spec fn date_midnight(description: Seq<char>, input: Seq<char>) -> Option<i64>;

/// Calls `time::format_description::parse` on `description` and
/// `Date::parse` on `input`, and converts the date to the Unix timestamp of
/// its midnight in UTC. Trusted: the result is the timestamp named
/// [`date_midnight`], and it lies between the midnights of the first and of
/// the last day that a date can hold.
#[verifier::external_body]
pub(crate) fn parse_date(description: &str, input: &str) -> (midnight: Option<i64>)
    ensures
        midnight == date_midnight(description@, input@),
        midnight matches Some(at) ==> MIN_UNIX_SECONDS <= at <= LAST_MIDNIGHT,
{
    let format = time::format_description::parse(description).ok()?;
    let date = Date::parse(input, &format).ok()?;
    Some(date.with_time(Time::MIDNIGHT).assume_utc().unix_timestamp())
}

/// The form in which a query names a day: year, month and day with hyphens
/// between them.
pub open spec fn day_format() -> Seq<char> {
    "[year]-[month]-[day]"@
}

/// The first and the last instant of the day that `input` names, the last
/// one excluded: its midnight and the midnight after it. None where `input`
/// names no day, and none for the last day that a date can hold, which has
/// no day after it.
pub open spec fn day_bounds(input: Seq<char>) -> Option<(i64, i64)> {
    match date_midnight(day_format(), input) {
        Some(from) => if MIN_UNIX_SECONDS <= from < LAST_MIDNIGHT {
            Some((from, (from + SECONDS_PER_DAY) as i64))
        } else {
            None
        },
        None => None,
    }
}

/// The bounds of the day that `input` names.
pub fn parse_single_date(input: &str) -> (bounds: Option<(i64, i64)>)
    ensures
        bounds == day_bounds(input@),
{
    match parse_date("[year]-[month]-[day]", input) {
        Some(from) => if from < LAST_MIDNIGHT {
            Some((from, from + SECONDS_PER_DAY))
        } else {
            None
        },
        None => None,
    }
}

/// `at` is the first offset at which `pattern` stands in `text`.
pub open spec fn first_at(text: Seq<char>, pattern: Seq<char>, at: int) -> bool {
    found_at(text, pattern, at) && forall|k: int| 0 <= k < at ==> !found_at(text, pattern, k)
}

/// The first offset at which `pattern` stands in `text`, if it does.
pub open spec fn first_found(text: Seq<char>, pattern: Seq<char>) -> Option<int> {
    if exists|at: int| first_at(text, pattern, at) {
        Some(choose|at: int| first_at(text, pattern, at))
    } else {
        None
    }
}

/// The date range that `spec` names. A single day stands for that day. Two
/// days with `..` between them stand for the time from the start of the
/// first to the end of the second; either may be left out, and a day that
/// cannot be read bounds nothing. Anything with more than one `..` bounds
/// nothing.
pub open spec fn date_range_of(spec: Seq<char>) -> RangeFilter {
    match first_found(spec, range_separator()) {
        None => match day_bounds(spec) {
            Some((from, to)) => RangeFilter { from: Some(from), to: Some(to) },
            None => RangeFilter { from: None, to: None },
        },
        Some(at) => {
            let head = spec.take(at);
            let tail = spec.skip(at + 2);
            if first_found(tail, range_separator()) is Some {
                RangeFilter { from: None, to: None }
            } else {
                RangeFilter {
                    from: match day_bounds(head) {
                        Some((start, _)) if head.len() > 0 => Some(start),
                        _ => None,
                    },
                    to: match day_bounds(tail) {
                        Some((_, end)) if tail.len() > 0 => Some(end),
                        _ => None,
                    },
                }
            }
        },
    }
}

fn find_first(text: &Vec<char>, pattern: &Vec<char>) -> (at: Option<usize>)
    ensures
        match at {
            Some(at) => first_found(text@, pattern@) == Some(at as int) && at + pattern@.len()
                <= text@.len(),
            None => first_found(text@, pattern@) is None,
        },
{
    match chars_find(text, pattern, 0) {
        Some(at) => {
            proof {
                assert(first_at(text@, pattern@, at as int));
                let other = choose|other: int| first_at(text@, pattern@, other);
                assert(other == at);
            }
            Some(at)
        },
        None => {
            assert forall|k: int| !first_at(text@, pattern@, k) by {
                if 0 <= k {
                    assert(!found_at(text@, pattern@, k));
                }
            }
            None
        },
    }
}

/// Reads a date range.
pub fn parse_date_range(spec: &str) -> (range: RangeFilter)
    ensures
        range == date_range_of(spec@),
{
    let chars = chars_of(spec);
    let separator: Vec<char> = vec!['.', '.'];
    assert(separator@ =~= range_separator());
    match find_first(&chars, &separator) {
        None => match parse_single_date(spec) {
            Some((from, to)) => RangeFilter { from: Some(from), to: Some(to) },
            None => RangeFilter { from: None, to: None },
        },
        Some(at) => {
            let total = chars.len();
            assert(separator@.len() == 2);
            let head = chars_between(&chars, 0, at);
            let tail = chars_between(&chars, at + 2, total);
            assert(head@ =~= spec@.take(at as int));
            assert(tail@ =~= spec@.skip(at + 2));
            if find_first(&tail, &separator).is_some() {
                return RangeFilter { from: None, to: None };
            }
            let mut range = RangeFilter { from: None, to: None };
            if head.len() > 0 {
                if let Some((start, _)) = parse_single_date(string_of(&head).as_str()) {
                    range.from = Some(start);
                }
            }
            if tail.len() > 0 {
                if let Some((_, end)) = parse_single_date(string_of(&tail).as_str()) {
                    range.to = Some(end);
                }
            }
            range
        },
    }
}

/// Keeps the letters, the digits and the marks `-`, `_`, `.` and `/` of
/// `raw`; none where nothing is left.
pub fn sanitize_term(raw: &str) -> (term: Option<String>)
    ensures
        match term {
            Some(term) => sanitized(raw@) == Some(term@),
            None => sanitized(raw@) is None,
        },
{
    sanitize_chars(&chars_of(raw))
}

fn sanitize_chars(raw: &Vec<char>) -> (term: Option<String>)
    ensures
        match term {
            Some(term) => sanitized(raw@) == Some(term@),
            None => sanitized(raw@) is None,
        },
{
    let ghost keep = |c: char| term_char(c);
    let mut term: Vec<char> = Vec::new();
    let mut i: usize = 0;
    assert(raw@.take(0) =~= Seq::empty());
    while i < raw.len()
        invariant
            i <= raw.len(),
            keep == (|c: char| term_char(c)),
            term@ == raw@.take(i as int).filter(keep),
        decreases raw.len() - i,
    {
        let c = raw[i];
        proof {
            lemma_filter_push(raw@.take(i as int), c, keep);
            assert(raw@.take(i + 1) =~= raw@.take(i as int).push(c));
        }
        if char_is_alphanumeric(c) || c == '-' || c == '_' || c == '.' || c == '/' {
            term.push(c);
        }
        i = i + 1;
    }
    assert(raw@.take(raw@.len() as int) =~= raw@);
    if term.len() == 0 {
        None
    } else {
        Some(string_of(&term))
    }
}

fn absorb_word(query: &mut SearchQuery, raw: &String)
    ensures
        final(query)@ == old(query)@.absorb(raw@),
{
    let chars = chars_of(raw.as_str());
    let tag: Vec<char> = vec!['t', 'a', 'g', ':'];
    let title: Vec<char> = vec!['t', 'i', 't', 'l', 'e', ':'];
    let created: Vec<char> = vec!['c', 'r', 'e', 'a', 't', 'e', 'd', ':'];
    let updated: Vec<char> = vec!['u', 'p', 'd', 'a', 't', 'e', 'd', ':'];
    assert(tag@ =~= tag_prefix());
    assert(title@ =~= title_prefix());
    assert(created@ =~= created_prefix());
    assert(updated@ =~= updated_prefix());
    if let Some(rest) = chars_strip_prefix(&chars, &tag) {
        if let Some(value) = sanitize_chars(&rest) {
            let ghost before = texts_of(query.tags@);
            let lowered = lowercase(value.as_str());
            query.tags.push(lowered);
            assert(texts_of(query.tags@) =~= before.push(lowercase_of(value@)));
        }
        return ;
    }
    if let Some(rest) = chars_strip_prefix(&chars, &title) {
        if let Some(value) = sanitize_chars(&rest) {
            let ghost before = texts_of(query.title_terms@);
            query.title_terms.push(value);
            assert(texts_of(query.title_terms@) =~= before.push(value@));
        }
        return ;
    }
    if let Some(rest) = chars_strip_prefix(&chars, &created) {
        let parsed = parse_date_range(string_of(&rest).as_str());
        query.created.merge(parsed);
        return ;
    }
    if let Some(rest) = chars_strip_prefix(&chars, &updated) {
        let parsed = parse_date_range(string_of(&rest).as_str());
        query.updated.merge(parsed);
        return ;
    }
    if let Some(value) = sanitize_chars(&chars) {
        let ghost before = texts_of(query.terms@);
        query.terms.push(value);
        assert(texts_of(query.terms@) =~= before.push(value@));
    }
}

/// Reads a query from one line of input, word by word.
pub fn parse_query(input: &str) -> (query: SearchQuery)
    ensures
        query@ == parsed(words_of(input@)),
{
    let mut query = SearchQuery::default();
    let words = split_words(&chars_of(input));
    let mut i: usize = 0;
    assert(texts_of(words@).take(0) =~= Seq::empty());
    while i < words.len()
        invariant
            i <= words.len(),
            texts_of(words@) == words_of(input@),
            query@ == parsed(texts_of(words@).take(i as int)),
        decreases words.len() - i,
    {
        proof {
            let upto = texts_of(words@).take(i + 1);
            assert(upto.drop_last() =~= texts_of(words@).take(i as int));
            assert(upto.last() == words@[i as int]@);
        }
        absorb_word(&mut query, &words[i]);
        i = i + 1;
    }
    assert(texts_of(words@).take(words@.len() as int) =~= texts_of(words@));
    query
}

/// Whether the word is a filter and no part of a pattern: it starts with
/// `tag:`, `title:`, `created:` or `updated:`.
pub open spec fn is_filter_word(word: Seq<char>) -> bool {
    is_prefix(tag_prefix(), word) || is_prefix(title_prefix(), word) || is_prefix(
        created_prefix(),
        word,
    ) || is_prefix(updated_prefix(), word)
}

/// The pattern that an input spells: its words that are no filters, with
/// one space between them; none where no such word is left.
pub open spec fn pattern_of(input: Seq<char>) -> Option<Seq<char>> {
    let parts = words_of(input).filter(|word: Seq<char>| !is_filter_word(word));
    if parts.len() == 0 {
        None
    } else {
        Some(joined_of(parts, seq![' ']))
    }
}

/// The pattern for a regular-expression search that an input spells.
pub fn regex_pattern_from_input(input: &str) -> (pattern: Option<String>)
    ensures
        match pattern {
            Some(pattern) => pattern_of(input@) == Some(pattern@),
            None => pattern_of(input@) is None,
        },
{
    let tag: Vec<char> = vec!['t', 'a', 'g', ':'];
    let title: Vec<char> = vec!['t', 'i', 't', 'l', 'e', ':'];
    let created: Vec<char> = vec!['c', 'r', 'e', 'a', 't', 'e', 'd', ':'];
    let updated: Vec<char> = vec!['u', 'p', 'd', 'a', 't', 'e', 'd', ':'];
    assert(tag@ =~= tag_prefix());
    assert(title@ =~= title_prefix());
    assert(created@ =~= created_prefix());
    assert(updated@ =~= updated_prefix());
    let ghost keep = |word: Seq<char>| !is_filter_word(word);
    let words = split_words(&chars_of(input));
    let mut parts: Vec<String> = Vec::new();
    let mut i: usize = 0;
    assert(texts_of(words@).take(0) =~= Seq::empty());
    assert(texts_of(parts@) =~= Seq::empty());
    while i < words.len()
        invariant
            i <= words.len(),
            tag@ == tag_prefix(),
            title@ == title_prefix(),
            created@ == created_prefix(),
            updated@ == updated_prefix(),
            keep == (|word: Seq<char>| !is_filter_word(word)),
            texts_of(words@) == words_of(input@),
            texts_of(parts@) == texts_of(words@).take(i as int).filter(keep),
        decreases words.len() - i,
    {
        let raw = chars_of(words[i].as_str());
        proof {
            lemma_filter_push(texts_of(words@).take(i as int), raw@, keep);
            assert(texts_of(words@).take(i + 1) =~= texts_of(words@).take(i as int).push(raw@));
        }
        let filter = chars_start_with(&raw, &tag) || chars_start_with(&raw, &title)
            || chars_start_with(&raw, &created) || chars_start_with(&raw, &updated);
        if !filter {
            let ghost before = texts_of(parts@);
            parts.push(words[i].clone());
            assert(texts_of(parts@) =~= before.push(raw@));
        }
        i = i + 1;
    }
    assert(texts_of(words@).take(words@.len() as int) =~= texts_of(words@));
    if parts.is_empty() {
        None
    } else {
        proof {
            reveal_strlit(" ");
            assert(" "@ =~= seq![' ']);
        }
        Some(join(&parts, " "))
    }
}

} // verus!
