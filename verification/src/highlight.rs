//! Emphasis of search terms: the pattern that finds them, and the cutting
//! of a line into plain and emphasised segments.

use crate::notes::text_view;
use crate::strings::{join, joined_of, lowercase, lowercase_of, texts_of};
use crate::text::{byte_len, is_boundary, slice, substring};
use regex::{Regex, RegexBuilder};
use vstd::prelude::*;
use vstd::string::*;

verus! {

broadcast use vstd::utf8::group_utf8_lib;

#[verifier::external_type_specification]
#[verifier::external_body]
pub struct ExRegex(Regex);

/// Whether `c` has a meaning of its own in a regular expression of the
/// `regex` crate.
pub open spec fn is_meta_character(c: char) -> bool {
    c == '\\' || c == '.' || c == '+' || c == '*' || c == '?' || c == '(' || c == ')' || c == '|'
        || c == '[' || c == ']' || c == '{' || c == '}' || c == '^' || c == '$' || c == '#' || c
        == '&' || c == '-' || c == '~'
}

/// `token` with a backslash before every character that has a meaning of
/// its own in a regular expression.
pub open spec fn escaped_of(token: Seq<char>) -> Seq<char>
    decreases token.len(),
{
    if token.len() == 0 {
        seq![]
    } else if is_meta_character(token.last()) {
        escaped_of(token.drop_last()).push('\\').push(token.last())
    } else {
        escaped_of(token.drop_last()).push(token.last())
    }
}

/// Calls `regex::escape`. Trusted: the result is the token with a backslash
/// before each of its meta characters, [`escaped_of`].
#[verifier::external_body]
pub(crate) fn escape(token: &str) -> (escaped: String)
    ensures
        escaped@ == escaped_of(token@),
{
    regex::escape(token)
}

/// Whether `source` is a regular expression that the `regex` crate
/// compiles, case of letters set aside.
pub uninterp spec fn compiles(source: Seq<char>) -> bool;

/// The matches of the regular expression `source`, case of letters set
/// aside, in `text`: the successive matches that do not overlap, from left
/// to right, each as the byte offsets of its start and of its end.
pub uninterp spec fn match_spans(source: Seq<char>, text: Seq<char>) -> Seq<(usize, usize)>;

/// Whether the regular expression `source`, case of letters set aside,
/// matches somewhere in `text`.
pub uninterp spec fn matches_in(source: Seq<char>, text: Seq<char>) -> bool;

/// A regular expression that ignores the case of letters, with its source.
#[derive(Debug)]
pub struct Pattern {
    source: String,
    regex: Regex,
}

/// Every span lies between two boundaries of `text`, start before end, and
/// no span starts before the one before it has ended.
pub open spec fn spans_fit(spans: Seq<(usize, usize)>, text: Seq<char>) -> bool {
    &&& forall|i: int|
        0 <= i < spans.len() ==> (#[trigger] spans[i]).0 <= spans[i].1 && is_boundary(
            text,
            spans[i].0 as int,
        ) && is_boundary(text, spans[i].1 as int)
    &&& forall|i: int| 0 <= i < spans.len() - 1 ==> (#[trigger] spans[i]).1 <= spans[i + 1].0
}

impl Pattern {
    /// The source of the pattern.
    pub closed spec fn source(&self) -> Seq<char> {
        self.source@
    }

    /// Calls `RegexBuilder::new`, `case_insensitive(true)` and `build`.
    /// Trusted: the build succeeds on the sources named [`compiles`], and the
    /// pattern remembers its source.
    #[verifier::external_body]
    pub(crate) fn compile(source: &str) -> (pattern: Option<Pattern>)
        ensures
            pattern is Some == compiles(source@),
            pattern matches Some(made) ==> made.source() == source@,
    {
        let regex = RegexBuilder::new(source).case_insensitive(true).build().ok()?;
        Some(Pattern { source: source.to_string(), regex })
    }

    /// Calls `Regex::find_iter` and hands out each match as its start and
    /// its end. Trusted: the result is the matches named [`match_spans`];
    /// they are successive and do not overlap, and each is a slice of the
    /// text.
    #[verifier::external_body]
    pub(crate) fn find_spans(&self, text: &str) -> (spans: Vec<(usize, usize)>)
        ensures
            spans@ == match_spans(self.source(), text@),
            spans_fit(spans@, text@),
    {
        self.regex.find_iter(text).map(|found| (found.start(), found.end())).collect()
    }

    /// Calls `Regex::is_match`. Trusted: the result is what is named
    /// [`matches_in`].
    #[verifier::external_body]
    pub(crate) fn is_match(&self, text: &str) -> (found: bool)
        ensures
            found == matches_in(self.source(), text@),
    {
        self.regex.is_match(text)
    }

    /// The source of the pattern.
    pub fn as_str(&self) -> (source: &str)
        ensures
            source@ == self.source(),
    {
        self.source.as_str()
    }

    /// The compiled regular expression.
    pub fn regex(&self) -> (regex: &Regex)
        ensures
            *regex == self.compiled(),
    {
        &self.regex
    }

    /// Whether the pattern matches somewhere in `text`.
    pub fn matches(&self, text: &str) -> (found: bool)
        ensures
            found == matches_in(self.source(), text@),
    {
        self.is_match(text)
    }

    /// The regular expression that was compiled from the source of the
    /// pattern.
    pub closed spec fn compiled(&self) -> Regex {
        self.regex
    }
}

/// One of `kept` is `token` but for the case of letters.
pub open spec fn seen_in(kept: Seq<Seq<char>>, token: Seq<char>) -> bool {
    exists|k: int| 0 <= k < kept.len() && lowercase_of(#[trigger] kept[k]) == lowercase_of(token)
}

/// The tokens without the empty ones and without those that came before
/// but for the case of letters.
pub open spec fn unique_tokens(tokens: Seq<Seq<char>>) -> Seq<Seq<char>>
    decreases tokens.len(),
{
    if tokens.len() == 0 {
        seq![]
    } else {
        let kept = unique_tokens(tokens.drop_last());
        if tokens.last().len() > 0 && !seen_in(kept, tokens.last()) {
            kept.push(tokens.last())
        } else {
            kept
        }
    }
}

/// `list` with `token` behind the last entry that is at least as long in
/// bytes.
pub open spec fn inserted_by_length(list: Seq<Seq<char>>, token: Seq<char>) -> Seq<Seq<char>>
    decreases list.len(),
{
    if list.len() == 0 {
        seq![token]
    } else if byte_len(list.last()) >= byte_len(token) {
        list.push(token)
    } else {
        inserted_by_length(list.drop_last(), token).push(list.last())
    }
}

/// The tokens with the longest first, tokens of one length in the order
/// they had.
pub open spec fn longest_first(tokens: Seq<Seq<char>>) -> Seq<Seq<char>>
    decreases tokens.len(),
{
    if tokens.len() == 0 {
        seq![]
    } else {
        inserted_by_length(longest_first(tokens.drop_last()), tokens.last())
    }
}

/// The source of the pattern that finds the tokens: the unique tokens, the
/// longest first, each escaped, with bars between them; none where no token
/// is left.
pub open spec fn highlight_source(tokens: Seq<Seq<char>>) -> Option<Seq<char>> {
    let unique = longest_first(unique_tokens(tokens));
    if unique.len() == 0 {
        None
    } else {
        Some(joined_of(unique.map_values(|token: Seq<char>| escaped_of(token)), seq!['|']))
    }
}

fn is_seen(lowered: &Vec<String>, wanted: &String, Ghost(kept): Ghost<Seq<Seq<char>>>, Ghost(token): Ghost<Seq<char>>) -> (found: bool)
    requires
        lowered@.len() == kept.len(),
        forall|k: int| 0 <= k < kept.len() ==> (#[trigger] lowered@[k])@ == lowercase_of(kept[k]),
        wanted@ == lowercase_of(token),
    ensures
        found == seen_in(kept, token),
{
    let mut i: usize = 0;
    while i < lowered.len()
        invariant
            i <= lowered.len(),
            lowered@.len() == kept.len(),
            forall|k: int| 0 <= k < kept.len() ==> (#[trigger] lowered@[k])@ == lowercase_of(kept[k]),
            wanted@ == lowercase_of(token),
            forall|k: int| 0 <= k < i ==> lowercase_of(#[trigger] kept[k]) != lowercase_of(token),
        decreases lowered.len() - i,
    {
        if lowered[i] == *wanted {
            assert(lowercase_of(kept[i as int]) == lowercase_of(token));
            return true;
        }
        assert(lowered@[i as int]@ == lowercase_of(kept[i as int]));
        i = i + 1;
    }
    false
}

/// Builds the source of the pattern that finds the tokens.
pub fn highlight_pattern(tokens: &Vec<String>) -> (source: Option<String>)
    ensures
        text_view(source) == highlight_source(texts_of(tokens@)),
{
    let ghost all = texts_of(tokens@);
    let mut unique: Vec<String> = Vec::new();
    let mut seen: Vec<String> = Vec::new();
    let mut i: usize = 0;
    assert(all.take(0) =~= Seq::empty());
    assert(texts_of(unique@) =~= unique_tokens(all.take(0)));
    while i < tokens.len()
        invariant
            i <= tokens.len(),
            all == texts_of(tokens@),
            texts_of(unique@) == unique_tokens(all.take(i as int)),
            seen@.len() == unique@.len(),
            forall|k: int|
                0 <= k < unique@.len() ==> (#[trigger] seen@[k])@ == lowercase_of(texts_of(unique@)[k]),
        decreases tokens.len() - i,
    {
        let token = &tokens[i];
        proof {
            assert(all.take(i + 1).drop_last() =~= all.take(i as int));
            assert(all.take(i + 1).last() == token@);
        }
        if !token.as_str().is_empty() {
            let lowered = lowercase(token.as_str());
            if !is_seen(&seen, &lowered, Ghost(texts_of(unique@)), Ghost(token@)) {
                let ghost before = texts_of(unique@);
                unique.push(token.clone());
                seen.push(lowered);
                assert(texts_of(unique@) =~= before.push(token@));
            }
        }
        i = i + 1;
    }
    assert(all.take(all.len() as int) =~= all);
    if unique.is_empty() {
        return None;
    }
    let ghost kept = texts_of(unique@);
    let mut sorted: Vec<String> = Vec::new();
    let mut k: usize = 0;
    assert(kept.take(0) =~= Seq::empty());
    assert(texts_of(sorted@) =~= longest_first(kept.take(0)));
    while k < unique.len()
        invariant
            k <= unique.len(),
            kept == texts_of(unique@),
            texts_of(sorted@) == longest_first(kept.take(k as int)),
        decreases unique.len() - k,
    {
        let token = unique[k].clone();
        let size = token.as_str().as_bytes().len();
        let ghost base = texts_of(sorted@);
        let mut at: usize = sorted.len();
        proof {
            assert(base.take(at as int) =~= base);
            assert(inserted_by_length(base, token@) + base.skip(at as int) =~= inserted_by_length(
                base,
                token@,
            ));
        }
        while at > 0 && sorted[at - 1].as_str().as_bytes().len() < size
            invariant
                at <= sorted.len(),
                base == texts_of(sorted@),
                size == byte_len(token@),
                inserted_by_length(base, token@) == inserted_by_length(base.take(at as int), token@)
                    + base.skip(at as int),
            decreases at,
        {
            proof {
                let head = base.take(at as int);
                assert(head.last() == sorted@[at - 1]@);
                assert(head.drop_last() =~= base.take(at - 1));
                assert(inserted_by_length(head.drop_last(), token@).push(head.last()) + base.skip(
                    at as int,
                ) =~= inserted_by_length(base.take(at - 1), token@) + base.skip(at - 1));
            }
            at = at - 1;
        }
        proof {
            let head = base.take(at as int);
            if at > 0 {
                assert(head.last() == sorted@[at - 1]@);
            }
            assert(inserted_by_length(head, token@) == head.push(token@));
            assert(kept.take(k + 1).drop_last() =~= kept.take(k as int));
        }
        sorted.insert(at, token);
        assert(texts_of(sorted@) =~= base.take(at as int).push(token@) + base.skip(at as int));
        k = k + 1;
    }
    assert(kept.take(kept.len() as int) =~= kept);
    let ghost ordered = texts_of(sorted@);
    let ghost esc = |token: Seq<char>| escaped_of(token);
    let mut parts: Vec<String> = Vec::new();
    let mut j: usize = 0;
    assert(texts_of(parts@) =~= ordered.take(0).map_values(esc));
    while j < sorted.len()
        invariant
            j <= sorted.len(),
            ordered == texts_of(sorted@),
            esc == (|token: Seq<char>| escaped_of(token)),
            texts_of(parts@) == ordered.take(j as int).map_values(esc),
        decreases sorted.len() - j,
    {
        let part = escape(sorted[j].as_str());
        let ghost before = texts_of(parts@);
        parts.push(part);
        assert(texts_of(parts@) =~= before.push(part@));
        assert(ordered.take(j + 1).map_values(esc) =~= ordered.take(j as int).map_values(esc).push(
            esc(ordered[j as int]),
        ));
        j = j + 1;
    }
    assert(ordered.take(ordered.len() as int) =~= ordered);
    proof {
        reveal_strlit("|");
        assert("|"@ =~= seq!['|']);
        lemma_longest_first_len(unique_tokens(all));
    }
    Some(join(&parts, "|"))
}

/// Sorting keeps the number of tokens.
pub proof fn lemma_longest_first_len(tokens: Seq<Seq<char>>)
    ensures
        longest_first(tokens).len() == tokens.len(),
    decreases tokens.len(),
{
    if tokens.len() > 0 {
        lemma_longest_first_len(tokens.drop_last());
        lemma_inserted_by_length_len(longest_first(tokens.drop_last()), tokens.last());
    }
}

/// Inserting adds one token.
pub proof fn lemma_inserted_by_length_len(list: Seq<Seq<char>>, token: Seq<char>)
    ensures
        inserted_by_length(list, token).len() == list.len() + 1,
    decreases list.len(),
{
    if list.len() > 0 && byte_len(list.last()) < byte_len(token) {
        lemma_inserted_by_length_len(list.drop_last(), token);
    }
}

/// Builds the pattern that finds the tokens, whatever the case of their
/// letters, the longer token before the shorter; none without tokens, and
/// none where the source does not compile.
pub fn build_highlight_regex(tokens: &Vec<String>) -> (pattern: Option<Pattern>)
    ensures
        match highlight_source(texts_of(tokens@)) {
            Some(source) => pattern is Some == compiles(source) && (pattern matches Some(made)
                ==> made.source() == source),
            None => pattern is None,
        },
{
    if tokens.is_empty() {
        assert(texts_of(tokens@) =~= Seq::empty());
        return None;
    }
    match highlight_pattern(tokens) {
        Some(source) => Pattern::compile(source.as_str()),
        None => None,
    }
}

/// A piece of a line, emphasised or not.
#[derive(Debug, Clone, PartialEq, Eq)]
pub struct Segment {
    pub text: String,
    pub highlighted: bool,
}

pub struct SegmentView {
    pub text: Seq<char>,
    pub highlighted: bool,
}

impl View for Segment {
    type V = SegmentView;

    open spec fn view(&self) -> SegmentView {
        SegmentView { text: self.text@, highlighted: self.highlighted }
    }
}

/// The segments of a list, as mathematical values.
pub open spec fn segment_views(segments: Seq<Segment>) -> Seq<SegmentView> {
    segments.map_values(|segment: Segment| segment@)
}

/// The segments of `text` up to the end of the last of `spans`: each span
/// emphasised, and plain what lies between the end of one span and the start
/// of the next.
pub open spec fn cut_upto(text: Seq<char>, spans: Seq<(usize, usize)>) -> Seq<SegmentView>
    decreases spans.len(),
{
    if spans.len() == 0 {
        seq![]
    } else {
        let last = reached(spans.drop_last());
        let span = spans.last();
        cut_upto(text, spans.drop_last()) + (if span.0 > last {
            seq![SegmentView { text: slice(text, last as int, span.0 as int), highlighted: false }]
        } else {
            seq![]
        }) + seq![SegmentView { text: slice(text, span.0 as int, span.1 as int), highlighted: true }]
    }
}

/// The end of the last of `spans`, or the start of the text.
pub open spec fn reached(spans: Seq<(usize, usize)>) -> usize {
    if spans.len() == 0 {
        0
    } else {
        spans.last().1
    }
}

/// The segments of `text` with the `spans` emphasised: the segments up to
/// the last span, what is left of the text behind it, and the whole text as
/// one plain segment where that gives nothing.
pub open spec fn cut(text: Seq<char>, spans: Seq<(usize, usize)>) -> Seq<SegmentView> {
    let segments = cut_upto(text, spans) + (if reached(spans) < byte_len(text) {
        seq![
            SegmentView {
                text: slice(text, reached(spans) as int, byte_len(text)),
                highlighted: false,
            },
        ]
    } else {
        seq![]
    });
    if segments.len() == 0 {
        seq![SegmentView { text, highlighted: false }]
    } else {
        segments
    }
}

/// Cuts `text` into segments with the `spans` emphasised.
pub fn highlight_spans(text: &str, spans: &Vec<(usize, usize)>) -> (segments: Vec<Segment>)
    requires
        spans_fit(spans@, text@),
    ensures
        segment_views(segments@) == cut(text@, spans@),
{
    let len = text.as_bytes().len();
    let mut segments: Vec<Segment> = Vec::new();
    let mut last: usize = 0;
    let mut i: usize = 0;
    proof {
        vstd::utf8::is_char_boundary_start_end_of_seq(crate::text::bytes_of(text@));
        assert(spans@.take(0) =~= Seq::empty());
        assert(segment_views(segments@) =~= cut_upto(text@, spans@.take(0)));
    }
    while i < spans.len()
        invariant
            i <= spans.len(),
            spans_fit(spans@, text@),
            len == byte_len(text@),
            last == reached(spans@.take(i as int)),
            is_boundary(text@, last as int),
            segment_views(segments@) == cut_upto(text@, spans@.take(i as int)),
        decreases spans.len() - i,
    {
        let (start, end) = spans[i];
        proof {
            assert(spans@.take(i + 1).drop_last() =~= spans@.take(i as int));
            assert(spans@.take(i + 1).last() == spans@[i as int]);
        }
        let ghost before = segment_views(segments@);
        if start > last {
            segments.push(
                Segment { text: String::from_str(substring(text, last, start)), highlighted: false },
            );
        }
        segments.push(
            Segment { text: String::from_str(substring(text, start, end)), highlighted: true },
        );
        assert(segment_views(segments@) =~= before + (if start > last {
            seq![SegmentView { text: slice(text@, last as int, start as int), highlighted: false }]
        } else {
            seq![]
        }) + seq![SegmentView { text: slice(text@, start as int, end as int), highlighted: true }]);
        last = end;
        i = i + 1;
    }
    assert(spans@.take(spans@.len() as int) =~= spans@);
    let ghost upto = segment_views(segments@);
    if last < len {
        segments.push(
            Segment { text: String::from_str(substring(text, last, len)), highlighted: false },
        );
        assert(segment_views(segments@) =~= upto + seq![
            SegmentView { text: slice(text@, last as int, len as int), highlighted: false },
        ]);
    } else {
        assert(segment_views(segments@) =~= upto + Seq::<SegmentView>::empty());
    }
    if segments.is_empty() {
        segments.push(Segment { text: String::from_str(text), highlighted: false });
        assert(segment_views(segments@) =~= seq![SegmentView { text: text@, highlighted: false }]);
    }
    segments
}

/// The segments of `text` when the matches of the pattern `source` are
/// emphasised; the text as one plain segment without a pattern.
pub open spec fn highlighted(text: Seq<char>, source: Option<Seq<char>>) -> Seq<SegmentView> {
    match source {
        Some(source) => cut(text, match_spans(source, text)),
        None => seq![SegmentView { text, highlighted: false }],
    }
}

/// The source of the pattern, where there is one.
pub open spec fn source_of(pattern: Option<&Pattern>) -> Option<Seq<char>> {
    match pattern {
        Some(pattern) => Some(pattern.source()),
        None => None,
    }
}

/// Cuts `text` into segments with the matches of the pattern emphasised.
pub fn highlight_line(text: &str, pattern: Option<&Pattern>) -> (segments: Vec<Segment>)
    ensures
        segment_views(segments@) == highlighted(text@, source_of(pattern)),
{
    match pattern {
        Some(pattern) => {
            let spans = pattern.find_spans(text);
            highlight_spans(text, &spans)
        },
        None => {
            let mut segments: Vec<Segment> = Vec::new();
            segments.push(Segment { text: String::from_str(text), highlighted: false });
            assert(segment_views(segments@) =~= seq![SegmentView { text: text@, highlighted: false }]);
            segments
        },
    }
}

} // verus!
