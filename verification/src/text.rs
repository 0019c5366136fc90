//! Grapheme index: boundary offsets, line starts and ends, and column
//! positions over a UTF-8 text buffer.
//!
//! Every offset in this module is a byte offset into the UTF-8 encoding of
//! the text. Contracts speak of the text through its characters (`text@`)
//! and of its encoding through [`bytes_of`].

use unicode_segmentation::UnicodeSegmentation;
use vstd::prelude::*;
use vstd::string::*;
use vstd::utf8::*;

verus! {

broadcast use vstd::utf8::group_utf8_lib;

/// The UTF-8 encoding of `text`.
pub open spec fn bytes_of(text: Seq<char>) -> Seq<u8> {
    encode_utf8(text)
}

/// The length of `text` in bytes.
pub open spec fn byte_len(text: Seq<char>) -> int {
    bytes_of(text).len() as int
}

/// `at` is an offset in `text` that does not fall inside the encoding of a
/// character.
pub open spec fn is_boundary(text: Seq<char>, at: int) -> bool {
    0 <= at <= byte_len(text) && is_char_boundary(bytes_of(text), at)
}

/// The characters of `text` that are encoded in the bytes `from..to`.
pub open spec fn slice(text: Seq<char>, from: int, to: int) -> Seq<char> {
    decode_utf8(bytes_of(text).subrange(from, to))
}

/// Encoding distributes over concatenation.
pub proof fn lemma_encode_concat(a: Seq<char>, b: Seq<char>)
    ensures
        encode_utf8(a + b) == encode_utf8(a) + encode_utf8(b),
    decreases a.len(),
{
    if a.len() == 0 {
        assert(a + b =~= b);
        assert(encode_utf8(a) + encode_utf8(b) =~= encode_utf8(b));
    } else {
        lemma_encode_concat(a.drop_first(), b);
        assert((a + b).drop_first() =~= a.drop_first() + b);
        assert((a + b)[0] == a[0]);
        assert(encode_utf8(a + b) =~= encode_utf8(a) + encode_utf8(b));
    }
}

/// In a valid encoding the boundaries are the two ends and the offsets of
/// the bytes that are no continuation bytes.
pub proof fn lemma_boundary_by_byte(bytes: Seq<u8>, at: int)
    requires
        valid_utf8(bytes),
    ensures
        is_char_boundary(bytes, at) <==> (at == 0 || at == bytes.len() || (0 < at < bytes.len()
            && !is_continuation_byte(bytes[at]))),
{
    is_char_boundary_start_end_of_seq(bytes);
    if 0 <= at < bytes.len() {
        is_char_boundary_iff_not_is_continuation_byte(bytes, at);
    } else if at != bytes.len() {
        reveal_with_fuel(is_char_boundary, 1);
    }
}

/// The boundaries of a slice between two boundaries are the boundaries of
/// the text that lie in it.
pub proof fn lemma_slice_boundaries(text: Seq<char>, from: int, to: int)
    requires
        is_boundary(text, from),
        is_boundary(text, to),
        from <= to,
    ensures
        bytes_of(slice(text, from, to)) == bytes_of(text).subrange(from, to),
        byte_len(slice(text, from, to)) == to - from,
        forall|k: int|
            0 <= k <= to - from ==> (#[trigger] is_boundary(slice(text, from, to), k)
                <==> is_boundary(text, from + k)),
{
    let bytes = bytes_of(text);
    let part = bytes.subrange(from, to);
    valid_utf8_split(bytes, to);
    let head = bytes.subrange(0, to);
    assert(is_char_boundary(head, from)) by {
        lemma_boundary_by_byte(bytes, from);
        lemma_boundary_by_byte(head, from);
    }
    valid_utf8_split(head, from);
    assert(head.subrange(from, head.len() as int) =~= part);
    assert(valid_utf8(part));
    assert(bytes_of(slice(text, from, to)) == part);
    assert forall|k: int| 0 <= k <= to - from implies (#[trigger] is_boundary(
        slice(text, from, to),
        k,
    ) <==> is_boundary(text, from + k)) by {
        lemma_boundary_by_byte(part, k);
        lemma_boundary_by_byte(bytes, from + k);
        lemma_boundary_by_byte(bytes, from);
        lemma_boundary_by_byte(bytes, to);
    }
}

/// The part of `text` between two boundaries.
pub fn substring<'a>(text: &'a str, from: usize, to: usize) -> (part: &'a str)
    requires
        is_boundary(text@, from as int),
        is_boundary(text@, to as int),
        from <= to,
    ensures
        part@ == slice(text@, from as int, to as int),
{
    let (head, _) = text.split_at(to);
    proof {
        let bytes = bytes_of(text@);
        valid_utf8_split(bytes, to as int);
        lemma_boundary_by_byte(bytes, from as int);
        lemma_boundary_by_byte(head.spec_bytes(), from as int);
    }
    let (_, part) = head.split_at(from);
    proof {
        assert(part.spec_bytes() =~= bytes_of(text@).subrange(from as int, to as int));
        assert(decode_utf8(encode_utf8(part@)) == part@);
    }
    part
}


/// The extended grapheme clusters of `text`, in order: for each cluster the
/// byte offset at which it starts and its length in bytes.
pub uninterp spec fn grapheme_clusters(text: Seq<char>) -> Seq<(usize, usize)>;

/// `spans` cover the encoding of `text` from its first byte to its last,
/// in order, without gaps or empty spans, and each starts on a boundary.
pub open spec fn tiles(spans: Seq<(usize, usize)>, text: Seq<char>) -> bool {
    &&& (spans.len() == 0 <==> byte_len(text) == 0)
    &&& spans.len() > 0 ==> spans[0].0 == 0 && spans.last().0 + spans.last().1 == byte_len(text)
    &&& forall|i: int|
        0 <= i < spans.len() ==> (#[trigger] spans[i]).1 >= 1 && is_boundary(text, spans[i].0 as int)
    &&& forall|i: int|
        0 <= i < spans.len() - 1 ==> (#[trigger] spans[i]).0 + spans[i].1 == spans[i + 1].0
}

/// Calls `UnicodeSegmentation::grapheme_indices` with extended clusters and
/// hands out each cluster as its offset and its length. Trusted: the result
/// is the segmentation named [`grapheme_clusters`], and, as the iterator
/// yields consecutive non-empty slices of the text until it is used up, the
/// clusters tile the text.
#[verifier::external_body]
pub(crate) fn grapheme_spans(text: &str) -> (spans: Vec<(usize, usize)>)
    ensures
        spans@ == grapheme_clusters(text@),
        tiles(spans@, text@),
{
    text.grapheme_indices(true).map(|(start, cluster)| (start, cluster.len())).collect()
}

/// The start of the cluster that ends at `cursor`, when the text before
/// `cursor` is segmented on its own; 0 at the start of the text.
pub open spec fn prev_boundary(text: Seq<char>, cursor: int) -> int {
    let spans = grapheme_clusters(slice(text, 0, cursor));
    if cursor <= 0 || spans.len() == 0 {
        0
    } else {
        spans.last().0 as int
    }
}

/// The end of the cluster that starts at `cursor`, when the text from
/// `cursor` on is segmented on its own; the end of the text at or past it.
pub open spec fn next_boundary(text: Seq<char>, cursor: int) -> int {
    let spans = grapheme_clusters(slice(text, cursor, byte_len(text)));
    if cursor >= byte_len(text) || spans.len() == 0 {
        byte_len(text)
    } else {
        cursor + spans[0].1
    }
}

/// Steps back over one grapheme cluster.
pub fn prev_grapheme_boundary(text: &str, cursor: usize) -> (prev: usize)
    requires
        is_boundary(text@, cursor as int),
    ensures
        prev == prev_boundary(text@, cursor as int),
        is_boundary(text@, prev as int),
        prev <= cursor,
        cursor > 0 ==> prev < cursor,
{
    if cursor == 0 {
        return 0;
    }
    proof {
        is_char_boundary_start_end_of_seq(bytes_of(text@));
        lemma_slice_boundaries(text@, 0, cursor as int);
    }
    let spans = grapheme_spans(substring(text, 0, cursor));
    if spans.len() == 0 {
        0
    } else {
        spans[spans.len() - 1].0
    }
}

/// Steps forward over one grapheme cluster.
pub fn next_grapheme_boundary(text: &str, cursor: usize) -> (next: usize)
    requires
        cursor < byte_len(text@) ==> is_boundary(text@, cursor as int),
    ensures
        next == next_boundary(text@, cursor as int),
        is_boundary(text@, next as int),
        cursor < byte_len(text@) ==> cursor < next,
{
    let len = text.as_bytes().len();
    proof {
        is_char_boundary_start_end_of_seq(bytes_of(text@));
    }
    if cursor >= len {
        return len;
    }
    proof {
        lemma_slice_boundaries(text@, cursor as int, len as int);
    }
    let spans = grapheme_spans(substring(text, cursor, len));
    if spans.len() == 0 {
        len
    } else {
        proof {
            let part = slice(text@, cursor as int, len as int);
            let first = spans@[0];
            if spans@.len() == 1 {
                assert(first == spans@.last());
            } else {
                assert(is_boundary(part, spans@[1].0 as int));
            }
            assert(is_boundary(part, first.1 as int));
        }
        cursor + spans[0].1
    }
}

/// The byte that encodes a line feed.
pub open spec fn newline() -> u8 {
    10
}

/// The offset just past the last line feed before `cursor`, or 0.
pub open spec fn line_start_in(bytes: Seq<u8>, cursor: int) -> int
    decreases cursor,
{
    if cursor <= 0 {
        0
    } else if bytes[cursor - 1] == newline() {
        cursor
    } else {
        line_start_in(bytes, cursor - 1)
    }
}

/// The offset of the first line feed at or after `cursor`, or the length.
pub open spec fn line_end_in(bytes: Seq<u8>, cursor: int) -> int
    decreases bytes.len() - cursor,
{
    if cursor >= bytes.len() {
        bytes.len() as int
    } else if cursor >= 0 && bytes[cursor] == newline() {
        cursor
    } else {
        line_end_in(bytes, cursor + 1)
    }
}

/// The start of the line that holds `cursor`.
pub open spec fn line_start_of(text: Seq<char>, cursor: int) -> int {
    line_start_in(bytes_of(text), cursor)
}

/// The end of the line that holds `cursor`: the offset of its line feed, or
/// the end of the text.
pub open spec fn line_end_of(text: Seq<char>, cursor: int) -> int {
    line_end_in(bytes_of(text), cursor)
}

/// What [`line_start_in`] finds: no line feed lies between it and the cursor,
/// and it is the start of the bytes or follows a line feed.
pub proof fn lemma_line_start(bytes: Seq<u8>, cursor: int)
    requires
        0 <= cursor <= bytes.len(),
    ensures
        0 <= line_start_in(bytes, cursor) <= cursor,
        line_start_in(bytes, cursor) == 0 || bytes[line_start_in(bytes, cursor) - 1] == newline(),
        forall|i: int| line_start_in(bytes, cursor) <= i < cursor ==> bytes[i] != newline(),
    decreases cursor,
{
    if cursor > 0 && bytes[cursor - 1] != newline() {
        lemma_line_start(bytes, cursor - 1);
    }
}

/// What [`line_end_in`] finds: no line feed lies between the cursor and it,
/// and it is the end of the bytes or holds a line feed.
pub proof fn lemma_line_end(bytes: Seq<u8>, cursor: int)
    requires
        0 <= cursor <= bytes.len(),
    ensures
        cursor <= line_end_in(bytes, cursor) <= bytes.len(),
        line_end_in(bytes, cursor) == bytes.len() || bytes[line_end_in(bytes, cursor)] == newline(),
        forall|i: int| cursor <= i < line_end_in(bytes, cursor) ==> bytes[i] != newline(),
    decreases bytes.len() - cursor,
{
    if cursor < bytes.len() && bytes[cursor] != newline() {
        lemma_line_end(bytes, cursor + 1);
    }
}

/// The offset after a one-byte character is a boundary.
pub proof fn lemma_boundary_after_ascii(bytes: Seq<u8>, at: int)
    requires
        valid_utf8(bytes),
        0 <= at < bytes.len(),
        bytes[at] < 0x80,
    ensures
        is_char_boundary(bytes, at),
        is_char_boundary(bytes, at + 1),
{
    lemma_boundary_by_byte(bytes, at);
    valid_utf8_split(bytes, at);
    let rest = bytes.subrange(at, bytes.len() as int);
    assert(rest[0] == bytes[at]);
    assert(is_char_boundary(rest, 1)) by {
        reveal_with_fuel(valid_utf8, 2);
        reveal_with_fuel(is_char_boundary, 2);
    }
    lemma_boundary_by_byte(rest, 1);
    lemma_boundary_by_byte(bytes, at + 1);
    if at + 1 < bytes.len() {
        assert(rest[1] == bytes[at + 1]);
    }
}

/// The start of the line that holds `cursor`: the offset after the last
/// line feed before it, or 0.
pub fn line_start(text: &str, cursor: usize) -> (start: usize)
    requires
        is_boundary(text@, cursor as int),
    ensures
        start == line_start_of(text@, cursor as int),
        is_boundary(text@, start as int),
        start <= cursor,
{
    let bytes = text.as_bytes();
    let mut at: usize = cursor;
    while at > 0 && bytes[at - 1] != 10
        invariant
            at <= cursor <= bytes@.len(),
            bytes@ == bytes_of(text@),
            line_start_in(bytes@, at as int) == line_start_in(bytes@, cursor as int),
        decreases at,
    {
        at = at - 1;
    }
    proof {
        is_char_boundary_start_end_of_seq(bytes@);
        if at > 0 {
            lemma_boundary_after_ascii(bytes@, at - 1);
        }
    }
    at
}

/// The end of the line that holds `cursor`: the offset of the next line
/// feed at or after it, or the end of the text.
pub fn line_end(text: &str, cursor: usize) -> (end: usize)
    requires
        is_boundary(text@, cursor as int),
    ensures
        end == line_end_of(text@, cursor as int),
        is_boundary(text@, end as int),
        cursor <= end,
{
    let bytes = text.as_bytes();
    let mut at: usize = cursor;
    while at < bytes.len() && bytes[at] != 10
        invariant
            cursor <= at <= bytes@.len(),
            bytes@ == bytes_of(text@),
            line_end_in(bytes@, at as int) == line_end_in(bytes@, cursor as int),
        decreases bytes@.len() - at,
    {
        at = at + 1;
    }
    proof {
        is_char_boundary_start_end_of_seq(bytes@);
        if at < bytes@.len() {
            lemma_boundary_after_ascii(bytes@, at as int);
        }
    }
    at
}

/// The number of grapheme clusters between `line_start` and `cursor`.
pub open spec fn column_of(text: Seq<char>, line_start: int, cursor: int) -> int {
    grapheme_clusters(slice(text, line_start, cursor)).len() as int
}

/// The column of `cursor` on the line that starts at `line_start`, counted
/// in grapheme clusters.
pub fn column_at(text: &str, line_start: usize, cursor: usize) -> (column: usize)
    requires
        is_boundary(text@, line_start as int),
        is_boundary(text@, cursor as int),
        line_start <= cursor,
    ensures
        column == column_of(text@, line_start as int, cursor as int),
        column <= cursor - line_start,
{
    let spans = grapheme_spans(substring(text, line_start, cursor));
    proof {
        lemma_slice_boundaries(text@, line_start as int, cursor as int);
        lemma_tiles_count(spans@, slice(text@, line_start as int, cursor as int), spans@.len() as int);
    }
    spans.len()
}

/// Tiling spans are no more than the bytes they cover: the `k`-th span
/// starts at or after offset `k`.
pub proof fn lemma_tiles_count(spans: Seq<(usize, usize)>, text: Seq<char>, k: int)
    requires
        tiles(spans, text),
        0 <= k <= spans.len(),
    ensures
        k < spans.len() ==> k <= spans[k].0,
        k <= byte_len(text),
        k < spans.len() ==> spans[k].0 + spans[k].1 <= byte_len(text),
    decreases spans.len() - k,
{
    if k < spans.len() {
        if k > 0 {
            lemma_tiles_from(spans, text, k - 1);
        }
        lemma_tiles_count(spans, text, k + 1);
        if k + 1 < spans.len() {
            assert(spans[k].0 + spans[k].1 == spans[k + 1].0);
        } else {
            assert(spans[k] == spans.last());
        }
    } else if k > 0 {
        lemma_tiles_from(spans, text, k - 1);
        assert(spans[k - 1] == spans.last());
    }
}

/// Counting up from the first span: the `k`-th span starts at or after `k`.
pub proof fn lemma_tiles_from(spans: Seq<(usize, usize)>, text: Seq<char>, k: int)
    requires
        tiles(spans, text),
        0 <= k < spans.len(),
    ensures
        k <= spans[k].0,
        k + 1 <= spans[k].0 + spans[k].1,
    decreases k,
{
    if k > 0 {
        lemma_tiles_from(spans, text, k - 1);
        assert(spans[k - 1].0 + spans[k - 1].1 == spans[k].0);
    }
}

/// The offset of column `column` on the line that starts at `line_start`:
/// the start of that cluster, or the end of the line where the line is
/// shorter.
pub open spec fn position_of_column(text: Seq<char>, line_start: int, column: int) -> int {
    let end = line_end_of(text, line_start);
    let spans = grapheme_clusters(slice(text, line_start, end));
    if 0 <= column < spans.len() {
        line_start + spans[column].0
    } else {
        end
    }
}

/// Walks the line that starts at `line_start` cluster by cluster until
/// `column` is reached or the line ends.
pub fn position_for_column(text: &str, line_start: usize, column: usize) -> (position: usize)
    requires
        is_boundary(text@, line_start as int),
    ensures
        position == position_of_column(text@, line_start as int, column as int),
        is_boundary(text@, position as int),
        line_start <= position <= line_end_of(text@, line_start as int),
{
    let end = line_end(text, line_start);
    let spans = grapheme_spans(substring(text, line_start, end));
    proof {
        lemma_slice_boundaries(text@, line_start as int, end as int);
    }
    if column < spans.len() {
        proof {
            let part = slice(text@, line_start as int, end as int);
            lemma_tiles_count(spans@, part, column as int);
            assert(is_boundary(part, spans@[column as int].0 as int));
        }
        line_start + spans[column].0
    } else {
        end
    }
}


/// The characters of `text`, one by one.
pub fn chars_of(text: &str) -> (chars: Vec<char>)
    ensures
        chars@ == text@,
{
    let mut chars: Vec<char> = Vec::new();
    for c in it: text.chars()
        invariant
            it.seq() == text@,
            chars@ == text@.take(it.index() as int),
    {
        chars.push(c);
        assert(text@.take(it.index() + 1) =~= text@.take(it.index() as int).push(c));
    }
    assert(text@.take(text@.len() as int) =~= text@);
    chars
}


/// Whether `c` has the Unicode property `White_Space`.
pub uninterp spec fn is_whitespace(c: char) -> bool;

/// Calls `char::is_whitespace`. Trusted: the result is the property named
/// [`is_whitespace`].
#[verifier::external_body]
pub(crate) fn char_is_whitespace(c: char) -> (white: bool)
    ensures
        white == is_whitespace(c),
{
    c.is_whitespace()
}

/// Calls `String::push`. Trusted: the character is appended.
#[verifier::external_body]
pub(crate) fn push_char(target: &mut String, c: char)
    ensures
        final(target)@ == old(target)@.push(c),
{
    target.push(c)
}

/// Every character of `s` is white space; true of the empty sequence.
pub open spec fn all_whitespace(s: Seq<char>) -> bool {
    forall|i: int| 0 <= i < s.len() ==> is_whitespace(#[trigger] s[i])
}

/// Whether `part` holds nothing but white space.
pub fn is_blank(part: &str) -> (blank: bool)
    ensures
        blank == all_whitespace(part@),
{
    let mut blank = true;
    for c in it: part.chars()
        invariant
            it.seq() == part@,
            blank == all_whitespace(part@.take(it.index() as int)),
    {
        let white = char_is_whitespace(c);
        proof {
            let before = part@.take(it.index() as int);
            let after = part@.take(it.index() + 1);
            assert(after =~= before.push(c));
            if blank && white {
                assert forall|i: int| 0 <= i < after.len() implies is_whitespace(
                    #[trigger] after[i],
                ) by {
                    if i < before.len() {
                        assert(after[i] == before[i]);
                    }
                }
            } else if !white {
                assert(!is_whitespace(after[it.index() as int]));
            } else {
                let i = choose|i: int| 0 <= i < before.len() && !is_whitespace(#[trigger] before[i]);
                assert(after[i] == before[i]);
            }
        }
        blank = blank && white;
    }
    assert(part@.take(part@.len() as int) =~= part@);
    blank
}

/// The characters in `chars`, as a string.
pub fn string_of(chars: &Vec<char>) -> (text: String)
    ensures
        text@ == chars@,
{
    let mut text = String::new();
    let mut i: usize = 0;
    while i < chars.len()
        invariant
            i <= chars.len(),
            text@ == chars@.take(i as int),
        decreases chars.len() - i,
    {
        push_char(&mut text, chars[i]);
        assert(chars@.take(i + 1) =~= chars@.take(i as int).push(chars@[i as int]));
        i = i + 1;
    }
    assert(chars@.take(chars@.len() as int) =~= chars@);
    text
}

/// A grapheme cluster of `text` starts at `at`, or `at` is the end of the
/// text.
pub open spec fn is_cluster_boundary(text: Seq<char>, at: int) -> bool {
    at == byte_len(text) || exists|i: int|
        0 <= i < grapheme_clusters(text).len() && (#[trigger] grapheme_clusters(text)[i]).0 == at
}

/// The start of the last of `spans` that starts at or before `at`; 0 where
/// none does.
pub open spec fn last_start_upto(spans: Seq<(usize, usize)>, at: int) -> int
    decreases spans.len(),
{
    if spans.len() == 0 {
        0
    } else if spans.last().0 <= at {
        spans.last().0 as int
    } else {
        last_start_upto(spans.drop_last(), at)
    }
}

/// The cluster boundary of `text` that holds `at`: the end of the text at
/// or behind it, else the start of the last cluster of the whole text that
/// starts at or before `at`.
pub open spec fn cluster_floor(text: Seq<char>, at: int) -> int {
    if at >= byte_len(text) {
        byte_len(text)
    } else {
        last_start_upto(grapheme_clusters(text), at)
    }
}

/// Moves `at` back to the cluster boundary of `text` that holds it, after
/// clamping it to the length of `text`.
pub fn snap_to_cluster(text: &str, at: usize) -> (snapped: usize)
    ensures
        snapped == cluster_floor(text@, at as int),
        is_cluster_boundary(text@, snapped as int),
        is_boundary(text@, snapped as int),
        snapped <= at,
{
    let len = text.as_bytes().len();
    proof {
        is_char_boundary_start_end_of_seq(bytes_of(text@));
    }
    if at >= len {
        return len;
    }
    let spans = grapheme_spans(text);
    let mut i: usize = spans.len();
    assert(spans@.take(i as int) =~= spans@);
    while i > 0 && spans[i - 1].0 > at
        invariant
            i <= spans.len(),
            last_start_upto(spans@.take(i as int), at as int) == last_start_upto(spans@, at as int),
        decreases i,
    {
        assert(spans@.take(i as int).drop_last() =~= spans@.take(i - 1));
        assert(spans@.take(i as int).last() == spans@[i - 1]);
        i = i - 1;
    }
    if i == 0 {
        assert(spans@.take(0) =~= Seq::empty());
        assert(spans@[0].0 == 0);
        0
    } else {
        assert(spans@.take(i as int).last() == spans@[i - 1]);
        spans[i - 1].0
    }
}

/// Joining two texts puts a boundary where they meet.
pub proof fn lemma_boundary_at_join(a: Seq<char>, b: Seq<char>)
    ensures
        bytes_of(a + b) == bytes_of(a) + bytes_of(b),
        is_boundary(a + b, byte_len(a)),
        slice(a + b, 0, byte_len(a)) == a,
        slice(a + b, byte_len(a), byte_len(a + b)) == b,
{
    lemma_encode_concat(a, b);
    let whole = bytes_of(a + b);
    let at = byte_len(a);
    lemma_boundary_by_byte(whole, at);
    if 0 < at < whole.len() {
        assert(whole[at] == bytes_of(b)[0]);
        assert(valid_utf8(bytes_of(b)));
        assert(valid_first_scalar(bytes_of(b)));
    }
    assert(whole.subrange(0, at) =~= bytes_of(a));
    assert(whole.subrange(at, whole.len() as int) =~= bytes_of(b));
}


/// `text` with the bytes `from..to` replaced by `with`.
pub open spec fn spliced(text: Seq<char>, from: int, to: int, with: Seq<char>) -> Seq<char> {
    slice(text, 0, from) + with + slice(text, to, byte_len(text))
}

/// Builds the text in which `with` stands in place of the bytes `from..to`
/// of `text`. The offset just past `with` is a boundary of the result.
pub fn splice(text: &str, from: usize, to: usize, with: &str) -> (out: String)
    requires
        is_boundary(text@, from as int),
        is_boundary(text@, to as int),
        from <= to,
    ensures
        out@ == spliced(text@, from as int, to as int, with@),
        is_boundary(out@, from as int),
        is_boundary(out@, from + byte_len(with@)),
        byte_len(out@) == from + byte_len(with@) + (byte_len(text@) - to),
        byte_len(out@) <= usize::MAX,
{
    let len = text.as_bytes().len();
    proof {
        is_char_boundary_start_end_of_seq(bytes_of(text@));
        lemma_slice_boundaries(text@, 0, from as int);
        lemma_slice_boundaries(text@, to as int, len as int);
    }
    let head = substring(text, 0, from);
    let tail = substring(text, to, len);
    let mut out = String::from_str(head);
    out.append(with);
    proof {
        lemma_boundary_at_join(head@, with@);
        lemma_boundary_at_join(head@ + with@, tail@);
        lemma_boundary_at_join(head@, with@ + tail@);
        assert(head@ + (with@ + tail@) =~= head@ + with@ + tail@);
    }
    out.append(tail);
    let size = out.as_str().as_bytes().len();
    assert(size == byte_len(out@));
    out
}


/// The cluster at `index` of a tiling of `text`.
pub fn cluster_at<'a>(text: &'a str, spans: &Vec<(usize, usize)>, index: usize) -> (cluster: &'a str)
    requires
        tiles(spans@, text@),
        index < spans@.len(),
    ensures
        cluster@ == slice(text@, spans@[index as int].0 as int, spans@[index as int].0 + spans@[index as int].1),
{
    let total = text.as_bytes().len();
    let (start, len) = spans[index];
    proof {
        lemma_tiles_count(spans@, text@, index as int);
        assert(is_boundary(text@, start as int));
        if index + 1 < spans@.len() {
            assert(spans@[index as int].0 + spans@[index as int].1 == spans@[index + 1].0);
            assert(is_boundary(text@, spans@[index + 1].0 as int));
        } else {
            assert(spans@[index as int] == spans@.last());
            is_char_boundary_start_end_of_seq(bytes_of(text@));
        }
    }
    substring(text, start, start + len)
}

} // verus!
