//! Small verified helpers on strings: decimal rendering, prefixes and
//! suffixes, concatenation.

use crate::text::{char_is_whitespace, chars_of, is_whitespace, string_of};
use vstd::prelude::*;
use vstd::string::*;

verus! {

/// The character of the decimal digit `d`.
pub open spec fn digit_of(d: int) -> char {
    if d == 0 {
        '0'
    } else if d == 1 {
        '1'
    } else if d == 2 {
        '2'
    } else if d == 3 {
        '3'
    } else if d == 4 {
        '4'
    } else if d == 5 {
        '5'
    } else if d == 6 {
        '6'
    } else if d == 7 {
        '7'
    } else if d == 8 {
        '8'
    } else {
        '9'
    }
}

/// The decimal digits of `n`, most significant first, without leading
/// zeros; `"0"` for zero.
pub open spec fn digits_of(n: nat) -> Seq<char>
    decreases n,
{
    if n < 10 {
        seq![digit_of(n as int)]
    } else {
        digits_of(n / 10).push(digit_of((n % 10) as int))
    }
}

/// The decimal text of `n`, with a leading `-` where it is negative.
pub open spec fn decimal_of(n: int) -> Seq<char> {
    if n < 0 {
        seq!['-'] + digits_of((-n) as nat)
    } else {
        digits_of(n as nat)
    }
}

fn digit_char(d: u64) -> (c: char)
    requires
        d < 10,
    ensures
        c == digit_of(d as int),
{
    if d == 0 {
        '0'
    } else if d == 1 {
        '1'
    } else if d == 2 {
        '2'
    } else if d == 3 {
        '3'
    } else if d == 4 {
        '4'
    } else if d == 5 {
        '5'
    } else if d == 6 {
        '6'
    } else if d == 7 {
        '7'
    } else if d == 8 {
        '8'
    } else {
        '9'
    }
}

fn push_digits(out: &mut Vec<char>, n: u64)
    ensures
        final(out)@ == old(out)@ + digits_of(n as nat),
    decreases n,
{
    if n >= 10 {
        push_digits(out, n / 10);
    }
    out.push(digit_char(n % 10));
    proof {
        if n >= 10 {
            assert(final(out)@ =~= old(out)@ + digits_of(n as nat));
        } else {
            assert(final(out)@ =~= old(out)@ + digits_of(n as nat));
        }
    }
}

/// The decimal digits of `n`, appended to `out`.
pub fn push_decimal(out: &mut Vec<char>, n: i64)
    ensures
        final(out)@ == old(out)@ + decimal_of(n as int),
{
    if n < 0 {
        out.push('-');
        let magnitude: u64 = if n == i64::MIN {
            9223372036854775808u64
        } else {
            (-n) as u64
        };
        push_digits(out, magnitude);
        assert(final(out)@ =~= old(out)@ + decimal_of(n as int));
    } else {
        push_digits(out, n as u64);
    }
}

/// The decimal digits of the unsigned `n`, appended to `out`.
pub fn push_unsigned(out: &mut Vec<char>, n: u64)
    ensures
        final(out)@ == old(out)@ + decimal_of(n as int),
{
    push_digits(out, n);
}

fn push_wide_digits(out: &mut Vec<char>, n: u128)
    ensures
        final(out)@ == old(out)@ + digits_of(n as nat),
    decreases n,
{
    if n >= 10 {
        push_wide_digits(out, n / 10);
    }
    out.push(digit_char((n % 10) as u64));
    assert(final(out)@ =~= old(out)@ + digits_of(n as nat));
}

/// The decimal digits of the count `n`, appended to `out`.
pub fn push_count(out: &mut Vec<char>, n: u128)
    ensures
        final(out)@ == old(out)@ + decimal_of(n as int),
{
    push_wide_digits(out, n);
}

/// The characters of `text`, appended to `out`.
pub fn push_text(out: &mut Vec<char>, text: &str)
    ensures
        final(out)@ == old(out)@ + text@,
{
    let mut chars = chars_of(text);
    out.append(&mut chars);
}

/// The decimal text of `n`.
pub fn decimal(n: i64) -> (text: String)
    ensures
        text@ == decimal_of(n as int),
{
    let mut out: Vec<char> = Vec::new();
    push_decimal(&mut out, n);
    assert(Seq::<char>::empty() + decimal_of(n as int) =~= decimal_of(n as int));
    string_of(&out)
}

/// `suffix` stands at the end of `text`.
pub open spec fn is_suffix(suffix: Seq<char>, text: Seq<char>) -> bool {
    suffix.len() <= text.len() && text.subrange(text.len() - suffix.len(), text.len() as int)
        == suffix
}

/// `prefix` stands at the start of `text`.
pub open spec fn is_prefix(prefix: Seq<char>, text: Seq<char>) -> bool {
    prefix.len() <= text.len() && text.subrange(0, prefix.len() as int) == prefix
}

/// Whether `text` ends with `suffix`.
pub fn chars_end_with(text: &Vec<char>, suffix: &Vec<char>) -> (found: bool)
    ensures
        found == is_suffix(suffix@, text@),
{
    if suffix.len() > text.len() {
        return false;
    }
    let offset = text.len() - suffix.len();
    let mut i: usize = 0;
    while i < suffix.len()
        invariant
            i <= suffix.len(),
            offset + suffix.len() == text.len(),
            forall|k: int| 0 <= k < i ==> text@[offset + k] == suffix@[k],
        decreases suffix.len() - i,
    {
        if text[offset + i] != suffix[i] {
            proof {
                let tail = text@.subrange(text@.len() - suffix@.len(), text@.len() as int);
                assert(tail[i as int] == text@[offset + i]);
            }
            return false;
        }
        i = i + 1;
    }
    assert(text@.subrange(text@.len() - suffix@.len(), text@.len() as int) =~= suffix@);
    true
}

/// Whether `text` starts with `prefix`.
pub fn chars_start_with(text: &Vec<char>, prefix: &Vec<char>) -> (found: bool)
    ensures
        found == is_prefix(prefix@, text@),
{
    if prefix.len() > text.len() {
        return false;
    }
    let mut i: usize = 0;
    while i < prefix.len()
        invariant
            i <= prefix.len() <= text.len(),
            forall|k: int| 0 <= k < i ==> text@[k] == prefix@[k],
        decreases prefix.len() - i,
    {
        if text[i] != prefix[i] {
            proof {
                assert(text@.subrange(0, prefix@.len() as int)[i as int] == text@[i as int]);
            }
            return false;
        }
        i = i + 1;
    }
    assert(text@.subrange(0, prefix@.len() as int) =~= prefix@);
    true
}

/// The characters `from..to` of `chars`.
pub fn chars_between(chars: &Vec<char>, from: usize, to: usize) -> (part: Vec<char>)
    requires
        from <= to <= chars.len(),
    ensures
        part@ == chars@.subrange(from as int, to as int),
{
    let mut part: Vec<char> = Vec::new();
    let mut i = from;
    while i < to
        invariant
            from <= i <= to <= chars.len(),
            part@ == chars@.subrange(from as int, i as int),
        decreases to - i,
    {
        part.push(chars[i]);
        assert(chars@.subrange(from as int, i + 1) =~= chars@.subrange(from as int, i as int).push(
            chars@[i as int],
        ));
        i = i + 1;
    }
    part
}


/// The length of the longest prefix of `s` without white space.
pub open spec fn word_len(s: Seq<char>) -> nat
    decreases s.len(),
{
    if s.len() == 0 || is_whitespace(s[0]) {
        0
    } else {
        1 + word_len(s.drop_first())
    }
}

/// The words of `s`: its maximal runs of characters that are no white
/// space, in order.
pub open spec fn words_of(s: Seq<char>) -> Seq<Seq<char>>
    decreases s.len(),
{
    if s.len() == 0 {
        seq![]
    } else if is_whitespace(s[0]) {
        words_of(s.drop_first())
    } else if 1 <= word_len(s) <= s.len() {
        seq![s.take(word_len(s) as int)] + words_of(s.skip(word_len(s) as int))
    } else {
        seq![]
    }
}

/// A word is no longer than what it is cut from.
pub proof fn lemma_word_len(s: Seq<char>)
    ensures
        word_len(s) <= s.len(),
        s.len() > 0 && !is_whitespace(s[0]) ==> word_len(s) >= 1,
    decreases s.len(),
{
    if s.len() > 0 && !is_whitespace(s[0]) {
        lemma_word_len(s.drop_first());
    }
}

/// The texts of a list of strings.
pub open spec fn texts_of(list: Seq<String>) -> Seq<Seq<char>> {
    list.map_values(|s: String| s@)
}

/// Splits `chars` into its words.
pub fn split_words(chars: &Vec<char>) -> (words: Vec<String>)
    ensures
        texts_of(words@) == words_of(chars@),
{
    let mut words: Vec<String> = Vec::new();
    let mut i: usize = 0;
    assert(chars@.skip(0) =~= chars@);
    assert(texts_of(words@) =~= Seq::empty());
    while i < chars.len()
        invariant
            i <= chars.len(),
            texts_of(words@) + words_of(chars@.skip(i as int)) == words_of(chars@),
        decreases chars.len() - i,
    {
        let ghost rest = chars@.skip(i as int);
        if char_is_whitespace(chars[i]) {
            assert(rest.drop_first() =~= chars@.skip(i + 1));
            i = i + 1;
        } else {
            let mut j: usize = i;
            assert(chars@.skip(j as int) =~= rest);
            while j < chars.len() && !char_is_whitespace(chars[j])
                invariant
                    i <= j <= chars.len(),
                    rest == chars@.skip(i as int),
                    word_len(rest) == (j - i) + word_len(chars@.skip(j as int)),
                decreases chars.len() - j,
            {
                assert(chars@.skip(j as int).drop_first() =~= chars@.skip(j + 1));
                j = j + 1;
            }
            proof {
                lemma_word_len(rest);
                assert(rest.take(j - i) =~= chars@.subrange(i as int, j as int));
                assert(rest.skip(j - i) =~= chars@.skip(j as int));
            }
            let word = string_of(&chars_between(chars, i, j));
            let ghost before = texts_of(words@);
            words.push(word);
            assert(texts_of(words@) =~= before.push(word@));
            assert(before.push(word@) + words_of(chars@.skip(j as int)) =~= before + (seq![word@]
                + words_of(chars@.skip(j as int))));
            i = j;
        }
    }
    assert(words_of(chars@.skip(chars@.len() as int)) =~= Seq::empty());
    assert(texts_of(words@) + Seq::<Seq<char>>::empty() =~= texts_of(words@));
    words
}

/// `s` without the white space at its start.
pub open spec fn trim_start_of(s: Seq<char>) -> Seq<char>
    decreases s.len(),
{
    if s.len() > 0 && is_whitespace(s[0]) {
        trim_start_of(s.drop_first())
    } else {
        s
    }
}

/// `s` without the white space at its end.
pub open spec fn trim_end_of(s: Seq<char>) -> Seq<char>
    decreases s.len(),
{
    if s.len() > 0 && is_whitespace(s.last()) {
        trim_end_of(s.drop_last())
    } else {
        s
    }
}

/// `s` without the white space at its start and at its end.
pub open spec fn trim_of(s: Seq<char>) -> Seq<char> {
    trim_end_of(trim_start_of(s))
}

/// The characters of `chars` without the white space at the end.
pub fn chars_trim_end(chars: &Vec<char>) -> (kept: Vec<char>)
    ensures
        kept@ == trim_end_of(chars@),
{
    let mut end: usize = chars.len();
    assert(chars@.take(end as int) =~= chars@);
    while end > 0 && char_is_whitespace(chars[end - 1])
        invariant
            end <= chars.len(),
            trim_end_of(chars@.take(end as int)) == trim_end_of(chars@),
        decreases end,
    {
        assert(chars@.take(end as int).drop_last() =~= chars@.take(end - 1));
        end = end - 1;
    }
    assert(chars@.take(end as int) =~= chars@.subrange(0, end as int));
    chars_between(chars, 0, end)
}

/// The characters of `chars` without the white space at the start.
pub fn chars_trim_start(chars: &Vec<char>) -> (kept: Vec<char>)
    ensures
        kept@ == trim_start_of(chars@),
{
    let mut start: usize = 0;
    assert(chars@.skip(0) =~= chars@);
    while start < chars.len() && char_is_whitespace(chars[start])
        invariant
            start <= chars.len(),
            trim_start_of(chars@.skip(start as int)) == trim_start_of(chars@),
        decreases chars.len() - start,
    {
        assert(chars@.skip(start as int).drop_first() =~= chars@.skip(start + 1));
        start = start + 1;
    }
    assert(chars@.skip(start as int) =~= chars@.subrange(start as int, chars@.len() as int));
    chars_between(chars, start, chars.len())
}

/// The characters of `chars` without the white space at both ends.
pub fn chars_trim(chars: &Vec<char>) -> (kept: Vec<char>)
    ensures
        kept@ == trim_of(chars@),
{
    chars_trim_end(&chars_trim_start(chars))
}

/// `text` without the white space at both ends.
pub fn trim(text: &str) -> (kept: String)
    ensures
        kept@ == trim_of(text@),
{
    string_of(&chars_trim(&chars_of(text)))
}

/// `text` without the white space at its end.
pub fn trim_end(text: &str) -> (kept: String)
    ensures
        kept@ == trim_end_of(text@),
{
    string_of(&chars_trim_end(&chars_of(text)))
}

/// `text` without `prefix` at its start, where it starts with it.
pub open spec fn stripped_of(text: Seq<char>, prefix: Seq<char>) -> Option<Seq<char>> {
    if is_prefix(prefix, text) {
        Some(text.skip(prefix.len() as int))
    } else {
        None
    }
}

/// `text` without `prefix` at its start, where it starts with it.
pub fn chars_strip_prefix(text: &Vec<char>, prefix: &Vec<char>) -> (rest: Option<Vec<char>>)
    ensures
        match rest {
            Some(rest) => stripped_of(text@, prefix@) == Some(rest@),
            None => stripped_of(text@, prefix@) is None,
        },
{
    if chars_start_with(text, prefix) {
        let rest = chars_between(text, prefix.len(), text.len());
        assert(rest@ =~= text@.skip(prefix@.len() as int));
        Some(rest)
    } else {
        None
    }
}

/// The parts joined with `separator` between every two of them.
pub open spec fn joined_of(parts: Seq<Seq<char>>, separator: Seq<char>) -> Seq<char>
    decreases parts.len(),
{
    if parts.len() == 0 {
        seq![]
    } else if parts.len() == 1 {
        parts[0]
    } else {
        joined_of(parts.drop_last(), separator) + separator + parts.last()
    }
}

/// Joins `parts` with `separator` between every two of them.
pub fn join(parts: &Vec<String>, separator: &str) -> (text: String)
    ensures
        text@ == joined_of(texts_of(parts@), separator@),
{
    let mut out: Vec<char> = Vec::new();
    let mut i: usize = 0;
    assert(texts_of(parts@).take(0) =~= Seq::empty());
    while i < parts.len()
        invariant
            i <= parts.len(),
            out@ == joined_of(texts_of(parts@).take(i as int), separator@),
        decreases parts.len() - i,
    {
        let ghost before = texts_of(parts@).take(i as int);
        let ghost after = texts_of(parts@).take(i + 1);
        assert(after.drop_last() =~= before);
        assert(after.last() == parts@[i as int]@);
        if i > 0 {
            push_text(&mut out, separator);
        }
        push_text(&mut out, parts[i].as_str());
        proof {
            if i == 0 {
                assert(out@ =~= parts@[0]@);
            }
        }
        i = i + 1;
    }
    assert(texts_of(parts@).take(parts@.len() as int) =~= texts_of(parts@));
    string_of(&out)
}

/// The first offset at which `pattern` stands in `text`, from `from` on.
pub open spec fn found_at(text: Seq<char>, pattern: Seq<char>, at: int) -> bool {
    0 <= at && at + pattern.len() <= text.len() && text.subrange(at, at + pattern.len())
        == pattern
}

/// Finds the first offset from `from` on at which `pattern` stands in
/// `text`.
pub fn chars_find(text: &Vec<char>, pattern: &Vec<char>, from: usize) -> (at: Option<usize>)
    ensures
        match at {
            Some(at) => from <= at && found_at(text@, pattern@, at as int) && forall|k: int|
                from <= k < at ==> !found_at(text@, pattern@, k),
            None => forall|k: int| from <= k ==> !found_at(text@, pattern@, k),
        },
{
    if pattern.len() > text.len() {
        return None;
    }
    if pattern.len() == 0 {
        if from <= text.len() {
            assert(text@.subrange(from as int, from as int) =~= pattern@);
            return Some(from);
        }
        return None;
    }
    let last = text.len() - pattern.len();
    let mut i: usize = from;
    while i <= last
        invariant
            from <= i,
            pattern.len() >= 1,
            last + pattern.len() == text.len(),
            forall|k: int| from <= k < i ==> !found_at(text@, pattern@, k),
        decreases last + 1 - i,
    {
        let mut j: usize = 0;
        let mut same = true;
        while j < pattern.len() && same
            invariant
                j <= pattern.len(),
                i <= last,
                last + pattern.len() == text.len(),
                same ==> forall|k: int| 0 <= k < j ==> text@[i + k] == pattern@[k],
                !same ==> !found_at(text@, pattern@, i as int),
            decreases pattern.len() - j + (if same { 1int } else { 0int }),
        {
            if text[i + j] != pattern[j] {
                same = false;
                assert(text@.subrange(i as int, i + pattern@.len())[j as int] == text@[i + j]);
            } else {
                j = j + 1;
            }
        }
        if same {
            assert(text@.subrange(i as int, i + pattern@.len()) =~= pattern@);
            return Some(i);
        }
        i = i + 1;
    }
    None
}

/// The lower-case form of `text` by the Unicode character database.
pub uninterp spec fn lowercase_of(text: Seq<char>) -> Seq<char>;

/// Calls `str::to_lowercase`. Trusted: the result is the lower-case form
/// named [`lowercase_of`].
#[verifier::external_body]
pub(crate) fn lowercase(text: &str) -> (lower: String)
    ensures
        lower@ == lowercase_of(text@),
{
    text.to_lowercase()
}

/// Whether `c` is alphabetic or numeric by the Unicode character database.
pub uninterp spec fn is_alphanumeric(c: char) -> bool;

/// Calls `char::is_alphanumeric`. Trusted: the result is the property named
/// [`is_alphanumeric`].
#[verifier::external_body]
pub(crate) fn char_is_alphanumeric(c: char) -> (alnum: bool)
    ensures
        alnum == is_alphanumeric(c),
{
    c.is_alphanumeric()
}


/// `pattern` stands somewhere in `text`.
pub open spec fn contains_text(text: Seq<char>, pattern: Seq<char>) -> bool {
    exists|at: int| found_at(text, pattern, at)
}

/// Whether `pattern` stands somewhere in `text`.
pub fn chars_contain(text: &Vec<char>, pattern: &Vec<char>) -> (found: bool)
    ensures
        found == contains_text(text@, pattern@),
{
    match chars_find(text, pattern, 0) {
        Some(at) => true,
        None => {
            assert forall|at: int| !found_at(text@, pattern@, at) by {
                if 0 <= at {
                    assert(!found_at(text@, pattern@, at));
                }
            }
            false
        },
    }
}

/// `at` is the first offset from `from` on at which `pattern` stands in
/// `text`.
pub open spec fn next_at(text: Seq<char>, pattern: Seq<char>, from: int, at: int) -> bool {
    from <= at && found_at(text, pattern, at) && forall|k: int|
        from <= k < at ==> !found_at(text, pattern, k)
}

/// The pieces of `text` between the occurrences of `separator`, read from
/// `from` on and from left to right: always at least one piece, which may
/// be empty.
pub open spec fn pieces_from(text: Seq<char>, separator: Seq<char>, from: int) -> Seq<Seq<char>>
    decreases text.len() - from,
{
    if separator.len() > 0 && 0 <= from && exists|at: int| next_at(text, separator, from, at) {
        let at = choose|at: int| next_at(text, separator, from, at);
        seq![text.subrange(from, at)] + pieces_from(text, separator, at + separator.len())
    } else {
        seq![text.skip(from)]
    }
}

/// The pieces of `text` between the occurrences of `separator`.
pub open spec fn pieces_of(text: Seq<char>, separator: Seq<char>) -> Seq<Seq<char>> {
    pieces_from(text, separator, 0)
}

/// Splits `text` at every occurrence of `separator`.
pub fn split_on(text: &Vec<char>, separator: &Vec<char>) -> (pieces: Vec<String>)
    requires
        separator@.len() > 0,
    ensures
        texts_of(pieces@) == pieces_of(text@, separator@),
{
    let mut pieces: Vec<String> = Vec::new();
    let mut from: usize = 0;
    let mut open = true;
    assert(texts_of(pieces@) =~= Seq::empty());
    while open
        invariant
            from <= text.len(),
            separator@.len() > 0,
            open ==> texts_of(pieces@) + pieces_from(text@, separator@, from as int) == pieces_of(
                text@,
                separator@,
            ),
            !open ==> texts_of(pieces@) == pieces_of(text@, separator@),
        decreases text.len() - from + (if open { 1int } else { 0int }),
    {
        let ghost before = texts_of(pieces@);
        match chars_find(text, separator, from) {
            Some(at) => {
                proof {
                    assert(next_at(text@, separator@, from as int, at as int));
                    let other = choose|other: int| next_at(text@, separator@, from as int, other);
                    assert(other == at);
                }
                let piece = string_of(&chars_between(text, from, at));
                pieces.push(piece);
                assert(texts_of(pieces@) =~= before.push(piece@));
                assert(before.push(piece@) + pieces_from(
                    text@,
                    separator@,
                    at + separator@.len(),
                ) =~= before + (seq![piece@] + pieces_from(
                    text@,
                    separator@,
                    at + separator@.len(),
                )));
                from = at + separator.len();
            },
            None => {
                proof {
                    assert forall|at: int| !next_at(text@, separator@, from as int, at) by {
                        if from <= at {
                            assert(!found_at(text@, separator@, at));
                        }
                    }
                }
                let piece = string_of(&chars_between(text, from, text.len()));
                assert(piece@ =~= text@.skip(from as int));
                pieces.push(piece);
                assert(texts_of(pieces@) =~= before + seq![piece@]);
                open = false;
            },
        }
    }
    pieces
}

/// `text` with every `from` replaced by `with`.
pub open spec fn replaced_of(text: Seq<char>, from: char, with: Seq<char>) -> Seq<char>
    decreases text.len(),
{
    if text.len() == 0 {
        seq![]
    } else if text.last() == from {
        replaced_of(text.drop_last(), from, with) + with
    } else {
        replaced_of(text.drop_last(), from, with).push(text.last())
    }
}

/// Replaces every `from` in `text` by `with`.
pub fn chars_replace(text: &Vec<char>, from: char, with: &Vec<char>) -> (out: Vec<char>)
    ensures
        out@ == replaced_of(text@, from, with@),
{
    let mut out: Vec<char> = Vec::new();
    let mut i: usize = 0;
    assert(text@.take(0) =~= Seq::empty());
    while i < text.len()
        invariant
            i <= text.len(),
            out@ == replaced_of(text@.take(i as int), from, with@),
        decreases text.len() - i,
    {
        assert(text@.take(i + 1).drop_last() =~= text@.take(i as int));
        if text[i] == from {
            let mut piece = with.clone();
            out.append(&mut piece);
        } else {
            out.push(text[i]);
        }
        i = i + 1;
    }
    assert(text@.take(text@.len() as int) =~= text@);
    out
}

/// Some character of `s` is white space.
pub open spec fn any_whitespace(s: Seq<char>) -> bool {
    exists|i: int| 0 <= i < s.len() && is_whitespace(#[trigger] s[i])
}

/// Whether some character of `chars` is white space.
pub fn chars_any_whitespace(chars: &Vec<char>) -> (any: bool)
    ensures
        any == any_whitespace(chars@),
{
    let mut i: usize = 0;
    while i < chars.len()
        invariant
            i <= chars.len(),
            forall|k: int| 0 <= k < i ==> !is_whitespace(#[trigger] chars@[k]),
        decreases chars.len() - i,
    {
        if char_is_whitespace(chars[i]) {
            return true;
        }
        i = i + 1;
    }
    false
}

/// The first `n` characters of `chars`, or all of them where they are
/// fewer.
pub fn chars_take(chars: &Vec<char>, n: usize) -> (head: Vec<char>)
    ensures
        head@ == chars@.take(if n <= chars@.len() { n as int } else { chars@.len() as int }),
{
    let end = if n <= chars.len() {
        n
    } else {
        chars.len()
    };
    let head = chars_between(chars, 0, end);
    assert(head@ =~= chars@.take(end as int));
    head
}


/// `line` without a carriage return at its end.
pub open spec fn without_return(line: Seq<char>) -> Seq<char> {
    if line.len() > 0 && line.last() == '\r' {
        line.drop_last()
    } else {
        line
    }
}

/// The offset of the first line feed of `text` from `from` on, or the
/// length of `text`.
pub open spec fn feed_from(text: Seq<char>, from: int) -> int
    decreases text.len() - from,
{
    if from >= text.len() {
        text.len() as int
    } else if from >= 0 && text[from] == '\n' {
        from
    } else {
        feed_from(text, from + 1)
    }
}

/// The lines of `text` from `from` on. A line ends at a line feed, which
/// is no part of it, nor is a carriage return just before the line feed.
/// What follows the last line feed is a line if it is not empty.
pub open spec fn lines_from(text: Seq<char>, from: int) -> Seq<Seq<char>>
    decreases text.len() - from,
{
    let feed = feed_from(text, from);
    if from >= text.len() || from < 0 {
        seq![]
    } else if from <= feed < text.len() {
        seq![without_return(text.subrange(from, feed))] + lines_from(text, feed + 1)
    } else {
        seq![text.skip(from)]
    }
}

/// The lines of `text`.
pub open spec fn lines_of(text: Seq<char>) -> Seq<Seq<char>> {
    lines_from(text, 0)
}

/// Where the first line feed from `from` on lies.
pub proof fn lemma_feed_from(text: Seq<char>, from: int)
    requires
        0 <= from <= text.len(),
    ensures
        from <= feed_from(text, from) <= text.len(),
    decreases text.len() - from,
{
    if from < text.len() && text[from] != '\n' {
        lemma_feed_from(text, from + 1);
    }
}

/// Splits `chars` into its lines.
pub fn split_lines(chars: &Vec<char>) -> (lines: Vec<String>)
    ensures
        texts_of(lines@) == lines_of(chars@),
{
    let mut lines: Vec<String> = Vec::new();
    let mut from: usize = 0;
    assert(texts_of(lines@) =~= Seq::empty());
    while from < chars.len()
        invariant
            from <= chars.len(),
            texts_of(lines@) + lines_from(chars@, from as int) == lines_of(chars@),
        decreases chars.len() - from,
    {
        let mut feed: usize = from;
        while feed < chars.len() && chars[feed] != '\n'
            invariant
                from <= feed <= chars.len(),
                feed_from(chars@, feed as int) == feed_from(chars@, from as int),
            decreases chars.len() - feed,
        {
            feed = feed + 1;
        }
        let ghost before = texts_of(lines@);
        if feed < chars.len() {
            let mut end = feed;
            if end > from && chars[end - 1] == '\r' {
                end = end - 1;
            }
            let line = string_of(&chars_between(chars, from, end));
            proof {
                let whole = chars@.subrange(from as int, feed as int);
                if whole.len() > 0 && whole.last() == '\r' {
                    assert(whole.drop_last() =~= chars@.subrange(from as int, end as int));
                } else {
                    assert(whole =~= chars@.subrange(from as int, end as int));
                }
            }
            lines.push(line);
            assert(texts_of(lines@) =~= before.push(line@));
            assert(before.push(line@) + lines_from(chars@, feed + 1) =~= before + (seq![line@]
                + lines_from(chars@, feed + 1)));
            from = feed + 1;
        } else {
            let line = string_of(&chars_between(chars, from, chars.len()));
            assert(line@ =~= chars@.skip(from as int));
            lines.push(line);
            assert(texts_of(lines@) =~= before + seq![line@]);
            assert(lines_from(chars@, chars@.len() as int) =~= Seq::empty());
            assert(texts_of(lines@) + Seq::<Seq<char>>::empty() =~= texts_of(lines@));
            from = chars.len();
        }
    }
    assert(lines_from(chars@, chars@.len() as int) =~= Seq::empty());
    assert(texts_of(lines@) + Seq::<Seq<char>>::empty() =~= texts_of(lines@));
    lines
}

} // verus!
