//! Cutting a text into pieces: white-space separated words, lines, the part
//! before or after a separator, and trimming.
//!
//! The executable functions work on the characters of a text and hand back
//! spans, pairs of indices into those characters; the contracts say which
//! characters a span covers.

use vstd::prelude::*;
use crate::text::{contains_seq, find_chars, first_occurrence, occurs_at};

verus! {

/// Whether a character has the Unicode property White_Space.
pub open spec fn is_space(c: char) -> bool {
    let n = c as u32;
    ||| 0x09 <= n <= 0x0D
    ||| n == 0x20
    ||| n == 0x85
    ||| n == 0xA0
    ||| n == 0x1680
    ||| 0x2000 <= n <= 0x200A
    ||| n == 0x2028
    ||| n == 0x2029
    ||| n == 0x202F
    ||| n == 0x205F
    ||| n == 0x3000
}

/// Whether a character has the Unicode property White_Space.
pub fn is_whitespace(c: char) -> (r: bool)
    ensures
        r == is_space(c),
{
    let n: u32 = c as u32;
    (0x09 <= n && n <= 0x0D) || n == 0x20 || n == 0x85 || n == 0xA0 || n == 0x1680 || (0x2000 <= n
        && n <= 0x200A) || n == 0x2028 || n == 0x2029 || n == 0x202F || n == 0x205F || n == 0x3000
}

/// A range of character positions, `start` included and `end` excluded.
#[derive(Debug, Clone, Copy, PartialEq, Eq, Structural)]
pub struct Span {
    pub start: usize,
    pub end: usize,
}

impl Span {
    /// The span lies within a text of `len` characters.
    pub open spec fn fits(self, len: nat) -> bool {
        self.start <= self.end <= len
    }

    /// The characters of `s` that the span covers.
    pub open spec fn of(self, s: Seq<char>) -> Seq<char> {
        s.subrange(self.start as int, self.end as int)
    }
}

/// The spans in `spans` lie within `s` and cover, one by one, the texts in `pieces`.
pub open spec fn spans_cover(s: Seq<char>, spans: Seq<Span>, pieces: Seq<Seq<char>>) -> bool {
    &&& spans.len() == pieces.len()
    &&& forall|i: int|
        0 <= i < spans.len() ==> (#[trigger] spans[i]).fits(s.len()) && spans[i].of(s)
            == pieces[i]
}

/// The end of the run that starts at `from` and consists of white space
/// (`spaces`) or of anything else (`!spaces`): the first index at or after
/// `from` whose character is of the other kind, or the length of the text.
pub open spec fn run_end(s: Seq<char>, from: int, spaces: bool) -> int
    decreases s.len() - from,
{
    if 0 <= from < s.len() && is_space(s[from]) == spaces {
        run_end(s, from + 1, spaces)
    } else {
        from
    }
}

/// A run ends at or after its start, within the text, and at a character of
/// the other kind; every character before its end is of its own kind.
pub proof fn lemma_run_end(s: Seq<char>, from: int, spaces: bool)
    requires
        0 <= from <= s.len(),
    ensures
        from <= run_end(s, from, spaces) <= s.len(),
        run_end(s, from, spaces) < s.len() ==> is_space(s[run_end(s, from, spaces)]) != spaces,
        forall|i: int| from <= i < run_end(s, from, spaces) ==> is_space(s[i]) == spaces,
    decreases s.len() - from,
{
    if from < s.len() && is_space(s[from]) == spaces {
        lemma_run_end(s, from + 1, spaces);
    }
}

/// The white-space separated words of the part of `s` from `from` on.
pub open spec fn words_from(s: Seq<char>, from: int) -> Seq<Seq<char>>
    decreases s.len() - from,
{
    let start = run_end(s, from, true);
    let end = run_end(s, start, false);
    if 0 <= from <= s.len() && start < s.len() {
        proof {
            lemma_run_end(s, from, true);
            lemma_run_end(s, start, false);
        }
        seq![s.subrange(start, end)] + words_from(s, end)
    } else {
        Seq::empty()
    }
}

/// The maximal runs of characters other than white space, in order.
pub open spec fn words(s: Seq<char>) -> Seq<Seq<char>> {
    words_from(s, 0)
}

/// The end of the run of `spaces` or of other characters that starts at `from`.
pub fn scan_run(cs: &Vec<char>, from: usize, spaces: bool) -> (r: usize)
    requires
        from <= cs.len(),
    ensures
        r == run_end(cs@, from as int, spaces),
        from <= r <= cs.len(),
{
    let mut i: usize = from;
    while i < cs.len() && is_whitespace(cs[i]) == spaces
        invariant
            from <= i <= cs.len(),
            run_end(cs@, from as int, spaces) == run_end(cs@, i as int, spaces),
        decreases cs.len() - i,
    {
        i += 1;
    }
    i
}

/// The words of a text, as spans of its characters.
pub fn split_words(cs: &Vec<char>) -> (r: Vec<Span>)
    ensures
        spans_cover(cs@, r@, words(cs@)),
{
    let mut out: Vec<Span> = Vec::new();
    let ghost mut done: Seq<Seq<char>> = Seq::empty();
    let mut at: usize = 0;
    loop
        invariant
            at <= cs.len(),
            spans_cover(cs@, out@, done),
            words(cs@) == done + words_from(cs@, at as int),
        decreases cs.len() - at,
    {
        let start = scan_run(cs, at, true);
        if start >= cs.len() {
            assert(words_from(cs@, at as int) =~= Seq::<Seq<char>>::empty());
            assert(done + Seq::<Seq<char>>::empty() =~= done);
            return out;
        }
        let end = scan_run(cs, start, false);
        proof {
            lemma_run_end(cs@, start as int, false);
            let w = cs@.subrange(start as int, end as int);
            assert(words_from(cs@, at as int) == seq![w] + words_from(cs@, end as int));
            assert(done + (seq![w] + words_from(cs@, end as int)) =~= done.push(w) + words_from(
                cs@,
                end as int,
            ));
            done = done.push(w);
        }
        out.push(Span { start, end });
        at = end;
    }
}

/// The first index at or after `from` at which `s` holds `c`, or the length
/// of `s` where it holds none.
pub open spec fn char_index_from(s: Seq<char>, from: int, c: char) -> int
    decreases s.len() - from,
{
    if 0 <= from < s.len() && s[from] != c {
        char_index_from(s, from + 1, c)
    } else {
        from
    }
}

/// `char_index_from` stays within the text, stops at `c`, and passes over no `c`.
pub proof fn lemma_char_index_from(s: Seq<char>, from: int, c: char)
    requires
        0 <= from <= s.len(),
    ensures
        from <= char_index_from(s, from, c) <= s.len(),
        char_index_from(s, from, c) < s.len() ==> s[char_index_from(s, from, c)] == c,
        forall|i: int| from <= i < char_index_from(s, from, c) ==> s[i] != c,
    decreases s.len() - from,
{
    if from < s.len() && s[from] != c {
        lemma_char_index_from(s, from + 1, c);
    }
}

/// The first index at or after `from` at which the text holds `c`, or its length.
pub fn scan_to_char(cs: &Vec<char>, from: usize, c: char) -> (r: usize)
    requires
        from <= cs.len(),
    ensures
        r == char_index_from(cs@, from as int, c),
        from <= r <= cs.len(),
{
    let mut i: usize = from;
    while i < cs.len() && cs[i] != c
        invariant
            from <= i <= cs.len(),
            char_index_from(cs@, from as int, c) == char_index_from(cs@, i as int, c),
        decreases cs.len() - i,
    {
        i += 1;
    }
    i
}

/// The part of `s` before its first `c`; all of `s` where it holds no `c`.
pub open spec fn before_char(s: Seq<char>, c: char) -> Seq<char> {
    s.take(char_index_from(s, 0, c))
}

/// The span of the part of the text before its first `c`.
pub fn before_first_char(cs: &Vec<char>, c: char) -> (r: Span)
    ensures
        r.fits(cs@.len()),
        r.start == 0,
        r.of(cs@) == before_char(cs@, c),
{
    let end = scan_to_char(cs, 0, c);
    Span { start: 0, end }
}

/// The index of the last `c` in `s`, or -1 where `s` holds none.
pub open spec fn last_char_index(s: Seq<char>, c: char) -> int
    decreases s.len(),
{
    if s.len() > 0 && s.last() != c {
        last_char_index(s.drop_last(), c)
    } else {
        s.len() - 1
    }
}

/// The part of `s` after its last `c`; all of `s` where it holds no `c`.
pub open spec fn after_last_char(s: Seq<char>, c: char) -> Seq<char> {
    s.skip(last_char_index(s, c) + 1)
}

/// The span of the part of the text after its last `c`.
pub fn after_last(cs: &Vec<char>, c: char) -> (r: Span)
    ensures
        r.fits(cs@.len()),
        r.end == cs@.len(),
        r.of(cs@) == after_last_char(cs@, c),
{
    let mut i: usize = cs.len();
    assert(cs@.take(cs@.len() as int) =~= cs@);
    while i > 0 && cs[i - 1] != c
        invariant
            i <= cs.len(),
            last_char_index(cs@, c) == last_char_index(cs@.take(i as int), c),
        decreases i,
    {
        assert(cs@.take(i as int).drop_last() =~= cs@.take(i - 1));
        i -= 1;
    }
    Span { start: i, end: cs.len() }
}

/// The index of the first occurrence of `sep` in `s`; meaningful where `s` holds `sep`.
pub open spec fn first_index(s: Seq<char>, sep: Seq<char>) -> int {
    choose|i: int| first_occurrence(s, sep, i)
}

/// There is one first occurrence at most.
pub proof fn lemma_first_index(s: Seq<char>, sep: Seq<char>, at: int)
    requires
        first_occurrence(s, sep, at),
    ensures
        first_index(s, sep) == at,
{
    let i = first_index(s, sep);
    assert(first_occurrence(s, sep, i));
    if i < at {
        assert(!occurs_at(s, sep, i));
    }
    if at < i {
        assert(!occurs_at(s, sep, at));
    }
}

/// The part of `s` before the first occurrence of `sep`; all of `s` where
/// `sep` does not occur.
pub open spec fn before_seq(s: Seq<char>, sep: Seq<char>) -> Seq<char> {
    if contains_seq(s, sep) {
        s.take(first_index(s, sep))
    } else {
        s
    }
}

/// The part of `s` after the first occurrence of `sep`, where `sep` occurs.
pub open spec fn after_seq(s: Seq<char>, sep: Seq<char>) -> Option<Seq<char>> {
    if contains_seq(s, sep) {
        Some(s.skip(first_index(s, sep) + sep.len()))
    } else {
        None
    }
}

/// The part of `s` between the first occurrence of `sep` and the next one
/// after it, or the end of `s`: the second of the pieces into which `sep`
/// cuts `s`.
pub open spec fn segment_after(s: Seq<char>, sep: Seq<char>) -> Option<Seq<char>> {
    match after_seq(s, sep) {
        Some(rest) => Some(before_seq(rest, sep)),
        None => None,
    }
}

/// The characters of the text that a span covers, as a text of their own.
pub fn slice_of(cs: &Vec<char>, span: Span) -> (r: Vec<char>)
    requires
        span.fits(cs@.len()),
    ensures
        r@ == span.of(cs@),
{
    let mut out: Vec<char> = Vec::new();
    let mut i: usize = span.start;
    while i < span.end
        invariant
            span.start <= i <= span.end <= cs.len(),
            out@ == cs@.subrange(span.start as int, i as int),
        decreases span.end - i,
    {
        out.push(cs[i]);
        assert(cs@.subrange(span.start as int, i + 1) =~= cs@.subrange(
            span.start as int,
            i as int,
        ).push(cs@[i as int]));
        i += 1;
    }
    out
}

/// The span of the text before the first occurrence of `sep`.
pub fn before_first(cs: &Vec<char>, sep: &Vec<char>) -> (r: Span)
    ensures
        r.fits(cs@.len()),
        r.start == 0,
        r.of(cs@) == before_seq(cs@, sep@),
{
    match find_chars(cs, sep) {
        Some(at) => {
            proof {
                lemma_first_index(cs@, sep@, at as int);
            }
            Span { start: 0, end: at }
        },
        None => {
            assert(cs@.subrange(0, cs@.len() as int) =~= cs@);
            Span { start: 0, end: cs.len() }
        },
    }
}

/// The span of the text after the first occurrence of `sep`.
pub fn after_first(cs: &Vec<char>, sep: &Vec<char>) -> (r: Option<Span>)
    ensures
        match r {
            Some(span) => span.fits(cs@.len()) && span.end == cs@.len() && after_seq(cs@, sep@)
                == Some(span.of(cs@)),
            None => after_seq(cs@, sep@) is None,
        },
{
    match find_chars(cs, sep) {
        Some(at) => {
            proof {
                lemma_first_index(cs@, sep@, at as int);
            }
            assert(occurs_at(cs@, sep@, at as int));
            let end: usize = cs.len();
            Some(Span { start: at + sep.len(), end })
        },
        None => None,
    }
}

/// The second of the pieces into which `sep` cuts the text, as a text of its own.
pub fn second_piece(cs: &Vec<char>, sep: &Vec<char>) -> (r: Option<Vec<char>>)
    ensures
        match r {
            Some(piece) => segment_after(cs@, sep@) == Some(piece@),
            None => segment_after(cs@, sep@) is None,
        },
{
    match after_first(cs, sep) {
        Some(span) => {
            let rest = slice_of(cs, span);
            let head = before_first(&rest, sep);
            Some(slice_of(&rest, head))
        },
        None => None,
    }
}

/// The length of `s` without its trailing white space.
pub open spec fn trimmed_len(s: Seq<char>) -> int
    decreases s.len(),
{
    if s.len() > 0 && is_space(s.last()) {
        trimmed_len(s.drop_last())
    } else {
        s.len() as int
    }
}

/// `s` without leading and trailing white space.
pub open spec fn trimmed(s: Seq<char>) -> Seq<char> {
    let kept = s.take(trimmed_len(s));
    kept.skip(run_end(kept, 0, true))
}

/// The span of the text without its leading and trailing white space.
pub fn trim(cs: &Vec<char>) -> (r: Span)
    ensures
        r.fits(cs@.len()),
        r.of(cs@) == trimmed(cs@),
{
    let mut end: usize = cs.len();
    assert(cs@.take(cs@.len() as int) =~= cs@);
    while end > 0 && is_whitespace(cs[end - 1])
        invariant
            end <= cs.len(),
            trimmed_len(cs@) == trimmed_len(cs@.take(end as int)),
        decreases end,
    {
        assert(cs@.take(end as int).drop_last() =~= cs@.take(end - 1));
        end -= 1;
    }
    let ghost kept = cs@.take(end as int);
    let mut start: usize = 0;
    while start < end && is_whitespace(cs[start])
        invariant
            start <= end <= cs.len(),
            kept == cs@.take(end as int),
            run_end(kept, 0, true) == run_end(kept, start as int, true),
        decreases end - start,
    {
        start += 1;
    }
    assert(kept.skip(start as int) =~= cs@.subrange(start as int, end as int));
    Span { start, end }
}

/// A line without its terminator: the carriage return before a line feed
/// is dropped with it.
pub open spec fn line_body(raw: Seq<char>, terminated: bool) -> Seq<char> {
    if terminated && raw.len() > 0 && raw.last() == '\r' {
        raw.drop_last()
    } else {
        raw
    }
}

/// The lines of the part of `s` from `from` on.
pub open spec fn lines_from(s: Seq<char>, from: int) -> Seq<Seq<char>>
    decreases s.len() - from,
{
    if 0 <= from < s.len() {
        let end = char_index_from(s, from, '\n');
        proof {
            lemma_char_index_from(s, from, '\n');
        }
        seq![line_body(s.subrange(from, end), end < s.len())] + (if end < s.len() {
            lines_from(s, end + 1)
        } else {
            Seq::empty()
        })
    } else {
        Seq::empty()
    }
}

/// The lines of a text. A line ends at a line feed, or at a carriage return
/// followed by one; the last line needs no terminator, and a text that ends
/// with a terminator has no empty line after it.
pub open spec fn lines(s: Seq<char>) -> Seq<Seq<char>> {
    lines_from(s, 0)
}

/// The lines of a text, as spans of its characters.
pub fn split_lines(cs: &Vec<char>) -> (r: Vec<Span>)
    ensures
        spans_cover(cs@, r@, lines(cs@)),
{
    let mut out: Vec<Span> = Vec::new();
    let ghost mut done: Seq<Seq<char>> = Seq::empty();
    let mut at: usize = 0;
    while at < cs.len()
        invariant
            at <= cs.len(),
            spans_cover(cs@, out@, done),
            lines(cs@) == done + lines_from(cs@, at as int),
        decreases cs.len() - at,
    {
        let end = scan_to_char(cs, at, '\n');
        let terminated = end < cs.len();
        let body_end = if terminated && end > at && cs[end - 1] == '\r' {
            end - 1
        } else {
            end
        };
        let ghost raw = cs@.subrange(at as int, end as int);
        let ghost body = line_body(raw, terminated);
        assert(body =~= cs@.subrange(at as int, body_end as int));
        out.push(Span { start: at, end: body_end });
        if !terminated {
            proof {
                assert(lines_from(cs@, at as int) =~= seq![body]);
                assert(done + seq![body] =~= done.push(body));
            }
            return out;
        }
        proof {
            assert(lines_from(cs@, at as int) == seq![body] + lines_from(cs@, end + 1));
            assert(done + (seq![body] + lines_from(cs@, end + 1)) =~= done.push(body)
                + lines_from(cs@, end + 1));
            done = done.push(body);
        }
        at = end + 1;
    }
    assert(lines_from(cs@, at as int) =~= Seq::<Seq<char>>::empty());
    assert(done + Seq::<Seq<char>>::empty() =~= done);
    out
}

/// `s` begins with `prefix`.
pub open spec fn has_prefix(s: Seq<char>, prefix: Seq<char>) -> bool {
    occurs_at(s, prefix, 0)
}

/// Whether the text begins with `prefix`.
pub fn starts_with(cs: &Vec<char>, prefix: &Vec<char>) -> (r: bool)
    ensures
        r == has_prefix(cs@, prefix@),
{
    crate::text::matches_at(cs, prefix, 0)
}

/// `s` with every occurrence of `pattern` taken out, the occurrences found
/// from left to right without overlap; `s` itself where `pattern` is empty.
pub open spec fn without(s: Seq<char>, pattern: Seq<char>) -> Seq<char>
    decreases s.len(),
{
    if pattern.len() > 0 && contains_seq(s, pattern) {
        let at = first_index(s, pattern);
        if 0 <= at && at + pattern.len() <= s.len() {
            s.take(at) + without(s.skip(at + pattern.len()), pattern)
        } else {
            s
        }
    } else {
        s
    }
}

/// The text with every occurrence of `pattern` taken out; the text as
/// it is where the pattern is empty.
pub fn remove_all(cs: &Vec<char>, pattern: &Vec<char>) -> (r: Vec<char>)
    ensures
        r@ == without(cs@, pattern@),
{
    let mut out: Vec<char> = Vec::new();
    let mut rest: Vec<char> = slice_of(cs, Span { start: 0, end: cs.len() });
    assert(rest@ =~= cs@);
    if pattern.len() == 0 {
        return rest;
    }
    loop
        invariant
            pattern@.len() > 0,
            without(cs@, pattern@) == out@ + without(rest@, pattern@),
        decreases rest@.len(),
    {
        match find_chars(&rest, pattern) {
            Some(at) => {
                proof {
                    lemma_first_index(rest@, pattern@, at as int);
                    assert(occurs_at(rest@, pattern@, at as int));
                }
                let total: usize = rest.len();
                let head = slice_of(&rest, Span { start: 0, end: at });
                let tail = slice_of(&rest, Span { start: at + pattern.len(), end: total });
                proof {
                    assert(head@ =~= rest@.take(at as int));
                    assert(tail@ =~= rest@.skip(at + pattern@.len()));
                    assert(out@ + (head@ + without(tail@, pattern@)) =~= (out@ + head@) + without(
                        tail@,
                        pattern@,
                    ));
                }
                append_chars(&mut out, &head);
                rest = tail;
            },
            None => {
                append_chars(&mut out, &rest);
                return out;
            },
        }
    }
}

/// The end of the run of `c` that starts at `from`.
pub open spec fn char_run_end(s: Seq<char>, from: int, c: char) -> int
    decreases s.len() - from,
{
    if 0 <= from < s.len() && s[from] == c {
        char_run_end(s, from + 1, c)
    } else {
        from
    }
}

/// The length of `s` without the run of `c` at its end.
pub open spec fn len_without_trailing(s: Seq<char>, c: char) -> int
    decreases s.len(),
{
    if s.len() > 0 && s.last() == c {
        len_without_trailing(s.drop_last(), c)
    } else {
        s.len() as int
    }
}

/// `s` without the runs of `c` at its start and at its end.
pub open spec fn stripped_of(s: Seq<char>, c: char) -> Seq<char> {
    let kept = s.take(len_without_trailing(s, c));
    kept.skip(char_run_end(kept, 0, c))
}

/// The span of the text without the runs of `c` at its start and at its end.
pub fn trim_matches(cs: &Vec<char>, c: char) -> (r: Span)
    ensures
        r.fits(cs@.len()),
        r.of(cs@) == stripped_of(cs@, c),
{
    let mut end: usize = cs.len();
    assert(cs@.take(cs@.len() as int) =~= cs@);
    while end > 0 && cs[end - 1] == c
        invariant
            end <= cs.len(),
            len_without_trailing(cs@, c) == len_without_trailing(cs@.take(end as int), c),
        decreases end,
    {
        assert(cs@.take(end as int).drop_last() =~= cs@.take(end - 1));
        end -= 1;
    }
    let ghost kept = cs@.take(end as int);
    let mut start: usize = 0;
    while start < end && cs[start] == c
        invariant
            start <= end <= cs.len(),
            kept == cs@.take(end as int),
            char_run_end(kept, 0, c) == char_run_end(kept, start as int, c),
        decreases end - start,
    {
        start += 1;
    }
    assert(kept.skip(start as int) =~= cs@.subrange(start as int, end as int));
    Span { start, end }
}

/// The texts joined with single spaces between them.
pub open spec fn joined(pieces: Seq<Seq<char>>) -> Seq<char>
    decreases pieces.len(),
{
    if pieces.len() == 0 {
        Seq::empty()
    } else if pieces.len() == 1 {
        pieces[0]
    } else {
        joined(pieces.drop_last()) + seq![' '] + pieces.last()
    }
}

/// The texts from `from` on, joined with single spaces between them.
pub open spec fn joined_from(pieces: Seq<Seq<char>>, from: int) -> Seq<char> {
    if 0 <= from < pieces.len() {
        joined(pieces.skip(from))
    } else {
        Seq::empty()
    }
}

/// Puts the characters of `more` after those of `out`.
pub fn append_chars(out: &mut Vec<char>, more: &Vec<char>)
    ensures
        final(out)@ == old(out)@ + more@,
{
    let ghost head = out@;
    let mut k: usize = 0;
    while k < more.len()
        invariant
            k <= more.len(),
            out@ == head + more@.take(k as int),
        decreases more.len() - k,
    {
        out.push(more[k]);
        assert(more@.take(k + 1) =~= more@.take(k as int).push(more@[k as int]));
        k += 1;
    }
    assert(more@.take(more@.len() as int) =~= more@);
}

/// The pieces of `s` that the spans cover, one by one.
pub open spec fn pieces_of(s: Seq<char>, spans: Seq<Span>) -> Seq<Seq<char>> {
    Seq::new(spans.len(), |i: int| spans[i].of(s))
}

/// Spans that cover `pieces` cut the text into exactly these pieces.
pub proof fn lemma_pieces_of(s: Seq<char>, spans: Seq<Span>, pieces: Seq<Seq<char>>)
    requires
        spans_cover(s, spans, pieces),
    ensures
        pieces_of(s, spans) == pieces,
{
    assert(pieces_of(s, spans) =~= pieces);
}

/// The pieces of the text that the spans from `from` on cover, joined
/// with single spaces.
pub fn join_spans(cs: &Vec<char>, spans: &Vec<Span>, from: usize) -> (r: Vec<char>)
    requires
        forall|i: int| 0 <= i < spans@.len() ==> (#[trigger] spans@[i]).fits(cs@.len()),
    ensures
        r@ == joined_from(pieces_of(cs@, spans@), from as int),
{
    let mut out: Vec<char> = Vec::new();
    let ghost pieces = pieces_of(cs@, spans@);
    if from >= spans.len() {
        return out;
    }
    let mut i: usize = from;
    assert(pieces.subrange(from as int, from as int) =~= Seq::<Seq<char>>::empty());
    while i < spans.len()
        invariant
            from <= i <= spans.len(),
            pieces == pieces_of(cs@, spans@),
            forall|i: int| 0 <= i < spans@.len() ==> (#[trigger] spans@[i]).fits(cs@.len()),
            out@ == joined(pieces.subrange(from as int, i as int)),
        decreases spans.len() - i,
    {
        let piece = slice_of(cs, spans[i]);
        proof {
            let upto = pieces.subrange(from as int, i + 1);
            assert(upto.drop_last() =~= pieces.subrange(from as int, i as int));
            assert(upto.last() == piece@);
            if i == from {
                assert(out@ + piece@ =~= piece@);
            }
        }
        if i > from {
            out.push(' ');
        }
        append_chars(&mut out, &piece);
        i += 1;
    }
    assert(pieces.subrange(from as int, pieces.len() as int) =~= pieces.skip(from as int));
    out
}

/// The pieces into which the character `c` cuts the part of `s` from
/// `from` on: what lies between one `c` and the next, empty pieces included.
pub open spec fn split_from(s: Seq<char>, from: int, c: char) -> Seq<Seq<char>>
    decreases s.len() - from,
{
    if 0 <= from <= s.len() {
        let end = char_index_from(s, from, c);
        proof {
            lemma_char_index_from(s, from, c);
        }
        seq![s.subrange(from, end)] + (if end < s.len() {
            split_from(s, end + 1, c)
        } else {
            Seq::empty()
        })
    } else {
        Seq::empty()
    }
}

/// The pieces into which the character `c` cuts `s`. A text without `c`
/// is one piece; a `c` at the start or the end borders an empty piece.
pub open spec fn split_on(s: Seq<char>, c: char) -> Seq<Seq<char>> {
    split_from(s, 0, c)
}

/// The pieces into which the character `c` cuts the text, as spans.
pub fn split_char(cs: &Vec<char>, c: char) -> (r: Vec<Span>)
    ensures
        spans_cover(cs@, r@, split_on(cs@, c)),
        r@.len() >= 1,
{
    let mut out: Vec<Span> = Vec::new();
    let ghost mut done: Seq<Seq<char>> = Seq::empty();
    let mut at: usize = 0;
    loop
        invariant
            at <= cs.len(),
            spans_cover(cs@, out@, done),
            split_on(cs@, c) == done + split_from(cs@, at as int, c),
        decreases cs.len() - at,
    {
        let end = scan_to_char(cs, at, c);
        let ghost piece = cs@.subrange(at as int, end as int);
        out.push(Span { start: at, end });
        if end >= cs.len() {
            proof {
                assert(split_from(cs@, at as int, c) =~= seq![piece]);
                assert(done + seq![piece] =~= done.push(piece));
            }
            return out;
        }
        proof {
            assert(split_from(cs@, at as int, c) == seq![piece] + split_from(cs@, end + 1, c));
            assert(done + (seq![piece] + split_from(cs@, end + 1, c)) =~= done.push(piece)
                + split_from(cs@, end + 1, c));
            done = done.push(piece);
        }
        at = end + 1;
    }
}

} // verus!
