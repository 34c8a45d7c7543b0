//! The framing of a streamed response: lines, the record marker, the end
//! marker, and the repair of a record that was cut short.

use vstd::prelude::*;
use crate::text::starts_with;

verus! {

/// The marker that begins every record.
pub open spec fn data_marker() -> Seq<char> {
    seq!['d', 'a', 't', 'a', ':', ' ']
}

/// The marker that ends the stream.
pub open spec fn done_marker() -> Seq<char> {
    seq!['[', 'D', 'O', 'N', 'E', ']']
}

/// How often `c` occurs in `text`.
pub open spec fn count_char(text: Seq<char>, c: char) -> nat
    decreases text.len(),
{
    if text.len() == 0 {
        0
    } else {
        count_char(text.drop_last(), c) + if text.last() == c {
            1nat
        } else {
            0nat
        }
    }
}

/// The index of the first line feed in `text`, or its length if it has none.
pub open spec fn first_newline(text: Seq<char>) -> int
    decreases text.len(),
{
    if text.len() == 0 {
        0
    } else if text[0] == '\n' {
        0
    } else {
        1 + first_newline(text.drop_first())
    }
}

/// The index of the last line feed in `text`, or -1 if it has none.
pub open spec fn last_newline(text: Seq<char>) -> int
    decreases text.len(),
{
    if text.len() == 0 {
        -1
    } else if text.last() == '\n' {
        text.len() - 1
    } else {
        last_newline(text.drop_last())
    }
}

/// `line` without one carriage return at its end.
pub open spec fn strip_cr(line: Seq<char>) -> Seq<char> {
    if line.len() > 0 && line.last() == '\r' {
        line.drop_last()
    } else {
        line
    }
}

/// Whether `line` says that the stream is complete: it is the record
/// marker followed by the end marker, and nothing else.
pub open spec fn is_done_line(line: Seq<char>) -> bool {
    starts_with(line, data_marker()) && payload_of(line) == done_marker()
}

/// Whether `line` carries a record to decode: it begins with the record
/// marker and is not the line that says the stream is complete.
pub open spec fn is_data_line(line: Seq<char>) -> bool {
    starts_with(line, data_marker()) && !is_done_line(line)
}

/// What follows the record marker on a line that begins with it.
pub open spec fn payload_of(line: Seq<char>) -> Seq<char> {
    line.skip(6)
}

/// `count` closing braces.
pub open spec fn closing_braces(count: nat) -> Seq<char> {
    Seq::new(count, |i: int| '}')
}

/// `payload` after the repair of a record that was cut short: a closing
/// quote is added where the quotes are odd in number, then as many closing
/// braces as there are more opening than closing ones.
pub open spec fn repaired(payload: Seq<char>) -> Seq<char> {
    let quoted = if count_char(payload, '"') % 2 == 1 {
        payload.push('"')
    } else {
        payload
    };
    let opening = count_char(payload, '{');
    let closing = count_char(payload, '}');
    if opening > closing {
        quoted + closing_braces((opening - closing) as nat)
    } else {
        quoted
    }
}

/// The facts that place the first line feed of a text.
pub proof fn lemma_first_newline(text: Seq<char>)
    ensures
        0 <= first_newline(text) <= text.len(),
        forall|i: int| 0 <= i < first_newline(text) ==> text[i] != '\n',
        first_newline(text) < text.len() ==> text[first_newline(text)] == '\n',
    decreases text.len(),
{
    if text.len() > 0 && text[0] != '\n' {
        let rest = text.drop_first();
        lemma_first_newline(rest);
        assert forall|i: int| 0 <= i < first_newline(text) implies text[i] != '\n' by {
            if i > 0 {
                assert(text[i] == rest[i - 1]);
            }
        }
        if first_newline(text) < text.len() {
            assert(text[first_newline(text)] == rest[first_newline(rest)]);
        }
    }
}

/// The first line feed is the only index with these properties.
pub proof fn lemma_first_newline_is(text: Seq<char>, n: int)
    requires
        0 <= n <= text.len(),
        forall|i: int| 0 <= i < n ==> text[i] != '\n',
        n < text.len() ==> text[n] == '\n',
    ensures
        first_newline(text) == n,
{
    lemma_first_newline(text);
    let f = first_newline(text);
    if f < n {
        assert(text[f] == '\n');
    } else if n < f {
        assert(text[n] != '\n');
    }
}

/// The facts that place the last line feed of a text.
pub proof fn lemma_last_newline(text: Seq<char>)
    ensures
        -1 <= last_newline(text) < text.len(),
        forall|i: int| last_newline(text) < i < text.len() ==> text[i] != '\n',
        last_newline(text) >= 0 ==> text[last_newline(text)] == '\n',
    decreases text.len(),
{
    if text.len() > 0 && text.last() != '\n' {
        let front = text.drop_last();
        lemma_last_newline(front);
        assert forall|i: int| last_newline(text) < i < text.len() implies text[i] != '\n' by {
            if i < text.len() - 1 {
                assert(text[i] == front[i]);
            }
        }
        if last_newline(text) >= 0 {
            assert(text[last_newline(text)] == front[last_newline(front)]);
        }
    }
}

/// The last line feed is the only index with these properties.
pub proof fn lemma_last_newline_is(text: Seq<char>, n: int)
    requires
        -1 <= n < text.len(),
        forall|i: int| n < i < text.len() ==> text[i] != '\n',
        n >= 0 ==> text[n] == '\n',
    ensures
        last_newline(text) == n,
{
    lemma_last_newline(text);
    let l = last_newline(text);
    if l > n {
        assert(text[l] == '\n');
    } else if n > l {
        assert(text[n] != '\n');
    }
}

/// Counting is additive over concatenation.
pub proof fn lemma_count_char_concat(a: Seq<char>, b: Seq<char>, c: char)
    ensures
        count_char(a + b, c) == count_char(a, c) + count_char(b, c),
    decreases b.len(),
{
    if b.len() == 0 {
        assert(a + b =~= a);
    } else {
        assert((a + b).drop_last() =~= a + b.drop_last());
        lemma_count_char_concat(a, b.drop_last(), c);
    }
}

/// A run of closing braces holds as many closing braces as it is long, and
/// nothing else.
pub proof fn lemma_count_closing_braces(count: nat, c: char)
    ensures
        count_char(closing_braces(count), c) == if c == '}' {
            count
        } else {
            0
        },
    decreases count,
{
    if count > 0 {
        assert(closing_braces(count).drop_last() =~= closing_braces((count - 1) as nat));
        lemma_count_closing_braces((count - 1) as nat, c);
    }
}

/// The repair only adds to the end of a payload, and what it gives has its
/// quotes in pairs and no brace left open.
pub proof fn lemma_repair_balances(payload: Seq<char>)
    ensures
        starts_with(repaired(payload), payload),
        count_char(repaired(payload), '"') % 2 == 0,
        count_char(repaired(payload), '{') <= count_char(repaired(payload), '}'),
{
    let quoted = if count_char(payload, '"') % 2 == 1 {
        payload.push('"')
    } else {
        payload
    };
    let opening = count_char(payload, '{');
    let closing = count_char(payload, '}');
    let added = if opening > closing {
        closing_braces((opening - closing) as nat)
    } else {
        Seq::<char>::empty()
    };
    assert(repaired(payload) =~= quoted + added);
    assert(quoted.drop_last() =~= payload || quoted == payload);
    assert(count_char(quoted, '{') == opening);
    assert(count_char(quoted, '}') == closing);
    assert(count_char(quoted, '"') % 2 == 0);
    lemma_count_char_concat(quoted, added, '"');
    lemma_count_char_concat(quoted, added, '{');
    lemma_count_char_concat(quoted, added, '}');
    if opening > closing {
        lemma_count_closing_braces((opening - closing) as nat, '"');
        lemma_count_closing_braces((opening - closing) as nat, '{');
        lemma_count_closing_braces((opening - closing) as nat, '}');
    }
    assert(repaired(payload).subrange(0, payload.len() as int) =~= payload);
}

/// Counts the occurrences of `c`.
pub fn count_of(text: &Vec<char>, c: char) -> (n: usize)
    ensures
        n == count_char(text@, c),
{
    let mut n: usize = 0;
    let mut i: usize = 0;
    while i < text.len()
        invariant
            i <= text.len(),
            n <= i,
            n == count_char(text@.take(i as int), c),
        decreases text.len() - i,
    {
        assert(text@.take(i + 1).drop_last() =~= text@.take(i as int));
        if text[i] == c {
            n += 1;
        }
        i += 1;
    }
    assert(text@.take(i as int) =~= text@);
    n
}

/// Whether `text` begins with `prefix`.
pub fn has_prefix(text: &Vec<char>, prefix: &Vec<char>) -> (r: bool)
    ensures
        r == starts_with(text@, prefix@),
{
    if prefix.len() > text.len() {
        return false;
    }
    let mut i: usize = 0;
    while i < prefix.len()
        invariant
            i <= prefix.len() <= text.len(),
            forall|j: int| 0 <= j < i ==> text@[j] == prefix@[j],
        decreases prefix.len() - i,
    {
        if text[i] != prefix[i] {
            assert(text@.subrange(0, prefix@.len() as int)[i as int] != prefix@[i as int]);
            return false;
        }
        i += 1;
    }
    assert(text@.subrange(0, prefix@.len() as int) =~= prefix@);
    true
}

/// The record marker.
pub fn data_marker_chars() -> (r: Vec<char>)
    ensures
        r@ == data_marker(),
{
    let r = vec!['d', 'a', 't', 'a', ':', ' '];
    assert(r@ =~= data_marker());
    r
}

/// The end marker.
pub fn done_marker_chars() -> (r: Vec<char>)
    ensures
        r@ == done_marker(),
{
    let r = vec!['[', 'D', 'O', 'N', 'E', ']'];
    assert(r@ =~= done_marker());
    r
}

/// Whether `line` says that the stream is complete.
pub fn line_is_done(line: &Vec<char>) -> (r: bool)
    ensures
        r == is_done_line(line@),
{
    let data = data_marker_chars();
    if !has_prefix(line, &data) {
        return false;
    }
    let done = done_marker_chars();
    let payload = slice_of(line, 6, line.len());
    assert(payload@ =~= payload_of(line@));
    if payload.len() != done.len() {
        return false;
    }
    let same = has_prefix(&payload, &done);
    assert(payload@.subrange(0, done@.len() as int) =~= payload@);
    same
}

/// Whether `line` carries a record to decode.
pub fn line_has_record(line: &Vec<char>) -> (r: bool)
    ensures
        r == is_data_line(line@),
{
    let data = data_marker_chars();
    has_prefix(line, &data) && !line_is_done(line)
}

/// Takes one line off a text: of the characters of `text` from `start` up
/// to `limit`, returns the first line, without its line feed and without a
/// carriage return before that, and the index at which the next line
/// begins. A last line without a line feed is returned as it stands.
pub fn take_line(text: &Vec<char>, start: usize, limit: usize) -> (r: (Vec<char>, usize))
    requires
        start < limit <= text.len(),
    ensures
        start < r.1 <= limit,
        ({
            let rest = text@.subrange(start as int, limit as int);
            let n = first_newline(rest);
            if n >= rest.len() {
                r.0@ == rest && r.1 == limit
            } else {
                r.0@ == strip_cr(rest.take(n)) && r.1 == start + n + 1
            }
        }),
{
    let ghost rest = text@.subrange(start as int, limit as int);
    let mut end = start;
    while end < limit && text[end] != '\n'
        invariant
            start <= end <= limit <= text.len(),
            forall|j: int| start <= j < end ==> text@[j] != '\n',
        decreases limit - end,
    {
        end += 1;
    }
    proof {
        assert forall|i: int| 0 <= i < end - start implies rest[i] != '\n' by {
            assert(rest[i] == text@[start + i]);
        }
        if end < limit {
            assert(rest[end - start] == text@[end as int]);
        }
        lemma_first_newline_is(rest, end - start);
    }
    if end < limit {
        let mut line_end = end;
        if line_end > start && text[line_end - 1] == '\r' {
            line_end -= 1;
        }
        let line = slice_of(text, start, line_end);
        proof {
            assert(rest.take(end - start) =~= text@.subrange(start as int, end as int));
            assert(strip_cr(rest.take(end - start)) =~= line@);
        }
        (line, end + 1)
    } else {
        let line = slice_of(text, start, limit);
        (line, limit)
    }
}

/// The characters of `text` from `from` up to `to`.
pub fn slice_of(text: &Vec<char>, from: usize, to: usize) -> (r: Vec<char>)
    requires
        from <= to <= text.len(),
    ensures
        r@ == text@.subrange(from as int, to as int),
{
    let mut r: Vec<char> = Vec::new();
    let mut i: usize = from;
    while i < to
        invariant
            from <= i <= to <= text.len(),
            r@ == text@.subrange(from as int, i as int),
        decreases to - i,
    {
        r.push(text[i]);
        assert(r@ =~= text@.subrange(from as int, i + 1));
        i += 1;
    }
    r
}

/// Repairs a record that was cut short.
pub fn repair(payload: &Vec<char>) -> (r: Vec<char>)
    ensures
        r@ == repaired(payload@),
{
    let quotes = count_of(payload, '"');
    let opening = count_of(payload, '{');
    let closing = count_of(payload, '}');
    let mut r = slice_of(payload, 0, payload.len());
    assert(r@ =~= payload@);
    if quotes % 2 == 1 {
        r.push('"');
    }
    let ghost quoted = r@;
    if opening > closing {
        let missing = opening - closing;
        let mut i: usize = 0;
        while i < missing
            invariant
                i <= missing,
                r@ == quoted + closing_braces(i as nat),
            decreases missing - i,
        {
            r.push('}');
            assert(r@ =~= quoted + closing_braces((i + 1) as nat));
            i += 1;
        }
    }
    r
}

} // verus!
