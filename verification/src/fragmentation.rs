//! Why the chunks of a stream do not depend on how the connection cuts it
//! into pieces.

use vstd::prelude::*;
use crate::framing::{
    first_newline, is_data_line, is_done_line, last_newline, lemma_first_newline,
    lemma_first_newline_is, lemma_last_newline, lemma_last_newline_is, strip_cr,
};
use crate::transport::{
    drained_events, line_errors, line_events, lossy_text, remainder, text_events,
};
use crate::types::ChatCompletionChunkView;

verus! {

/// The pieces put together, in order.
pub open spec fn joined(pieces: Seq<Seq<char>>) -> Seq<char>
    decreases pieces.len(),
{
    if pieces.len() == 0 {
        Seq::empty()
    } else {
        pieces[0] + joined(pieces.drop_first())
    }
}

/// The chunks that come out when the pieces are appended to `buffer` one at
/// a time and the buffer is drained after each.
pub open spec fn fed_events(buffer: Seq<char>, pieces: Seq<Seq<char>>) -> Seq<
    ChatCompletionChunkView,
>
    decreases pieces.len(),
{
    if pieces.len() == 0 {
        Seq::empty()
    } else {
        drained_events(buffer + pieces[0]) + fed_events(
            remainder(buffer + pieces[0]),
            pieces.drop_first(),
        )
    }
}

/// What stays in the buffer after the pieces were appended one at a time,
/// with a drain after each.
pub open spec fn fed_buffer(buffer: Seq<char>, pieces: Seq<Seq<char>>) -> Seq<char>
    decreases pieces.len(),
{
    if pieces.len() == 0 {
        buffer
    } else {
        fed_buffer(remainder(buffer + pieces[0]), pieces.drop_first())
    }
}

/// Whether every line of `text` ends with a bare line feed, none with a
/// carriage return before it.
pub open spec fn bare_line_feeds(text: Seq<char>) -> bool {
    forall|i: int| 0 < i < text.len() && (#[trigger] text[i]) == '\n' ==> text[i - 1] != '\r'
}

/// An empty line gives no chunk.
pub proof fn lemma_empty_line_gives_nothing()
    ensures
        line_events(Seq::<char>::empty()) == Seq::<ChatCompletionChunkView>::empty(),
{
    assert(!is_data_line(Seq::<char>::empty()));
}

/// A line feed between two texts parts their chunks, as long as the first
/// text does not end with a carriage return.
pub proof fn lemma_text_events_split(x: Seq<char>, y: Seq<char>)
    requires
        x.len() == 0 || x.last() != '\r',
    ensures
        text_events(x + seq!['\n'] + y) == text_events(x) + text_events(y),
    decreases x.len(),
{
    let whole = x + seq!['\n'] + y;
    if x.len() == 0 {
        lemma_empty_line_gives_nothing();
        lemma_first_newline_is(whole, 0);
        assert(whole.take(0) =~= Seq::<char>::empty());
        assert(whole.skip(1) =~= y);
        assert(text_events(whole) =~= text_events(x) + text_events(y));
    } else {
        lemma_first_newline(x);
        let n = first_newline(x);
        assert forall|i: int| 0 <= i < n implies whole[i] != '\n' by {
            assert(whole[i] == x[i]);
        }
        if n == x.len() {
            assert(whole[n] == '\n');
            lemma_first_newline_is(whole, n);
            assert(whole.take(n) =~= x);
            assert(whole.skip(n + 1) =~= y);
            assert(strip_cr(x) == x);
        } else {
            assert(whole[n] == x[n]);
            lemma_first_newline_is(whole, n);
            let tail = x.skip(n + 1);
            assert(whole.take(n) =~= x.take(n));
            assert(whole.skip(n + 1) =~= tail + seq!['\n'] + y);
            if tail.len() > 0 {
                assert(tail.last() == x.last());
            }
            lemma_text_events_split(tail, y);
            assert(text_events(whole) =~= text_events(x) + text_events(y));
        }
    }
}

/// Where the last line feed of two texts put together lies.
pub proof fn lemma_last_newline_concat(a: Seq<char>, b: Seq<char>)
    ensures
        last_newline(a + b) == if last_newline(b) >= 0 {
            a.len() + last_newline(b)
        } else {
            last_newline(a)
        },
{
    lemma_last_newline(a);
    lemma_last_newline(b);
    let whole = a + b;
    let n = if last_newline(b) >= 0 {
        a.len() + last_newline(b)
    } else {
        last_newline(a)
    };
    assert forall|i: int| n < i < whole.len() implies whole[i] != '\n' by {
        if i < a.len() {
            assert(whole[i] == a[i]);
        } else {
            assert(whole[i] == b[i - a.len()]);
        }
    }
    if n >= 0 {
        if last_newline(b) >= 0 {
            assert(whole[n] == b[last_newline(b)]);
        } else {
            assert(whole[n] == a[n]);
        }
    }
    lemma_last_newline_is(whole, n);
}

/// Draining after `a` and again after `b` gives the chunks, and leaves the
/// text, that one drain after both gives.
pub proof fn lemma_drain_in_two(a: Seq<char>, b: Seq<char>)
    requires
        bare_line_feeds(a + b),
    ensures
        drained_events(a + b) == drained_events(a) + drained_events(remainder(a) + b),
        remainder(a + b) == remainder(remainder(a) + b),
{
    lemma_last_newline(a);
    lemma_last_newline(b);
    lemma_last_newline_concat(a, b);
    let la = last_newline(a);
    let lb = last_newline(b);
    if la < 0 {
        assert(drained_events(a) + drained_events(a + b) =~= drained_events(a + b));
    } else {
        let head = a.take(la);
        let tail = a.skip(la + 1);
        assert forall|i: int| 0 <= i < tail.len() implies tail[i] != '\n' by {
            assert(tail[i] == a[la + 1 + i]);
        }
        lemma_last_newline_is(tail, -1);
        lemma_last_newline_concat(tail, b);
        if lb < 0 {
            assert((a + b).take(la) =~= head);
            assert((a + b).skip(la + 1) =~= tail + b);
            assert(drained_events(a) + drained_events(tail + b) =~= drained_events(a));
        } else {
            let middle = tail + b.take(lb);
            assert((a + b).take(a.len() + lb) =~= head + seq!['\n'] + middle);
            assert((tail + b).take(tail.len() + lb) =~= middle);
            assert((a + b).skip(a.len() + lb + 1) =~= b.skip(lb + 1));
            assert((tail + b).skip(tail.len() + lb + 1) =~= b.skip(lb + 1));
            if la > 0 {
                assert((a + b)[la] == '\n');
                assert((a + b)[la - 1] == head.last());
            }
            lemma_text_events_split(head, middle);
        }
    }
}

/// However a text is cut into pieces, feeding the pieces one at a time and
/// draining after each gives the same chunks in the same order, and leaves
/// the same text in the buffer, as feeding it whole and draining once. The
/// buffer starts without a complete record in it, and no line of the text
/// ends with a carriage return before its line feed.
pub proof fn lemma_fragmentation_invariance(buffer: Seq<char>, pieces: Seq<Seq<char>>)
    requires
        last_newline(buffer) < 0,
        bare_line_feeds(buffer + joined(pieces)),
    ensures
        fed_events(buffer, pieces) == drained_events(buffer + joined(pieces)),
        fed_buffer(buffer, pieces) == remainder(buffer + joined(pieces)),
    decreases pieces.len(),
{
    if pieces.len() == 0 {
        assert(buffer + joined(pieces) =~= buffer);
    } else {
        let a = buffer + pieces[0];
        let rest = pieces.drop_first();
        let b = joined(rest);
        let whole = buffer + joined(pieces);
        assert(whole =~= a + b);
        lemma_drain_in_two(a, b);
        lemma_last_newline(a);
        let kept = remainder(a);
        let cut = a.len() - kept.len();
        assert forall|i: int| 0 <= i < kept.len() implies kept[i] != '\n' by {
            assert(kept[i] == a[cut + i]);
        }
        lemma_last_newline_is(kept, -1);
        assert forall|i: int| 0 < i < (kept + b).len() && (#[trigger] (kept + b)[i])
            == '\n' implies (kept + b)[i - 1] != '\r' by {
            assert((kept + b)[i] == whole[cut + i]);
            assert((kept + b)[i - 1] == whole[cut + i - 1]);
        }
        lemma_fragmentation_invariance(kept, rest);
    }
}

/// Text without a line feed stays in the buffer whole, and gives no chunk.
pub proof fn lemma_partial_record_stays(buffer: Seq<char>)
    requires
        forall|i: int| 0 <= i < buffer.len() ==> buffer[i] != '\n',
    ensures
        drained_events(buffer) == Seq::<ChatCompletionChunkView>::empty(),
        remainder(buffer) == buffer,
{
    lemma_last_newline_is(buffer, -1);
}

/// The bytes of the batches put together, in order.
pub open spec fn joined_bytes(batches: Seq<Seq<u8>>) -> Seq<u8>
    decreases batches.len(),
{
    if batches.len() == 0 {
        Seq::empty()
    } else {
        batches[0] + joined_bytes(batches.drop_first())
    }
}

/// The text of each batch, decoded by itself.
pub open spec fn decoded(batches: Seq<Seq<u8>>) -> Seq<Seq<char>> {
    batches.map_values(|b: Seq<u8>| lossy_text(b))
}

/// The same for batches of bytes: where the connection cuts the bytes so
/// that decoding them batch by batch gives the text of them all, the chunks
/// and what stays in the buffer do not depend on the cuts.
pub proof fn lemma_fragmentation_invariance_bytes(buffer: Seq<char>, batches: Seq<Seq<u8>>)
    requires
        last_newline(buffer) < 0,
        joined(decoded(batches)) == lossy_text(joined_bytes(batches)),
        bare_line_feeds(buffer + lossy_text(joined_bytes(batches))),
    ensures
        fed_events(buffer, decoded(batches)) == drained_events(
            buffer + lossy_text(joined_bytes(batches)),
        ),
        fed_buffer(buffer, decoded(batches)) == remainder(
            buffer + lossy_text(joined_bytes(batches)),
        ),
{
    lemma_fragmentation_invariance(buffer, decoded(batches));
}

/// The line that says the stream is complete gives no chunk and counts as
/// no failure.
pub proof fn lemma_done_marker_gives_nothing(line: Seq<char>, failures: u32)
    requires
        is_done_line(line),
    ensures
        line_events(line) == Seq::<ChatCompletionChunkView>::empty(),
        line_errors(line, failures) == failures,
{
}

} // verus!
