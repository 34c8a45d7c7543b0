//! What the client needs around a connection: the buffer that turns the
//! bytes of a streamed response into chunks, the API key, and the schedule
//! for opening the stream again.

use vstd::prelude::*;
use crate::decode::{agrees, chunk_of, decode_chunk};
use crate::error::GroqError;
use crate::framing::{
    first_newline, is_data_line, is_done_line, last_newline, lemma_last_newline, lemma_last_newline_is, line_has_record, line_is_done, payload_of, repair,
    repaired, slice_of, strip_cr, take_line,
};
use crate::json::{json_parse, Json};
use crate::text::{chars_of, skip_whitespace, starts_with, trim_start};
use crate::types::{ChatCompletionChunk, ChatCompletionChunkView};

verus! {

/// The chunk that `text` holds, where it is JSON that reads as one.
pub open spec fn chunk_of_text(text: Seq<char>) -> Option<ChatCompletionChunkView> {
    match json_parse(text) {
        Some(v) => chunk_of(v),
        None => None,
    }
}

/// The chunk that `payload` holds once it is repaired.
pub open spec fn recovered_chunk(payload: Seq<char>) -> Option<ChatCompletionChunkView> {
    chunk_of_text(repaired(payload))
}

/// The chunk that one line of the stream gives: none for a line without a
/// record; else the chunk its payload holds, as it stands or repaired.
pub open spec fn line_chunk(line: Seq<char>) -> Option<ChatCompletionChunkView> {
    if is_data_line(line) {
        match chunk_of_text(payload_of(line)) {
            Some(chunk) => Some(chunk),
            None => recovered_chunk(payload_of(line)),
        }
    } else {
        None
    }
}

/// The chunks that one line gives: one or none.
pub open spec fn line_events(line: Seq<char>) -> Seq<ChatCompletionChunkView> {
    match line_chunk(line) {
        Some(chunk) => seq![chunk],
        None => Seq::empty(),
    }
}

/// The count of consecutive failures after one line, given the count before:
/// unchanged by a line without a record, zero after a payload that reads as
/// it stands, one more (up to the largest number) after one that does not.
pub open spec fn line_errors(line: Seq<char>, before: u32) -> u32 {
    if !is_data_line(line) {
        before
    } else if chunk_of_text(payload_of(line)) is Some {
        0
    } else if before < u32::MAX {
        (before + 1) as u32
    } else {
        before
    }
}

/// The chunks that the lines of `text` give, in order. Lines end at a line
/// feed; a carriage return before that line feed is not part of the line. A
/// last line without a line feed is taken as it stands.
pub open spec fn text_events(text: Seq<char>) -> Seq<ChatCompletionChunkView>
    decreases text.len(),
{
    let n = first_newline(text);
    if text.len() == 0 {
        Seq::empty()
    } else if n < 0 || n >= text.len() {
        line_events(text)
    } else {
        line_events(strip_cr(text.take(n))) + text_events(text.skip(n + 1))
    }
}

/// The count of consecutive failures after the lines of `text`.
pub open spec fn text_errors(text: Seq<char>, before: u32) -> u32
    decreases text.len(),
{
    let n = first_newline(text);
    if text.len() == 0 {
        before
    } else if n < 0 || n >= text.len() {
        line_errors(text, before)
    } else {
        text_errors(text.skip(n + 1), line_errors(strip_cr(text.take(n)), before))
    }
}

/// Whether one of the lines of `text` says that the stream is complete.
pub open spec fn text_has_done(text: Seq<char>) -> bool
    decreases text.len(),
{
    let n = first_newline(text);
    if text.len() == 0 {
        false
    } else if n < 0 || n >= text.len() {
        is_done_line(text)
    } else {
        is_done_line(strip_cr(text.take(n))) || text_has_done(text.skip(n + 1))
    }
}

/// The part of a buffer that holds complete records: all that stands before
/// its last line feed.
pub open spec fn ready_part(buffer: Seq<char>) -> Seq<char> {
    buffer.take(last_newline(buffer))
}

/// The part of a buffer that stays: all of it where it has no line feed, else
/// what follows the last one.
pub open spec fn remainder(buffer: Seq<char>) -> Seq<char> {
    if last_newline(buffer) < 0 {
        buffer
    } else {
        buffer.skip(last_newline(buffer) + 1)
    }
}

/// The chunks that draining `buffer` gives.
pub open spec fn drained_events(buffer: Seq<char>) -> Seq<ChatCompletionChunkView> {
    if last_newline(buffer) < 0 {
        Seq::empty()
    } else {
        text_events(ready_part(buffer))
    }
}

/// The count of consecutive failures after draining `buffer`.
pub open spec fn drained_errors(buffer: Seq<char>, before: u32) -> u32 {
    if last_newline(buffer) < 0 {
        before
    } else {
        text_errors(ready_part(buffer), before)
    }
}

/// Whether draining `buffer` meets a line that says the stream is complete.
pub open spec fn drained_done(buffer: Seq<char>) -> bool {
    last_newline(buffer) >= 0 && text_has_done(ready_part(buffer))
}

/// Whether `results` are exactly the chunks `chunks`, each of them a success.
pub open spec fn all_chunks(
    results: Seq<Result<ChatCompletionChunk, GroqError>>,
    chunks: Seq<ChatCompletionChunkView>,
) -> bool {
    &&& results.len() == chunks.len()
    &&& forall|i: int|
        0 <= i < results.len() ==> (#[trigger] results[i]) is Ok && results[i]->Ok_0@ == chunks[i]
}

/// What the lossy UTF-8 decoder makes of `bytes`: their text, with the
/// replacement character in place of each invalid sequence.
pub uninterp spec fn lossy_text(bytes: Seq<u8>) -> Seq<char>;

/// Runs `String::from_utf8_lossy` on `bytes` and hands out the characters of
/// the string it gives. The text is named, not described.
#[verifier::external_body]
fn decode_lossy(bytes: &[u8]) -> (r: Vec<char>)
    ensures
        r@ == lossy_text(bytes@),
{
    String::from_utf8_lossy(bytes).chars().collect()
}

/// Reads a chunk out of JSON text.
pub fn chunk_from_text(text: &Vec<char>) -> (r: Option<ChatCompletionChunk>)
    ensures
        agrees(r, chunk_of_text(text@)),
{
    match Json::parse(text) {
        Some(doc) => decode_chunk(&doc),
        None => None,
    }
}

/// Reads a chunk out of a payload after repairing it.
pub fn recover_chunk(payload: &Vec<char>) -> (r: Option<ChatCompletionChunk>)
    ensures
        agrees(r, recovered_chunk(payload@)),
{
    let fixed = repair(payload);
    chunk_from_text(&fixed)
}

/// Decodes one line of the stream, and counts: returns the chunk, if the
/// line gives one, and the new count of consecutive failures.
pub fn decode_line(line: &Vec<char>, errors: u32) -> (r: (Option<ChatCompletionChunk>, u32))
    ensures
        agrees(r.0, line_chunk(line@)),
        r.1 == line_errors(line@, errors),
{
    if !line_has_record(line) {
        return (None, errors);
    }
    let payload = slice_of(line, 6, line.len());
    assert(payload@ =~= payload_of(line@));
    match chunk_from_text(&payload) {
        Some(chunk) => (Some(chunk), 0),
        None => {
            let count: u32 = if errors < u32::MAX {
                errors + 1
            } else {
                errors
            };
            (recover_chunk(&payload), count)
        },
    }
}

/// The index of the last line feed.
pub fn find_last_newline(text: &Vec<char>) -> (r: Option<usize>)
    ensures
        match r {
            Some(i) => last_newline(text@) == i,
            None => last_newline(text@) == -1,
        },
{
    let mut found: Option<usize> = None;
    let mut i: usize = 0;
    while i < text.len()
        invariant
            i <= text.len(),
            match found {
                Some(k) => last_newline(text@.take(i as int)) == k,
                None => last_newline(text@.take(i as int)) == -1,
            },
        decreases text.len() - i,
    {
        assert(text@.take(i + 1).drop_last() =~= text@.take(i as int));
        if text[i] == '\n' {
            found = Some(i);
        }
        i += 1;
    }
    assert(text@.take(i as int) =~= text@);
    found
}

/// The buffer between the connection and the consumer of a streamed
/// response. Bytes go in as they arrive; chunks come out as soon as the
/// records that hold them are complete.
pub struct StreamBuffer {
    buffer: Vec<char>,
    consecutive_errors: u32,
    max_consecutive_errors: u32,
    done: bool,
}

impl StreamBuffer {
    /// The text received and not yet decoded.
    pub closed spec fn pending(&self) -> Seq<char> {
        self.buffer@
    }

    /// How many records in a row did not read as they stood.
    pub closed spec fn errors(&self) -> u32 {
        self.consecutive_errors
    }

    /// The count of failures in a row from which the stream is suspect.
    pub closed spec fn tolerance(&self) -> u32 {
        self.max_consecutive_errors
    }

    /// Whether a line has said that the stream is complete.
    pub closed spec fn finished(&self) -> bool {
        self.done
    }

    /// An empty buffer that tolerates five failures in a row.
    pub fn new() -> (r: Self)
        ensures
            r.pending() == Seq::<char>::empty(),
            r.errors() == 0,
            r.tolerance() == 5,
            !r.finished(),
    {
        StreamBuffer {
            buffer: Vec::new(),
            consecutive_errors: 0,
            max_consecutive_errors: 5,
            done: false,
        }
    }

    /// Appends text.
    pub fn add_text(&mut self, text: &str)
        ensures
            final(self).pending() == old(self).pending() + text@,
            final(self).errors() == old(self).errors(),
            final(self).tolerance() == old(self).tolerance(),
            final(self).finished() == old(self).finished(),
    {
        let mut chars = chars_of(text);
        self.buffer.append(&mut chars);
    }

    /// Appends bytes as they came from the connection, decoded as UTF-8 with
    /// the replacement character for what is not.
    pub fn add_bytes(&mut self, bytes: &[u8])
        ensures
            final(self).pending() == old(self).pending() + lossy_text(bytes@),
            final(self).errors() == old(self).errors(),
            final(self).tolerance() == old(self).tolerance(),
            final(self).finished() == old(self).finished(),
    {
        let mut chars = decode_lossy(bytes);
        self.buffer.append(&mut chars);
    }

    /// How many records in a row did not read as they stood.
    pub fn consecutive_errors(&self) -> (r: u32)
        ensures
            r == self.errors(),
    {
        self.consecutive_errors
    }

    /// Whether as many records in a row failed as the buffer tolerates. The
    /// stream goes on all the same.
    pub fn tolerance_reached(&self) -> (r: bool)
        ensures
            r == (self.errors() >= self.tolerance()),
    {
        self.consecutive_errors >= self.max_consecutive_errors
    }

    /// Whether a line has said that the stream is complete. Records that
    /// come after it are decoded all the same.
    pub fn is_done(&self) -> (r: bool)
        ensures
            r == self.finished(),
    {
        self.done
    }

    /// Whether text is waiting for the rest of its record.
    pub fn has_pending(&self) -> (r: bool)
        ensures
            r == (self.pending().len() > 0),
    {
        self.buffer.len() > 0
    }

    /// Tries to read a chunk out of a payload that did not read as it stood,
    /// by repairing it.
    pub fn try_recover_partial_chunk(&self, json: &str) -> (r: Option<
        Result<ChatCompletionChunk, GroqError>,
    >)
        ensures
            match r {
                Some(Ok(chunk)) => recovered_chunk(json@) == Some(chunk@),
                Some(Err(_)) => false,
                None => recovered_chunk(json@) is None,
            },
    {
        let payload = chars_of(json);
        match recover_chunk(&payload) {
            Some(chunk) => Some(Ok(chunk)),
            None => None,
        }
    }

    /// Takes the complete records out of the buffer and decodes them. What
    /// follows the last line feed stays for the next call; without a line
    /// feed nothing is decoded and everything stays. A record that does not
    /// read, even repaired, is left out; no failure is ever returned.
    pub fn process_lines(&mut self) -> (chunks: Vec<Result<ChatCompletionChunk, GroqError>>)
        ensures
            all_chunks(chunks@, drained_events(old(self).pending())),
            final(self).pending() == remainder(old(self).pending()),
            last_newline(final(self).pending()) < 0,
            final(self).errors() == drained_errors(old(self).pending(), old(self).errors()),
            final(self).tolerance() == old(self).tolerance(),
            final(self).finished() == (old(self).finished() || drained_done(old(self).pending())),
    {
        let mut chunks: Vec<Result<ChatCompletionChunk, GroqError>> = Vec::new();
        let ghost text = self.buffer@;
        proof {
            lemma_last_newline(text);
        }
        let last = match find_last_newline(&self.buffer) {
            Some(i) => i,
            None => {
                return chunks;
            },
        };
        let ghost ready = text.take(last as int);
        let ghost events = Seq::<ChatCompletionChunkView>::empty();
        let mut errors = self.consecutive_errors;
        let mut done = false;
        let mut start: usize = 0;
        assert(ready.skip(0) =~= ready);
        while start < last
            invariant
                start <= last < self.buffer.len(),
                self.buffer@ == text,
                ready == text.take(last as int),
                all_chunks(chunks@, events),
                text_events(ready) == events + text_events(ready.skip(start as int)),
                text_errors(ready, old(self).errors()) == text_errors(
                    ready.skip(start as int),
                    errors,
                ),
                text_has_done(ready) == (done || text_has_done(ready.skip(start as int))),
            decreases last - start,
        {
            let ghost rest = ready.skip(start as int);
            assert(rest =~= text.subrange(start as int, last as int));
            let (line, next) = take_line(&self.buffer, start, last);
            proof {
                let n = first_newline(rest);
                if n < rest.len() {
                    assert(rest.skip(n + 1) =~= ready.skip(next as int));
                } else {
                    assert(ready.skip(last as int) =~= Seq::<char>::empty());
                }
            }
            let (found, count) = decode_line(&line, errors);
            errors = count;
            if line_is_done(&line) {
                done = true;
            }
            let ghost before = events;
            match found {
                Some(chunk) => {
                    proof {
                        events = events.push(chunk@);
                    }
                    chunks.push(Ok(chunk));
                },
                None => {},
            }
            assert(events =~= before + line_events(line@));
            start = next;
            assert(text_events(ready) =~= events + text_events(ready.skip(start as int)));
        }
        assert(ready.skip(last as int) =~= Seq::<char>::empty());
        assert(events + Seq::<ChatCompletionChunkView>::empty() =~= events);
        let rest = slice_of(&self.buffer, last + 1, self.buffer.len());
        proof {
            assert(rest@ =~= text.skip(last + 1));
            assert forall|i: int| 0 <= i < rest@.len() implies rest@[i] != '\n' by {
                assert(rest@[i] == text[last + 1 + i]);
            }
            lemma_last_newline_is(rest@, -1);
        }
        self.buffer = rest;
        self.consecutive_errors = errors;
        if done {
            self.done = true;
        }
        chunks
    }
}

/// The decoder of one streamed response: the buffer, and whether the stream
/// has ended, with a failure of the connection or with the line that says
/// it is complete.
pub struct ChunkStream {
    buffer: StreamBuffer,
    failed: bool,
}

impl ChunkStream {
    /// The text received and not yet decoded.
    pub closed spec fn pending(&self) -> Seq<char> {
        self.buffer.pending()
    }

    /// Whether a failure of the connection has ended the stream.
    pub closed spec fn broken(&self) -> bool {
        self.failed
    }

    /// Whether a line has said that the stream is complete.
    pub closed spec fn finished(&self) -> bool {
        self.buffer.finished()
    }

    /// Whether the stream has ended, one way or the other.
    pub open spec fn ended(&self) -> bool {
        self.broken() || self.finished()
    }

    /// How many records in a row did not read as they stood.
    pub closed spec fn errors(&self) -> u32 {
        self.buffer.errors()
    }

    /// The decoder of a stream that was just opened.
    pub fn new() -> (r: Self)
        ensures
            r.pending() == Seq::<char>::empty(),
            r.errors() == 0,
            !r.broken(),
            !r.finished(),
    {
        ChunkStream { buffer: StreamBuffer::new(), failed: false }
    }

    /// Whether the stream has ended: a failure of the connection has broken
    /// it, or a line has said that it is complete.
    pub fn is_ended(&self) -> (r: bool)
        ensures
            r == self.ended(),
    {
        self.failed || self.buffer.is_done()
    }

    /// Whether a failure of the connection has ended the stream.
    pub fn is_broken(&self) -> (r: bool)
        ensures
            r == self.broken(),
    {
        self.failed
    }

    /// How many records in a row did not read as they stood.
    pub fn consecutive_errors(&self) -> (r: u32)
        ensures
            r == self.errors(),
    {
        self.buffer.consecutive_errors()
    }

    /// Takes the next batch that the connection delivered and returns what
    /// the consumer gets to see for it. Bytes give the chunks of the records
    /// that they complete, and end the stream if one of their lines says that
    /// it is complete. A failure of the connection is handed on as the one
    /// last item and ends the stream. Whatever comes after the end gives
    /// nothing.
    pub fn on_batch(&mut self, batch: Result<Vec<u8>, GroqError>) -> (items: Vec<
        Result<ChatCompletionChunk, GroqError>,
    >)
        ensures
            old(self).ended() ==> {
                &&& items@.len() == 0
                &&& final(self).broken() == old(self).broken()
                &&& final(self).finished() == old(self).finished()
                &&& final(self).pending() == old(self).pending()
                &&& final(self).errors() == old(self).errors()
            },
            !old(self).ended() ==> match batch {
                Ok(bytes) => {
                    &&& all_chunks(items@, drained_events(old(self).pending() + lossy_text(bytes@)))
                    &&& final(self).pending() == remainder(
                        old(self).pending() + lossy_text(bytes@),
                    )
                    &&& final(self).errors() == drained_errors(
                        old(self).pending() + lossy_text(bytes@),
                        old(self).errors(),
                    )
                    &&& !final(self).broken()
                    &&& final(self).finished() == drained_done(
                        old(self).pending() + lossy_text(bytes@),
                    )
                },
                Err(e) => {
                    &&& items@.len() == 1
                    &&& items@[0] == Err::<ChatCompletionChunk, GroqError>(e)
                    &&& final(self).broken()
                    &&& !final(self).finished()
                    &&& final(self).pending() == old(self).pending()
                    &&& final(self).errors() == old(self).errors()
                },
            },
    {
        if self.failed || self.buffer.is_done() {
            return Vec::new();
        }
        match batch {
            Ok(bytes) => {
                self.buffer.add_bytes(bytes.as_slice());
                self.buffer.process_lines()
            },
            Err(e) => {
                self.failed = true;
                let mut items: Vec<Result<ChatCompletionChunk, GroqError>> = Vec::new();
                items.push(Err(e));
                items
            },
        }
    }
}

/// Twice `n`, `times` times over.
pub open spec fn doubled(n: nat, times: nat) -> nat
    decreases times,
{
    if times == 0 {
        n
    } else {
        2 * doubled(n, (times - 1) as nat)
    }
}

/// The wait, in milliseconds, before the stream is opened again after the
/// `failures`-th failure in a row: a tenth of a second, doubled that many
/// times, and at most the largest number.
pub open spec fn reconnect_delay(failures: u32) -> u64 {
    if doubled(100, failures as nat) <= u64::MAX {
        doubled(100, failures as nat) as u64
    } else {
        u64::MAX
    }
}

/// Doubling more often never gives less.
pub proof fn lemma_doubled_grows(n: nat, fewer: nat, more: nat)
    requires
        fewer <= more,
    ensures
        doubled(n, fewer) <= doubled(n, more),
    decreases more,
{
    if fewer < more {
        lemma_doubled_grows(n, fewer, (more - 1) as nat);
    }
}

/// The wait before the stream is opened again.
pub fn connection_retry_delay(failures: u32) -> (r: u64)
    ensures
        r == reconnect_delay(failures),
{
    let mut delay: u64 = 100;
    let mut i: u32 = 0;
    while i < failures
        invariant
            i <= failures,
            delay == doubled(100, i as nat),
        decreases failures - i,
    {
        if delay > u64::MAX / 2 {
            proof {
                lemma_doubled_grows(100, (i + 1) as nat, failures as nat);
            }
            return u64::MAX;
        }
        delay = delay * 2;
        i += 1;
    }
    delay
}

/// What to do after an attempt to open the stream has failed.
#[derive(Debug, Clone)]
pub enum ConnectionStep {
    /// Wait this many milliseconds, then try again.
    RetryAfter(u64),
    /// Give up with the failure of the last attempt.
    GiveUp(GroqError),
}

/// How often the opening of a stream has failed, and how often it may.
#[derive(Debug, Clone, Copy)]
pub struct ConnectionRetry {
    max_retries: u32,
    failures: u32,
}

impl ConnectionRetry {
    /// How many attempts may follow the first.
    pub closed spec fn retries_allowed(&self) -> u32 {
        self.max_retries
    }

    /// How many attempts have failed.
    pub closed spec fn failed_attempts(&self) -> u32 {
        self.failures
    }

    /// The state before the first attempt.
    pub fn new(max_retries: u32) -> (r: Self)
        ensures
            r.retries_allowed() == max_retries,
            r.failed_attempts() == 0,
    {
        ConnectionRetry { max_retries, failures: 0 }
    }

    /// How many attempts have failed.
    pub fn failures(&self) -> (r: u32)
        ensures
            r == self.failed_attempts(),
    {
        self.failures
    }

    /// Takes the failure of an attempt. While retries are left, the answer
    /// is the wait before the next attempt; after the last one, the failure
    /// itself.
    pub fn on_failure(&mut self, err: GroqError) -> (r: ConnectionStep)
        ensures
            final(self).retries_allowed() == old(self).retries_allowed(),
            old(self).failed_attempts() < old(self).retries_allowed() ==> {
                &&& final(self).failed_attempts() == old(self).failed_attempts() + 1
                &&& r == ConnectionStep::RetryAfter(
                    reconnect_delay((old(self).failed_attempts() + 1) as u32),
                )
            },
            old(self).failed_attempts() >= old(self).retries_allowed() ==> {
                &&& final(self).failed_attempts() == old(self).failed_attempts()
                &&& r == ConnectionStep::GiveUp(err)
            },
    {
        if self.failures < self.max_retries {
            self.failures = self.failures + 1;
            ConnectionStep::RetryAfter(connection_retry_delay(self.failures))
        } else {
            ConnectionStep::GiveUp(err)
        }
    }
}

/// Whether `key` has the form of an API key: after any white space at its
/// start it begins with `gsk_`.
pub open spec fn valid_api_key(key: Seq<char>) -> bool {
    starts_with(trim_start(key), seq!['g', 's', 'k', '_'])
}

/// An API key of the expected form.
#[derive(Clone)]
pub struct ApiKey(String);

impl View for ApiKey {
    type V = Seq<char>;

    closed spec fn view(&self) -> Seq<char> {
        self.0@
    }
}

impl ApiKey {
    /// Takes a key if it has the expected form. The key is kept as given.
    pub fn new(key: String) -> (r: Result<Self, GroqError>)
        ensures
            match r {
                Ok(api_key) => valid_api_key(key@) && api_key@ == key@,
                Err(e) => {
                    &&& !valid_api_key(key@)
                    &&& e matches GroqError::InvalidApiKey(message)
                    &&& message@ == "Invalid API key format"@
                },
            },
    {
        let chars = chars_of(key.as_str());
        let from = skip_whitespace(&chars);
        let ghost trimmed = trim_start(key@);
        assert(trimmed =~= chars@.skip(from as int));
        let valid = chars.len() - from >= 4 && chars[from] == 'g' && chars[from + 1] == 's'
            && chars[from + 2] == 'k' && chars[from + 3] == '_';
        proof {
            let marker = seq!['g', 's', 'k', '_'];
            if valid {
                assert(trimmed.subrange(0, 4) =~= marker);
            } else if trimmed.len() >= 4 {
                let head = trimmed.subrange(0, 4);
                assert(head[0] == chars@[from as int]);
                assert(head[1] == chars@[from + 1]);
                assert(head[2] == chars@[from + 2]);
                assert(head[3] == chars@[from + 3]);
                assert(marker[0] == 'g' && marker[1] == 's' && marker[2] == 'k' && marker[3] == '_');
            }
        }
        if valid {
            Ok(ApiKey(key))
        } else {
            Err(GroqError::InvalidApiKey("Invalid API key format".to_owned()))
        }
    }

    /// The key.
    pub fn as_str(&self) -> (r: &str)
        ensures
            r@ == self@,
    {
        self.0.as_str()
    }

    /// What to show in place of the key.
    pub fn redacted(&self) -> (r: String)
        ensures
            r@ == "ApiKey(redacted)"@,
    {
        "ApiKey(redacted)".to_owned()
    }
}

} // verus!
