//! Reading one output channel of a process: cutting its bytes into lines,
//! decoding each line, and turning it into events.
//!
//! A line ends at a line feed. A carriage return directly before that line
//! feed belongs to the terminator. What follows the last line feed is a line
//! only once the stream has ended. A line that is not valid UTF-8 is dropped
//! without a trace: the reader goes on with the next one.

use vstd::prelude::*;
use vstd::utf8::{decode_utf8, valid_utf8};
use crate::event::{Event, EventView, ProcessHandle, StreamKind, event_views, events_for_line, line_events};
use crate::text::{first_index_of, is_first_index_of, lacks, lemma_first_index_of, lemma_first_index_unique};

verus! {

/// The byte that ends a line.
pub const LINE_FEED: u8 = 10;

/// The byte that may precede the line feed as part of the terminator.
pub const CARRIAGE_RETURN: u8 = 13;

/// The lines of a stream that have been ended by a line feed, in order, each
/// without that line feed.
pub open spec fn complete_lines(bytes: Seq<u8>) -> Seq<Seq<u8>>
    decreases bytes.len(),
{
    let at = first_index_of(bytes, LINE_FEED) as int;
    if at < bytes.len() {
        seq![bytes.take(at)] + complete_lines(bytes.skip(at + 1))
    } else {
        Seq::empty()
    }
}

/// What follows the last line feed of a stream: the beginning of a line that
/// has not ended yet.
pub open spec fn unfinished(bytes: Seq<u8>) -> Seq<u8>
    decreases bytes.len(),
{
    let at = first_index_of(bytes, LINE_FEED) as int;
    if at < bytes.len() {
        unfinished(bytes.skip(at + 1))
    } else {
        bytes
    }
}

/// A complete line without the carriage return that stood before its line feed.
pub open spec fn without_carriage_return(line: Seq<u8>) -> Seq<u8> {
    if line.len() > 0 && line.last() == CARRIAGE_RETURN {
        line.drop_last()
    } else {
        line
    }
}

/// The text that the bytes of a line encode, if they are valid UTF-8.
pub open spec fn decoded(body: Seq<u8>) -> Option<Seq<char>> {
    if valid_utf8(body) {
        Some(decode_utf8(body))
    } else {
        None
    }
}

/// The events for the body of one line: those of its text, or none when the
/// body does not decode.
pub open spec fn body_events(process_id: ProcessHandle, stream: StreamKind, body: Seq<u8>) -> Seq<
    EventView,
> {
    match decoded(body) {
        Some(text) => line_events(process_id, stream, text),
        None => Seq::empty(),
    }
}

/// The events for a run of complete lines, line after line.
pub open spec fn lines_events(
    process_id: ProcessHandle,
    stream: StreamKind,
    lines: Seq<Seq<u8>>,
) -> Seq<EventView> {
    lines.map_values(
        |line: Seq<u8>| body_events(process_id, stream, without_carriage_return(line)),
    ).flatten()
}

/// The events for what is left when the stream ends: those of a last line
/// without terminator, or none when nothing is left.
pub open spec fn last_events(process_id: ProcessHandle, stream: StreamKind, rest: Seq<u8>) -> Seq<
    EventView,
> {
    if rest.len() == 0 {
        Seq::empty()
    } else {
        body_events(process_id, stream, rest)
    }
}

/// All the events of a stream that has ended.
pub open spec fn stream_events(process_id: ProcessHandle, stream: StreamKind, bytes: Seq<u8>) -> Seq<
    EventView,
> {
    lines_events(process_id, stream, complete_lines(bytes)) + last_events(
        process_id,
        stream,
        unfinished(bytes),
    )
}

/// One more byte at the end of a stream either ends the unfinished line or
/// lengthens it.
pub proof fn lemma_lines_push(bytes: Seq<u8>, b: u8)
    ensures
        b == LINE_FEED ==> complete_lines(bytes.push(b)) == complete_lines(bytes).push(
            unfinished(bytes),
        ),
        b == LINE_FEED ==> unfinished(bytes.push(b)) == Seq::<u8>::empty(),
        b != LINE_FEED ==> complete_lines(bytes.push(b)) == complete_lines(bytes),
        b != LINE_FEED ==> unfinished(bytes.push(b)) == unfinished(bytes).push(b),
    decreases bytes.len(),
{
    let at = first_index_of(bytes, LINE_FEED) as int;
    let longer = bytes.push(b);
    lemma_first_index_of(bytes, LINE_FEED);
    if at < bytes.len() {
        assert(longer.take(at) =~= bytes.take(at));
        lemma_first_index_unique(longer, LINE_FEED, at);
        assert(longer.skip(at + 1) =~= bytes.skip(at + 1).push(b));
        lemma_lines_push(bytes.skip(at + 1), b);
        if b == LINE_FEED {
            assert(complete_lines(longer) =~= complete_lines(bytes).push(unfinished(bytes)));
        }
    } else if b == LINE_FEED {
        assert(longer.take(at) =~= bytes);
        assert(bytes.take(at) =~= bytes);
        lemma_first_index_unique(longer, LINE_FEED, at);
        assert(longer.skip(at + 1) =~= Seq::<u8>::empty());
        assert(complete_lines(Seq::<u8>::empty()) =~= Seq::<Seq<u8>>::empty());
        assert(unfinished(Seq::<u8>::empty()) =~= Seq::<u8>::empty());
        assert(complete_lines(longer) =~= complete_lines(bytes).push(unfinished(bytes)));
    } else {
        assert(longer.take(at + 1) =~= longer);
        assert(bytes.take(at) =~= bytes);
        lemma_first_index_unique(longer, LINE_FEED, at + 1);
    }
}

/// The unfinished line holds no line feed.
pub proof fn lemma_unfinished_lacks_line_feed(bytes: Seq<u8>)
    ensures
        lacks(unfinished(bytes), LINE_FEED),
    decreases bytes.len(),
{
    let at = first_index_of(bytes, LINE_FEED) as int;
    lemma_first_index_of(bytes, LINE_FEED);
    if at < bytes.len() {
        lemma_unfinished_lacks_line_feed(bytes.skip(at + 1));
    } else {
        assert(bytes.take(at) =~= bytes);
    }
}

/// However a stream is cut in two, its lines are those of the first part,
/// followed by those of the second part read after what the first part left
/// unfinished; and what the whole leaves unfinished is what the second
/// reading leaves.
pub proof fn lemma_lines_concat(first: Seq<u8>, second: Seq<u8>)
    ensures
        complete_lines(first + second) == complete_lines(first) + complete_lines(
            unfinished(first) + second,
        ),
        unfinished(first + second) == unfinished(unfinished(first) + second),
    decreases first.len(),
{
    let at = first_index_of(first, LINE_FEED) as int;
    let whole = first + second;
    lemma_first_index_of(first, LINE_FEED);
    if at < first.len() {
        assert(whole.take(at) =~= first.take(at));
        lemma_first_index_unique(whole, LINE_FEED, at);
        assert(whole.skip(at + 1) =~= first.skip(at + 1) + second);
        lemma_lines_concat(first.skip(at + 1), second);
        assert(complete_lines(whole) =~= complete_lines(first) + complete_lines(
            unfinished(first) + second,
        ));
    } else {
        assert(complete_lines(first) + complete_lines(whole) =~= complete_lines(whole));
    }
}

/// The events of a run of lines with one more line at its end are those of
/// the run, followed by those of that line.
pub proof fn lemma_lines_events_push(
    process_id: ProcessHandle,
    stream: StreamKind,
    lines: Seq<Seq<u8>>,
    line: Seq<u8>,
)
    ensures
        lines_events(process_id, stream, lines.push(line)) == lines_events(
            process_id,
            stream,
            lines,
        ) + body_events(process_id, stream, without_carriage_return(line)),
{
    let f = |line: Seq<u8>| body_events(process_id, stream, without_carriage_return(line));
    assert(lines.push(line).map_values(f) =~= lines.map_values(f).push(f(line)));
    lines.map_values(f).lemma_flatten_push(f(line));
}

/// The events of two runs of lines, one after the other, are those of the
/// first run followed by those of the second.
pub proof fn lemma_lines_events_concat(
    process_id: ProcessHandle,
    stream: StreamKind,
    first: Seq<Seq<u8>>,
    second: Seq<Seq<u8>>,
)
    ensures
        lines_events(process_id, stream, first + second) == lines_events(process_id, stream, first)
            + lines_events(process_id, stream, second),
{
    let f = |line: Seq<u8>| body_events(process_id, stream, without_carriage_return(line));
    assert((first + second).map_values(f) =~= first.map_values(f) + second.map_values(f));
    vstd::seq_lib::lemma_flatten_concat(first.map_values(f), second.map_values(f));
}

/// However a stream is cut in two, reading the first part, then the second,
/// then ending the reading gives the events of the whole stream, in the
/// same order.
pub proof fn lemma_reading_in_pieces(
    process_id: ProcessHandle,
    stream: StreamKind,
    first: Seq<u8>,
    second: Seq<u8>,
)
    ensures
        ({
            let kept = unfinished(first);
            lines_events(process_id, stream, complete_lines(first)) + lines_events(
                process_id,
                stream,
                complete_lines(kept + second),
            ) + last_events(process_id, stream, unfinished(kept + second))
        }) == stream_events(process_id, stream, first + second),
{
    lemma_lines_concat(first, second);
    lemma_lines_events_concat(
        process_id,
        stream,
        complete_lines(first),
        complete_lines(unfinished(first) + second),
    );
}

/// `String::from_utf8`: the bytes are accepted exactly when they are valid
/// UTF-8, and the text returned is the one they encode.
#[verifier::external_body]
fn decode_strict(bytes: Vec<u8>) -> (text: Option<String>)
    ensures
        text is Some <==> valid_utf8(bytes@),
        text matches Some(t) ==> t@ == decode_utf8(bytes@),
{
    String::from_utf8(bytes).ok()
}

/// The events for the body of one line, which is consumed.
pub fn events_for_body(process_id: ProcessHandle, stream: StreamKind, body: Vec<u8>) -> (events:
    Vec<Event>)
    ensures
        event_views(events@) == body_events(process_id, stream, body@),
{
    match decode_strict(body) {
        Some(text) => events_for_line(process_id, stream, text),
        None => {
            let events: Vec<Event> = Vec::new();
            assert(event_views(events@) =~= Seq::<EventView>::empty());
            events
        },
    }
}

/// The events for one complete line, given without its line feed.
pub fn events_for_complete_line(process_id: ProcessHandle, stream: StreamKind, line: Vec<u8>) -> (events:
    Vec<Event>)
    ensures
        event_views(events@) == body_events(process_id, stream, without_carriage_return(line@)),
{
    let mut body = line;
    let n = body.len();
    if n > 0 && body[n - 1] == CARRIAGE_RETURN {
        body.pop();
    }
    assert(body@ =~= without_carriage_return(line@));
    events_for_body(process_id, stream, body)
}

/// The reader of one output channel of one process. It is fed the bytes of
/// the channel as they arrive, in pieces of any size, and gives back the
/// events that each piece completes.
#[derive(Debug)]
pub struct StreamReader {
    process_id: ProcessHandle,
    stream: StreamKind,
    pending: Vec<u8>,
}

/// What a [`StreamReader`] holds: whose output it reads, from which channel,
/// and the bytes of the line that has not ended yet.
pub struct StreamReaderView {
    pub process_id: ProcessHandle,
    pub stream: StreamKind,
    pub pending: Seq<u8>,
}

impl View for StreamReader {
    type V = StreamReaderView;

    closed spec fn view(&self) -> StreamReaderView {
        StreamReaderView {
            process_id: self.process_id,
            stream: self.stream,
            pending: self.pending@,
        }
    }
}

impl StreamReader {
    #[verifier::type_invariant]
    spec fn pending_is_one_line(self) -> bool {
        lacks(self.pending@, LINE_FEED)
    }

    /// A reader at the start of a channel.
    pub fn new(process_id: ProcessHandle, stream: StreamKind) -> (reader: StreamReader)
        ensures
            reader@ == (StreamReaderView { process_id, stream, pending: Seq::empty() }),
    {
        StreamReader { process_id, stream, pending: Vec::new() }
    }

    /// The process whose output is read.
    pub fn process_id(&self) -> (id: ProcessHandle)
        ensures
            id == self@.process_id,
    {
        self.process_id
    }

    /// The channel that is read.
    pub fn stream(&self) -> (stream: StreamKind)
        ensures
            stream == self@.stream,
    {
        self.stream
    }

    /// The bytes of the line that has not ended yet.
    pub fn pending(&self) -> (bytes: &[u8])
        ensures
            bytes@ == self@.pending,
            lacks(bytes@, LINE_FEED),
    {
        proof {
            use_type_invariant(self);
        }
        self.pending.as_slice()
    }

    /// Takes the next piece of the channel. The events returned are those of
    /// the lines that the piece completes, in the order of the lines; what
    /// follows its last line feed is kept for the next piece.
    pub fn feed(&mut self, chunk: &[u8]) -> (events: Vec<Event>)
        ensures
            event_views(events@) == lines_events(
                old(self)@.process_id,
                old(self)@.stream,
                complete_lines(old(self)@.pending + chunk@),
            ),
            final(self)@ == (StreamReaderView {
                pending: unfinished(old(self)@.pending + chunk@),
                ..old(self)@
            }),
    {
        proof {
            use_type_invariant(&*self);
        }
        let process_id = self.process_id;
        let stream = self.stream;
        let ghost start = self.pending@;
        let mut pending: Vec<u8> = Vec::new();
        core::mem::swap(&mut pending, &mut self.pending);
        let mut events: Vec<Event> = Vec::new();
        let mut i: usize = 0;
        proof {
            assert(start + chunk@.take(0) =~= start);
            assert(start.take(start.len() as int) =~= start);
            lemma_first_index_unique(start, LINE_FEED, start.len() as int);
            assert(event_views(events@) =~= lines_events(process_id, stream, complete_lines(start)));
        }
        while i < chunk.len()
            invariant
                i <= chunk.len(),
                self.pending@ == Seq::<u8>::empty(),
                self.process_id == process_id,
                self.stream == stream,
                pending@ == unfinished(start + chunk@.take(i as int)),
                event_views(events@) == lines_events(
                    process_id,
                    stream,
                    complete_lines(start + chunk@.take(i as int)),
                ),
            decreases chunk.len() - i,
        {
            let b = chunk[i];
            let ghost seen = start + chunk@.take(i as int);
            proof {
                lemma_lines_push(seen, b);
                assert(seen.push(b) =~= start + chunk@.take(i + 1));
            }
            if b == LINE_FEED {
                let mut line: Vec<u8> = Vec::new();
                core::mem::swap(&mut line, &mut pending);
                let ghost before = events@;
                let mut more = events_for_complete_line(process_id, stream, line);
                let ghost added = more@;
                events.append(&mut more);
                proof {
                    lemma_lines_events_push(process_id, stream, complete_lines(seen), unfinished(seen));
                    assert(event_views(events@) =~= event_views(before) + event_views(added));
                }
            } else {
                pending.push(b);
            }
            i += 1;
        }
        proof {
            assert(chunk@.take(chunk.len() as int) =~= chunk@);
            lemma_unfinished_lacks_line_feed(start + chunk@);
        }
        self.pending = pending;
        events
    }

    /// Ends the reading: the channel has reached its end. The events returned
    /// are those of the last line, if the channel ended inside a line.
    pub fn finish(self) -> (events: Vec<Event>)
        ensures
            event_views(events@) == last_events(self@.process_id, self@.stream, self@.pending),
    {
        if self.pending.len() == 0 {
            let events: Vec<Event> = Vec::new();
            assert(event_views(events@) =~= Seq::<EventView>::empty());
            events
        } else {
            events_for_body(self.process_id, self.stream, self.pending)
        }
    }
}

} // verus!
