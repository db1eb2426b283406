//! The notifications that a running process gives rise to: one output event
//! for every line it writes, and a progress event beside it for every line
//! that carries both progress markers.

use vstd::prelude::*;
use crate::text::{chars_of, contains_chars, contains_seq};

verus! {

/// Names a tracked process. The registry mints it when the process is
/// registered; it is not the operating system's identifier of the process.
pub type ProcessHandle = i32;

/// Which of a process's two output channels a line came from.
#[derive(Clone, Copy, Debug, PartialEq, Eq, Structural)]
pub enum StreamKind {
    Stdout,
    Stderr,
}

/// A complete line read from one output channel of a process.
#[derive(Clone, Debug, PartialEq, Eq)]
pub struct OutputEvent {
    pub process_id: ProcessHandle,
    pub stream: StreamKind,
    pub line: String,
}

/// A line that satisfied the progress predicate, raw.
#[derive(Clone, Debug, PartialEq, Eq)]
pub struct ProgressEvent {
    pub process_id: ProcessHandle,
    pub line: String,
}

/// A notification for the event sink.
#[derive(Clone, Debug, PartialEq, Eq)]
pub enum Event {
    Output(OutputEvent),
    Progress(ProgressEvent),
}

/// What an [`Event`] holds, with its line as a sequence of characters.
pub enum EventView {
    Output { process_id: ProcessHandle, stream: StreamKind, line: Seq<char> },
    Progress { process_id: ProcessHandle, line: Seq<char> },
}

impl View for Event {
    type V = EventView;

    open spec fn view(&self) -> EventView {
        match *self {
            Event::Output(e) => EventView::Output {
                process_id: e.process_id,
                stream: e.stream,
                line: e.line@,
            },
            Event::Progress(e) => EventView::Progress { process_id: e.process_id, line: e.line@ },
        }
    }
}

/// The views of a list of events, in order.
pub open spec fn event_views(events: Seq<Event>) -> Seq<EventView> {
    events.map_values(|e: Event| e@)
}

/// The marker of elapsed time in a progress line: `time=`.
pub open spec fn time_marker() -> Seq<char> {
    seq!['t', 'i', 'm', 'e', '=']
}

/// The marker of the bitrate in a progress line: `bitrate=`.
pub open spec fn bitrate_marker() -> Seq<char> {
    seq!['b', 'i', 't', 'r', 'a', 't', 'e', '=']
}

/// The progress predicate: the line holds both markers, each anywhere in it.
pub open spec fn is_progress(line: Seq<char>) -> bool {
    contains_seq(line, time_marker()) && contains_seq(line, bitrate_marker())
}

/// The events that one decoded line gives rise to: always an output event, and
/// after it a progress event when the line satisfies the progress predicate.
pub open spec fn line_events(process_id: ProcessHandle, stream: StreamKind, line: Seq<char>) -> Seq<
    EventView,
> {
    if is_progress(line) {
        seq![
            EventView::Output { process_id, stream, line },
            EventView::Progress { process_id, line },
        ]
    } else {
        seq![EventView::Output { process_id, stream, line }]
    }
}

/// The label that precedes a line in the payload of an output event.
pub open spec fn stream_label(stream: StreamKind) -> Seq<char> {
    match stream {
        StreamKind::Stdout => "stdout: "@,
        StreamKind::Stderr => "stderr: "@,
    }
}

/// The name of the channel on which the sink receives an event.
pub open spec fn channel_name(event: EventView) -> Seq<char> {
    match event {
        EventView::Output { .. } => "ffmpeg-output"@,
        EventView::Progress { .. } => "ffmpeg-progress"@,
    }
}

/// The text that the sink receives for an event: an output line behind the
/// label of its stream, a progress line as it is.
pub open spec fn payload_text(event: EventView) -> Seq<char> {
    match event {
        EventView::Output { stream, line, .. } => stream_label(stream) + line,
        EventView::Progress { line, .. } => line,
    }
}

/// Tells whether a line satisfies the progress predicate.
pub fn is_progress_line(line: &str) -> (b: bool)
    ensures
        b == is_progress(line@),
{
    let chars = chars_of(line);
    let time = chars_of("time=");
    let bitrate = chars_of("bitrate=");
    proof {
        reveal_strlit("time=");
        reveal_strlit("bitrate=");
        assert(time@ =~= time_marker());
        assert(bitrate@ =~= bitrate_marker());
    }
    contains_chars(chars.as_slice(), time.as_slice()) && contains_chars(
        chars.as_slice(),
        bitrate.as_slice(),
    )
}

/// The events for one decoded line of a process's output, in the order in
/// which they are to be delivered.
pub fn events_for_line(process_id: ProcessHandle, stream: StreamKind, line: String) -> (events: Vec<
    Event,
>)
    ensures
        event_views(events@) == line_events(process_id, stream, line@),
{
    let mut events: Vec<Event> = Vec::new();
    if is_progress_line(line.as_str()) {
        let copy = line.clone();
        events.push(Event::Output(OutputEvent { process_id, stream, line }));
        events.push(Event::Progress(ProgressEvent { process_id, line: copy }));
    } else {
        events.push(Event::Output(OutputEvent { process_id, stream, line }));
    }
    assert(event_views(events@) =~= line_events(process_id, stream, line@));
    events
}

impl Event {
    /// The process that the event is about.
    pub fn process_id(&self) -> (id: ProcessHandle)
        ensures
            id == match self@ {
                EventView::Output { process_id, .. } => process_id,
                EventView::Progress { process_id, .. } => process_id,
            },
    {
        match self {
            Event::Output(e) => e.process_id,
            Event::Progress(e) => e.process_id,
        }
    }

    /// The line that the event carries.
    pub fn line(&self) -> (line: &str)
        ensures
            line@ == match self@ {
                EventView::Output { line, .. } => line,
                EventView::Progress { line, .. } => line,
            },
    {
        match self {
            Event::Output(e) => e.line.as_str(),
            Event::Progress(e) => e.line.as_str(),
        }
    }

    /// The name of the channel on which the sink receives the event.
    pub fn channel(&self) -> (name: &'static str)
        ensures
            name@ == channel_name(self@),
    {
        match self {
            Event::Output(_) => "ffmpeg-output",
            Event::Progress(_) => "ffmpeg-progress",
        }
    }

    /// The text that the sink receives for the event.
    pub fn payload(&self) -> (text: String)
        ensures
            text@ == payload_text(self@),
    {
        match self {
            Event::Output(e) => {
                let label = match e.stream {
                    StreamKind::Stdout => "stdout: ",
                    StreamKind::Stderr => "stderr: ",
                };
                String::from_str(label).concat(e.line.as_str())
            },
            Event::Progress(e) => e.line.clone(),
        }
    }
}

} // verus!
