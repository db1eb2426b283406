use ffmpeg_supervisor::event::{Event, OutputEvent, ProgressEvent, StreamKind};
use std::io::BufRead;
use ffmpeg_supervisor::reader::{
    events_for_body, events_for_complete_line, StreamReader, CARRIAGE_RETURN, LINE_FEED,
};

fn output(process_id: i32, stream: StreamKind, line: &str) -> Event {
    Event::Output(OutputEvent { process_id, stream, line: line.to_string() })
}

fn progress(process_id: i32, line: &str) -> Event {
    Event::Progress(ProgressEvent { process_id, line: line.to_string() })
}

fn read_in_chunks(bytes: &[u8], size: usize) -> Vec<Event> {
    let mut reader = StreamReader::new(5, StreamKind::Stderr);
    let mut events = Vec::new();
    for chunk in bytes.chunks(size) {
        events.extend(reader.feed(chunk));
    }
    events.extend(reader.finish());
    events
}

#[test]
fn terminator_bytes_are_line_feed_and_carriage_return() {
    assert_eq!(LINE_FEED, b'\n');
    assert_eq!(CARRIAGE_RETURN, b'\r');
}

#[test]
fn new_reader_has_nothing_pending() {
    let reader = StreamReader::new(12, StreamKind::Stdout);
    assert_eq!(reader.process_id(), 12);
    assert_eq!(reader.stream(), StreamKind::Stdout);
    assert!(reader.pending().is_empty());
}

#[test]
fn feed_emits_one_output_event_per_complete_line() {
    let mut reader = StreamReader::new(12, StreamKind::Stdout);
    let events = reader.feed(b"first\nsecond\nthi");
    assert_eq!(
        events,
        vec![output(12, StreamKind::Stdout, "first"), output(12, StreamKind::Stdout, "second")]
    );
    assert_eq!(reader.pending(), b"thi");
    let events = reader.feed(b"rd\n");
    assert_eq!(events, vec![output(12, StreamKind::Stdout, "third")]);
    assert!(reader.pending().is_empty());
    assert_eq!(reader.finish(), Vec::<Event>::new());
}

#[test]
fn feed_without_line_feed_emits_nothing() {
    let mut reader = StreamReader::new(1, StreamKind::Stderr);
    assert!(reader.feed(b"abc").is_empty());
    assert!(reader.feed(b"").is_empty());
    assert!(reader.feed(b"def").is_empty());
    assert_eq!(reader.pending(), b"abcdef");
}

#[test]
fn progress_line_read_from_a_stream_gives_both_events() {
    let line = "frame=12 time=00:00:02.40 bitrate=256.0kbits/s";
    for stream in [StreamKind::Stdout, StreamKind::Stderr] {
        let mut reader = StreamReader::new(77, stream);
        let events = reader.feed(format!("{}\n", line).as_bytes());
        assert_eq!(events, vec![output(77, stream, line), progress(77, line)]);
    }
}

#[test]
fn plain_line_read_from_a_stream_gives_one_output_event() {
    let mut reader = StreamReader::new(77, StreamKind::Stderr);
    let events = reader.feed(b"Unrecognized option 'xyz'\n");
    assert_eq!(events, vec![output(77, StreamKind::Stderr, "Unrecognized option 'xyz'")]);
}

#[test]
fn events_keep_the_order_of_the_lines() {
    let mut reader = StreamReader::new(2, StreamKind::Stdout);
    let events = reader.feed(b"a\ntime=1 bitrate=2\nb\n");
    assert_eq!(
        events,
        vec![
            output(2, StreamKind::Stdout, "a"),
            output(2, StreamKind::Stdout, "time=1 bitrate=2"),
            progress(2, "time=1 bitrate=2"),
            output(2, StreamKind::Stdout, "b"),
        ]
    );
}

#[test]
fn carriage_return_before_line_feed_is_part_of_the_terminator() {
    let mut reader = StreamReader::new(2, StreamKind::Stdout);
    let events = reader.feed(b"one\r\ntwo\r\r\n\r\n");
    assert_eq!(
        events,
        vec![
            output(2, StreamKind::Stdout, "one"),
            output(2, StreamKind::Stdout, "two\r"),
            output(2, StreamKind::Stdout, ""),
        ]
    );
}

#[test]
fn carriage_return_and_line_feed_may_arrive_apart() {
    let mut reader = StreamReader::new(2, StreamKind::Stdout);
    assert!(reader.feed(b"one\r").is_empty());
    assert_eq!(reader.pending(), b"one\r");
    assert_eq!(reader.feed(b"\n"), vec![output(2, StreamKind::Stdout, "one")]);
}

#[test]
fn empty_lines_are_lines() {
    let mut reader = StreamReader::new(2, StreamKind::Stdout);
    let events = reader.feed(b"\n\n");
    assert_eq!(events, vec![output(2, StreamKind::Stdout, ""), output(2, StreamKind::Stdout, "")]);
}

#[test]
fn undecodable_line_is_dropped_and_reading_goes_on() {
    let mut reader = StreamReader::new(2, StreamKind::Stdout);
    let events = reader.feed(b"good\nbad \xff\xfe\nnext\n");
    assert_eq!(
        events,
        vec![output(2, StreamKind::Stdout, "good"), output(2, StreamKind::Stdout, "next")]
    );
    assert!(reader.pending().is_empty());
}

#[test]
fn truncated_character_makes_the_line_undecodable() {
    let mut reader = StreamReader::new(2, StreamKind::Stdout);
    let events = reader.feed(b"caf\xc3\n");
    assert!(events.is_empty());
    let events = reader.feed("café\n".as_bytes());
    assert_eq!(events, vec![output(2, StreamKind::Stdout, "café")]);
}

#[test]
fn character_cut_by_a_chunk_boundary_is_decoded_whole() {
    let bytes = "né time=é bitrate=é\n".as_bytes();
    let mut reader = StreamReader::new(2, StreamKind::Stderr);
    let mut events = reader.feed(&bytes[..2]);
    events.extend(reader.feed(&bytes[2..]));
    assert_eq!(
        events,
        vec![
            output(2, StreamKind::Stderr, "né time=é bitrate=é"),
            progress(2, "né time=é bitrate=é"),
        ]
    );
}

#[test]
fn finish_emits_the_unterminated_last_line() {
    let mut reader = StreamReader::new(4, StreamKind::Stdout);
    assert_eq!(reader.feed(b"a\nlast"), vec![output(4, StreamKind::Stdout, "a")]);
    assert_eq!(reader.finish(), vec![output(4, StreamKind::Stdout, "last")]);
}

#[test]
fn finish_keeps_a_carriage_return_of_the_last_line() {
    let mut reader = StreamReader::new(4, StreamKind::Stdout);
    assert!(reader.feed(b"time=1 bitrate=2\r").is_empty());
    assert_eq!(
        reader.finish(),
        vec![output(4, StreamKind::Stdout, "time=1 bitrate=2\r"), progress(4, "time=1 bitrate=2\r")]
    );
}

#[test]
fn finish_of_an_empty_stream_emits_nothing() {
    let reader = StreamReader::new(4, StreamKind::Stdout);
    assert!(reader.finish().is_empty());
}

#[test]
fn finish_drops_an_undecodable_last_line() {
    let mut reader = StreamReader::new(4, StreamKind::Stdout);
    assert!(reader.feed(b"\xf0\x9f").is_empty());
    assert!(reader.finish().is_empty());
}

#[test]
fn cutting_the_stream_differently_changes_nothing() {
    let bytes = "ffmpeg version 7.0\r\nframe=1 time=00:00:00.04 bitrate=N/A\nbad \u{e9}\n\nend"
        .as_bytes()
        .to_vec();
    let mut with_bad = bytes.clone();
    with_bad.extend_from_slice(b"\n\xc3\x28\nfine\r\n");
    for stream_bytes in [bytes, with_bad] {
        let whole = read_in_chunks(&stream_bytes, stream_bytes.len());
        for size in 1..=stream_bytes.len() {
            assert_eq!(read_in_chunks(&stream_bytes, size), whole, "chunks of {}", size);
        }
    }
}

#[test]
fn reading_agrees_with_the_standard_line_reader() {
    let stream_bytes: &[u8] = b"one\r\ntwo\n\xff\n\nthree time=1 bitrate=2\r\nlast\r";
    let mut expected = Vec::new();
    for line in std::io::BufReader::new(stream_bytes).lines() {
        if let Ok(line) = line {
            expected.push(output(5, StreamKind::Stderr, &line));
            if line.contains("time=") && line.contains("bitrate=") {
                expected.push(progress(5, &line));
            }
        }
    }
    assert_eq!(read_in_chunks(stream_bytes, 3), expected);
}

#[test]
fn events_for_body_decodes_or_drops() {
    assert_eq!(
        events_for_body(8, StreamKind::Stdout, "héllo".as_bytes().to_vec()),
        vec![output(8, StreamKind::Stdout, "héllo")]
    );
    assert!(events_for_body(8, StreamKind::Stdout, vec![0x80]).is_empty());
    assert_eq!(
        events_for_body(8, StreamKind::Stdout, b"keeps\r".to_vec()),
        vec![output(8, StreamKind::Stdout, "keeps\r")]
    );
    assert_eq!(
        events_for_body(8, StreamKind::Stdout, Vec::new()),
        vec![output(8, StreamKind::Stdout, "")]
    );
}

#[test]
fn events_for_complete_line_strips_one_carriage_return() {
    assert_eq!(
        events_for_complete_line(8, StreamKind::Stdout, b"strips\r".to_vec()),
        vec![output(8, StreamKind::Stdout, "strips")]
    );
    assert_eq!(
        events_for_complete_line(8, StreamKind::Stdout, b"\r\r".to_vec()),
        vec![output(8, StreamKind::Stdout, "\r")]
    );
    assert_eq!(
        events_for_complete_line(8, StreamKind::Stdout, b"plain".to_vec()),
        vec![output(8, StreamKind::Stdout, "plain")]
    );
    assert!(events_for_complete_line(8, StreamKind::Stdout, b"\xff\r".to_vec()).is_empty());
}
