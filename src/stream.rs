use vstd::prelude::*;

use crate::progress::{parse_progress, progress_text};

verus! {

/// The two output streams of the downloader process.
#[derive(Clone, Copy, Debug, PartialEq, Eq, Structural)]
pub enum OutputStream {
    Stdout,
    Stderr,
}

/// An event forwarded for one line of output.
#[derive(Debug)]
pub enum LineEvent {
    /// The raw line.
    Log(String),
    /// The percentage that a standard-output line reports, as decimal text.
    Progress(String),
}

/// Whether an event is the raw line `t`.
pub open spec fn is_log_of(e: LineEvent, t: Seq<char>) -> bool {
    match e {
        LineEvent::Log(s) => s@ == t,
        LineEvent::Progress(_) => false,
    }
}

/// Whether an event reports the percentage text `t`.
pub open spec fn is_progress_of(e: LineEvent, t: Seq<char>) -> bool {
    match e {
        LineEvent::Progress(s) => s@ == t,
        LineEvent::Log(_) => false,
    }
}

/// The events for one line: the line itself, followed, on standard output, by
/// the percentage that the line reports, if any.
pub fn line_events(stream: OutputStream, line: String) -> (r: Vec<LineEvent>)
    ensures
        r.len() >= 1,
        is_log_of(r[0], line@),
        match (stream, progress_text(line@)) {
            (OutputStream::Stdout, Some(t)) => r.len() == 2 && is_progress_of(r[1], t),
            _ => r.len() == 1,
        },
{
    let progress = match stream {
        OutputStream::Stdout => parse_progress(line.as_str()),
        OutputStream::Stderr => None,
    };
    let mut events: Vec<LineEvent> = Vec::new();
    events.push(LineEvent::Log(line));
    match progress {
        Some(t) => events.push(LineEvent::Progress(t)),
        None => {},
    }
    events
}

} // verus!
