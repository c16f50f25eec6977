//! The decisions of the read–dispatch–write loop. The loop itself, which reads
//! and writes the streams, runs outside the library and follows these actions.
use vstd::prelude::*;
use crate::text::{trim, trimmed};

verus! {

/// What one read of a line gave.
pub enum ReadOutcome {
    /// The read returned zero bytes.
    EndOfStream,
    /// A line, with or without its end-of-line characters.
    Line(String),
}

/// What the loop does next.
pub enum LineAction {
    /// End the loop cleanly, writing nothing more.
    Stop,
    /// Write nothing and read the next line.
    Skip,
    /// Handle this request text (the line, trimmed), then write exactly one line and flush.
    Handle(String),
}

/// The loop's state: how many requests it has handled, and whether it has ended.
pub struct Transport {
    pub handled: u64,
    pub finished: bool,
}

impl Transport {
    /// A loop that has handled nothing yet.
    pub fn new() -> (r: Transport)
        ensures
            r.handled == 0,
            !r.finished,
    {
        Transport { handled: 0, finished: false }
    }

    /// The next action after a read. End of stream, or any read after it, stops the loop;
    /// a line that is blank once trimmed is skipped and not counted; any other line is
    /// handled and counted (the count stops at its maximum).
    pub fn on_read(&mut self, read: ReadOutcome) -> (a: LineAction)
        ensures
            old(self).finished ==> a is Stop && *final(self) == *old(self),
            !old(self).finished ==> match read {
                ReadOutcome::EndOfStream => {
                    &&& a is Stop
                    &&& final(self).finished
                    &&& final(self).handled == old(self).handled
                },
                ReadOutcome::Line(s) => if trimmed(s@).len() == 0 {
                    a is Skip && *final(self) == *old(self)
                } else {
                    &&& a matches LineAction::Handle(t) && t@ == trimmed(s@)
                    &&& !final(self).finished
                    &&& final(self).handled == if old(self).handled < u64::MAX {
                        (old(self).handled + 1) as u64
                    } else {
                        old(self).handled
                    }
                },
            },
    {
        if self.finished {
            return LineAction::Stop;
        }
        match read {
            ReadOutcome::EndOfStream => {
                self.finished = true;
                LineAction::Stop
            },
            ReadOutcome::Line(s) => {
                let t = trim(s.as_str());
                if t.as_str().unicode_len() == 0 {
                    LineAction::Skip
                } else {
                    if self.handled < u64::MAX {
                        self.handled = self.handled + 1;
                    }
                    LineAction::Handle(t)
                }
            },
        }
    }
}

} // verus!
