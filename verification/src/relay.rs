//! The output relay's decision rules. The relay threads drain the child's
//! standard output and error streams and forward each chunk to the log sink,
//! tagged with its origin and a timestamp. Reading and writing are the
//! driver's; what stands here is the record built for each chunk and the
//! classification of a failed read: end of stream (the pipe closed at child
//! exit) ends the relay quietly, any other read failure ends it with one log
//! line — neither ever affects supervision, which is visible in the result
//! type: there is no failing outcome at all.

use vstd::prelude::*;

verus! {

/// Which of the child's streams a chunk came from.
#[derive(Clone, Copy, Debug, PartialEq, Eq, Structural)]
pub enum StreamOrigin {
    Stdout,
    Stderr,
}

/// One record handed to the log sink: origin tag, timestamp (milliseconds on
/// the driver's clock), and the chunk itself.
#[derive(Clone, Debug)]
pub struct RelayRecord {
    pub origin: StreamOrigin,
    pub at_ms: u64,
    pub text: String,
}

/// What one read from the child's stream produced.
#[derive(Clone, Debug)]
pub enum ReadOutcome {
    Chunk(String),
    EndOfStream,
    ReadFailed,
}

/// What the relay does with it: forward a record, or end this stream —
/// quietly (expected at child exit) or after logging the failure.
#[derive(Clone, Debug)]
pub enum RelayStep {
    Forward(RelayRecord),
    FinishQuiet,
    FinishLogged,
}

/// Turn one read into the relay's next move: a chunk is forwarded as a
/// record tagged with origin and timestamp; end of stream finishes quietly;
/// any other read failure finishes after one log line. No outcome stops
/// supervision.
pub fn relay_step(origin: StreamOrigin, at_ms: u64, read: ReadOutcome) -> (r: RelayStep)
    ensures
        read matches ReadOutcome::Chunk(text) ==> r matches RelayStep::Forward(rec)
            && rec.origin == origin && rec.at_ms == at_ms && rec.text@ == text@,
        read is EndOfStream ==> r is FinishQuiet,
        read is ReadFailed ==> r is FinishLogged,
{
    match read {
        ReadOutcome::Chunk(text) => RelayStep::Forward(RelayRecord { origin, at_ms, text }),
        ReadOutcome::EndOfStream => RelayStep::FinishQuiet,
        ReadOutcome::ReadFailed => RelayStep::FinishLogged,
    }
}

} // verus!
