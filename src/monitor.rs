use vstd::prelude::*;
use crate::video_frame::{EncodedVideoFrame, Timestamp};

verus! {

/// Time elapsed between a frame's capture and its arrival at the monitor.
#[derive(Clone, Copy, Debug, PartialEq, Eq, Structural)]
pub struct Latency {
    pub nanos: u64,
}

impl Latency {
    pub fn as_millis(&self) -> (r: u64)
        ensures
            r == self.nanos / 1_000_000,
    {
        self.nanos / 1_000_000
    }
}

/// The clock reads earlier than the frame's timestamp.
#[derive(Clone, Copy, Debug, PartialEq, Eq, Structural)]
pub enum ClockError {
    WentBackwards,
}

/// The latency of an encoded frame observed at `now`. It is never negative:
/// a clock that reads before the frame's timestamp is reported as an error,
/// not clamped.
pub fn frame_latency(frame: &EncodedVideoFrame, now: Timestamp) -> (r: Result<Latency, ClockError>)
    ensures
        now.nanos >= frame.timestamp.nanos ==> r == Ok::<Latency, ClockError>(
            Latency { nanos: (now.nanos - frame.timestamp.nanos) as u64 },
        ),
        now.nanos < frame.timestamp.nanos ==> r == Err::<Latency, ClockError>(ClockError::WentBackwards),
{
    if now.nanos >= frame.timestamp.nanos {
        Ok(Latency { nanos: now.nanos - frame.timestamp.nanos })
    } else {
        Err(ClockError::WentBackwards)
    }
}

} // verus!
