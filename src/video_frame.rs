use vstd::prelude::*;

verus! {

/// A wall-clock instant, as nanoseconds since the Unix epoch.
#[derive(Clone, Copy, Debug, PartialEq, Eq, Structural)]
pub struct Timestamp {
    pub nanos: u64,
}

impl Timestamp {
    pub fn from_nanos(nanos: u64) -> (r: Timestamp)
        ensures
            r.nanos == nanos,
    {
        Timestamp { nanos }
    }

    pub fn from_millis(millis: u64) -> (r: Timestamp)
        requires
            millis * 1_000_000 <= u64::MAX,
        ensures
            r.nanos == millis * 1_000_000,
    {
        Timestamp { nanos: millis * 1_000_000 }
    }
}

/// One uncompressed camera image in interleaved RGB, stamped when its bytes
/// became available.
pub struct VideoFrame {
    pub timestamp: Timestamp,
    pub buffer: Vec<u8>,
}

impl VideoFrame {
    pub fn new(timestamp: Timestamp, buffer: Vec<u8>) -> (r: VideoFrame)
        ensures
            r.timestamp == timestamp,
            r.buffer@ == buffer@,
    {
        VideoFrame { timestamp, buffer }
    }
}

/// The compressed bitstream of one raw frame; `timestamp` is the raw
/// frame's own, carried forward unchanged.
pub struct EncodedVideoFrame {
    pub timestamp: Timestamp,
    pub buffer: Vec<u8>,
}

} // verus!
