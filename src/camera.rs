use vstd::prelude::*;
use crate::video_frame::{Timestamp, VideoFrame};

verus! {

/// What the capture device reports about itself at startup.
#[derive(Clone, Copy, Debug, PartialEq, Eq, Structural)]
pub struct CameraInfo {
    pub width: usize,
    pub height: usize,
    pub framerate: u32,
}

/// Why the capture stage cannot start: without a device, or without its
/// basic properties, there is no pipeline to run.
#[derive(Clone, Copy, Debug, PartialEq, Eq, Structural)]
pub enum StartupError {
    /// The device could not be opened, or reports that it is not open.
    NotOpened,
    /// Width, height or framerate could not be read.
    PropertyUnreadable,
    /// Width, height or framerate was read as zero.
    NotPositive,
}

/// Decides the device capabilities from what opening and querying the
/// device gave: an opened device whose width, height and framerate all read
/// as positive numbers yields exactly those numbers.
pub fn camera_info_from_probe(
    opened: bool,
    width: Option<usize>,
    height: Option<usize>,
    framerate: Option<u32>,
) -> (r: Result<CameraInfo, StartupError>)
    ensures
        !opened ==> r == Err::<CameraInfo, StartupError>(StartupError::NotOpened),
        opened && (width is None || height is None || framerate is None)
            ==> r == Err::<CameraInfo, StartupError>(StartupError::PropertyUnreadable),
        opened && width is Some && height is Some && framerate is Some ==> (
            if width->0 == 0 || height->0 == 0 || framerate->0 == 0 {
                r == Err::<CameraInfo, StartupError>(StartupError::NotPositive)
            } else {
                r == Ok::<CameraInfo, StartupError>(
                    CameraInfo { width: width->0, height: height->0, framerate: framerate->0 },
                )
            }
        ),
{
    if !opened {
        return Err(StartupError::NotOpened);
    }
    match (width, height, framerate) {
        (Some(w), Some(h), Some(f)) => {
            if w == 0 || h == 0 || f == 0 {
                Err(StartupError::NotPositive)
            } else {
                Ok(CameraInfo { width: w, height: h, framerate: f })
            }
        },
        _ => Err(StartupError::PropertyUnreadable),
    }
}

/// What one turn of the capture loop got from the device.
pub enum CaptureEvent {
    /// Reading from the device failed.
    ReadFailed,
    /// The read succeeded but delivered no frame.
    NoFrame,
    /// The frame could not be converted to interleaved RGB.
    ConversionFailed,
    /// The converted image's bytes could not be taken out.
    DataUnavailable,
    /// A converted RGB image, stamped when its bytes became available.
    Converted { timestamp: Timestamp, data: Vec<u8> },
}

/// A transient capture glitch: the turn emits nothing and the loop goes on.
#[derive(Clone, Copy, Debug, PartialEq, Eq, Structural)]
pub enum CaptureFault {
    ReadFailed,
    NoFrame,
    ConversionFailed,
    DataUnavailable,
}

/// What the capture loop does after one turn.
pub enum CaptureStep {
    /// Send this frame downstream.
    Emit(VideoFrame),
    /// Send nothing; note the fault and read again.
    Skip(CaptureFault),
}

/// One turn of the capture loop: a converted image becomes a frame with
/// exactly its bytes and timestamp; every failure is skipped, never emitted.
pub fn capture_step(event: CaptureEvent) -> (r: CaptureStep)
    ensures
        match event {
            CaptureEvent::Converted { timestamp, data } => r matches CaptureStep::Emit(f)
                && f.timestamp == timestamp && f.buffer@ == data@,
            CaptureEvent::ReadFailed => r matches CaptureStep::Skip(c) && c == CaptureFault::ReadFailed,
            CaptureEvent::NoFrame => r matches CaptureStep::Skip(c) && c == CaptureFault::NoFrame,
            CaptureEvent::ConversionFailed => r matches CaptureStep::Skip(c) && c == CaptureFault::ConversionFailed,
            CaptureEvent::DataUnavailable => r matches CaptureStep::Skip(c) && c == CaptureFault::DataUnavailable,
        },
{
    match event {
        CaptureEvent::Converted { timestamp, data } => CaptureStep::Emit(VideoFrame::new(timestamp, data)),
        CaptureEvent::ReadFailed => CaptureStep::Skip(CaptureFault::ReadFailed),
        CaptureEvent::NoFrame => CaptureStep::Skip(CaptureFault::NoFrame),
        CaptureEvent::ConversionFailed => CaptureStep::Skip(CaptureFault::ConversionFailed),
        CaptureEvent::DataUnavailable => CaptureStep::Skip(CaptureFault::DataUnavailable),
    }
}

} // verus!
