use frame_pipeline::camera::{
    camera_info_from_probe, capture_step, CameraInfo, CaptureEvent, CaptureFault, CaptureStep,
    StartupError,
};
use frame_pipeline::encoder::{
    collect_encoded, encoder_settings, finish_encode, EncodeStage, FrameError, SetupError, TARGET_BITRATE_BPS,
};
use frame_pipeline::monitor::{frame_latency, ClockError};
use frame_pipeline::video_frame::{EncodedVideoFrame, Timestamp, VideoFrame};

fn info(width: usize, height: usize) -> CameraInfo {
    CameraInfo { width, height, framerate: 30 }
}

fn rgb_frame(millis: u64, width: usize, height: usize, shade: u8) -> VideoFrame {
    let mut buffer = Vec::new();
    for i in 0..width * height * 3 {
        buffer.push(shade.wrapping_add((i % 7) as u8));
    }
    VideoFrame::new(Timestamp::from_millis(millis), buffer)
}

#[test]
fn video_frame_new_keeps_fields() {
    let f = VideoFrame::new(Timestamp::from_nanos(42), vec![1, 2, 3]);
    assert_eq!(f.timestamp, Timestamp::from_nanos(42));
    assert_eq!(f.buffer, vec![1, 2, 3]);
}

#[test]
fn timestamp_from_millis_is_nanos() {
    assert_eq!(Timestamp::from_millis(3).nanos, 3_000_000);
}

#[test]
fn probe_of_open_device_gives_its_capabilities() {
    let r = camera_info_from_probe(true, Some(640), Some(480), Some(30));
    assert_eq!(r, Ok(CameraInfo { width: 640, height: 480, framerate: 30 }));
}

#[test]
fn probe_of_closed_device_is_fatal() {
    assert_eq!(camera_info_from_probe(false, Some(640), Some(480), Some(30)), Err(StartupError::NotOpened));
}

#[test]
fn probe_with_unreadable_property_is_fatal() {
    assert_eq!(camera_info_from_probe(true, Some(640), None, Some(30)), Err(StartupError::PropertyUnreadable));
    assert_eq!(camera_info_from_probe(true, Some(640), Some(480), None), Err(StartupError::PropertyUnreadable));
}

#[test]
fn probe_with_zero_property_is_fatal() {
    assert_eq!(camera_info_from_probe(true, Some(0), Some(480), Some(30)), Err(StartupError::NotPositive));
    assert_eq!(camera_info_from_probe(true, Some(640), Some(480), Some(0)), Err(StartupError::NotPositive));
}

#[test]
fn capture_step_emits_converted_image() {
    let step = capture_step(CaptureEvent::Converted { timestamp: Timestamp::from_nanos(9), data: vec![7, 8, 9] });
    match step {
        CaptureStep::Emit(f) => {
            assert_eq!(f.timestamp, Timestamp::from_nanos(9));
            assert_eq!(f.buffer, vec![7, 8, 9]);
        }
        CaptureStep::Skip(_) => panic!("a converted image must be emitted"),
    }
}

#[test]
fn capture_step_skips_every_failure() {
    let cases = vec![
        (CaptureEvent::ReadFailed, CaptureFault::ReadFailed),
        (CaptureEvent::NoFrame, CaptureFault::NoFrame),
        (CaptureEvent::ConversionFailed, CaptureFault::ConversionFailed),
        (CaptureEvent::DataUnavailable, CaptureFault::DataUnavailable),
    ];
    for (event, fault) in cases {
        match capture_step(event) {
            CaptureStep::Skip(c) => assert_eq!(c, fault),
            CaptureStep::Emit(_) => panic!("a failed turn must not emit"),
        }
    }
}

#[test]
fn latency_normal_case() {
    let f = EncodedVideoFrame { timestamp: Timestamp::from_millis(1_000), buffer: vec![] };
    let l = frame_latency(&f, Timestamp::from_millis(1_050)).unwrap();
    assert_eq!(l.as_millis(), 50);
    assert_eq!(l.nanos, 50_000_000);
}

#[test]
fn latency_zero_elapsed() {
    let f = EncodedVideoFrame { timestamp: Timestamp::from_millis(1_000), buffer: vec![] };
    assert_eq!(frame_latency(&f, Timestamp::from_millis(1_000)).unwrap().nanos, 0);
}

#[test]
fn latency_backward_clock_is_an_error() {
    let f = EncodedVideoFrame { timestamp: Timestamp::from_millis(1_000), buffer: vec![] };
    assert_eq!(frame_latency(&f, Timestamp::from_millis(999)), Err(ClockError::WentBackwards));
}

#[test]
fn settings_carry_capabilities_unchanged() {
    let s = encoder_settings(&CameraInfo { width: 1280, height: 720, framerate: 25 });
    assert_eq!(s.width, 1280);
    assert_eq!(s.height, 720);
    assert!(s.skip_frames);
    assert!(s.debug);
    assert_eq!(s.bitrate_bps, TARGET_BITRATE_BPS);
}

#[test]
fn stage_keeps_capabilities() {
    let stage = EncodeStage::new(&info(16, 8)).ok().unwrap();
    assert_eq!(stage.width(), 16);
    assert_eq!(stage.height(), 8);
    assert_eq!(stage.expected_frame_len(), 16 * 8 * 3);
}

#[test]
fn stage_refuses_bad_dimensions() {
    assert_eq!(EncodeStage::new(&info(0, 8)).err(), Some(SetupError::BadDimensions));
    assert_eq!(EncodeStage::new(&info(15, 8)).err(), Some(SetupError::BadDimensions));
    assert_eq!(EncodeStage::new(&info(16, 9)).err(), Some(SetupError::BadDimensions));
    assert_eq!(EncodeStage::new(&info(usize::MAX - 1, 2)).err(), Some(SetupError::BadDimensions));
}

#[test]
fn finish_encode_pairs_bytes_with_timestamp() {
    let r = finish_encode(Timestamp::from_nanos(77), Ok(vec![0, 0, 0, 1])).ok().unwrap();
    assert_eq!(r.timestamp, Timestamp::from_nanos(77));
    assert_eq!(r.buffer, vec![0, 0, 0, 1]);
}

#[test]
fn finish_encode_drops_failed_frame() {
    let r = finish_encode(Timestamp::from_nanos(77), Err(openh264::Error::msg("boom")));
    assert_eq!(r.err(), Some(FrameError::Encode));
}

#[test]
fn encode_frame_refuses_wrong_size() {
    let mut stage = EncodeStage::new(&info(16, 16)).ok().unwrap();
    let r = stage.encode_frame(VideoFrame::new(Timestamp::from_nanos(1), vec![0; 10]));
    assert_eq!(r.err(), Some(FrameError::WrongSize));
}

#[test]
fn encode_frame_produces_bitstream_with_frame_timestamp() {
    let mut stage = EncodeStage::new(&info(16, 16)).ok().unwrap();
    let e = stage.encode_frame(rgb_frame(5, 16, 16, 40)).ok().unwrap();
    assert_eq!(e.timestamp, Timestamp::from_millis(5));
    assert!(!e.buffer.is_empty());
    assert_eq!(&e.buffer[0..4], &[0, 0, 0, 1]);
}

#[test]
fn stage_refuses_sizes_beyond_the_codec() {
    assert_eq!(EncodeStage::new(&info(3842, 2)).err(), Some(SetupError::BadDimensions));
    assert_eq!(EncodeStage::new(&info(2, 3842)).err(), Some(SetupError::BadDimensions));
    assert_eq!(EncodeStage::new(&info(2162, 2162)).err(), Some(SetupError::BadDimensions));
}

#[test]
fn stage_accepts_largest_sizes_in_both_orientations() {
    assert_eq!(EncodeStage::new(&info(3840, 2160)).ok().map(|s| s.width()), Some(3840));
    assert_eq!(EncodeStage::new(&info(2160, 3840)).ok().map(|s| s.height()), Some(3840));
}

#[test]
fn collect_keeps_successes_in_order() {
    let results = vec![
        Ok(EncodedVideoFrame { timestamp: Timestamp::from_nanos(1), buffer: vec![1] }),
        Err(FrameError::WrongSize),
        Err(FrameError::Encode),
        Ok(EncodedVideoFrame { timestamp: Timestamp::from_nanos(4), buffer: vec![4, 4] }),
        Ok(EncodedVideoFrame { timestamp: Timestamp::from_nanos(5), buffer: vec![] }),
    ];
    let out = collect_encoded(results);
    let stamps: Vec<u64> = out.iter().map(|e| e.timestamp.nanos).collect();
    assert_eq!(stamps, vec![1, 4, 5]);
    assert_eq!(out[1].buffer, vec![4, 4]);
}

#[test]
fn collect_of_nothing_is_empty() {
    assert!(collect_encoded(vec![]).is_empty());
    assert!(collect_encoded(vec![Err(FrameError::Encode)]).is_empty());
}

#[test]
fn three_good_frames_arrive_in_order() {
    let mut stage = EncodeStage::new(&info(16, 16)).ok().unwrap();
    let frames = vec![rgb_frame(10, 16, 16, 0), rgb_frame(20, 16, 16, 50), rgb_frame(30, 16, 16, 100)];
    let out = stage.encode_frames(frames);
    let stamps: Vec<Timestamp> = out.iter().map(|e| e.timestamp).collect();
    assert_eq!(stamps, vec![Timestamp::from_millis(10), Timestamp::from_millis(20), Timestamp::from_millis(30)]);
}

#[test]
fn bad_frame_between_good_ones_is_dropped() {
    let mut stage = EncodeStage::new(&info(16, 16)).ok().unwrap();
    let bad = VideoFrame::new(Timestamp::from_millis(20), vec![1; 16 * 16 * 3 - 1]);
    let frames = vec![rgb_frame(10, 16, 16, 0), bad, rgb_frame(30, 16, 16, 100)];
    let out = stage.encode_frames(frames);
    let stamps: Vec<Timestamp> = out.iter().map(|e| e.timestamp).collect();
    assert_eq!(stamps, vec![Timestamp::from_millis(10), Timestamp::from_millis(30)]);
}

#[test]
fn never_more_outputs_than_frames() {
    let mut stage = EncodeStage::new(&info(16, 16)).ok().unwrap();
    let frames = vec![
        VideoFrame::new(Timestamp::from_millis(1), vec![]),
        rgb_frame(2, 16, 16, 9),
        VideoFrame::new(Timestamp::from_millis(3), vec![0; 16 * 16 * 3 + 3]),
    ];
    let out = stage.encode_frames(frames);
    assert_eq!(out.len(), 1);
    assert_eq!(out[0].timestamp, Timestamp::from_millis(2));
}
