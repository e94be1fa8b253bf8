use vstd::prelude::*;
use crate::camera::CameraInfo;
use crate::video_frame::{EncodedVideoFrame, Timestamp, VideoFrame};

verus! {

#[verifier::external_type_specification]
#[verifier::external_body]
pub struct ExEncoder(openh264::encoder::Encoder);

#[verifier::external_type_specification]
#[verifier::external_body]
pub struct ExYUVBuffer(openh264::formats::YUVBuffer);

#[verifier::external_type_specification]
#[verifier::external_body]
pub struct ExCodecError(openh264::Error);

/// Target bitrate handed to the codec, in bits per second.
pub const TARGET_BITRATE_BPS: u32 = 10;

/// Bytes per pixel of an interleaved RGB image.
pub const RGB_BYTES_PER_PIXEL: usize = 3;

/// Encoder configuration derived from the device capabilities.
#[derive(Clone, Copy, Debug, PartialEq, Eq, Structural)]
pub struct EncoderSettings {
    pub width: usize,
    pub height: usize,
    pub skip_frames: bool,
    pub bitrate_bps: u32,
    pub debug: bool,
}

/// Longest image side the codec encodes.
pub const MAX_LONG_SIDE: usize = 3840;

/// Longest that the shorter image side may be for the codec.
pub const MAX_SHORT_SIDE: usize = 2160;

/// Dimensions the codec can be configured for: positive and even (the
/// RGB-to-YUV conversion needs that), at most 3840 on the longer side and
/// 2160 on the shorter, in either orientation.
pub open spec fn dimensions_ok(width: int, height: int) -> bool {
    &&& width > 0
    &&& height > 0
    &&& width % 2 == 0
    &&& height % 2 == 0
    &&& width <= MAX_LONG_SIDE
    &&& height <= MAX_LONG_SIDE
    &&& (width <= MAX_SHORT_SIDE || height <= MAX_SHORT_SIDE)
}

/// Byte length of an interleaved RGB image of the given size.
pub open spec fn rgb_len(width: int, height: int) -> int {
    width * height * 3
}

/// Why the encode stage could not be set up.
#[derive(Clone, Copy, Debug, PartialEq, Eq, Structural)]
pub enum SetupError {
    /// Width or height is zero, odd, or beyond what the codec encodes.
    BadDimensions,
    /// The codec refused to build an encoder.
    Codec,
}

/// Why one frame produced no encoded output.
#[derive(Clone, Copy, Debug, PartialEq, Eq, Structural)]
pub enum FrameError {
    /// The frame's buffer is not `width * height * 3` bytes long.
    WrongSize,
    /// The codec failed on this frame.
    Encode,
}

/// Relies on openh264's `Encoder::with_api_config`, with the bundled codec
/// and a config built from `settings` (skip flag, bitrate, debug level; the
/// codec takes the image size from each frame); whether it succeeds is the
/// codec's.
#[verifier::external_body]
fn open_encoder(settings: &EncoderSettings) -> (r: Result<openh264::encoder::Encoder, openh264::Error>) {
    let config = openh264::encoder::EncoderConfig::new()
        .enable_skip_frame(settings.skip_frames)
        .set_bitrate_bps(settings.bitrate_bps)
        .debug(settings.debug);
    openh264::encoder::Encoder::with_api_config(openh264::OpenH264API::from_source(), config)
}

/// Relies on openh264's `YUVBuffer::from_rgb8_source` over an
/// `RgbSliceU8`, which panics unless both dimensions are even and the slice
/// holds exactly `width * height * 3` bytes.
#[verifier::external_body]
fn rgb_to_yuv(rgb: &[u8], width: usize, height: usize) -> (r: openh264::formats::YUVBuffer)
    requires
        dimensions_ok(width as int, height as int),
        rgb@.len() == rgb_len(width as int, height as int),
{
    openh264::formats::YUVBuffer::from_rgb8_source(openh264::formats::RgbSliceU8::new(rgb, (width, height)))
}

/// Relies on openh264's `Encoder::encode`, with the bitstream copied out by
/// `EncodedBitStream::to_vec`; whether it succeeds is the codec's.
#[verifier::external_body]
fn encode_yuv(encoder: &mut openh264::encoder::Encoder, yuv: &openh264::formats::YUVBuffer) -> (r: Result<Vec<u8>, openh264::Error>) {
    match encoder.encode(yuv) {
        Ok(bitstream) => Ok(bitstream.to_vec()),
        Err(e) => Err(e),
    }
}

/// The settings the encoder is built with for a device of these capabilities.
pub fn encoder_settings(info: &CameraInfo) -> (r: EncoderSettings)
    ensures
        r.width == info.width,
        r.height == info.height,
        r.skip_frames,
        r.bitrate_bps == TARGET_BITRATE_BPS,
        r.debug,
{
    EncoderSettings {
        width: info.width,
        height: info.height,
        skip_frames: true,
        bitrate_bps: TARGET_BITRATE_BPS,
        debug: true,
    }
}

/// Pairs what the codec returned for a frame with the frame's own timestamp.
pub fn finish_encode(timestamp: Timestamp, result: Result<Vec<u8>, openh264::Error>) -> (r: Result<EncodedVideoFrame, FrameError>)
    ensures
        match result {
            Ok(bytes) => r matches Ok(e) && e.timestamp == timestamp && e.buffer@ == bytes@,
            Err(_) => r == Err::<EncodedVideoFrame, FrameError>(FrameError::Encode),
        },
{
    match result {
        Ok(buffer) => Ok(EncodedVideoFrame { timestamp, buffer }),
        Err(_) => Err(FrameError::Encode),
    }
}

/// The encode stage: an encoder built for one image size, which turns raw
/// RGB frames into H.264 bitstreams.
pub struct EncodeStage {
    width: usize,
    height: usize,
    encoder: openh264::encoder::Encoder,
}

/// The `Ok` values of `results`, in order; the errors leave no trace.
pub open spec fn ok_values(results: Seq<Result<EncodedVideoFrame, FrameError>>) -> Seq<EncodedVideoFrame>
    decreases results.len(),
{
    if results.len() == 0 {
        Seq::empty()
    } else {
        let init = ok_values(results.drop_last());
        match results.last() {
            Ok(e) => init.push(e),
            Err(_) => init,
        }
    }
}

/// `results` holds one outcome for each of `frames`, as the encode stage
/// gives it for frames of the given size: exactly the wrong-size frames are
/// dropped with `WrongSize`, and every output carries its frame's timestamp.
pub open spec fn outcomes_of(results: Seq<Result<EncodedVideoFrame, FrameError>>, frames: Seq<VideoFrame>, width: int, height: int) -> bool {
    &&& results.len() == frames.len()
    &&& forall|k: int| 0 <= k < frames.len() ==>
        (#[trigger] results[k] == Err::<EncodedVideoFrame, FrameError>(FrameError::WrongSize)
            <==> frames[k].buffer@.len() != rgb_len(width, height))
    &&& forall|k: int| 0 <= k < frames.len() ==>
        (#[trigger] results[k] matches Ok(e) ==> e.timestamp == frames[k].timestamp)
}

/// Order is kept end to end: when the raw frames' timestamps strictly
/// increase and each successful outcome carries its frame's timestamp, the
/// outputs' timestamps strictly increase too, whichever frames were dropped
/// on the way; and there are never more outputs than frames.
pub proof fn lemma_emitted_in_order(results: Seq<Result<EncodedVideoFrame, FrameError>>, frames: Seq<VideoFrame>)
    requires
        results.len() <= frames.len(),
        forall|k: int| 0 <= k < results.len() ==>
            (#[trigger] results[k] matches Ok(e) ==> e.timestamp == frames[k].timestamp),
        forall|i: int, j: int| 0 <= i < j < frames.len() ==> frames[i].timestamp.nanos < frames[j].timestamp.nanos,
    ensures
        ok_values(results).len() <= results.len(),
        forall|a: int, b: int| 0 <= a < b < ok_values(results).len() ==>
            ok_values(results)[a].timestamp.nanos < ok_values(results)[b].timestamp.nanos,
        results.len() > 0 ==> forall|a: int| 0 <= a < ok_values(results).len() ==>
            ok_values(results)[a].timestamp.nanos <= frames[results.len() - 1].timestamp.nanos,
    decreases results.len(),
{
    if results.len() > 0 {
        let n = results.len() - 1;
        let init = results.drop_last();
        assert forall|k: int| 0 <= k < init.len() implies
            (#[trigger] init[k] matches Ok(e) ==> e.timestamp == frames[k].timestamp) by {
            assert(init[k] == results[k]);
        }
        lemma_emitted_in_order(init, frames);
        let out = ok_values(results);
        let prev = ok_values(init);
        if n > 0 {
            assert(frames[n - 1].timestamp.nanos < frames[n].timestamp.nanos);
        }
        assert(results[n] == results.last());
        match results.last() {
            Ok(e) => {
                assert(out == prev.push(e));
                assert forall|a: int| 0 <= a < out.len() implies out[a].timestamp.nanos <= frames[n].timestamp.nanos by {
                    if a < prev.len() {
                        assert(out[a] == prev[a]);
                    }
                }
                assert forall|a: int, b: int| 0 <= a < b < out.len() implies
                    out[a].timestamp.nanos < out[b].timestamp.nanos by {
                    assert(out[a] == prev[a]);
                    if b < prev.len() {
                        assert(out[b] == prev[b]);
                    }
                }
            },
            Err(_) => {
                assert(out == prev);
                assert forall|a: int| 0 <= a < out.len() implies out[a].timestamp.nanos <= frames[n].timestamp.nanos by {
                    assert(out[a] == prev[a]);
                }
            },
        }
    }
}

/// Collects what the encode stage emits for a run of per-frame outcomes:
/// every `Ok` value, in order, and nothing for an error.
pub fn collect_encoded(results: Vec<Result<EncodedVideoFrame, FrameError>>) -> (r: Vec<EncodedVideoFrame>)
    ensures
        r@ == ok_values(results@),
{
    let ghost orig = results@;
    let mut results = results;
    let mut reversed: Vec<Result<EncodedVideoFrame, FrameError>> = Vec::new();
    while results.len() > 0
        invariant
            results@ == orig.subrange(0, results@.len() as int),
            reversed@.len() == orig.len() - results@.len(),
            forall|k: int| 0 <= k < reversed@.len() ==> #[trigger] reversed@[k] == orig[orig.len() - 1 - k],
        decreases results@.len(),
    {
        let item = results.pop().unwrap();
        reversed.push(item);
    }
    let mut out: Vec<EncodedVideoFrame> = Vec::new();
    let ghost mut done: int = 0;
    assert(orig.subrange(0, 0) =~= Seq::<Result<EncodedVideoFrame, FrameError>>::empty());
    while reversed.len() > 0
        invariant
            0 <= done <= orig.len(),
            reversed@.len() == orig.len() - done,
            forall|k: int| 0 <= k < reversed@.len() ==> #[trigger] reversed@[k] == orig[orig.len() - 1 - k],
            out@ == ok_values(orig.subrange(0, done)),
        decreases reversed@.len(),
    {
        let item = reversed.pop().unwrap();
        proof {
            assert(item == orig[done]);
            assert(orig.subrange(0, done + 1).drop_last() =~= orig.subrange(0, done));
            assert(orig.subrange(0, done + 1).last() == orig[done]);
        }
        match item {
            Ok(e) => out.push(e),
            Err(_) => {},
        }
        proof {
            done = done + 1;
        }
    }
    assert(orig.subrange(0, orig.len() as int) =~= orig);
    out
}

impl EncodeStage {
    pub closed spec fn frame_width(&self) -> int {
        self.width as int
    }

    pub closed spec fn frame_height(&self) -> int {
        self.height as int
    }

    pub open spec fn wf(&self) -> bool {
        dimensions_ok(self.frame_width(), self.frame_height())
    }

    /// Builds the encoder for frames of the device's size. Fails with
    /// `BadDimensions` exactly when the size cannot be converted for the
    /// codec; otherwise the codec decides.
    pub fn new(info: &CameraInfo) -> (r: Result<EncodeStage, SetupError>)
        ensures
            !dimensions_ok(info.width as int, info.height as int) <==> r == Err::<EncodeStage, SetupError>(SetupError::BadDimensions),
            r matches Ok(s) ==> s.wf() && s.frame_width() == info.width && s.frame_height() == info.height,
    {
        if info.width == 0 || info.height == 0 || info.width % 2 != 0 || info.height % 2 != 0
            || info.width > MAX_LONG_SIDE || info.height > MAX_LONG_SIDE
            || (info.width > MAX_SHORT_SIDE && info.height > MAX_SHORT_SIDE) {
            return Err(SetupError::BadDimensions);
        }
        let settings = encoder_settings(info);
        match open_encoder(&settings) {
            Ok(encoder) => Ok(EncodeStage { width: info.width, height: info.height, encoder }),
            Err(_) => Err(SetupError::Codec),
        }
    }

    pub fn width(&self) -> (r: usize)
        ensures
            r == self.frame_width(),
    {
        self.width
    }

    pub fn height(&self) -> (r: usize)
        ensures
            r == self.frame_height(),
    {
        self.height
    }

    /// The byte length every raw frame must have.
    pub fn expected_frame_len(&self) -> (r: usize)
        requires
            self.wf(),
        ensures
            r == rgb_len(self.frame_width(), self.frame_height()),
    {
        proof {
            let (w, h) = (self.width as int, self.height as int);
            assert(w * h * 3 <= 3840 * 3840 * 3) by (nonlinear_arith)
                requires 0 < w <= 3840, 0 < h <= 3840;
        }
        self.width * self.height * RGB_BYTES_PER_PIXEL
    }

    fn encode_buffer(&mut self, timestamp: Timestamp, buffer: &Vec<u8>) -> (r: Result<EncodedVideoFrame, FrameError>)
        requires
            old(self).wf(),
        ensures
            final(self).frame_width() == old(self).frame_width(),
            final(self).frame_height() == old(self).frame_height(),
            buffer@.len() != rgb_len(old(self).frame_width(), old(self).frame_height())
                <==> r == Err::<EncodedVideoFrame, FrameError>(FrameError::WrongSize),
            r matches Ok(e) ==> e.timestamp == timestamp,
    {
        let expected = self.expected_frame_len();
        if buffer.len() != expected {
            return Err(FrameError::WrongSize);
        }
        let yuv = rgb_to_yuv(buffer.as_slice(), self.width, self.height);
        let result = encode_yuv(&mut self.encoder, &yuv);
        finish_encode(timestamp, result)
    }

    /// Encodes one raw frame. A frame whose buffer is not exactly
    /// `width * height * 3` bytes is dropped with `WrongSize`; otherwise the
    /// codec decides, and any output carries the frame's own timestamp.
    pub fn encode_frame(&mut self, frame: VideoFrame) -> (r: Result<EncodedVideoFrame, FrameError>)
        requires
            old(self).wf(),
        ensures
            final(self).wf(),
            final(self).frame_width() == old(self).frame_width(),
            final(self).frame_height() == old(self).frame_height(),
            frame.buffer@.len() != rgb_len(old(self).frame_width(), old(self).frame_height())
                <==> r == Err::<EncodedVideoFrame, FrameError>(FrameError::WrongSize),
            r matches Ok(e) ==> e.timestamp == frame.timestamp,
    {
        self.encode_buffer(frame.timestamp, &frame.buffer)
    }

    /// Runs a sequence of raw frames through the stage and collects what it
    /// emits: one outcome per frame, as `encode_frame` gives it, and the `Ok`
    /// values of those outcomes in frame order.
    pub fn encode_frames(&mut self, frames: Vec<VideoFrame>) -> (r: Vec<EncodedVideoFrame>)
        requires
            old(self).wf(),
        ensures
            final(self).wf(),
            final(self).frame_width() == old(self).frame_width(),
            final(self).frame_height() == old(self).frame_height(),
            exists|results: Seq<Result<EncodedVideoFrame, FrameError>>|
                outcomes_of(results, frames@, old(self).frame_width(), old(self).frame_height())
                && r@ == ok_values(results),
    {
        let ghost w = self.frame_width();
        let ghost h = self.frame_height();
        let mut results: Vec<Result<EncodedVideoFrame, FrameError>> = Vec::new();
        let mut i: usize = 0;
        while i < frames.len()
            invariant
                self.wf(),
                self.frame_width() == w,
                self.frame_height() == h,
                0 <= i <= frames@.len(),
                outcomes_of(results@, frames@.subrange(0, i as int), w, h),
            decreases frames@.len() - i,
        {
            let frame = &frames[i];
            let result = self.encode_buffer(frame.timestamp, &frame.buffer);
            results.push(result);
            i = i + 1;
        }
        assert(frames@.subrange(0, frames@.len() as int) =~= frames@);
        let ghost all = results@;
        let out = collect_encoded(results);
        assert(outcomes_of(all, frames@, w, h));
        out
    }
}

} // verus!
