//! A camera-to-encoder frame pipeline: capture, encode and latency
//! monitoring stages whose per-item decisions are verified.

pub mod camera;
pub mod encoder;
pub mod monitor;
pub mod video_frame;
