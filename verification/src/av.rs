//! Audio/video framework bindings, as value models.

pub mod audio;
pub mod capture;

use vstd::prelude::*;

verus! {

/// Which kind of media a device or track carries.
#[derive(Clone, Copy, PartialEq, Eq, Structural, Debug)]
pub enum MediaType {
    Video,
    Audio,
    Text,
    ClosedCaption,
    Subtitle,
    Timecode,
    Metadata,
    Muxed,
    DepthData,
}

/// A PCM audio format: sample rate and channel count.
#[derive(Clone, Copy, PartialEq, Eq, Structural, Debug)]
pub struct AudioFormat {
    pub sample_rate_hz: u32,
    pub channels: u32,
}

impl AudioFormat {
    /// A standard format with the given rate and channel count.
    pub fn standard(sample_rate_hz: u32, channels: u32) -> (f: AudioFormat)
        ensures
            f.sample_rate_hz == sample_rate_hz,
            f.channels == channels,
    {
        AudioFormat { sample_rate_hz, channels }
    }
}

/// One buffer of audio frames.
#[derive(Clone, Copy, PartialEq, Eq, Structural, Debug)]
pub struct AudioBuf {
    pub frame_len: usize,
}

/// A position in an audio stream, in frames.
pub type AudioFramePos = i64;

} // verus!
