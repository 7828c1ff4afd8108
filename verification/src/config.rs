//! The delivery profile and the other settings a job runs under.

use vstd::prelude::*;

verus! {

/// Where notifications go. Without a URL nothing is notified.
#[derive(Debug, PartialEq, Eq)]
pub struct DiscordConfig {
    pub webhook_url: Option<String>,
}

/// The target profile of every transcode.
#[derive(Clone, Copy, Debug, PartialEq, Eq)]
pub struct FFMpegConfig {
    /// Constant-rate-factor quality level handed to the encoder.
    pub crf_level: u8,
    /// Video bit rate ceiling; a video stream above it is re-encoded.
    pub video_maxrate: u32,
    /// Bit rate of re-encoded audio.
    pub audio_bitrate: u32,
    /// Whether the input file and its sidecars stay in place after success.
    pub keep_input_file: bool,
}

/// All settings together.
#[derive(Debug, PartialEq, Eq)]
pub struct Config {
    pub discord: DiscordConfig,
    pub ffmpeg: FFMpegConfig,
}

/// The largest quality level on the encoder's scale.
pub const MAX_CRF_LEVEL: u8 = 51;

impl FFMpegConfig {
    /// A usable profile: a positive bit rate ceiling and a quality level on
    /// the encoder's scale.
    pub open spec fn wf(&self) -> bool {
        &&& self.video_maxrate > 0
        &&& self.crf_level <= MAX_CRF_LEVEL
    }

    /// Tests `wf`.
    pub fn is_well_formed(&self) -> (r: bool)
        ensures
            r == self.wf(),
    {
        self.video_maxrate > 0 && self.crf_level <= MAX_CRF_LEVEL
    }
}

impl Default for FFMpegConfig {
    fn default() -> (r: Self)
        ensures
            r.crf_level == 23,
            r.video_maxrate == 4_000_000,
            r.audio_bitrate == 128_000,
            !r.keep_input_file,
            r.wf(),
    {
        FFMpegConfig {
            crf_level: 23,
            video_maxrate: 4_000_000,
            audio_bitrate: 128_000,
            keep_input_file: false,
        }
    }
}

} // verus!
