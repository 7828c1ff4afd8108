//! Probe metadata: what the inspection tool reports of a media file, and the
//! invocation that asks for it.

use crate::command::{push_arg, Invocation};
use crate::text::same_text;
use vstd::prelude::*;
use vstd::string::*;

verus! {

/// One stream of a container, as the probe declares it.
#[derive(Debug, PartialEq, Eq)]
pub struct FFProbeResultStream {
    /// Ordinal of the stream within the container.
    pub index: u8,
    /// Codec name; absent when the probe could not tell.
    pub codec_name: Option<String>,
    /// `video`, `audio`, `subtitle`, or anything else.
    pub codec_type: String,
    /// Channel count of an audio stream.
    pub channels: Option<u8>,
    /// Bit rate of a video stream, as a decimal number in text form.
    pub bit_rate: Option<String>,
}

/// The container-level part of a probe result.
#[derive(Debug, PartialEq, Eq)]
pub struct FFProbeResultFormat {
    pub filename: String,
    pub format_name: String,
    pub format_long_name: String,
    /// Duration in seconds, as a decimal number in text form.
    pub duration: String,
}

/// A whole probe result: the streams in container order, and the format.
#[derive(Debug, PartialEq, Eq)]
pub struct FFProbeResult {
    pub streams: Vec<FFProbeResultStream>,
    pub format: FFProbeResultFormat,
}

/// What a `FFProbeResultStream` stands for.
pub struct StreamView {
    pub index: u8,
    pub codec_name: Option<Seq<char>>,
    pub codec_type: Seq<char>,
    pub channels: Option<u8>,
    pub bit_rate: Option<Seq<char>>,
}

/// What a `FFProbeResultFormat` stands for.
pub struct FormatView {
    pub filename: Seq<char>,
    pub format_name: Seq<char>,
    pub format_long_name: Seq<char>,
    pub duration: Seq<char>,
}

/// What a `FFProbeResult` stands for.
pub struct ProbeView {
    pub streams: Seq<StreamView>,
    pub format: FormatView,
}

/// The text that an optional string holds, if any.
pub open spec fn opt_text(o: Option<String>) -> Option<Seq<char>> {
    match o {
        Some(s) => Some(s@),
        None => None,
    }
}

/// A copy of an optional string.
pub fn clone_opt_text(o: &Option<String>) -> (r: Option<String>)
    ensures
        opt_text(r) == opt_text(*o),
{
    match o {
        Some(s) => Some(s.clone()),
        None => None,
    }
}

impl View for FFProbeResultStream {
    type V = StreamView;

    open spec fn view(&self) -> StreamView {
        StreamView {
            index: self.index,
            codec_name: opt_text(self.codec_name),
            codec_type: self.codec_type@,
            channels: self.channels,
            bit_rate: opt_text(self.bit_rate),
        }
    }
}

impl View for FFProbeResultFormat {
    type V = FormatView;

    open spec fn view(&self) -> FormatView {
        FormatView {
            filename: self.filename@,
            format_name: self.format_name@,
            format_long_name: self.format_long_name@,
            duration: self.duration@,
        }
    }
}

/// The views of `streams`, in order.
pub open spec fn stream_views(streams: Seq<FFProbeResultStream>) -> Seq<StreamView> {
    Seq::new(streams.len(), |i: int| streams[i]@)
}

impl View for FFProbeResult {
    type V = ProbeView;

    open spec fn view(&self) -> ProbeView {
        ProbeView { streams: stream_views(self.streams@), format: self.format@ }
    }
}

impl Clone for FFProbeResultStream {
    fn clone(&self) -> (r: Self)
        ensures
            r@ == self@,
    {
        FFProbeResultStream {
            index: self.index,
            codec_name: clone_opt_text(&self.codec_name),
            codec_type: self.codec_type.clone(),
            channels: self.channels,
            bit_rate: clone_opt_text(&self.bit_rate),
        }
    }
}

impl Clone for FFProbeResultFormat {
    fn clone(&self) -> (r: Self)
        ensures
            r@ == self@,
    {
        FFProbeResultFormat {
            filename: self.filename.clone(),
            format_name: self.format_name.clone(),
            format_long_name: self.format_long_name.clone(),
            duration: self.duration.clone(),
        }
    }
}

impl Clone for FFProbeResult {
    fn clone(&self) -> (r: Self)
        ensures
            r@ == self@,
    {
        let mut streams: Vec<FFProbeResultStream> = Vec::new();
        let mut i: usize = 0;
        while i < self.streams.len()
            invariant
                i <= self.streams.len(),
                streams.len() == i,
                forall|j: int| 0 <= j < i ==> streams[j]@ == self.streams[j]@,
            decreases self.streams.len() - i,
        {
            streams.push(self.streams[i].clone());
            i = i + 1;
        }
        assert(stream_views(streams@) =~= stream_views(self.streams@));
        FFProbeResult { streams, format: self.format.clone() }
    }
}

/// The kinds of stream that the profile tells apart.
#[derive(Clone, Copy, Debug, PartialEq, Eq, Structural)]
pub enum MediaKind {
    Video,
    Audio,
    Subtitle,
    Other,
}

/// The kind that a declared `codec_type` names. The match is exact: any
/// other text, in any other case, is `Other`.
pub open spec fn kind_of(codec_type: Seq<char>) -> MediaKind {
    if codec_type == "video"@ {
        MediaKind::Video
    } else if codec_type == "audio"@ {
        MediaKind::Audio
    } else if codec_type == "subtitle"@ {
        MediaKind::Subtitle
    } else {
        MediaKind::Other
    }
}

impl FFProbeResultStream {
    /// The kind of this stream.
    pub fn kind(&self) -> (k: MediaKind)
        ensures
            k == kind_of(self@.codec_type),
    {
        let t = self.codec_type.as_str();
        if same_text(t, "video") {
            MediaKind::Video
        } else if same_text(t, "audio") {
            MediaKind::Audio
        } else if same_text(t, "subtitle") {
            MediaKind::Subtitle
        } else {
            MediaKind::Other
        }
    }
}

/// The arguments that make the probe describe `path` as one JSON document
/// with the format and every stream.
pub open spec fn probe_args(path: Seq<char>) -> Seq<Seq<char>> {
    seq![
        "-v"@,
        "quiet"@,
        "-print_format"@,
        "json"@,
        "-show_format"@,
        "-show_streams"@,
        path,
    ]
}

/// The invocation that probes the file at `path`.
pub fn ffprobe_command(path: &str) -> (inv: Invocation)
    ensures
        inv@.program == "ffprobe"@,
        inv@.args == probe_args(path@),
{
    let mut args: Vec<String> = Vec::new();
    assert(args.deep_view() =~= Seq::<Seq<char>>::empty());
    push_arg(&mut args, "-v");
    push_arg(&mut args, "quiet");
    push_arg(&mut args, "-print_format");
    push_arg(&mut args, "json");
    push_arg(&mut args, "-show_format");
    push_arg(&mut args, "-show_streams");
    push_arg(&mut args, path);
    Invocation { program: String::from_str("ffprobe"), args }
}

} // verus!
