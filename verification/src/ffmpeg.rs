//! The transcoder front: which streams conform to the profile, and the
//! invocation that brings the others into line.

use crate::bus::EventBus;
use crate::command::{push_arg, push_owned, Invocation};
use crate::config::FFMpegConfig;
use crate::event::EventView;
use crate::ffprobe::{
    kind_of, FFProbeResult, FFProbeResultStream, MediaKind, ProbeView, StreamView,
};
use crate::paths::{file_name, parent, path_file_name, path_parent};
use crate::text::{
    chars_of, contains_text, decimal, decimal_string, eq_ignore_ascii_case, find_text,
    is_number_chars, is_unsigned_number, number_at_most, same_text, same_text_ignore_case,
    unsigned_value,
};
use vstd::prelude::*;
use vstd::string::*;

verus! {

/// The codec that the profile wants for a stream of kind `kind`; none for a
/// kind that it leaves alone.
pub open spec fn target_codec(kind: MediaKind) -> Option<Seq<char>> {
    match kind {
        MediaKind::Video => Some("h264"@),
        MediaKind::Audio => Some("aac"@),
        MediaKind::Subtitle => Some("mov_text"@),
        MediaKind::Other => None,
    }
}

/// The most channels an audio stream may have and still pass through.
pub const MAX_AUDIO_CHANNELS: u8 = 2;

/// The bit rate that a declared `bit_rate` text stands for: the number that
/// it writes in decimal, whatever its size, and 0 when it writes none.
pub open spec fn declared_bit_rate(raw: Seq<char>) -> nat {
    if is_unsigned_number(raw) {
        unsigned_value(raw)
    } else {
        0
    }
}

/// The channel count that a stream counts as having: the declared one, or 2
/// when none is declared.
pub open spec fn declared_channels(stream: StreamView) -> u8 {
    match stream.channels {
        Some(n) => n,
        None => MAX_AUDIO_CHANNELS,
    }
}

/// Whether `stream` can be copied as it is under a profile whose video bit
/// rate ceiling is `ceiling`.
///
/// A stream without a declared codec always conforms. Otherwise a video
/// stream conforms when its codec is the video target and its bit rate, if
/// declared, is within the ceiling; an audio stream when its codec is the
/// audio target and it has at most two channels; a subtitle stream when its
/// codec is the subtitle target; a stream of any other kind always.
pub open spec fn stream_conforms(stream: StreamView, ceiling: u32) -> bool {
    match stream.codec_name {
        None => true,
        Some(codec) => match kind_of(stream.codec_type) {
            MediaKind::Video => {
                &&& eq_ignore_ascii_case(codec, "h264"@)
                &&& match stream.bit_rate {
                    Some(raw) => declared_bit_rate(raw) <= ceiling,
                    None => true,
                }
            },
            MediaKind::Audio => {
                &&& eq_ignore_ascii_case(codec, "aac"@)
                &&& declared_channels(stream) <= MAX_AUDIO_CHANNELS
            },
            MediaKind::Subtitle => eq_ignore_ascii_case(codec, "mov_text"@),
            MediaKind::Other => true,
        },
    }
}

/// The name of the target container as it appears in a format name.
pub open spec fn target_container() -> Seq<char> {
    "mp4"@
}

/// Whether a whole file already meets the profile: its format name mentions
/// the target container and every stream conforms.
pub open spec fn media_conforms(media: ProbeView, ceiling: u32) -> bool {
    &&& contains_text(media.format.format_name, target_container())
    &&& forall|i: int| 0 <= i < media.streams.len() ==> stream_conforms(media.streams[i], ceiling)
}

/// The subtitle codecs that hold images rather than text. They cannot be
/// turned into the subtitle target and are left out of the output.
pub open spec fn is_image_subtitle(codec: Seq<char>) -> bool {
    ||| codec == "dvbsub"@
    ||| codec == "dvdsub"@
    ||| codec == "pgssub"@
    ||| codec == "xsub"@
}

/// Whether `stream` gets a place in the output: every video and audio
/// stream does, a subtitle stream unless its codec is an image format, and a
/// stream of any other kind does not.
pub open spec fn is_mapped(stream: StreamView) -> bool {
    match kind_of(stream.codec_type) {
        MediaKind::Video => true,
        MediaKind::Audio => true,
        MediaKind::Subtitle => match stream.codec_name {
            Some(codec) => !is_image_subtitle(codec),
            None => true,
        },
        MediaKind::Other => false,
    }
}

/// The codec selection for `stream`: none when it is left out, `copy` when
/// it conforms, the target codec of its kind otherwise.
pub open spec fn selected_codec(stream: StreamView, ceiling: u32) -> Option<Seq<char>> {
    if !is_mapped(stream) {
        None
    } else if stream_conforms(stream, ceiling) {
        Some("copy"@)
    } else {
        target_codec(kind_of(stream.codec_type))
    }
}

/// The argument that selects input stream `index` for the output.
pub open spec fn map_value(index: u8) -> Seq<char> {
    "0:"@ + decimal(index as nat)
}

/// The option that sets the codec of stream `index`.
pub open spec fn codec_option(index: u8) -> Seq<char> {
    "-c:"@ + decimal(index as nat)
}

/// The arguments that one stream contributes: nothing when it is left out,
/// else a mapping directive followed by a codec selection.
pub open spec fn stream_args(stream: StreamView, ceiling: u32) -> Seq<Seq<char>> {
    match selected_codec(stream, ceiling) {
        None => Seq::empty(),
        Some(codec) => seq!["-map"@, map_value(stream.index), codec_option(stream.index), codec],
    }
}

/// The arguments of all streams, in stream order.
pub open spec fn streams_args(streams: Seq<StreamView>, ceiling: u32) -> Seq<Seq<char>>
    decreases streams.len(),
{
    if streams.len() == 0 {
        Seq::empty()
    } else {
        streams_args(streams.drop_last(), ceiling) + stream_args(streams.last(), ceiling)
    }
}

/// The arguments that do not depend on the streams: the input, overwrite
/// without asking, errors only, progress reports on standard output every
/// five seconds, fast-start placement, the forced container, and the encode
/// parameters of the profile. The buffer size is twice the bit rate ceiling.
pub open spec fn fixed_args(input: Seq<char>, config: FFMpegConfig) -> Seq<Seq<char>> {
    seq![
        "-i"@,
        input,
        "-y"@,
        "-hide_banner"@,
        "-loglevel"@,
        "error"@,
        "-progress"@,
        "-"@,
        "-nostats"@,
        "-stats_period"@,
        "5"@,
        "-movflags"@,
        "faststart"@,
        "-f"@,
        "mp4"@,
        "-crf"@,
        decimal(config.crf_level as nat),
        "-level"@,
        "3.0"@,
        "-pix_fmt"@,
        "yuv420p"@,
        "-maxrate"@,
        decimal(config.video_maxrate as nat),
        "-bufsize"@,
        decimal(2 * config.video_maxrate as nat),
        "-ac"@,
        "2"@,
        "-b:a"@,
        decimal(config.audio_bitrate as nat),
    ]
}

/// The full argument list: the fixed part, the streams, and the output path
/// last.
pub open spec fn command_args(media: ProbeView, config: FFMpegConfig, output: Seq<char>) -> Seq<
    Seq<char>,
> {
    fixed_args(media.format.filename, config) + streams_args(media.streams, config.video_maxrate)
        + seq![output]
}

/// The temporary path for a file named `name` in the folder `folder`: the
/// name followed by `.part`, in that folder. An empty folder stands for the
/// current directory and adds nothing to the path.
pub open spec fn tmp_path_in(folder: Seq<char>, name: Seq<char>) -> Seq<char> {
    if folder.len() == 0 {
        name + ".part"@
    } else {
        folder + "/"@ + name + ".part"@
    }
}

/// The temporary path that output is written to before it is moved to
/// `output`: in the same directory, the file name followed by `.part`.
/// There is none for a path without a file name.
pub open spec fn tmp_output_path(output: Seq<char>) -> Option<Seq<char>> {
    match path_file_name(output) {
        None => None,
        Some(name) => Some(
            tmp_path_in(
                match path_parent(output) {
                    Some(dir) => dir,
                    None => "."@,
                },
                name,
            ),
        ),
    }
}

/// The streams that get a place in the output, in stream order.
pub open spec fn mapped_streams(streams: Seq<StreamView>) -> Seq<StreamView> {
    streams.filter(|s: StreamView| is_mapped(s))
}

/// A stream whose declared codec is the target codec of its kind conforms,
/// provided that a video stream's declared bit rate is within the ceiling
/// and an audio stream has no more than two channels.
pub proof fn lemma_target_codec_conforms(stream: StreamView, ceiling: u32)
    requires
        stream.codec_name is Some,
        target_codec(kind_of(stream.codec_type)) matches Some(target) && eq_ignore_ascii_case(
            stream.codec_name->0,
            target,
        ),
        kind_of(stream.codec_type) == MediaKind::Video ==> (stream.bit_rate matches Some(raw)
            ==> declared_bit_rate(raw) <= ceiling),
        kind_of(stream.codec_type) == MediaKind::Audio ==> declared_channels(stream)
            <= MAX_AUDIO_CHANNELS,
    ensures
        stream_conforms(stream, ceiling),
{
}

/// A stream of a kind that the profile has a target for, with a declared
/// codec, does not conform as soon as one condition is violated: the codec
/// is not the target, or a video stream declares a bit rate above the
/// ceiling, or an audio stream has more than two channels.
pub proof fn lemma_violation_does_not_conform(stream: StreamView, ceiling: u32)
    requires
        stream.codec_name is Some,
        target_codec(kind_of(stream.codec_type)) is Some,
        ({
            ||| !eq_ignore_ascii_case(
                stream.codec_name->0,
                target_codec(kind_of(stream.codec_type))->0,
            )
            ||| (kind_of(stream.codec_type) == MediaKind::Video && stream.bit_rate is Some
                && declared_bit_rate(stream.bit_rate->0) > ceiling)
            ||| (kind_of(stream.codec_type) == MediaKind::Audio && declared_channels(stream)
                > MAX_AUDIO_CHANNELS)
        }),
    ensures
        !stream_conforms(stream, ceiling),
{
}

/// No target codec is spelled `copy`.
pub proof fn lemma_copy_is_no_target(kind: MediaKind)
    ensures
        target_codec(kind) != Some("copy"@),
{
    reveal_strlit("copy");
    reveal_strlit("h264");
    reveal_strlit("aac");
    reveal_strlit("mov_text");
    assert("copy"@[0] == 'c');
    assert("h264"@[0] == 'h');
    assert("aac"@[0] == 'a');
    assert("mov_text"@[0] == 'm');
}

/// The stream arguments are exactly one mapping and codec pair for each
/// stream that is neither of an unrecognised kind nor an image subtitle, in
/// stream order. The pair of a stream says `copy` if and only if the stream
/// conforms, and names the target codec of the stream's kind otherwise.
pub proof fn lemma_one_pair_per_mapped_stream(streams: Seq<StreamView>, ceiling: u32)
    ensures
        streams_args(streams, ceiling).len() == 4 * mapped_streams(streams).len(),
        forall|k: int|
            #![trigger mapped_streams(streams)[k]]
            0 <= k < mapped_streams(streams).len() ==> {
                let stream = mapped_streams(streams)[k];
                let args = streams_args(streams, ceiling);
                &&& is_mapped(stream)
                &&& args[4 * k] == "-map"@
                &&& args[4 * k + 1] == map_value(stream.index)
                &&& args[4 * k + 2] == codec_option(stream.index)
                &&& (args[4 * k + 3] == "copy"@ <==> stream_conforms(stream, ceiling))
                &&& (!stream_conforms(stream, ceiling) ==> Some(args[4 * k + 3]) == target_codec(
                    kind_of(stream.codec_type),
                ))
            },
    decreases streams.len(),
{
    reveal(Seq::filter);
    if streams.len() > 0 {
        let rest = streams.drop_last();
        let last = streams.last();
        lemma_one_pair_per_mapped_stream(rest, ceiling);
        lemma_copy_is_no_target(kind_of(last.codec_type));
        let args = streams_args(streams, ceiling);
        let mapped = mapped_streams(streams);
        assert forall|k: int| 0 <= k < mapped.len() implies ({
            let stream = #[trigger] mapped[k];
            &&& is_mapped(stream)
            &&& args[4 * k] == "-map"@
            &&& args[4 * k + 1] == map_value(stream.index)
            &&& args[4 * k + 2] == codec_option(stream.index)
            &&& (args[4 * k + 3] == "copy"@ <==> stream_conforms(stream, ceiling))
            &&& (!stream_conforms(stream, ceiling) ==> Some(args[4 * k + 3]) == target_codec(
                kind_of(stream.codec_type),
            ))
        }) by {
            if k < mapped_streams(rest).len() {
                assert(mapped[k] == mapped_streams(rest)[k]);
            }
        }
    }
}

/// How many progress samples may wait for one subscriber.
pub const SAMPLE_CAPACITY: usize = 1;

/// The transcoder under one profile, with the bus that its jobs publish
/// their events on.
pub struct FFMpeg {
    pub config: FFMpegConfig,
    pub bus: EventBus,
}

impl FFMpeg {
    /// The invariant of a transcoder: its profile is a usable one, and the
    /// invariant of its bus holds.
    pub open spec fn wf(&self) -> bool {
        &&& self.config.wf()
        &&& self.bus.wf()
    }

    /// A transcoder for the profile `config`, which must be a usable one.
    /// Nobody has subscribed to its events yet and none was published.
    pub fn new(config: &FFMpegConfig) -> (r: Self)
        requires
            config.wf(),
        ensures
            r.wf(),
            r.config == *config,
            r.bus.subscribers() == 0,
            r.bus.published() == Seq::<EventView>::empty(),
            r.bus.capacity() == SAMPLE_CAPACITY,
            !r.bus.is_closed(),
    {
        FFMpeg { config: *config, bus: EventBus::new(SAMPLE_CAPACITY) }
    }

    /// Adds a subscriber to the events of this transcoder's jobs and
    /// returns its number, to be used with the bus. It receives what is
    /// published from now on, so a subscriber that is to see a whole job
    /// subscribes before the job is started.
    pub fn subscribe(&mut self) -> (id: usize)
        requires
            old(self).wf(),
        ensures
            final(self).wf(),
            final(self).config == old(self).config,
            id == old(self).bus.subscribers(),
            final(self).bus.subscribers() == old(self).bus.subscribers() + 1,
            final(self).bus.published() == old(self).bus.published(),
            final(self).bus.capacity() == old(self).bus.capacity(),
            final(self).bus.is_closed() == old(self).bus.is_closed(),
            forall|other: int|
                #![trigger final(self).bus.joined_at(other)]
                #![trigger final(self).bus.observed(other)]
                #![trigger final(self).bus.pending(other)]
                0 <= other < old(self).bus.subscribers() ==> {
                    &&& final(self).bus.joined_at(other) == old(self).bus.joined_at(other)
                    &&& final(self).bus.observed(other) == old(self).bus.observed(other)
                    &&& final(self).bus.pending(other) == old(self).bus.pending(other)
                },
            final(self).bus.sent_to(id as int) == Seq::<EventView>::empty(),
            final(self).bus.received(id as int) == Seq::<EventView>::empty(),
    {
        let id = self.bus.subscribe();
        assert(self.bus.sent_to(id as int) =~= Seq::<EventView>::empty());
        assert(self.bus.received(id as int) =~= Seq::<EventView>::empty());
        id
    }

    /// Ends the use of this transcoder: its bus is closed, so that every
    /// subscriber learns, once it has taken what waits for it, that nothing
    /// more will come.
    pub fn dispose(&mut self)
        requires
            old(self).wf(),
        ensures
            final(self).wf(),
            final(self).config == old(self).config,
            final(self).bus.is_closed(),
            final(self).bus.published() == old(self).bus.published(),
            final(self).bus.subscribers() == old(self).bus.subscribers(),
            forall|id: int|
                #![trigger final(self).bus.joined_at(id)]
                #![trigger final(self).bus.observed(id)]
                #![trigger final(self).bus.pending(id)]
                0 <= id < old(self).bus.subscribers() ==> {
                    &&& final(self).bus.joined_at(id) == old(self).bus.joined_at(id)
                    &&& final(self).bus.observed(id) == old(self).bus.observed(id)
                    &&& final(self).bus.pending(id) == old(self).bus.pending(id)
                },
    {
        self.bus.close();
    }

    /// Computes `tmp_path_in`.
    pub fn tmp_path(folder: &str, name: &str) -> (r: String)
        ensures
            r@ == tmp_path_in(folder@, name@),
    {
        let mut r = String::new();
        if folder.unicode_len() != 0 {
            r.append(folder);
            r.append("/");
        }
        r.append(name);
        r.append(".part");
        proof {
            if folder@.len() == 0 {
                assert(r@ =~= name@ + ".part"@);
            } else {
                assert(r@ =~= folder@ + "/"@ + name@ + ".part"@);
            }
        }
        r
    }

    /// Computes `tmp_output_path`.
    pub fn get_tmp_output_path(output_path: &str) -> (r: Option<String>)
        ensures
            crate::ffprobe::opt_text(r) == tmp_output_path(output_path@),
    {
        match file_name(output_path) {
            None => None,
            Some(name) => {
                let folder = match parent(output_path) {
                    Some(dir) => dir,
                    None => String::from_str("."),
                };
                Some(FFMpeg::tmp_path(folder.as_str(), name.as_str()))
            },
        }
    }

    /// Whether `stream` can pass through untouched.
    pub fn is_stream_valid(&self, stream: &FFProbeResultStream) -> (r: bool)
        requires
            self.config.wf(),
        ensures
            r == stream_conforms(stream@, self.config.video_maxrate),
    {
        match &stream.codec_name {
            None => true,
            Some(codec) => match stream.kind() {
                MediaKind::Video => {
                    if !same_text_ignore_case(codec.as_str(), "h264") {
                        return false;
                    }
                    match &stream.bit_rate {
                        Some(raw) => {
                            let digits = chars_of(raw.as_str());
                            !is_number_chars(&digits) || number_at_most(
                                &digits,
                                self.config.video_maxrate as u64,
                            )
                        },
                        None => true,
                    }
                },
                MediaKind::Audio => {
                    let channels: u8 = match stream.channels {
                        Some(n) => n,
                        None => MAX_AUDIO_CHANNELS,
                    };
                    same_text_ignore_case(codec.as_str(), "aac") && channels <= MAX_AUDIO_CHANNELS
                },
                MediaKind::Subtitle => same_text_ignore_case(codec.as_str(), "mov_text"),
                MediaKind::Other => true,
            },
        }
    }

    /// Whether the file that `probe` describes already meets the profile.
    pub fn is_valid(&self, probe: &FFProbeResult) -> (r: bool)
        requires
            self.config.wf(),
        ensures
            r == media_conforms(probe@, self.config.video_maxrate),
    {
        let format_name = chars_of(probe.format.format_name.as_str());
        let container = chars_of("mp4");
        if !find_text(&format_name, &container) {
            return false;
        }
        let mut i: usize = 0;
        while i < probe.streams.len()
            invariant
                i <= probe.streams.len(),
                self.config.wf(),
                forall|j: int|
                    0 <= j < i ==> stream_conforms(
                        #[trigger] probe@.streams[j],
                        self.config.video_maxrate,
                    ),
            decreases probe.streams.len() - i,
        {
            if !self.is_stream_valid(&probe.streams[i]) {
                assert(probe@.streams[i as int] == probe.streams[i as int]@);
                return false;
            }
            assert(probe@.streams[i as int] == probe.streams[i as int]@);
            i = i + 1;
        }
        true
    }

    fn push_stream_args(&self, args: &mut Vec<String>, stream: &FFProbeResultStream)
        requires
            self.config.wf(),
        ensures
            final(args).deep_view() == old(args).deep_view() + stream_args(
                stream@,
                self.config.video_maxrate,
            ),
    {
        let ghost before = args.deep_view();
        let target: &str = match stream.kind() {
            MediaKind::Video => "h264",
            MediaKind::Audio => "aac",
            MediaKind::Subtitle => {
                let image = match &stream.codec_name {
                    Some(codec) => {
                        let c = codec.as_str();
                        same_text(c, "dvbsub") || same_text(c, "dvdsub") || same_text(c, "pgssub")
                            || same_text(c, "xsub")
                    },
                    None => false,
                };
                if image {
                    assert(args.deep_view() =~= before + Seq::<Seq<char>>::empty());
                    return ;
                }
                "mov_text"
            },
            MediaKind::Other => {
                assert(args.deep_view() =~= before + Seq::<Seq<char>>::empty());
                return ;
            },
        };
        assert(is_mapped(stream@));
        assert(Some(target@) == target_codec(kind_of(stream@.codec_type)));
        let codec: &str = if self.is_stream_valid(stream) {
            "copy"
        } else {
            target
        };
        assert(Some(codec@) == selected_codec(stream@, self.config.video_maxrate));
        let index = decimal_string(stream.index as u64);
        let mut map_value = String::from_str("0:");
        map_value.append(index.as_str());
        let mut codec_option = String::from_str("-c:");
        codec_option.append(index.as_str());
        push_arg(args, "-map");
        push_owned(args, map_value);
        push_owned(args, codec_option);
        push_arg(args, codec);
        assert(args.deep_view() =~= before + stream_args(stream@, self.config.video_maxrate));
    }

    /// The invocation that turns the file described by `probe` into a file
    /// at `output_path` that meets the profile.
    pub fn get_command(&self, probe: &FFProbeResult, output_path: &str) -> (inv: Invocation)
        requires
            self.config.wf(),
        ensures
            inv@.program == "ffmpeg"@,
            inv@.args == command_args(probe@, self.config, output_path@),
            inv@.args.last() == output_path@,
    {
        let mut args: Vec<String> = Vec::new();
        assert(args.deep_view() =~= Seq::<Seq<char>>::empty());
        push_arg(&mut args, "-i");
        push_arg(&mut args, probe.format.filename.as_str());
        push_arg(&mut args, "-y");
        push_arg(&mut args, "-hide_banner");
        push_arg(&mut args, "-loglevel");
        push_arg(&mut args, "error");
        push_arg(&mut args, "-progress");
        push_arg(&mut args, "-");
        push_arg(&mut args, "-nostats");
        push_arg(&mut args, "-stats_period");
        push_arg(&mut args, "5");
        push_arg(&mut args, "-movflags");
        push_arg(&mut args, "faststart");
        push_arg(&mut args, "-f");
        push_arg(&mut args, "mp4");
        push_arg(&mut args, "-crf");
        push_owned(&mut args, decimal_string(self.config.crf_level as u64));
        push_arg(&mut args, "-level");
        push_arg(&mut args, "3.0");
        push_arg(&mut args, "-pix_fmt");
        push_arg(&mut args, "yuv420p");
        push_arg(&mut args, "-maxrate");
        push_owned(&mut args, decimal_string(self.config.video_maxrate as u64));
        push_arg(&mut args, "-bufsize");
        push_owned(&mut args, decimal_string(2 * (self.config.video_maxrate as u64)));
        push_arg(&mut args, "-ac");
        push_arg(&mut args, "2");
        push_arg(&mut args, "-b:a");
        push_owned(&mut args, decimal_string(self.config.audio_bitrate as u64));
        let ghost fixed = fixed_args(probe@.format.filename, self.config);
        assert(args.deep_view() == fixed);
        let ghost ceiling = self.config.video_maxrate;
        let mut i: usize = 0;
        assert(probe@.streams.take(0) =~= Seq::<StreamView>::empty());
        assert(args.deep_view() =~= fixed + streams_args(probe@.streams.take(0), ceiling));
        while i < probe.streams.len()
            invariant
                i <= probe.streams.len(),
                self.config.wf(),
                ceiling == self.config.video_maxrate,
                args.deep_view() == fixed + streams_args(probe@.streams.take(i as int), ceiling),
            decreases probe.streams.len() - i,
        {
            let ghost before = probe@.streams.take(i as int);
            let ghost after = probe@.streams.take(i + 1);
            assert(after.drop_last() =~= before);
            assert(after.last() == probe.streams[i as int]@);
            self.push_stream_args(&mut args, &probe.streams[i]);
            assert(args.deep_view() =~= fixed + streams_args(after, ceiling));
            i = i + 1;
        }
        assert(probe@.streams.take(i as int) =~= probe@.streams);
        push_arg(&mut args, output_path);
        assert(args.deep_view() =~= command_args(probe@, self.config, output_path@));
        Invocation { program: String::from_str("ffmpeg"), args }
    }
}

} // verus!
