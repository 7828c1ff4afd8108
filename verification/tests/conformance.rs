use remuxer::config::FFMpegConfig;
use remuxer::ffmpeg::FFMpeg;
use remuxer::ffprobe::{FFProbeResult, FFProbeResultFormat, FFProbeResultStream, MediaKind};

fn stream(
    index: u8,
    kind: &str,
    codec: Option<&str>,
    channels: Option<u8>,
    bit_rate: Option<&str>,
) -> FFProbeResultStream {
    FFProbeResultStream {
        index,
        codec_name: codec.map(|c| c.to_string()),
        codec_type: kind.to_string(),
        channels,
        bit_rate: bit_rate.map(|b| b.to_string()),
    }
}

fn probe(format_name: &str, streams: Vec<FFProbeResultStream>) -> FFProbeResult {
    FFProbeResult {
        streams,
        format: FFProbeResultFormat {
            filename: "/media/in/Movie.mkv".to_string(),
            format_name: format_name.to_string(),
            format_long_name: "long".to_string(),
            duration: "5400.021000".to_string(),
        },
    }
}

fn transcoder() -> FFMpeg {
    FFMpeg::new(&FFMpegConfig::default())
}

#[test]
fn default_profile_values() {
    let config = FFMpegConfig::default();
    assert_eq!(config.crf_level, 23);
    assert_eq!(config.video_maxrate, 4_000_000);
    assert_eq!(config.audio_bitrate, 128_000);
    assert!(!config.keep_input_file);
    assert!(config.is_well_formed());
}

#[test]
fn profile_without_ceiling_is_not_well_formed() {
    let mut config = FFMpegConfig::default();
    config.video_maxrate = 0;
    assert!(!config.is_well_formed());
    let mut config = FFMpegConfig::default();
    config.crf_level = 52;
    assert!(!config.is_well_formed());
    config.crf_level = 51;
    assert!(config.is_well_formed());
}

#[test]
fn stream_kinds_are_matched_exactly() {
    assert_eq!(stream(0, "video", None, None, None).kind(), MediaKind::Video);
    assert_eq!(stream(0, "audio", None, None, None).kind(), MediaKind::Audio);
    assert_eq!(stream(0, "subtitle", None, None, None).kind(), MediaKind::Subtitle);
    assert_eq!(stream(0, "data", None, None, None).kind(), MediaKind::Other);
    assert_eq!(stream(0, "Video", None, None, None).kind(), MediaKind::Other);
    assert_eq!(stream(0, "", None, None, None).kind(), MediaKind::Other);
}

#[test]
fn video_at_target_within_ceiling_conforms() {
    let f = transcoder();
    assert!(f.is_stream_valid(&stream(0, "video", Some("h264"), None, Some("2000000"))));
    assert!(f.is_stream_valid(&stream(0, "video", Some("H264"), None, Some("4000000"))));
    assert!(f.is_stream_valid(&stream(0, "video", Some("h264"), None, None)));
}

#[test]
fn video_above_ceiling_does_not_conform() {
    let f = transcoder();
    assert!(!f.is_stream_valid(&stream(0, "video", Some("h264"), None, Some("4000001"))));
}

#[test]
fn video_of_other_codec_does_not_conform() {
    let f = transcoder();
    assert!(!f.is_stream_valid(&stream(0, "video", Some("hevc"), None, Some("1000"))));
    assert!(!f.is_stream_valid(&stream(0, "video", Some("h2640"), None, None)));
    assert!(!f.is_stream_valid(&stream(0, "video", Some(""), None, None)));
}

#[test]
fn unreadable_bit_rate_counts_as_zero() {
    let f = transcoder();
    assert!(f.is_stream_valid(&stream(0, "video", Some("h264"), None, Some("fast"))));
    assert!(f.is_stream_valid(&stream(0, "video", Some("h264"), None, Some(""))));
    assert!(f.is_stream_valid(&stream(0, "video", Some("h264"), None, Some("-1"))));
    assert!(f.is_stream_valid(&stream(0, "video", Some("h264"), None, Some("+"))));
    assert!(f.is_stream_valid(&stream(0, "video", Some("h264"), None, Some("5000000000 "))));
    assert!(f.is_stream_valid(&stream(0, "video", Some("h264"), None, Some("5e9"))));
    assert!(f.is_stream_valid(&stream(0, "video", Some("h264"), None, Some("000"))));
}

#[test]
fn bit_rate_of_any_size_is_held_against_the_ceiling() {
    let f = transcoder();
    assert!(!f.is_stream_valid(&stream(0, "video", Some("h264"), None, Some("5000000000"))));
    assert!(!f.is_stream_valid(&stream(0, "video", Some("h264"), None, Some("4294967295"))));
    assert!(!f.is_stream_valid(&stream(0, "video", Some("h264"), None, Some("4294967296"))));
    assert!(!f.is_stream_valid(&stream(0, "video", Some("h264"), None, Some("+5000000"))));
    assert!(!f.is_stream_valid(&stream(
        0,
        "video",
        Some("h264"),
        None,
        Some("18446744073709551616")
    )));
    assert!(!f.is_stream_valid(&stream(
        0,
        "video",
        Some("h264"),
        None,
        Some("99999999999999999999999999999999999999")
    )));
    assert!(f.is_stream_valid(&stream(
        0,
        "video",
        Some("h264"),
        None,
        Some("00000000000000000000000000000004000000")
    )));
    assert!(f.is_stream_valid(&stream(0, "video", Some("h264"), None, Some("+4000000"))));
}

#[test]
fn oversized_bit_rate_under_the_largest_ceiling() {
    let mut config = FFMpegConfig::default();
    config.video_maxrate = u32::MAX;
    let f = FFMpeg::new(&config);
    assert!(f.is_stream_valid(&stream(0, "video", Some("h264"), None, Some("4294967295"))));
    assert!(!f.is_stream_valid(&stream(0, "video", Some("h264"), None, Some("4294967296"))));
    assert!(!f.is_valid(&probe(
        "mp4",
        vec![stream(0, "video", Some("h264"), None, Some("5000000000"))]
    )));
}

#[test]
fn audio_conforms_with_target_codec_and_two_channels() {
    let f = transcoder();
    assert!(f.is_stream_valid(&stream(1, "audio", Some("aac"), Some(2), None)));
    assert!(f.is_stream_valid(&stream(1, "audio", Some("AAC"), Some(1), None)));
    assert!(f.is_stream_valid(&stream(1, "audio", Some("aac"), None, None)));
    assert!(!f.is_stream_valid(&stream(1, "audio", Some("aac"), Some(6), None)));
    assert!(!f.is_stream_valid(&stream(1, "audio", Some("mp3"), Some(2), None)));
}

#[test]
fn six_channel_mp3_does_not_conform() {
    let f = transcoder();
    assert!(!f.is_stream_valid(&stream(1, "audio", Some("mp3"), Some(6), None)));
}

#[test]
fn subtitle_conforms_with_target_codec_only() {
    let f = transcoder();
    assert!(f.is_stream_valid(&stream(2, "subtitle", Some("mov_text"), None, None)));
    assert!(f.is_stream_valid(&stream(2, "subtitle", Some("MOV_TEXT"), None, None)));
    assert!(!f.is_stream_valid(&stream(2, "subtitle", Some("subrip"), None, None)));
}

#[test]
fn unknown_codec_and_unknown_kind_conform() {
    let f = transcoder();
    assert!(f.is_stream_valid(&stream(0, "video", None, None, Some("99999999"))));
    assert!(f.is_stream_valid(&stream(0, "audio", None, Some(8), None)));
    assert!(f.is_stream_valid(&stream(0, "subtitle", None, None, None)));
    assert!(f.is_stream_valid(&stream(0, "data", Some("bin_data"), None, None)));
    assert!(f.is_stream_valid(&stream(0, "attachment", Some("ttf"), Some(9), Some("7"))));
}

#[test]
fn file_conforms_when_container_and_all_streams_do() {
    let f = transcoder();
    let good = vec![
        stream(0, "video", Some("h264"), None, Some("2000000")),
        stream(1, "audio", Some("aac"), Some(2), None),
    ];
    assert!(f.is_valid(&probe("mov,mp4,m4a,3gp,3g2,mj2", good)));
}

#[test]
fn file_in_other_container_does_not_conform() {
    let f = transcoder();
    let good = vec![
        stream(0, "video", Some("h264"), None, Some("2000000")),
        stream(1, "audio", Some("aac"), Some(2), None),
    ];
    assert!(!f.is_valid(&probe("matroska,webm", good)));
    assert!(!f.is_valid(&probe("", vec![])));
    assert!(!f.is_valid(&probe("mp", vec![])));
    assert!(f.is_valid(&probe("mp4", vec![])));
}

#[test]
fn file_with_one_bad_stream_does_not_conform() {
    let f = transcoder();
    let streams = vec![
        stream(0, "video", Some("h264"), None, Some("2000000")),
        stream(1, "audio", Some("aac"), Some(2), None),
        stream(2, "audio", Some("ac3"), Some(6), None),
    ];
    assert!(!f.is_valid(&probe("mp4", streams)));
}

#[test]
fn ceiling_of_the_profile_decides() {
    let mut config = FFMpegConfig::default();
    config.video_maxrate = 1_000;
    let f = FFMpeg::new(&config);
    assert!(f.is_stream_valid(&stream(0, "video", Some("h264"), None, Some("1000"))));
    assert!(!f.is_stream_valid(&stream(0, "video", Some("h264"), None, Some("1001"))));
}
