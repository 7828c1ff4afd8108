use remuxer::discord::{
    DiscordEmbed, DiscordEmbedField, DiscordEventHandler, DiscordRequest, DiscordWebhook,
    DiscordWebhookData, DiscordWebhookResponse,
};
use remuxer::event::{FFMpegContext, FFMpegEvent, FFMpegProgress};
use remuxer::ffprobe::{FFProbeResult, FFProbeResultFormat};
use remuxer::log::{LogAction, LogEventHandler};

fn context() -> FFMpegContext {
    FFMpegContext {
        probe: FFProbeResult {
            streams: vec![],
            format: FFProbeResultFormat {
                filename: "/in/Movie.mkv".to_string(),
                format_name: "matroska".to_string(),
                format_long_name: "Matroska".to_string(),
                duration: "5400.4".to_string(),
            },
        },
        command: "ffmpeg -i x".to_string(),
        input_path: "/in/Movie.mkv".to_string(),
        output_path: "/out/Film.mp4".to_string(),
    }
}

fn sample(t: u64) -> FFMpegEvent {
    FFMpegEvent::PROGRESS(context(), FFMpegProgress { speed: "2.5x".to_string(), out_time_us: t })
}

fn field(name: &str, value: &str, inline: bool) -> DiscordEmbedField {
    DiscordEmbedField { name: name.to_string(), value: value.to_string(), inline: Some(inline) }
}

fn embed(description: &str, color: u32, extra: Vec<DiscordEmbedField>) -> DiscordEmbed {
    let mut fields =
        vec![field("Input", "/in/Movie.mkv", false), field("Output", "/out/Film.mp4", false)];
    fields.extend(extra);
    fields.push(field("Command", "```shell\nffmpeg -i x\n```", false));
    DiscordEmbed {
        title: Some("Transcoding file".to_string()),
        description: Some(description.to_string()),
        color: Some(color),
        fields: Some(fields),
    }
}

fn handler() -> DiscordEventHandler {
    DiscordEventHandler::new(DiscordWebhook::new(&"https://hook/1/abc".to_string()))
}

#[test]
fn payload_of_each_event() {
    assert_eq!(
        DiscordEventHandler::get_payload(&FFMpegEvent::START(context()), "5400s"),
        Some(embed("Waiting for ffmpeg to start...", 0xa855f7, vec![]))
    );
    assert_eq!(
        DiscordEventHandler::get_payload(&FFMpegEvent::DONE(context()), "5400s"),
        Some(embed("Transcoded file successfully", 0x22c55e, vec![]))
    );
    assert_eq!(
        DiscordEventHandler::get_payload(&FFMpegEvent::ERROR(context()), "5400s"),
        Some(embed("An unexpected error happened", 0xef4444, vec![]))
    );
}

#[test]
fn payload_of_a_sample() {
    assert_eq!(
        DiscordEventHandler::get_payload(&sample(61_999_999), "5400s"),
        Some(embed(
            "Transcoding file...",
            0xf97316,
            vec![
                field("Duration", "5400s", true),
                field("Timestamp", "61s", false),
                field("Speed", "2.5x", false),
            ]
        ))
    );
    let zero = DiscordEventHandler::get_payload(&sample(999_999), "x").unwrap();
    assert_eq!(zero.fields.unwrap()[3], field("Timestamp", "0s", false));
    let most = DiscordEventHandler::get_payload(&sample(u64::MAX), "x").unwrap();
    assert_eq!(most.fields.unwrap()[3], field("Timestamp", "18446744073709s", false));
}

#[test]
fn webhook_urls() {
    let hook = DiscordWebhook::new(&"https://hook/1/abc".to_string());
    assert_eq!(hook.url, "https://hook/1/abc");
    assert_eq!(hook.endpoint("/x"), "https://hook/1/abc/x");
    assert_eq!(hook.execute_url(), "https://hook/1/abc?wait=true");
    let message = hook.message(DiscordWebhookResponse { id: "77".to_string() });
    assert_eq!(message.id, "77");
    assert_eq!(message.webhook, hook);
    assert_eq!(message.update_url(), "https://hook/1/abc/messages/77");
}

#[test]
fn started_creates_the_message() {
    let h = handler();
    assert_eq!(h.message, None);
    assert_eq!(
        h.handle(&FFMpegEvent::START(context()), "5400s"),
        DiscordRequest::Execute {
            url: "https://hook/1/abc?wait=true".to_string(),
            data: DiscordWebhookData {
                embeds: vec![embed("Waiting for ffmpeg to start...", 0xa855f7, vec![])]
            },
        }
    );
}

#[test]
fn later_events_need_the_message() {
    let h = handler();
    assert_eq!(h.handle(&sample(1), "5400s"), DiscordRequest::Nothing);
    assert_eq!(h.handle(&FFMpegEvent::DONE(context()), "5400s"), DiscordRequest::Nothing);
    assert_eq!(h.handle(&FFMpegEvent::ERROR(context()), "5400s"), DiscordRequest::Nothing);
}

#[test]
fn later_events_update_the_message() {
    let mut h = handler();
    h.record(DiscordWebhookResponse { id: "42".to_string() });
    assert_eq!(h.message.as_ref().map(|m| m.id.as_str()), Some("42"));
    assert_eq!(
        h.handle(&FFMpegEvent::DONE(context()), "5400s"),
        DiscordRequest::Update {
            url: "https://hook/1/abc/messages/42".to_string(),
            data: DiscordWebhookData {
                embeds: vec![embed("Transcoded file successfully", 0x22c55e, vec![])]
            },
        }
    );
    match h.handle(&sample(2_000_000), "9s") {
        DiscordRequest::Update { url, data } => {
            assert_eq!(url, "https://hook/1/abc/messages/42");
            assert_eq!(data.embeds.len(), 1);
            assert_eq!(data.embeds[0].fields.as_ref().unwrap().len(), 6);
        }
        other => panic!("unexpected {:?}", other),
    }
    // a new job creates a new message
    assert!(matches!(
        h.handle(&FFMpegEvent::START(context()), "5400s"),
        DiscordRequest::Execute { .. }
    ));
}

#[test]
fn bar_follows_the_events() {
    let h = LogEventHandler::new();
    assert_eq!(
        h.handle(&FFMpegEvent::START(context()), 5400),
        LogAction::Begin { prefix: Some("Movie.mkv".to_string()), length: 5400 }
    );
    assert_eq!(
        h.handle(&sample(61_999_999), 5400),
        LogAction::Advance { position: 61, message: "2.5x".to_string() }
    );
    assert_eq!(h.handle(&FFMpegEvent::DONE(context()), 5400), LogAction::Finish);
    assert_eq!(h.handle(&FFMpegEvent::ERROR(context()), 5400), LogAction::Finish);
}

#[test]
fn bar_without_prefix_for_a_nameless_input() {
    let mut c = context();
    c.input_path = "/".to_string();
    assert_eq!(
        LogEventHandler::new().handle(&FFMpegEvent::START(c), 0),
        LogAction::Begin { prefix: None, length: 0 }
    );
}
