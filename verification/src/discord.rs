//! Chat notifications: what to send for each event of a job. Sending is the
//! caller's business; this module builds the requests.

use crate::event::{EventView, FFMpegEvent};
use crate::text::{decimal, decimal_string};
use vstd::prelude::*;
use vstd::string::*;

verus! {

/// One name and value pair of an embed.
#[derive(Debug, PartialEq, Eq)]
pub struct DiscordEmbedField {
    pub name: String,
    pub value: String,
    pub inline: Option<bool>,
}

/// One embed of a message.
#[derive(Debug, PartialEq, Eq)]
pub struct DiscordEmbed {
    pub title: Option<String>,
    pub description: Option<String>,
    pub color: Option<u32>,
    pub fields: Option<Vec<DiscordEmbedField>>,
}

/// The body of a webhook request.
#[derive(Debug, PartialEq, Eq)]
pub struct DiscordWebhookData {
    pub embeds: Vec<DiscordEmbed>,
}

/// What the service answers when a message was created.
#[derive(Debug, PartialEq, Eq)]
pub struct DiscordWebhookResponse {
    pub id: String,
}

/// A webhook, known by its URL.
#[derive(Debug, PartialEq, Eq)]
pub struct DiscordWebhook {
    pub url: String,
}

/// A message that a webhook has created.
#[derive(Debug, PartialEq, Eq)]
pub struct DiscordWebhookMessage {
    pub id: String,
    pub webhook: DiscordWebhook,
}

/// The observer that keeps one message up to date with the events of a job.
#[derive(Debug, PartialEq, Eq)]
pub struct DiscordEventHandler {
    pub webhook: DiscordWebhook,
    /// The message of the job being followed, once it has been created.
    pub message: Option<DiscordWebhookMessage>,
}

/// What a `DiscordEmbedField` stands for.
pub struct FieldView {
    pub name: Seq<char>,
    pub value: Seq<char>,
    pub inline: Option<bool>,
}

/// What a `DiscordEmbed` stands for. Every embed built here has all four
/// parts, so the view holds them plainly.
pub struct EmbedView {
    pub title: Seq<char>,
    pub description: Seq<char>,
    pub color: u32,
    pub fields: Seq<FieldView>,
}

impl View for DiscordEmbedField {
    type V = FieldView;

    open spec fn view(&self) -> FieldView {
        FieldView { name: self.name@, value: self.value@, inline: self.inline }
    }
}

/// The views of `fields`, in order.
pub open spec fn field_views(fields: Seq<DiscordEmbedField>) -> Seq<FieldView> {
    Seq::new(fields.len(), |i: int| fields[i]@)
}

impl DiscordEmbed {
    /// Whether the embed has a title, a description, a colour and fields.
    pub open spec fn is_full(&self) -> bool {
        self.title is Some && self.description is Some && self.color is Some && self.fields is Some
    }
}

impl View for DiscordEmbed {
    type V = EmbedView;

    open spec fn view(&self) -> EmbedView {
        EmbedView {
            title: self.title->0@,
            description: self.description->0@,
            color: self.color->0,
            fields: field_views(self.fields->0@),
        }
    }
}

/// The colour shown while a job waits for its process.
pub const COLOR_STARTED: u32 = 0xa855f7;

/// The colour shown while a job runs.
pub const COLOR_PROGRESS: u32 = 0xf97316;

/// The colour shown when a job has succeeded.
pub const COLOR_SUCCEEDED: u32 = 0x22c55e;

/// The colour shown when a job has failed.
pub const COLOR_FAILED: u32 = 0xef4444;

/// The number of microseconds in a second.
pub const MICROS_PER_SECOND: u64 = 1_000_000;

/// A field that is not shown inline.
pub open spec fn block_field(name: Seq<char>, value: Seq<char>) -> FieldView {
    FieldView { name, value, inline: Some(false) }
}

/// The fields that only a progress sample has: the duration of the input
/// as the caller renders it, shown inline; the output time in whole seconds;
/// and the speed.
pub open spec fn sample_fields(event: EventView, duration: Seq<char>) -> Seq<FieldView> {
    match event {
        EventView::Progress(_, sample) => seq![
            FieldView { name: "Duration"@, value: duration, inline: Some(true) },
            block_field(
                "Timestamp"@,
                decimal((sample.out_time_us / MICROS_PER_SECOND) as nat) + "s"@,
            ),
            block_field("Speed"@, sample.speed),
        ],
        _ => Seq::empty(),
    }
}

/// The text under the title.
pub open spec fn payload_description(event: EventView) -> Seq<char> {
    match event {
        EventView::Started(_) => "Waiting for ffmpeg to start..."@,
        EventView::Progress(_, _) => "Transcoding file..."@,
        EventView::Succeeded(_) => "Transcoded file successfully"@,
        EventView::Failed(_) => "An unexpected error happened"@,
    }
}

/// The colour of the embed.
pub open spec fn payload_color(event: EventView) -> u32 {
    match event {
        EventView::Started(_) => COLOR_STARTED,
        EventView::Progress(_, _) => COLOR_PROGRESS,
        EventView::Succeeded(_) => COLOR_SUCCEEDED,
        EventView::Failed(_) => COLOR_FAILED,
    }
}

/// The invocation, set as a block of shell code.
pub open spec fn command_block(command: Seq<char>) -> Seq<char> {
    "```shell\n"@ + command + "\n```"@
}

/// The embed that reports `event`: the input and the output path, then the
/// fields of a progress sample if it is one, then the invocation.
pub open spec fn payload(event: EventView, duration: Seq<char>) -> EmbedView {
    let context = event.context();
    EmbedView {
        title: "Transcoding file"@,
        description: payload_description(event),
        color: payload_color(event),
        fields: seq![
            block_field("Input"@, context.input_path),
            block_field("Output"@, context.output_path),
        ] + sample_fields(event, duration) + seq![
            block_field("Command"@, command_block(context.command)),
        ],
    }
}

fn push_field(fields: &mut Vec<DiscordEmbedField>, name: &str, value: String, inline: bool)
    ensures
        field_views(final(fields)@) == field_views(old(fields)@).push(
            FieldView { name: name@, value: value@, inline: Some(inline) },
        ),
{
    let ghost before = field_views(fields@);
    let ghost added = FieldView { name: name@, value: value@, inline: Some(inline) };
    fields.push(DiscordEmbedField { name: String::from_str(name), value, inline: Some(inline) });
    assert(field_views(fields@) =~= before.push(added));
}

impl DiscordWebhook {
    /// The webhook at `url`.
    pub fn new(url: &String) -> (r: DiscordWebhook)
        ensures
            r.url@ == url@,
    {
        DiscordWebhook { url: url.clone() }
    }

    /// The URL of a request to this webhook: its own, followed by `path`.
    pub fn endpoint(&self, path: &str) -> (r: String)
        ensures
            r@ == self.url@ + path@,
    {
        let mut r = self.url.clone();
        r.append(path);
        r
    }

    /// The URL that creates a message and waits for its number.
    pub fn execute_url(&self) -> (r: String)
        ensures
            r@ == self.url@ + "?wait=true"@,
    {
        self.endpoint("?wait=true")
    }

    /// The message that the service reports to have created.
    pub fn message(&self, response: DiscordWebhookResponse) -> (r: DiscordWebhookMessage)
        ensures
            r.id@ == response.id@,
            r.webhook.url@ == self.url@,
    {
        DiscordWebhookMessage { id: response.id, webhook: DiscordWebhook { url: self.url.clone() } }
    }
}

impl DiscordWebhookMessage {
    /// The URL that edits this message.
    pub fn update_url(&self) -> (r: String)
        ensures
            r@ == message_url(self.webhook.url@, self.id@),
    {
        let mut path = String::from_str("/messages/");
        path.append(self.id.as_str());
        let r = self.webhook.endpoint(path.as_str());
        assert(r@ =~= self.webhook.url@ + "/messages/"@ + self.id@);
        r
    }
}

/// What the observer asks the caller to send.
#[derive(Debug, PartialEq, Eq)]
pub enum DiscordRequest {
    /// Create a message: post `data` to `url`, and hand the answer to
    /// `DiscordEventHandler::record`.
    Execute { url: String, data: DiscordWebhookData },
    /// Edit the message: patch `url` with `data`.
    Update { url: String, data: DiscordWebhookData },
    /// Nothing.
    Nothing,
}

/// What a `DiscordRequest` stands for.
pub enum DiscordRequestView {
    Execute { url: Seq<char>, embed: EmbedView },
    Update { url: Seq<char>, embed: EmbedView },
    Nothing,
}

impl DiscordRequest {
    /// Whether the request, if it is one, carries exactly one full embed.
    pub open spec fn wf(&self) -> bool {
        match self {
            DiscordRequest::Execute { url, data } => data.embeds.len() == 1
                && data.embeds[0].is_full(),
            DiscordRequest::Update { url, data } => data.embeds.len() == 1
                && data.embeds[0].is_full(),
            DiscordRequest::Nothing => true,
        }
    }
}

impl View for DiscordRequest {
    type V = DiscordRequestView;

    open spec fn view(&self) -> DiscordRequestView {
        match self {
            DiscordRequest::Execute { url, data } => DiscordRequestView::Execute {
                url: url@,
                embed: data.embeds[0]@,
            },
            DiscordRequest::Update { url, data } => DiscordRequestView::Update {
                url: url@,
                embed: data.embeds[0]@,
            },
            DiscordRequest::Nothing => DiscordRequestView::Nothing,
        }
    }
}

/// The URL that edits the message numbered `id` of the webhook at `url`.
pub open spec fn message_url(url: Seq<char>, id: Seq<char>) -> Seq<char> {
    url + "/messages/"@ + id
}

/// The request that `event` calls for: `Started` creates the message of the
/// job through the webhook at `url`; any later event edits that message,
/// at `message`, if it was created, and calls for nothing if it was not.
pub open spec fn request_for(
    url: Seq<char>,
    message: Option<Seq<char>>,
    event: EventView,
    duration: Seq<char>,
) -> DiscordRequestView {
    if event is Started {
        DiscordRequestView::Execute { url: url + "?wait=true"@, embed: payload(event, duration) }
    } else {
        match message {
            Some(edit_url) => DiscordRequestView::Update {
                url: edit_url,
                embed: payload(event, duration),
            },
            None => DiscordRequestView::Nothing,
        }
    }
}

impl DiscordEventHandler {
    /// An observer that reports through `webhook` and has no message yet.
    pub fn new(webhook: DiscordWebhook) -> (r: Self)
        ensures
            r.webhook == webhook,
            r.message is None,
    {
        DiscordEventHandler { webhook, message: None }
    }

    /// The number of the message being kept up to date, if there is one.
    pub open spec fn message_id(&self) -> Option<Seq<char>> {
        match self.message {
            Some(m) => Some(m.id@),
            None => None,
        }
    }

    /// The URL that edits the message being kept up to date, if there is
    /// one.
    pub open spec fn edit_url(&self) -> Option<Seq<char>> {
        match self.message {
            Some(m) => Some(message_url(m.webhook.url@, m.id@)),
            None => None,
        }
    }

    /// The embed that reports `event`. `duration` is the duration of the
    /// input as it is to be shown, which only a progress sample shows.
    pub fn get_payload(event: &FFMpegEvent, duration: &str) -> (r: Option<DiscordEmbed>)
        ensures
            r matches Some(embed) && embed.is_full() && embed@ == payload(event@, duration@),
    {
        let context = event.context();
        let (description, color): (&str, u32) = match event {
            FFMpegEvent::START(_) => ("Waiting for ffmpeg to start...", COLOR_STARTED),
            FFMpegEvent::PROGRESS(_, _) => ("Transcoding file...", COLOR_PROGRESS),
            FFMpegEvent::DONE(_) => ("Transcoded file successfully", COLOR_SUCCEEDED),
            FFMpegEvent::ERROR(_) => ("An unexpected error happened", COLOR_FAILED),
        };
        let mut fields: Vec<DiscordEmbedField> = Vec::new();
        assert(field_views(fields@) =~= Seq::<FieldView>::empty());
        push_field(&mut fields, "Input", context.input_path.clone(), false);
        push_field(&mut fields, "Output", context.output_path.clone(), false);
        match event {
            FFMpegEvent::PROGRESS(_, sample) => {
                let mut timestamp = decimal_string(sample.out_time_us / MICROS_PER_SECOND);
                timestamp.append("s");
                push_field(&mut fields, "Duration", String::from_str(duration), true);
                push_field(&mut fields, "Timestamp", timestamp, false);
                push_field(&mut fields, "Speed", sample.speed.clone(), false);
            },
            _ => {},
        }
        let mut command = String::from_str("```shell\n");
        command.append(context.command.as_str());
        command.append("\n```");
        assert(command@ =~= command_block(event@.context().command));
        push_field(&mut fields, "Command", command, false);
        assert(field_views(fields@) =~= payload(event@, duration@).fields);
        Some(
            DiscordEmbed {
                title: Some(String::from_str("Transcoding file")),
                description: Some(String::from_str(description)),
                color: Some(color),
                fields: Some(fields),
            },
        )
    }

    /// What to send for `event`.
    pub fn handle(&self, event: &FFMpegEvent, duration: &str) -> (r: DiscordRequest)
        ensures
            r.wf(),
            r@ == request_for(self.webhook.url@, self.edit_url(), event@, duration@),
    {
        let starting = match event {
            FFMpegEvent::START(_) => true,
            _ => false,
        };
        if !starting && self.message.is_none() {
            return DiscordRequest::Nothing;
        }
        let embed = match DiscordEventHandler::get_payload(event, duration) {
            Some(embed) => embed,
            None => {
                return DiscordRequest::Nothing;
            },
        };
        let mut embeds: Vec<DiscordEmbed> = Vec::new();
        embeds.push(embed);
        let data = DiscordWebhookData { embeds };
        if starting {
            DiscordRequest::Execute { url: self.webhook.execute_url(), data }
        } else {
            match &self.message {
                Some(message) => DiscordRequest::Update { url: message.update_url(), data },
                None => DiscordRequest::Nothing,
            }
        }
    }

    /// Takes note of the message that was created for the job.
    pub fn record(&mut self, response: DiscordWebhookResponse)
        ensures
            final(self).webhook == old(self).webhook,
            final(self).message_id() == Some(response.id@),
            final(self).edit_url() == Some(message_url(old(self).webhook.url@, response.id@)),
    {
        self.message = Some(self.webhook.message(response));
    }
}

} // verus!
