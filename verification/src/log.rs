//! Console progress: what a progress bar shows for each event of a job.
//! Drawing the bar is the caller's business.

use crate::discord::MICROS_PER_SECOND;
use crate::event::{EventView, FFMpegEvent};
use crate::ffprobe::opt_text;
use crate::paths::{file_name, path_file_name};
use vstd::prelude::*;
use vstd::string::*;

verus! {

/// The observer that drives a progress bar.
#[derive(Debug, PartialEq, Eq)]
pub struct LogEventHandler;

/// What to do to the bar.
#[derive(Debug, PartialEq, Eq)]
pub enum LogAction {
    /// A job begins: show `prefix`, if there is one, set the length of the
    /// bar, and restart the clock.
    Begin { prefix: Option<String>, length: u64 },
    /// Move the bar to `position` and show `message`.
    Advance { position: u64, message: String },
    /// The job is over: finish the bar and stop listening.
    Finish,
}

/// What a `LogAction` stands for.
pub enum LogActionView {
    Begin { prefix: Option<Seq<char>>, length: u64 },
    Advance { position: u64, message: Seq<char> },
    Finish,
}

impl View for LogAction {
    type V = LogActionView;

    open spec fn view(&self) -> LogActionView {
        match self {
            LogAction::Begin { prefix, length } => LogActionView::Begin {
                prefix: opt_text(*prefix),
                length: *length,
            },
            LogAction::Advance { position, message } => LogActionView::Advance {
                position: *position,
                message: message@,
            },
            LogAction::Finish => LogActionView::Finish,
        }
    }
}

/// What the bar does for `event`. A job that starts names the bar after the
/// file name of its input and gives it the length `length`, the duration of
/// the input in whole seconds. A progress sample moves the bar to the output
/// time in whole seconds and shows the speed. An event that ends the job
/// finishes the bar.
pub open spec fn log_action(event: EventView, length: u64) -> LogActionView {
    match event {
        EventView::Started(context) => LogActionView::Begin {
            prefix: path_file_name(context.input_path),
            length,
        },
        EventView::Progress(_, sample) => LogActionView::Advance {
            position: sample.out_time_us / MICROS_PER_SECOND,
            message: sample.speed,
        },
        EventView::Succeeded(_) => LogActionView::Finish,
        EventView::Failed(_) => LogActionView::Finish,
    }
}

impl LogEventHandler {
    /// An observer.
    pub fn new() -> (r: Self) {
        LogEventHandler
    }

    /// What to do to the bar for `event`; `length` is the duration of the
    /// input in whole seconds.
    pub fn handle(&self, event: &FFMpegEvent, length: u64) -> (r: LogAction)
        ensures
            r@ == log_action(event@, length),
    {
        match event {
            FFMpegEvent::START(context) => LogAction::Begin {
                prefix: file_name(context.input_path.as_str()),
                length,
            },
            FFMpegEvent::PROGRESS(_, sample) => LogAction::Advance {
                position: sample.out_time_us / MICROS_PER_SECOND,
                message: sample.speed.clone(),
            },
            FFMpegEvent::DONE(_) => LogAction::Finish,
            FFMpegEvent::ERROR(_) => LogAction::Finish,
        }
    }
}

} // verus!
