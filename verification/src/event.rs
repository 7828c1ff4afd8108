//! What a job tells its observers: its context, progress samples, and the
//! events that carry them.

use crate::ffprobe::{FFProbeResult, ProbeView};
use vstd::prelude::*;
use vstd::string::*;

verus! {

/// What stays the same for the whole of one job.
#[derive(Debug, PartialEq, Eq)]
pub struct FFMpegContext {
    /// The probe metadata of the input.
    pub probe: FFProbeResult,
    /// The invocation on one line, for diagnostics.
    pub command: String,
    pub input_path: String,
    /// The final output path, not the temporary one.
    pub output_path: String,
}

/// One progress sample.
#[derive(Debug, PartialEq, Eq)]
pub struct FFMpegProgress {
    /// Processing speed as the tool prints it, such as `1.02x`.
    pub speed: String,
    /// How much output has been written, in microseconds of media time.
    pub out_time_us: u64,
}

/// An event in the life of a job.
#[derive(Debug, PartialEq, Eq)]
pub enum FFMpegEvent {
    /// The job has started.
    START(FFMpegContext),
    /// A progress sample is complete.
    PROGRESS(FFMpegContext, FFMpegProgress),
    /// The job has succeeded and its output is in place.
    DONE(FFMpegContext),
    /// The job has failed.
    ERROR(FFMpegContext),
}

/// What a `FFMpegContext` stands for.
pub struct ContextView {
    pub probe: ProbeView,
    pub command: Seq<char>,
    pub input_path: Seq<char>,
    pub output_path: Seq<char>,
}

/// What a `FFMpegProgress` stands for.
pub struct ProgressView {
    pub speed: Seq<char>,
    pub out_time_us: u64,
}

/// What a `FFMpegEvent` stands for.
pub enum EventView {
    Started(ContextView),
    Progress(ContextView, ProgressView),
    Succeeded(ContextView),
    Failed(ContextView),
}

impl EventView {
    /// The context that the event carries.
    pub open spec fn context(self) -> ContextView {
        match self {
            EventView::Started(c) => c,
            EventView::Progress(c, _) => c,
            EventView::Succeeded(c) => c,
            EventView::Failed(c) => c,
        }
    }

    /// Whether the event ends a job.
    pub open spec fn is_terminal(self) -> bool {
        self is Succeeded || self is Failed
    }

    /// Whether the event marks a step in the life of a job, as opposed to a
    /// progress sample. Observers may miss samples, never these.
    pub open spec fn is_lifecycle(self) -> bool {
        !(self is Progress)
    }
}

impl View for FFMpegContext {
    type V = ContextView;

    open spec fn view(&self) -> ContextView {
        ContextView {
            probe: self.probe@,
            command: self.command@,
            input_path: self.input_path@,
            output_path: self.output_path@,
        }
    }
}

impl View for FFMpegProgress {
    type V = ProgressView;

    open spec fn view(&self) -> ProgressView {
        ProgressView { speed: self.speed@, out_time_us: self.out_time_us }
    }
}

impl View for FFMpegEvent {
    type V = EventView;

    open spec fn view(&self) -> EventView {
        match self {
            FFMpegEvent::START(c) => EventView::Started(c@),
            FFMpegEvent::PROGRESS(c, p) => EventView::Progress(c@, p@),
            FFMpegEvent::DONE(c) => EventView::Succeeded(c@),
            FFMpegEvent::ERROR(c) => EventView::Failed(c@),
        }
    }
}

impl Clone for FFMpegContext {
    fn clone(&self) -> (r: Self)
        ensures
            r@ == self@,
    {
        FFMpegContext {
            probe: self.probe.clone(),
            command: self.command.clone(),
            input_path: self.input_path.clone(),
            output_path: self.output_path.clone(),
        }
    }
}

impl Clone for FFMpegProgress {
    fn clone(&self) -> (r: Self)
        ensures
            r@ == self@,
    {
        FFMpegProgress { speed: self.speed.clone(), out_time_us: self.out_time_us }
    }
}

impl Clone for FFMpegEvent {
    fn clone(&self) -> (r: Self)
        ensures
            r@ == self@,
    {
        match self {
            FFMpegEvent::START(c) => FFMpegEvent::START(c.clone()),
            FFMpegEvent::PROGRESS(c, p) => FFMpegEvent::PROGRESS(c.clone(), p.clone()),
            FFMpegEvent::DONE(c) => FFMpegEvent::DONE(c.clone()),
            FFMpegEvent::ERROR(c) => FFMpegEvent::ERROR(c.clone()),
        }
    }
}

impl FFMpegEvent {
    /// Whether the event ends a job.
    pub fn is_terminal(&self) -> (r: bool)
        ensures
            r == self@.is_terminal(),
    {
        match self {
            FFMpegEvent::DONE(_) => true,
            FFMpegEvent::ERROR(_) => true,
            _ => false,
        }
    }

    /// Whether the event is a progress sample.
    pub fn is_progress(&self) -> (r: bool)
        ensures
            r == !self@.is_lifecycle(),
    {
        match self {
            FFMpegEvent::PROGRESS(_, _) => true,
            _ => false,
        }
    }

    /// The context that the event carries.
    pub fn context(&self) -> (c: &FFMpegContext)
        ensures
            c@ == self@.context(),
    {
        match self {
            FFMpegEvent::START(c) => c,
            FFMpegEvent::PROGRESS(c, _) => c,
            FFMpegEvent::DONE(c) => c,
            FFMpegEvent::ERROR(c) => c,
        }
    }
}

} // verus!
