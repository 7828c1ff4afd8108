//! The supervision of one job, as a state machine.
//!
//! The caller does the outside work: it starts the process, reads its
//! output, waits for its exit and carries out file operations. After each
//! piece of work it reports what happened, and is told what to do next. The
//! machine decides, keeps the progress sample, and publishes the events.

use crate::bus::{lifecycle_events, samples_nondecreasing, EventBus};
use crate::command::{command_line, describe_exit, exit_message, Invocation, InvocationView};
use crate::config::FFMpegConfig;
use crate::event::{ContextView, EventView, FFMpegContext, FFMpegEvent, FFMpegProgress, ProgressView};
use crate::ffmpeg::{command_args, tmp_output_path, FFMpeg};
use crate::ffprobe::{FFProbeResult, ProbeView};
use crate::finalize::{
    file_op_views, lemma_no_sidecar_no_relocation, no_sidecars, placement_ops, plan_placement,
    plan_sidecar_layout, plan_sidecars, relocation_ops, sidecar_layout, FileOp, FileOpView,
};
use crate::paths::path_eq;
use crate::progress::{absorbed, parse_progress_line, read_line};
use vstd::prelude::*;
use vstd::string::*;

verus! {

/// Where a job stands.
#[derive(Clone, Copy, Debug, PartialEq, Eq, Structural)]
pub enum JobPhase {
    /// The process is being started.
    Spawning,
    /// The process runs and its output is being read.
    Reading,
    /// The output has ended and the exit of the process is awaited.
    Waiting,
    /// The encode has succeeded and the output is being put in place.
    Placing,
    /// The input's directory is being listed for sidecar files.
    Listing,
    /// The sidecar files are being moved or copied.
    Relocating,
    /// The job is over and its output is in place.
    Succeeded,
    /// The job is over and has failed.
    Failed,
}

/// Whether a job in `phase` is over.
pub open spec fn is_over(phase: JobPhase) -> bool {
    phase == JobPhase::Succeeded || phase == JobPhase::Failed
}

/// Why a job failed.
#[derive(Debug, PartialEq, Eq)]
pub enum TranscodeError {
    /// The output path has no file name, so there is nowhere to write. No
    /// job was started.
    OutputPath,
    /// The process could not be started.
    Spawn(String),
    /// The process ran and exited with this code, which is not zero; no code
    /// at all when a signal ended it.
    Exit(Option<i32>),
    /// The exit of the process could not be awaited.
    Wait(String),
    /// The encode succeeded, but putting the output in place, removing the
    /// input or relocating a sidecar failed.
    Finalize(String),
}

/// What a `TranscodeError` stands for.
pub enum TranscodeErrorView {
    OutputPath,
    Spawn(Seq<char>),
    Exit(Option<i32>),
    Wait(Seq<char>),
    Finalize(Seq<char>),
}

impl View for TranscodeError {
    type V = TranscodeErrorView;

    open spec fn view(&self) -> TranscodeErrorView {
        match self {
            TranscodeError::OutputPath => TranscodeErrorView::OutputPath,
            TranscodeError::Spawn(why) => TranscodeErrorView::Spawn(why@),
            TranscodeError::Exit(code) => TranscodeErrorView::Exit(*code),
            TranscodeError::Wait(why) => TranscodeErrorView::Wait(why@),
            TranscodeError::Finalize(why) => TranscodeErrorView::Finalize(why@),
        }
    }
}

/// What an error says of itself.
pub open spec fn error_message(why: TranscodeErrorView) -> Seq<char> {
    match why {
        TranscodeErrorView::OutputPath => "the output path has no file name"@,
        TranscodeErrorView::Spawn(text) => text,
        TranscodeErrorView::Exit(code) => exit_message("ffmpeg"@, code),
        TranscodeErrorView::Wait(text) => text,
        TranscodeErrorView::Finalize(text) => text,
    }
}

impl TranscodeError {
    /// The text of the error, for the log.
    pub fn message(&self) -> (r: String)
        ensures
            r@ == error_message(self@),
    {
        match self {
            TranscodeError::OutputPath => String::from_str("the output path has no file name"),
            TranscodeError::Spawn(text) => text.clone(),
            TranscodeError::Exit(code) => describe_exit("ffmpeg", *code),
            TranscodeError::Wait(text) => text.clone(),
            TranscodeError::Finalize(text) => text.clone(),
        }
    }

    /// Whether the encode itself failed, as opposed to what comes before
    /// and after it.
    pub fn is_execution_failure(&self) -> (r: bool)
        ensures
            r == (self@ is Exit || self@ is Wait),
    {
        match self {
            TranscodeError::Exit(_) => true,
            TranscodeError::Wait(_) => true,
            _ => false,
        }
    }

    /// Whether the encode succeeded and the failure came after it.
    pub fn is_finalize_failure(&self) -> (r: bool)
        ensures
            r == (self@ is Finalize),
    {
        match self {
            TranscodeError::Finalize(_) => true,
            _ => false,
        }
    }
}

/// What the caller reports to the machine.
#[derive(Debug, PartialEq, Eq)]
pub enum JobInput {
    /// The process has started.
    Spawned,
    /// The process could not be started.
    SpawnFailed(String),
    /// One line of the process's standard output, without its line ending.
    Line(String),
    /// The standard output has ended, or can no longer be read.
    OutputClosed,
    /// The process has exited, with this code if it has one.
    Exited(Option<i32>),
    /// Waiting for the exit failed.
    WaitFailed(String),
    /// The file operations last asked for have all been carried out.
    Applied,
    /// The paths of the entries of the directory last asked for.
    Listed(Vec<String>),
    /// A file operation, or listing a directory, failed.
    IoFailed(String),
}

/// What a `JobInput` stands for.
pub enum JobInputView {
    Spawned,
    SpawnFailed(Seq<char>),
    Line(Seq<char>),
    OutputClosed,
    Exited(Option<i32>),
    WaitFailed(Seq<char>),
    Applied,
    Listed(Seq<Seq<char>>),
    IoFailed(Seq<char>),
}

impl View for JobInput {
    type V = JobInputView;

    open spec fn view(&self) -> JobInputView {
        match self {
            JobInput::Spawned => JobInputView::Spawned,
            JobInput::SpawnFailed(why) => JobInputView::SpawnFailed(why@),
            JobInput::Line(text) => JobInputView::Line(text@),
            JobInput::OutputClosed => JobInputView::OutputClosed,
            JobInput::Exited(code) => JobInputView::Exited(*code),
            JobInput::WaitFailed(why) => JobInputView::WaitFailed(why@),
            JobInput::Applied => JobInputView::Applied,
            JobInput::Listed(entries) => JobInputView::Listed(entries.deep_view()),
            JobInput::IoFailed(why) => JobInputView::IoFailed(why@),
        }
    }
}

/// What the machine tells the caller to do next.
#[derive(Debug, PartialEq, Eq)]
pub enum JobAction {
    /// Read the next line of output and report it, or report that the output
    /// has ended.
    Read,
    /// Wait for the process to exit and report how it did.
    Wait,
    /// Carry out these file operations in order, stopping at the first that
    /// fails, and report the outcome.
    Apply(Vec<FileOp>),
    /// List the entries of this directory and report their paths.
    List(String),
    /// Nothing more: the job has succeeded.
    Succeed,
    /// Nothing more: the job has failed, for this reason.
    Fail(TranscodeError),
    /// The report did not fit the state of the job and was ignored. What was
    /// asked for before still stands.
    Ignore,
}

/// What a `JobAction` stands for.
pub enum JobActionView {
    Read,
    Wait,
    Apply(Seq<FileOpView>),
    List(Seq<char>),
    Succeed,
    Fail(TranscodeErrorView),
    Ignore,
}

impl View for JobAction {
    type V = JobActionView;

    open spec fn view(&self) -> JobActionView {
        match self {
            JobAction::Read => JobActionView::Read,
            JobAction::Wait => JobActionView::Wait,
            JobAction::Apply(ops) => JobActionView::Apply(file_op_views(ops@)),
            JobAction::List(dir) => JobActionView::List(dir@),
            JobAction::Succeed => JobActionView::Succeed,
            JobAction::Fail(why) => JobActionView::Fail(why@),
            JobAction::Ignore => JobActionView::Ignore,
        }
    }
}

/// One job under supervision.
pub struct Job {
    context: FFMpegContext,
    invocation: Invocation,
    tmp_output_path: String,
    keep_input_file: bool,
    sample: FFMpegProgress,
    phase: JobPhase,
    emitted: Ghost<Seq<EventView>>,
}

/// What a `Job` stands for.
pub struct JobView {
    /// What every event of the job carries.
    pub context: ContextView,
    /// The invocation that the caller is to start.
    pub invocation: InvocationView,
    /// Where the process writes its output.
    pub tmp_output_path: Seq<char>,
    /// Whether the input and its sidecars stay in place.
    pub keep_input_file: bool,
    /// The progress sample being built.
    pub sample: ProgressView,
    pub phase: JobPhase,
    /// Every event that the job has published, oldest first.
    pub emitted: Seq<EventView>,
}

impl View for Job {
    type V = JobView;

    closed spec fn view(&self) -> JobView {
        JobView {
            context: self.context@,
            invocation: self.invocation@,
            tmp_output_path: self.tmp_output_path@,
            keep_input_file: self.keep_input_file,
            sample: self.sample@,
            phase: self.phase,
            emitted: self.emitted@,
        }
    }
}

/// The result of one step of the machine.
pub struct Outcome {
    /// The job after the step.
    pub job: JobView,
    /// The events that the step publishes, oldest first.
    pub events: Seq<EventView>,
    /// What the caller is told.
    pub action: JobActionView,
}

/// A step that moves the job to `phase` without publishing anything.
pub open spec fn proceed(job: JobView, phase: JobPhase, action: JobActionView) -> Outcome {
    Outcome { job: JobView { phase, ..job }, events: Seq::empty(), action }
}

/// The step that ends the job in success.
pub open spec fn succeed(job: JobView) -> Outcome {
    let event = EventView::Succeeded(job.context);
    Outcome {
        job: JobView { phase: JobPhase::Succeeded, emitted: job.emitted.push(event), ..job },
        events: seq![event],
        action: JobActionView::Succeed,
    }
}

/// The step that ends the job in failure.
pub open spec fn fail(job: JobView, why: TranscodeErrorView) -> Outcome {
    let event = EventView::Failed(job.context);
    Outcome {
        job: JobView { phase: JobPhase::Failed, emitted: job.emitted.push(event), ..job },
        events: seq![event],
        action: JobActionView::Fail(why),
    }
}

/// The step for one line of output: the line goes into the sample, and a
/// marker line publishes the sample as it then is.
pub open spec fn take_line(job: JobView, text: Seq<char>) -> Outcome {
    let line = read_line(text);
    let sample = absorbed(job.sample, line);
    if line is Boundary {
        let event = EventView::Progress(job.context, sample);
        Outcome {
            job: JobView { sample, emitted: job.emitted.push(event), ..job },
            events: seq![event],
            action: JobActionView::Read,
        }
    } else {
        Outcome { job: JobView { sample, ..job }, events: Seq::empty(), action: JobActionView::Read }
    }
}

/// The machine: what `input` does to `job`.
///
/// Once started, the output is read to its end, whatever it holds. Then the
/// exit is awaited. Exit code zero leads on to placing the output, listing
/// the input's directory when both paths have a directory and a stem, and
/// relocating the sidecars; after the last of these the job succeeds. A
/// failure to start, any other exit, a failed wait and a failed file
/// operation each end the job in failure. A report that does not fit the
/// phase changes nothing; in particular nothing changes a job that is over.
pub open spec fn step(job: JobView, input: JobInputView) -> Outcome {
    match (job.phase, input) {
        (JobPhase::Spawning, JobInputView::Spawned) => proceed(
            job,
            JobPhase::Reading,
            JobActionView::Read,
        ),
        (JobPhase::Spawning, JobInputView::SpawnFailed(why)) => fail(
            job,
            TranscodeErrorView::Spawn(why),
        ),
        (JobPhase::Reading, JobInputView::Line(text)) => take_line(job, text),
        (JobPhase::Reading, JobInputView::OutputClosed) => proceed(
            job,
            JobPhase::Waiting,
            JobActionView::Wait,
        ),
        (JobPhase::Waiting, JobInputView::Exited(code)) => if code == Some(0i32) {
            proceed(
                job,
                JobPhase::Placing,
                JobActionView::Apply(
                    placement_ops(
                        job.tmp_output_path,
                        job.context.output_path,
                        job.context.input_path,
                        job.keep_input_file,
                    ),
                ),
            )
        } else {
            fail(job, TranscodeErrorView::Exit(code))
        },
        (JobPhase::Waiting, JobInputView::WaitFailed(why)) => fail(
            job,
            TranscodeErrorView::Wait(why),
        ),
        (JobPhase::Placing, JobInputView::Applied) => match sidecar_layout(
            job.context.input_path,
            job.context.output_path,
        ) {
            Some(layout) => proceed(
                job,
                JobPhase::Listing,
                JobActionView::List(layout.input_dir),
            ),
            None => succeed(job),
        },
        (JobPhase::Listing, JobInputView::Listed(entries)) => proceed(
            job,
            JobPhase::Relocating,
            JobActionView::Apply(
                relocation_ops(
                    job.context.input_path,
                    job.context.output_path,
                    job.keep_input_file,
                    entries,
                ),
            ),
        ),
        (JobPhase::Relocating, JobInputView::Applied) => succeed(job),
        (JobPhase::Placing, JobInputView::IoFailed(why)) => fail(
            job,
            TranscodeErrorView::Finalize(why),
        ),
        (JobPhase::Listing, JobInputView::IoFailed(why)) => fail(
            job,
            TranscodeErrorView::Finalize(why),
        ),
        (JobPhase::Relocating, JobInputView::IoFailed(why)) => fail(
            job,
            TranscodeErrorView::Finalize(why),
        ),
        _ => Outcome { job, events: Seq::empty(), action: JobActionView::Ignore },
    }
}

/// The context of a job for the file that `probe` describes, written to
/// `tmp` and bound for `output`.
pub open spec fn job_context(
    probe: ProbeView,
    config: FFMpegConfig,
    output: Seq<char>,
    tmp: Seq<char>,
) -> ContextView {
    ContextView {
        probe,
        command: command_line(job_invocation(probe, config, tmp)),
        input_path: probe.format.filename,
        output_path: output,
    }
}

/// The invocation of such a job: the transcoder, writing to `tmp`.
pub open spec fn job_invocation(probe: ProbeView, config: FFMpegConfig, tmp: Seq<char>) -> InvocationView {
    InvocationView { program: "ffmpeg"@, args: command_args(probe, config, tmp) }
}

/// A job that has just been started: its `Started` event is out, its sample
/// is the initial one, and the process is yet to be spawned.
pub open spec fn started_job(
    probe: ProbeView,
    config: FFMpegConfig,
    output: Seq<char>,
    tmp: Seq<char>,
) -> JobView {
    let context = job_context(probe, config, output, tmp);
    JobView {
        context,
        invocation: job_invocation(probe, config, tmp),
        tmp_output_path: tmp,
        keep_input_file: config.keep_input_file,
        sample: ProgressView { speed: "0x"@, out_time_us: 0 },
        phase: JobPhase::Spawning,
        emitted: seq![EventView::Started(context)],
    }
}

/// What holds of the events of a job at every moment: the first is its
/// `Started` and no other is; all carry its context; none but the last ends
/// the job, and the last does so exactly when the job is over, in the way in
/// which it is over; and no progress sample lies before an earlier one or
/// beyond the sample being built.
pub open spec fn trace_ok(job: JobView) -> bool {
    let trace = job.emitted;
    &&& trace.len() >= 1
    &&& trace[0] == EventView::Started(job.context)
    &&& forall|i: int| 1 <= i < trace.len() ==> !((#[trigger] trace[i]) is Started)
    &&& forall|i: int| 0 <= i < trace.len() ==> (#[trigger] trace[i]).context() == job.context
    &&& forall|i: int| 0 <= i < trace.len() - 1 ==> !(#[trigger] trace[i]).is_terminal()
    &&& (job.phase == JobPhase::Succeeded <==> trace.last() is Succeeded)
    &&& (job.phase == JobPhase::Failed <==> trace.last() is Failed)
    &&& forall|i: int|
        0 <= i < trace.len() && (#[trigger] trace[i]) is Progress
            ==> trace[i]->Progress_1.out_time_us <= job.sample.out_time_us
    &&& samples_nondecreasing(trace)
}

/// A job that has just been started satisfies `trace_ok`.
pub proof fn lemma_started_job_ok(
    probe: ProbeView,
    config: FFMpegConfig,
    output: Seq<char>,
    tmp: Seq<char>,
)
    ensures
        trace_ok(started_job(probe, config, output, tmp)),
{
}

/// Every step keeps `trace_ok`, publishes at most one event, and adds what
/// it publishes to the events of the job and nothing else.
pub proof fn lemma_step_keeps_trace(job: JobView, input: JobInputView)
    requires
        trace_ok(job),
    ensures
        trace_ok(step(job, input).job),
        step(job, input).events.len() <= 1,
        step(job, input).job.emitted == job.emitted + step(job, input).events,
        step(job, input).job.context == job.context,
        step(job, input).job.sample.out_time_us >= job.sample.out_time_us,
{
    let next = step(job, input);
    let trace = job.emitted;
    let after = next.job.emitted;
    if next.events.len() == 0 {
        assert(after =~= trace);
        assert(after =~= trace + next.events);
        assert(!is_over(job.phase) ==> !is_over(next.job.phase));
    } else {
        let event = next.events[0];
        assert(next.events =~= seq![event]);
        assert(after =~= trace.push(event));
        assert(after =~= trace + next.events);
        assert(!is_over(job.phase));
        assert(!trace.last().is_terminal());
        assert forall|i: int| 0 <= i < after.len() - 1 implies !(#[trigger] after[i]).is_terminal() by {
            assert(after[i] == trace[i]);
        }
        assert forall|i: int| 1 <= i < after.len() implies !((#[trigger] after[i]) is Started) by {
            if i < trace.len() {
                assert(after[i] == trace[i]);
            }
        }
        assert forall|i: int| 0 <= i < after.len() implies (#[trigger] after[i]).context()
            == job.context by {
            if i < trace.len() {
                assert(after[i] == trace[i]);
            }
        }
        assert forall|i: int| 0 <= i < after.len() && (#[trigger] after[i]) is Progress implies after[i]->Progress_1.out_time_us
            <= next.job.sample.out_time_us by {
            if i < trace.len() {
                assert(after[i] == trace[i]);
            }
        }
        assert forall|i: int, j: int|
            0 <= i < j < after.len() && (#[trigger] after[i]) is Progress && (
            #[trigger] after[j]) is Progress implies after[i]->Progress_1.out_time_us
            <= after[j]->Progress_1.out_time_us by {
            assert(after[i] == trace[i]);
            if j < trace.len() {
                assert(after[j] == trace[j]);
            }
        }
    }
}

/// Nothing changes a job that is over, and nothing more is published for it.
pub proof fn lemma_over_is_over(job: JobView, input: JobInputView)
    requires
        is_over(job.phase),
    ensures
        step(job, input).job == job,
        step(job, input).events.len() == 0,
        step(job, input).action == JobActionView::Ignore,
{
}

proof fn lemma_samples_hold_no_lifecycle(events: Seq<EventView>, k: int)
    requires
        1 <= k <= events.len(),
        events[0].is_lifecycle(),
        forall|i: int| 1 <= i < k ==> (#[trigger] events[i]) is Progress,
    ensures
        lifecycle_events(events.take(k)) == seq![events[0]],
    decreases k,
{
    reveal(Seq::filter);
    let front = events.take(k);
    if k == 1 {
        assert(front.drop_last() =~= Seq::<EventView>::empty());
        assert(front.last() == events[0]);
        assert(lifecycle_events(front) =~= seq![events[0]]);
    } else {
        lemma_samples_hold_no_lifecycle(events, k - 1);
        assert(front.drop_last() =~= events.take(k - 1));
        assert(front.last() == events[k - 1]);
    }
}

/// The lifecycle events of a job are exactly one `Started`, which comes
/// first, and, once the job is over, exactly one event that ends it, which
/// comes last: `Succeeded` or `Failed`, never both. Until then there is no
/// such event at all.
pub proof fn lemma_one_start_one_end(job: JobView)
    requires
        trace_ok(job),
    ensures
        job.emitted[0] == EventView::Started(job.context),
        is_over(job.phase) ==> {
            &&& job.emitted.len() >= 2
            &&& job.emitted.last().is_terminal()
            &&& (job.emitted.last() is Succeeded <==> job.phase == JobPhase::Succeeded)
            &&& lifecycle_events(job.emitted) == seq![
                EventView::Started(job.context),
                job.emitted.last(),
            ]
        },
        !is_over(job.phase) ==> lifecycle_events(job.emitted) == seq![
            EventView::Started(job.context),
        ],
{
    reveal(Seq::filter);
    let trace = job.emitted;
    let n = trace.len() as int;
    assert forall|i: int| 1 <= i < n - 1 implies (#[trigger] trace[i]) is Progress by {
        assert(!(trace[i] is Started));
        assert(!trace[i].is_terminal());
    }
    if is_over(job.phase) {
        assert(trace.last().is_terminal());
        assert(n >= 2);
        lemma_samples_hold_no_lifecycle(trace, n - 1);
        assert(trace.drop_last() =~= trace.take(n - 1));
        assert(lifecycle_events(trace) =~= seq![trace[0], trace.last()]);
    } else {
        if n > 1 {
            assert(!(trace[n - 1] is Started));
            assert(!trace.last().is_terminal());
        }
        lemma_samples_hold_no_lifecycle(trace, n);
        assert(trace.take(n) =~= trace);
    }
}

/// The progress samples of a job never step back in time.
pub proof fn lemma_job_samples_nondecreasing(job: JobView)
    requires
        trace_ok(job),
    ensures
        samples_nondecreasing(job.emitted),
{
}

/// A subscriber that joined just before a job started, on a bus that has
/// carried that job only since, receives the job's `Started` first and
/// its one ending event last, whatever samples it missed in between; and
/// the samples that it does receive never step back in time.
pub proof fn lemma_observer_sees_whole_job(bus: &EventBus, id: int, job: JobView)
    requires
        bus.wf(),
        0 <= id < bus.subscribers(),
        trace_ok(job),
        bus.sent_to(id) == job.emitted,
    ensures
        lifecycle_events(bus.received(id)) == lifecycle_events(job.emitted),
        is_over(job.phase) ==> lifecycle_events(bus.received(id)) == seq![
            EventView::Started(job.context),
            job.emitted.last(),
        ],
        !is_over(job.phase) ==> lifecycle_events(bus.received(id)) == seq![
            EventView::Started(job.context),
        ],
        samples_nondecreasing(bus.received(id)),
{
    bus.lemma_lifecycle_reaches_everyone(id);
    bus.lemma_received_samples_nondecreasing(id);
    lemma_one_start_one_end(job);
}

/// What a subscriber was sent keeps pace with the job: if, before a step,
/// what was published since the subscriber joined is what the job has
/// emitted, then the same holds after the step.
pub proof fn lemma_bus_follows_job(
    before: &FFMpeg,
    after: &FFMpeg,
    id: int,
    job: JobView,
    input: JobInputView,
)
    requires
        before.wf(),
        0 <= id < before.bus.subscribers(),
        before.bus.sent_to(id) == job.emitted,
        after.after_events(before, step(job, input).events),
        trace_ok(job),
    ensures
        after.bus.subscribers() == before.bus.subscribers(),
        after.bus.sent_to(id) == step(job, input).job.emitted,
{
    lemma_step_keeps_trace(job, input);
    before.bus.lemma_received_is_thinned(id);
    let events = step(job, input).events;
    let from = before.bus.joined_at(id) as int;
    if events.len() == 0 {
        assert(job.emitted + events =~= job.emitted);
    } else {
        assert(events =~= seq![events[0]]);
        assert(after.bus.joined_at(id) == before.bus.joined_at(id));
        assert(before.bus.published().push(events[0]).skip(from) =~= before.bus.published().skip(
            from,
        ).push(events[0]));
        assert(job.emitted + events =~= job.emitted.push(events[0]));
    }
}

/// A subscriber that has been sent nothing when a job starts is then sent
/// exactly what the job has emitted: its `Started`.
pub proof fn lemma_bus_starts_with_job(before: &FFMpeg, after: &FFMpeg, id: int, job: JobView)
    requires
        before.wf(),
        0 <= id < before.bus.subscribers(),
        before.bus.sent_to(id) == Seq::<EventView>::empty(),
        job.emitted == seq![EventView::Started(job.context)],
        after.after_events(before, job.emitted),
    ensures
        after.bus.sent_to(id) == job.emitted,
{
    before.bus.lemma_received_is_thinned(id);
    let from = before.bus.joined_at(id) as int;
    let event = job.emitted[0];
    assert(after.bus.joined_at(id) == before.bus.joined_at(id));
    assert(before.bus.published().push(event).skip(from) =~= before.bus.published().skip(
        from,
    ).push(event));
}

/// How a job ends whose process has exited with code zero, whose input is
/// to go and is not the output itself, and whose input directory holds no
/// sidecar, whatever else it holds. Exactly two file operations are asked
/// for: the temporary file is renamed onto the output path, and the input is
/// removed. Nothing is relocated. Then the job succeeds and says so once.
pub proof fn lemma_clean_finalization(job: JobView, entries: Seq<Seq<char>>)
    requires
        job.phase == JobPhase::Waiting,
        !job.keep_input_file,
        !path_eq(job.context.input_path, job.context.output_path),
        no_sidecars(job.context.input_path, job.context.output_path, entries),
    ensures
        ({
            let placed = step(job, JobInputView::Exited(Some(0i32)));
            let applied = step(placed.job, JobInputView::Applied);
            let listed = step(applied.job, JobInputView::Listed(entries));
            let done = step(listed.job, JobInputView::Applied);
            &&& placed.events == Seq::<EventView>::empty()
            &&& placed.action == JobActionView::Apply(
                seq![
                    FileOpView::Rename {
                        from: job.tmp_output_path,
                        to: job.context.output_path,
                    },
                    FileOpView::Remove { path: job.context.input_path },
                ],
            )
            &&& match sidecar_layout(job.context.input_path, job.context.output_path) {
                None => {
                    &&& applied.action == JobActionView::Succeed
                    &&& applied.job.phase == JobPhase::Succeeded
                    &&& applied.events == seq![EventView::Succeeded(job.context)]
                },
                Some(layout) => {
                    &&& applied.events == Seq::<EventView>::empty()
                    &&& applied.action == JobActionView::List(layout.input_dir)
                    &&& listed.events == Seq::<EventView>::empty()
                    &&& listed.action == JobActionView::Apply(Seq::<FileOpView>::empty())
                    &&& done.action == JobActionView::Succeed
                    &&& done.job.phase == JobPhase::Succeeded
                    &&& done.events == seq![EventView::Succeeded(job.context)]
                },
            }
        }),
{
    lemma_no_sidecar_no_relocation(
        job.context.input_path,
        job.context.output_path,
        job.keep_input_file,
        entries,
    );
}

impl Job {
    /// The invariant of a job.
    pub open spec fn wf(&self) -> bool {
        trace_ok(self@)
    }

    /// Where the job stands.
    pub fn phase(&self) -> (r: JobPhase)
        ensures
            r == self@.phase,
    {
        self.phase
    }

    /// Whether the job is over.
    pub fn is_finished(&self) -> (r: bool)
        ensures
            r == is_over(self@.phase),
    {
        match self.phase {
            JobPhase::Succeeded => true,
            JobPhase::Failed => true,
            _ => false,
        }
    }

    /// What every event of the job carries.
    pub fn context(&self) -> (r: &FFMpegContext)
        ensures
            r@ == self@.context,
    {
        &self.context
    }

    /// The invocation that the caller is to start, with standard output
    /// captured.
    pub fn invocation(&self) -> (r: &Invocation)
        ensures
            r@ == self@.invocation,
    {
        &self.invocation
    }

    /// Where the process writes its output.
    pub fn tmp_output_path(&self) -> (r: &String)
        ensures
            r@ == self@.tmp_output_path,
    {
        &self.tmp_output_path
    }

    /// The progress sample being built.
    pub fn sample(&self) -> (r: &FFMpegProgress)
        ensures
            r@ == self@.sample,
    {
        &self.sample
    }
}

impl FFMpeg {
    fn emit(&mut self, event: FFMpegEvent)
        requires
            old(self).wf(),
        ensures
            final(self).wf(),
            final(self).config == old(self).config,
            final(self).bus.after_publish(&old(self).bus, event@),
    {
        self.bus.publish(event);
    }

    /// Whether `self` is `before` after the events `events` were published,
    /// oldest first.
    pub open spec fn after_events(&self, before: &FFMpeg, events: Seq<EventView>) -> bool {
        &&& self.config == before.config
        &&& if events.len() == 0 {
            self.bus == before.bus
        } else {
            events.len() == 1 && self.bus.after_publish(&before.bus, events[0])
        }
    }

    /// Starts a job that turns the file described by `probe` into a file at
    /// `output_path`. The job's `Started` event is published at once. The
    /// caller then starts the job's invocation and reports how that went.
    ///
    /// There is no job, and nothing is published, when `output_path` has no
    /// file name.
    pub fn transcode(&mut self, probe: &FFProbeResult, output_path: &str) -> (r: Result<
        Job,
        TranscodeError,
    >)
        requires
            old(self).wf(),
        ensures
            final(self).wf(),
            match tmp_output_path(output_path@) {
                Some(tmp) => {
                    &&& r matches Ok(job)
                    &&& job@ == started_job(probe@, old(self).config, output_path@, tmp)
                    &&& job.wf()
                    &&& final(self).after_events(old(self), job@.emitted)
                },
                None => {
                    &&& r matches Err(why)
                    &&& why@ == TranscodeErrorView::OutputPath
                    &&& *final(self) == *old(self)
                },
            },
    {
        let tmp = match FFMpeg::get_tmp_output_path(output_path) {
            Some(tmp) => tmp,
            None => {
                return Err(TranscodeError::OutputPath);
            },
        };
        let invocation = self.get_command(probe, tmp.as_str());
        let context = FFMpegContext {
            probe: probe.clone(),
            command: invocation.command_line(),
            input_path: probe.format.filename.clone(),
            output_path: String::from_str(output_path),
        };
        assert(invocation@ =~= job_invocation(probe@, self.config, tmp@));
        assert(context@ == job_context(probe@, self.config, output_path@, tmp@));
        self.emit(FFMpegEvent::START(context.clone()));
        let ghost trace = Seq::<EventView>::empty().push(EventView::Started(context@));
        let job = Job {
            context,
            invocation,
            tmp_output_path: tmp,
            keep_input_file: self.config.keep_input_file,
            sample: FFMpegProgress::initial(),
            phase: JobPhase::Spawning,
            emitted: Ghost(trace),
        };
        proof {
            lemma_started_job_ok(probe@, self.config, output_path@, tmp@);
        }
        Ok(job)
    }

    fn finish(&mut self, job: &mut Job, error: Option<TranscodeError>) -> (action: JobAction)
        requires
            old(self).wf(),
        ensures
            final(self).wf(),
            match error {
                Some(why) => {
                    &&& final(job)@ == fail(old(job)@, why@).job
                    &&& action@ == fail(old(job)@, why@).action
                    &&& final(self).after_events(old(self), fail(old(job)@, why@).events)
                },
                None => {
                    &&& final(job)@ == succeed(old(job)@).job
                    &&& action@ == succeed(old(job)@).action
                    &&& final(self).after_events(old(self), succeed(old(job)@).events)
                },
            },
    {
        match error {
            Some(why) => {
                self.emit(FFMpegEvent::ERROR(job.context.clone()));
                job.phase = JobPhase::Failed;
                job.emitted = Ghost(job.emitted@.push(EventView::Failed(job.context@)));
                JobAction::Fail(why)
            },
            None => {
                self.emit(FFMpegEvent::DONE(job.context.clone()));
                job.phase = JobPhase::Succeeded;
                job.emitted = Ghost(job.emitted@.push(EventView::Succeeded(job.context@)));
                JobAction::Succeed
            },
        }
    }

    /// Takes the caller's report `input` on `job`, publishes what there is
    /// to publish, and says what to do next.
    pub fn advance(&mut self, job: &mut Job, input: JobInput) -> (action: JobAction)
        requires
            old(self).wf(),
            old(job).wf(),
        ensures
            final(self).wf(),
            final(job).wf(),
            final(job)@ == step(old(job)@, input@).job,
            action@ == step(old(job)@, input@).action,
            final(self).after_events(old(self), step(old(job)@, input@).events),
    {
        proof {
            lemma_step_keeps_trace(job@, input@);
        }
        match (job.phase, input) {
            (JobPhase::Spawning, JobInput::Spawned) => {
                job.phase = JobPhase::Reading;
                JobAction::Read
            },
            (JobPhase::Spawning, JobInput::SpawnFailed(why)) => self.finish(
                job,
                Some(TranscodeError::Spawn(why)),
            ),
            (JobPhase::Reading, JobInput::Line(text)) => {
                let line = parse_progress_line(text.as_str());
                let complete = job.sample.absorb(line);
                if complete {
                    let event = FFMpegEvent::PROGRESS(job.context.clone(), job.sample.clone());
                    let ghost trace = job.emitted@.push(event@);
                    job.emitted = Ghost(trace);
                    self.emit(event);
                }
                JobAction::Read
            },
            (JobPhase::Reading, JobInput::OutputClosed) => {
                job.phase = JobPhase::Waiting;
                JobAction::Wait
            },
            (JobPhase::Waiting, JobInput::Exited(code)) => {
                let success = match code {
                    Some(n) => n == 0,
                    None => false,
                };
                if success {
                    job.phase = JobPhase::Placing;
                    JobAction::Apply(
                        plan_placement(
                            job.tmp_output_path.as_str(),
                            job.context.output_path.as_str(),
                            job.context.input_path.as_str(),
                            job.keep_input_file,
                        ),
                    )
                } else {
                    self.finish(job, Some(TranscodeError::Exit(code)))
                }
            },
            (JobPhase::Waiting, JobInput::WaitFailed(why)) => self.finish(
                job,
                Some(TranscodeError::Wait(why)),
            ),
            (JobPhase::Placing, JobInput::Applied) => {
                match plan_sidecar_layout(
                    job.context.input_path.as_str(),
                    job.context.output_path.as_str(),
                ) {
                    Some(layout) => {
                        job.phase = JobPhase::Listing;
                        JobAction::List(layout.input_dir)
                    },
                    None => self.finish(job, None),
                }
            },
            (JobPhase::Listing, JobInput::Listed(entries)) => {
                job.phase = JobPhase::Relocating;
                JobAction::Apply(
                    FFMpeg::move_srt_files(
                        job.context.input_path.as_str(),
                        job.context.output_path.as_str(),
                        job.keep_input_file,
                        &entries,
                    ),
                )
            },
            (JobPhase::Relocating, JobInput::Applied) => self.finish(job, None),
            (JobPhase::Placing, JobInput::IoFailed(why)) => self.finish(
                job,
                Some(TranscodeError::Finalize(why)),
            ),
            (JobPhase::Listing, JobInput::IoFailed(why)) => self.finish(
                job,
                Some(TranscodeError::Finalize(why)),
            ),
            (JobPhase::Relocating, JobInput::IoFailed(why)) => self.finish(
                job,
                Some(TranscodeError::Finalize(why)),
            ),
            _ => JobAction::Ignore,
        }
    }

    /// The file operations that relocate the sidecar files of the input,
    /// given the paths of the entries of the input's directory. A sidecar is
    /// an entry, other than the input and the output, whose name begins with
    /// the input's file stem. It goes to the output's directory under its
    /// name with that stem replaced by the output's: copied when the
    /// sources are kept, moved otherwise. Without a parent directory or a
    /// stem on either path there is nothing to do.
    pub fn move_srt_files(
        input_path: &str,
        output_path: &str,
        keep_sources: bool,
        entries: &Vec<String>,
    ) -> (ops: Vec<FileOp>)
        ensures
            file_op_views(ops@) == relocation_ops(
                input_path@,
                output_path@,
                keep_sources,
                entries.deep_view(),
            ),
    {
        match plan_sidecar_layout(input_path, output_path) {
            Some(layout) => plan_sidecars(&layout, input_path, output_path, keep_sources, entries),
            None => {
                let ops: Vec<FileOp> = Vec::new();
                assert(file_op_views(ops@) =~= Seq::<FileOpView>::empty());
                ops
            },
        }
    }
}

} // verus!
