use vstd::prelude::*;
use vstd::string::StringExecFns;

use crate::bootstrap::paths::{join_path, spec_join_path, AppPaths, AppPathsView};
use crate::capture::mic::{
    CaptureWatchdogConfig, WatchdogSnapshot, NANOS_PER_MILLI, NANOS_PER_SECOND,
};
use crate::config::schema::{
    AppConfig, AppConfigView, OutputMode, TranscriptionConfig, TranscriptionConfigView,
};
use crate::controller::events::{
    ControllerEvent, ControllerEventView, ControllerOutput, ControllerOutputView,
};
use crate::controller::queue::{queue_full_message, QueueView, SingleFlightQueue};
use crate::controller::state::{ControllerState, ControllerStateView};
use crate::doctor::report::{DoctorReport, DoctorReportView};
use crate::error::{AppError, AppErrorView, AppResult};
use crate::text::{bool_text, concat2, concat3, spec_bool_text, text_eq};
use crate::transcription::scheduler::{TranscriptResult, TranscriptResultView};

verus! {

/// What the controller is configured with for its whole life.
#[derive(Debug, Clone)]
pub struct ControllerContext {
    pub config: AppConfig,
    pub paths: AppPaths,
}

/// Mathematical model of a [`ControllerContext`].
pub struct ControllerContextView {
    pub config: AppConfigView,
    pub paths: AppPathsView,
}

impl View for ControllerContext {
    type V = ControllerContextView;

    open spec fn view(&self) -> ControllerContextView {
        ControllerContextView { config: self.config@, paths: self.paths@ }
    }
}

/// What the controller sends to the transcription worker.
#[derive(Debug, Clone)]
pub enum WorkerMessage {
    Transcribe { wav_path: String, db_path: String, config: TranscriptionConfig },
    Shutdown,
}

/// Mathematical model of a [`WorkerMessage`].
pub enum WorkerMessageView {
    Transcribe { wav_path: Seq<char>, db_path: Seq<char>, config: TranscriptionConfigView },
    Shutdown,
}

impl View for WorkerMessage {
    type V = WorkerMessageView;

    open spec fn view(&self) -> WorkerMessageView {
        match *self {
            WorkerMessage::Transcribe { wav_path, db_path, config } => WorkerMessageView::Transcribe {
                wav_path: wav_path@,
                db_path: db_path@,
                config: config@,
            },
            WorkerMessage::Shutdown => WorkerMessageView::Shutdown,
        }
    }
}

/// What the controller asks of its host. The host carries the actions out in order;
/// the ones marked as answered are followed by the matching [`Reply`].
#[derive(Debug)]
pub enum Action {
    /// Publish an output to the listeners.
    Emit(ControllerOutput),
    /// Start a capture into `output_dir`; answered with `RecordingStarted` or
    /// `RecordingStartFailed`.
    StartRecording { output_dir: String, watchdog: CaptureWatchdogConfig },
    /// Stop the live capture and finalize its file; answered with `RecordingStopped`.
    StopRecording,
    /// Stop the live capture, ignoring any failure.
    AbortRecording,
    /// Take a watchdog snapshot of the live capture and measure how long it has lasted;
    /// answered with `RecordingProbed`.
    ProbeRecording,
    /// Run the preflight checks; answered with `DoctorFinished`.
    RunDoctor,
    /// Put the text on the clipboard; answered with `ClipboardWritten`.
    WriteClipboard(String),
    /// Delete the capture file if it exists; a failure is only logged.
    RemoveArtifact(String),
    /// Hand a job to the transcription worker.
    Submit(WorkerMessage),
    /// Tell the worker to stop and wait for it.
    ShutdownWorker,
    /// End the run with this error.
    Fail(AppError),
}

/// Mathematical model of an [`Action`].
pub enum ActionView {
    Emit(ControllerOutputView),
    StartRecording { output_dir: Seq<char>, watchdog: CaptureWatchdogConfig },
    StopRecording,
    AbortRecording,
    ProbeRecording,
    RunDoctor,
    WriteClipboard(Seq<char>),
    RemoveArtifact(Seq<char>),
    Submit(WorkerMessageView),
    ShutdownWorker,
    Fail(AppErrorView),
}

impl View for Action {
    type V = ActionView;

    open spec fn view(&self) -> ActionView {
        match *self {
            Action::Emit(o) => ActionView::Emit(o@),
            Action::StartRecording { output_dir, watchdog } => ActionView::StartRecording {
                output_dir: output_dir@,
                watchdog,
            },
            Action::StopRecording => ActionView::StopRecording,
            Action::AbortRecording => ActionView::AbortRecording,
            Action::ProbeRecording => ActionView::ProbeRecording,
            Action::RunDoctor => ActionView::RunDoctor,
            Action::WriteClipboard(t) => ActionView::WriteClipboard(t@),
            Action::RemoveArtifact(p) => ActionView::RemoveArtifact(p@),
            Action::Submit(m) => ActionView::Submit(m@),
            Action::ShutdownWorker => ActionView::ShutdownWorker,
            Action::Fail(e) => ActionView::Fail(e@),
        }
    }
}

/// The models of a list of actions.
pub open spec fn actions_view(actions: Seq<Action>) -> Seq<ActionView> {
    actions.map_values(|c: Action| c@)
}

/// How the host answers an action.
#[derive(Debug)]
pub enum Reply {
    /// The capture is running.
    RecordingStarted,
    /// The capture could not be started.
    RecordingStartFailed(AppError),
    /// The capture was stopped: the path of its file, or why it could not be finalized.
    RecordingStopped(AppResult<String>),
    /// The watchdog's snapshot of the live capture, and how long the capture has lasted
    /// in nanoseconds.
    RecordingProbed { snapshot: WatchdogSnapshot, elapsed: u128 },
    /// The preflight report.
    DoctorFinished(DoctorReport),
    /// Whether the text reached the clipboard.
    ClipboardWritten(AppResult<()>),
}

/// Mathematical model of a [`Reply`].
pub enum ReplyView {
    RecordingStarted,
    RecordingStartFailed(AppErrorView),
    RecordingStopped(Result<Seq<char>, AppErrorView>),
    RecordingProbed { snapshot: WatchdogSnapshot, elapsed: u128 },
    DoctorFinished(DoctorReportView),
    ClipboardWritten(Result<(), AppErrorView>),
}

impl View for Reply {
    type V = ReplyView;

    open spec fn view(&self) -> ReplyView {
        match *self {
            Reply::RecordingStarted => ReplyView::RecordingStarted,
            Reply::RecordingStartFailed(e) => ReplyView::RecordingStartFailed(e@),
            Reply::RecordingStopped(r) => ReplyView::RecordingStopped(
                match r {
                    Ok(p) => Ok(p@),
                    Err(e) => Err(e@),
                },
            ),
            Reply::RecordingProbed { snapshot, elapsed } => ReplyView::RecordingProbed {
                snapshot,
                elapsed,
            },
            Reply::DoctorFinished(r) => ReplyView::DoctorFinished(r@),
            Reply::ClipboardWritten(r) => ReplyView::ClipboardWritten(
                match r {
                    Ok(_) => Ok(()),
                    Err(e) => Err(e@),
                },
            ),
        }
    }
}

/// A channel the controller depends on was found closed.
#[derive(Debug, Clone, Copy, PartialEq, Eq, Structural)]
pub enum Fault {
    EventChannelClosed,
    OutputChannelClosed,
    WorkerChannelClosed,
}

/// One input of the controller: an event, the answer to its last action, or a fault.
#[derive(Debug)]
pub enum Input {
    Event(ControllerEvent),
    Reply(Reply),
    Fault(Fault),
}

/// Mathematical model of an [`Input`].
pub enum InputView {
    Event(ControllerEventView),
    Reply(ReplyView),
    Fault(Fault),
}

impl View for Input {
    type V = InputView;

    open spec fn view(&self) -> InputView {
        match *self {
            Input::Event(e) => InputView::Event(e@),
            Input::Reply(r) => InputView::Reply(r@),
            Input::Fault(f) => InputView::Fault(f),
        }
    }
}

/// The answer the controller is waiting for, if any.
#[derive(Debug)]
pub enum Pending {
    Nothing,
    Start,
    StopForToggle,
    StopForTimeout,
    Probe,
    Doctor,
    Clipboard(TranscriptResult),
}

/// Mathematical model of a [`Pending`].
pub enum PendingView {
    Nothing,
    Start,
    StopForToggle,
    StopForTimeout,
    Probe,
    Doctor,
    Clipboard(TranscriptResultView),
}

impl View for Pending {
    type V = PendingView;

    open spec fn view(&self) -> PendingView {
        match *self {
            Pending::Nothing => PendingView::Nothing,
            Pending::Start => PendingView::Start,
            Pending::StopForToggle => PendingView::StopForToggle,
            Pending::StopForTimeout => PendingView::StopForTimeout,
            Pending::Probe => PendingView::Probe,
            Pending::Doctor => PendingView::Doctor,
            Pending::Clipboard(r) => PendingView::Clipboard(r@),
        }
    }
}

/// The controller: its state, whether a capture is live, the job queue, and what it
/// waits for. It decides; its host performs.
#[derive(Debug)]
pub struct Controller {
    context: ControllerContext,
    state: ControllerState,
    recording: bool,
    queue: SingleFlightQueue,
    pending: Pending,
    halted: bool,
}

/// Mathematical model of a [`Controller`].
pub struct ControllerView {
    pub context: ControllerContextView,
    pub state: ControllerStateView,
    pub recording: bool,
    pub queue: QueueView,
    pub pending: PendingView,
    pub halted: bool,
}

impl View for Controller {
    type V = ControllerView;

    closed spec fn view(&self) -> ControllerView {
        ControllerView {
            context: self.context@,
            state: self.state@,
            recording: self.recording,
            queue: self.queue@,
            pending: self.pending@,
            halted: self.halted,
        }
    }
}

/// The action that publishes `state`.
pub open spec fn emit_state(state: ControllerStateView) -> ActionView {
    ActionView::Emit(ControllerOutputView::StateChanged(state))
}

/// The action that publishes the notification `message`.
pub open spec fn notify(message: Seq<char>) -> ActionView {
    ActionView::Emit(ControllerOutputView::Notification(message))
}

/// The action that publishes the final output.
pub open spec fn emit_stopped() -> ActionView {
    ActionView::Emit(ControllerOutputView::Stopped)
}

/// The reason given when the watchdog aborts a capture.
pub open spec fn spec_watchdog_reason(snapshot: WatchdogSnapshot) -> Seq<char> {
    (if !snapshot.armed {
        "capture watchdog arming timeout exceeded (first_frame_seen="@
    } else {
        "capture watchdog stall detected (first_frame_seen="@
    }) + spec_bool_text(snapshot.first_frame_seen) + ")"@
}

/// The history database jobs are told to write to: the configured one, else the default.
pub open spec fn spec_job_db_path(context: ControllerContextView) -> Seq<char> {
    match context.config.history.db_path {
        Some(p) => p,
        None => context.paths.history_db,
    }
}

/// Taking the next job off the queue for the worker. The job must be there and must be
/// the capture that was asked for; the message carries the capture, the history
/// database and the transcription settings.
pub open spec fn spec_spawn_next_job(
    context: ControllerContextView,
    queue: QueueView,
    requested: Seq<char>,
) -> (QueueView, Result<WorkerMessageView, AppErrorView>) {
    if !queue.can_start() {
        (queue, Err(AppErrorView::Controller("queue was expected to have a job"@)))
    } else {
        let next = queue.pending[0];
        if next != requested {
            (
                queue.started(),
                Err(
                    AppErrorView::Controller(
                        "queue scheduling mismatch: expected "@ + requested + ", got "@ + next,
                    ),
                ),
            )
        } else {
            (
                queue.started(),
                Ok(
                    WorkerMessageView::Transcribe {
                        wav_path: next,
                        db_path: spec_job_db_path(context),
                        config: context.config.transcription,
                    },
                ),
            )
        }
    }
}

/// A step's result: the next controller and the actions for the host.
pub type Outcome = (ControllerView, Seq<ActionView>);

impl ControllerView {
    /// The controller at start: idle, or unavailable for the given reason.
    pub open spec fn initial(context: ControllerContextView, unavailable: Option<Seq<char>>) -> ControllerView {
        ControllerView {
            context,
            state: match unavailable {
                Some(reason) => ControllerStateView::Unavailable(reason),
                None => ControllerStateView::Idle,
            },
            recording: false,
            queue: QueueView::empty(1),
            pending: PendingView::Nothing,
            halted: false,
        }
    }

    /// The actions issued at start: the initial state, and the reason if unavailable.
    pub open spec fn initial_actions(unavailable: Option<Seq<char>>) -> Seq<ActionView> {
        match unavailable {
            Some(reason) => seq![emit_state(ControllerStateView::Unavailable(reason)), notify(reason)],
            None => seq![emit_state(ControllerStateView::Idle)],
        }
    }

    /// Where captures are written.
    pub open spec fn capture_dir(self) -> Seq<char> {
        spec_join_path(self.context.paths.cache_dir, "capture"@)
    }

    /// The watchdog timeouts derived from the configuration.
    pub open spec fn watchdog(self) -> CaptureWatchdogConfig {
        CaptureWatchdogConfig {
            arming_timeout: (self.context.config.audio.arming_timeout_ms * NANOS_PER_MILLI) as u128,
            stall_timeout: (self.context.config.audio.stall_timeout_ms * NANOS_PER_MILLI) as u128,
        }
    }

    /// The longest a recording may last, in nanoseconds.
    pub open spec fn recording_cap(self) -> int {
        self.context.config.audio.max_recording_seconds * NANOS_PER_SECOND
    }

    /// Entering the degraded state: the state is published first, then the reason.
    pub open spec fn degraded(self, reason: Seq<char>, before: Seq<ActionView>) -> Outcome {
        (
            ControllerView {
                state: ControllerStateView::Degraded(reason),
                pending: PendingView::Nothing,
                ..self
            },
            before + seq![emit_state(ControllerStateView::Degraded(reason)), notify(reason)],
        )
    }

    /// Returning to idle with a transcript: the transcript is published, then the state,
    /// then the completion notice.
    pub open spec fn completed(self, result: TranscriptResultView, before: Seq<ActionView>) -> Outcome {
        (
            ControllerView { state: ControllerStateView::Idle, pending: PendingView::Nothing, ..self },
            before + seq![
                ActionView::Emit(ControllerOutputView::TranscriptReady(result)),
                emit_state(ControllerStateView::Idle),
                notify("Transcription complete"@),
            ],
        )
    }

    /// Ending the run with an error after the given actions.
    pub open spec fn failed(self, error: AppErrorView, before: Seq<ActionView>) -> Outcome {
        (
            ControllerView { pending: PendingView::Nothing, halted: true, ..self },
            before + seq![ActionView::Fail(error)],
        )
    }

    /// A toggle starts a capture when idle or degraded, stops it when recording, and is
    /// refused with a notice while processing or unavailable.
    pub open spec fn on_toggle(self) -> Outcome {
        match self.state {
            ControllerStateView::Idle | ControllerStateView::Degraded(_) => (
                ControllerView { pending: PendingView::Start, ..self },
                seq![
                    ActionView::StartRecording {
                        output_dir: self.capture_dir(),
                        watchdog: self.watchdog(),
                    },
                ],
            ),
            ControllerStateView::Recording => if self.recording {
                (
                    ControllerView { recording: false, pending: PendingView::StopForToggle, ..self },
                    seq![ActionView::StopRecording],
                )
            } else {
                (self, Seq::empty())
            },
            ControllerStateView::Processing => (
                self,
                seq![notify("Transcription already in progress; finishing current job."@)],
            ),
            ControllerStateView::Unavailable(reason) => (
                self,
                seq![notify("recording disabled: "@ + reason)],
            ),
        }
    }

    /// A tick probes the live capture, if there is one.
    pub open spec fn on_tick(self) -> Outcome {
        if self.recording {
            (ControllerView { pending: PendingView::Probe, ..self }, seq![ActionView::ProbeRecording])
        } else {
            (self, Seq::empty())
        }
    }

    /// A finished job frees the queue and, unless audio is retained, its capture file is
    /// removed; then a transcript goes to the clipboard first if so configured, and a
    /// failure degrades the controller.
    pub open spec fn on_transcription_finished(
        self,
        wav_path: Seq<char>,
        result: Result<TranscriptResultView, Seq<char>>,
    ) -> Outcome {
        let freed = ControllerView { queue: self.queue.finished(), ..self };
        let cleanup = if self.context.config.audio.retain_audio {
            Seq::<ActionView>::empty()
        } else {
            seq![ActionView::RemoveArtifact(wav_path)]
        };
        match result {
            Ok(transcript) => if self.context.config.output.mode == OutputMode::ClipboardOnly {
                (
                    ControllerView { pending: PendingView::Clipboard(transcript), ..freed },
                    cleanup + seq![ActionView::WriteClipboard(transcript.transcript)],
                )
            } else {
                freed.completed(transcript, cleanup)
            },
            Err(reason) => freed.degraded("transcription job failed: "@ + reason, cleanup),
        }
    }

    /// Shutdown aborts a live capture, stops the worker and publishes the final output.
    pub open spec fn on_shutdown(self) -> Outcome {
        (
            ControllerView { recording: false, halted: true, ..self },
            (if self.recording {
                seq![ActionView::AbortRecording]
            } else {
                Seq::<ActionView>::empty()
            }) + seq![ActionView::ShutdownWorker, emit_stopped()],
        )
    }

    /// What an event leads to when the controller is free to take it.
    pub open spec fn on_event(self, event: ControllerEventView) -> Outcome {
        match event {
            ControllerEventView::Toggle => self.on_toggle(),
            ControllerEventView::RunDoctor => (
                ControllerView { pending: PendingView::Doctor, ..self },
                seq![ActionView::RunDoctor],
            ),
            ControllerEventView::Tick => self.on_tick(),
            ControllerEventView::Shutdown => self.on_shutdown(),
            ControllerEventView::TranscriptionFinished { wav_path, result } => self.on_transcription_finished(
                wav_path,
                result,
            ),
        }
    }

    /// Handing the stopped capture to the worker: it must come out of the queue first,
    /// and it must be the one that was just put in.
    pub open spec fn spawn_next_job(self, requested: Seq<char>, before: Seq<ActionView>) -> Outcome {
        let spawned = spec_spawn_next_job(self.context, self.queue, requested);
        let next = ControllerView { queue: spawned.0, ..self };
        match spawned.1 {
            Ok(message) => (next, before + seq![ActionView::Submit(message)]),
            Err(error) => next.failed(error, before),
        }
    }

    /// What a stopped capture leads to: processing if it finalized and the queue took
    /// it, degraded otherwise. `timed` tells a stop forced by the recording cap from one
    /// the user asked for.
    pub open spec fn on_recording_stopped(self, stopped: Result<Seq<char>, AppErrorView>, timed: bool) -> Outcome {
        let idle = ControllerView { pending: PendingView::Nothing, ..self };
        match stopped {
            Ok(wav_path) => if !self.queue.has_room() {
                idle.degraded(
                    (if timed {
                        "unable to enqueue timed recording stop: "@
                    } else {
                        "unable to enqueue recording: "@
                    }) + AppErrorView::Controller(queue_full_message()).detail(),
                    Seq::empty(),
                )
            } else {
                (ControllerView {
                    state: ControllerStateView::Processing,
                    queue: self.queue.enqueued(wav_path),
                    ..idle
                }).spawn_next_job(wav_path, seq![emit_state(ControllerStateView::Processing)])
            },
            Err(error) => idle.degraded(
                (if timed {
                    "failed to finalize timed recording: "@
                } else {
                    "failed to finalize recording: "@
                }) + error.detail(),
                Seq::empty(),
            ),
        }
    }

    /// What a probe leads to: the watchdog's verdict comes first, and only an armed,
    /// live capture is measured against the recording cap.
    pub open spec fn on_recording_probed(self, snapshot: WatchdogSnapshot, elapsed: u128) -> Outcome {
        if !snapshot.armed || snapshot.stalled {
            (ControllerView { recording: false, ..self }).degraded(
                spec_watchdog_reason(snapshot),
                seq![ActionView::AbortRecording],
            )
        } else if elapsed > self.recording_cap() {
            (
                ControllerView { recording: false, pending: PendingView::StopForTimeout, ..self },
                seq![ActionView::StopRecording],
            )
        } else {
            (ControllerView { pending: PendingView::Nothing, ..self }, Seq::empty())
        }
    }

    /// What an answer leads to; an answer nobody waits for is ignored.
    pub open spec fn on_reply(self, reply: ReplyView) -> Outcome {
        match (self.pending, reply) {
            (PendingView::Start, ReplyView::RecordingStarted) => (
                ControllerView {
                    state: ControllerStateView::Recording,
                    recording: true,
                    pending: PendingView::Nothing,
                    ..self
                },
                seq![emit_state(ControllerStateView::Recording), notify("Recording started"@)],
            ),
            (PendingView::Start, ReplyView::RecordingStartFailed(error)) => self.degraded(
                "recording start failed: "@ + error.detail(),
                Seq::empty(),
            ),
            (PendingView::StopForToggle, ReplyView::RecordingStopped(stopped)) => self.on_recording_stopped(
                stopped,
                false,
            ),
            (PendingView::StopForTimeout, ReplyView::RecordingStopped(stopped)) => self.on_recording_stopped(
                stopped,
                true,
            ),
            (PendingView::Probe, ReplyView::RecordingProbed { snapshot, elapsed }) => self.on_recording_probed(
                snapshot,
                elapsed,
            ),
            (PendingView::Doctor, ReplyView::DoctorFinished(report)) => (
                ControllerView { pending: PendingView::Nothing, ..self },
                seq![ActionView::Emit(ControllerOutputView::DoctorReport(report))],
            ),
            (PendingView::Clipboard(transcript), ReplyView::ClipboardWritten(written)) => match written {
                Ok(_) => self.completed(transcript, Seq::empty()),
                Err(error) => self.degraded("clipboard output failed: "@ + error.detail(), Seq::empty()),
            },
            _ => (self, Seq::empty()),
        }
    }

    /// What a closed channel leads to: the run ends with an error.
    pub open spec fn on_fault(self, fault: Fault) -> Outcome {
        match fault {
            Fault::EventChannelClosed => self.failed(
                AppErrorView::ChannelClosed("controller event channel closed"@),
                Seq::empty(),
            ),
            Fault::OutputChannelClosed => self.failed(
                AppErrorView::ChannelClosed("controller output channel closed"@),
                Seq::empty(),
            ),
            Fault::WorkerChannelClosed => self.failed(
                AppErrorView::Controller("transcription worker channel closed"@),
                seq![notify("transcription worker channel is closed"@)],
            ),
        }
    }

    /// One step of the controller. Once the run has ended nothing is issued any more; a
    /// late completion is still counted off the queue. While an answer is awaited, only
    /// an answer or a fault is due; the host hands over no event then, and the model
    /// leaves the controller as it is should one come.
    pub open spec fn step(self, input: InputView) -> Outcome {
        if self.halted {
            match input {
                InputView::Event(ControllerEventView::TranscriptionFinished { .. }) => (
                    ControllerView { queue: self.queue.finished(), ..self },
                    Seq::empty(),
                ),
                _ => (self, Seq::empty()),
            }
        } else {
            match input {
                InputView::Event(event) => if self.pending is Nothing {
                    self.on_event(event)
                } else {
                    (self, Seq::empty())
                },
                InputView::Reply(reply) => self.on_reply(reply),
                InputView::Fault(fault) => self.on_fault(fault),
            }
        }
    }
}

fn push_action(actions: &mut Vec<Action>, action: Action)
    ensures
        actions_view(final(actions)@) == actions_view(old(actions)@).push(action@),
{
    actions.push(action);
    assert(actions_view(actions@) =~= actions_view(old(actions)@).push(action@));
}

fn no_actions() -> (actions: Vec<Action>)
    ensures
        actions_view(actions@) == Seq::<ActionView>::empty(),
{
    let actions: Vec<Action> = Vec::new();
    assert(actions_view(actions@) =~= Seq::<ActionView>::empty());
    actions
}

fn notification(message: &str) -> (action: Action)
    ensures
        action@ == notify(message@),
{
    Action::Emit(ControllerOutput::Notification(String::from_str(message)))
}

/// Spells the reason for which the watchdog aborts a capture.
pub fn watchdog_reason(snapshot: WatchdogSnapshot) -> (reason: String)
    ensures
        reason@ == spec_watchdog_reason(snapshot),
{
    let prefix = if !snapshot.armed {
        "capture watchdog arming timeout exceeded (first_frame_seen="
    } else {
        "capture watchdog stall detected (first_frame_seen="
    };
    concat3(prefix, bool_text(snapshot.first_frame_seen), ")")
}

/// Takes the next job off the queue for the worker and checks that it is the capture
/// that was asked for.
pub fn spawn_next_job(context: &ControllerContext, queue: &mut SingleFlightQueue, requested_wav_path: &str) -> (r:
    AppResult<WorkerMessage>)
    ensures
        final(queue)@ == spec_spawn_next_job(context@, old(queue)@, requested_wav_path@).0,
        match spec_spawn_next_job(context@, old(queue)@, requested_wav_path@).1 {
            Ok(message) => r matches Ok(m) && m@ == message,
            Err(error) => r matches Err(e) && e@ == error,
        },
{
    match queue.start_next() {
        None => Err(AppError::Controller(String::from_str("queue was expected to have a job"))),
        Some(next) => {
            if !text_eq(next.as_str(), requested_wav_path) {
                let mut detail = String::from_str("queue scheduling mismatch: expected ");
                detail.append(requested_wav_path);
                detail.append(", got ");
                detail.append(next.as_str());
                Err(AppError::Controller(detail))
            } else {
                let db_path = match &context.config.history.db_path {
                    Some(p) => p.clone(),
                    None => context.paths.history_db.clone(),
                };
                let config = context.config.transcription.duplicate();
                Ok(WorkerMessage::Transcribe { wav_path: next, db_path, config })
            }
        },
    }
}

impl Controller {
    /// Creates the controller, idle or unavailable for the given reason, together with
    /// the actions that publish its initial state.
    pub fn new(context: ControllerContext, unavailable: Option<String>) -> (r: (Controller, Vec<Action>))
        ensures
            r.0@ == ControllerView::initial(context@, crate::text::opt_view(unavailable)),
            actions_view(r.1@) == ControllerView::initial_actions(crate::text::opt_view(unavailable)),
            r.0@.consistent(),
    {
        let mut actions = no_actions();
        let state = match unavailable {
            Some(reason) => {
                push_action(
                    &mut actions,
                    Action::Emit(ControllerOutput::StateChanged(ControllerState::Unavailable(reason.clone()))),
                );
                push_action(&mut actions, notification(reason.as_str()));
                ControllerState::Unavailable(reason)
            },
            None => {
                push_action(&mut actions, Action::Emit(ControllerOutput::StateChanged(ControllerState::Idle)));
                ControllerState::Idle
            },
        };
        let controller = Controller {
            context,
            state,
            recording: false,
            queue: SingleFlightQueue::new(1),
            pending: Pending::Nothing,
            halted: false,
        };
        (controller, actions)
    }

    /// The state last published.
    pub fn state(&self) -> (r: ControllerState)
        ensures
            r@ == self@.state,
    {
        self.state.duplicate()
    }

    /// Whether the run has ended, by shutdown or by an error.
    pub fn is_halted(&self) -> (r: bool)
        ensures
            r == self@.halted,
    {
        self.halted
    }

    /// Whether the controller waits for the answer to an action.
    pub fn is_waiting(&self) -> (r: bool)
        ensures
            r == !(self@.pending is Nothing),
    {
        !matches!(self.pending, Pending::Nothing)
    }

    /// Whether a capture is live.
    pub fn is_recording(&self) -> (r: bool)
        ensures
            r == self@.recording,
    {
        self.recording
    }

    fn degrade(self, reason: String, actions: Vec<Action>) -> (r: (Controller, Vec<Action>))
        ensures
            (r.0@, actions_view(r.1@)) == self@.degraded(reason@, actions_view(actions@)),
    {
        let mut this = self;
        let ghost start = this@;
        let ghost before = actions_view(actions@);
        let mut actions = actions;
        push_action(
            &mut actions,
            Action::Emit(ControllerOutput::StateChanged(ControllerState::Degraded(reason.clone()))),
        );
        push_action(&mut actions, Action::Emit(ControllerOutput::Notification(reason.clone())));
        this.state = ControllerState::Degraded(reason);
        this.pending = Pending::Nothing;
        assert(actions_view(actions@) =~= start.degraded(reason@, before).1);
        (this, actions)
    }

    fn complete(self, result: TranscriptResult, actions: Vec<Action>) -> (r: (Controller, Vec<Action>))
        ensures
            (r.0@, actions_view(r.1@)) == self@.completed(result@, actions_view(actions@)),
    {
        let mut this = self;
        let ghost start = this@;
        let ghost before = actions_view(actions@);
        let ghost transcript = result@;
        let mut actions = actions;
        push_action(&mut actions, Action::Emit(ControllerOutput::TranscriptReady(result)));
        push_action(&mut actions, Action::Emit(ControllerOutput::StateChanged(ControllerState::Idle)));
        push_action(&mut actions, notification("Transcription complete"));
        this.state = ControllerState::Idle;
        this.pending = Pending::Nothing;
        assert(actions_view(actions@) =~= start.completed(transcript, before).1);
        (this, actions)
    }

    fn fail(self, error: AppError, actions: Vec<Action>) -> (r: (Controller, Vec<Action>))
        ensures
            (r.0@, actions_view(r.1@)) == self@.failed(error@, actions_view(actions@)),
    {
        let mut this = self;
        let mut actions = actions;
        push_action(&mut actions, Action::Fail(error));
        this.pending = Pending::Nothing;
        this.halted = true;
        (this, actions)
    }

    fn on_toggle(self) -> (r: (Controller, Vec<Action>))
        ensures
            (r.0@, actions_view(r.1@)) == self@.on_toggle(),
    {
        let mut this = self;
        let mut actions = no_actions();
        match &this.state {
            ControllerState::Idle | ControllerState::Degraded(_) => {
                let output_dir = join_path(this.context.paths.cache_dir.as_str(), "capture");
                let watchdog = CaptureWatchdogConfig::from_millis(
                    this.context.config.audio.arming_timeout_ms,
                    this.context.config.audio.stall_timeout_ms,
                );
                assert(watchdog == this@.watchdog());
                push_action(&mut actions, Action::StartRecording { output_dir, watchdog });
                this.pending = Pending::Start;
            },
            ControllerState::Recording => {
                if this.recording {
                    push_action(&mut actions, Action::StopRecording);
                    this.recording = false;
                    this.pending = Pending::StopForToggle;
                }
            },
            ControllerState::Processing => {
                push_action(
                    &mut actions,
                    notification("Transcription already in progress; finishing current job."),
                );
            },
            ControllerState::Unavailable(reason) => {
                let message = concat2("recording disabled: ", reason.as_str());
                push_action(&mut actions, Action::Emit(ControllerOutput::Notification(message)));
            },
        }
        (this, actions)
    }

    fn on_tick(self) -> (r: (Controller, Vec<Action>))
        ensures
            (r.0@, actions_view(r.1@)) == self@.on_tick(),
    {
        let mut this = self;
        let mut actions = no_actions();
        if this.recording {
            push_action(&mut actions, Action::ProbeRecording);
            this.pending = Pending::Probe;
        }
        (this, actions)
    }

    fn on_transcription_finished(self, wav_path: String, result: Result<TranscriptResult, String>) -> (r: (
        Controller,
        Vec<Action>,
    ))
        ensures
            (r.0@, actions_view(r.1@)) == self@.on_transcription_finished(
                wav_path@,
                match result {
                    Ok(t) => Ok(t@),
                    Err(reason) => Err(reason@),
                },
            ),
    {
        let mut this = self;
        let mut actions = no_actions();
        this.queue.mark_finished();
        if !this.context.config.audio.retain_audio {
            push_action(&mut actions, Action::RemoveArtifact(wav_path));
        }
        match result {
            Ok(transcript) => {
                if matches!(this.context.config.output.mode, OutputMode::ClipboardOnly) {
                    push_action(&mut actions, Action::WriteClipboard(transcript.transcript.clone()));
                    this.pending = Pending::Clipboard(transcript);
                    (this, actions)
                } else {
                    this.complete(transcript, actions)
                }
            },
            Err(reason) => {
                let detail = concat2("transcription job failed: ", reason.as_str());
                this.degrade(detail, actions)
            },
        }
    }

    fn on_shutdown(self) -> (r: (Controller, Vec<Action>))
        ensures
            (r.0@, actions_view(r.1@)) == self@.on_shutdown(),
    {
        let mut this = self;
        let ghost start = this@;
        let mut actions = no_actions();
        if this.recording {
            push_action(&mut actions, Action::AbortRecording);
        }
        push_action(&mut actions, Action::ShutdownWorker);
        push_action(&mut actions, Action::Emit(ControllerOutput::Stopped));
        this.recording = false;
        this.halted = true;
        assert(actions_view(actions@) =~= start.on_shutdown().1);
        (this, actions)
    }

    fn on_event(self, event: ControllerEvent) -> (r: (Controller, Vec<Action>))
        ensures
            (r.0@, actions_view(r.1@)) == self@.on_event(event@),
    {
        let mut this = self;
        match event {
            ControllerEvent::Toggle => this.on_toggle(),
            ControllerEvent::RunDoctor => {
                let mut actions = no_actions();
                push_action(&mut actions, Action::RunDoctor);
                this.pending = Pending::Doctor;
                (this, actions)
            },
            ControllerEvent::Tick => this.on_tick(),
            ControllerEvent::Shutdown => this.on_shutdown(),
            ControllerEvent::TranscriptionFinished { wav_path, result } => this.on_transcription_finished(
                wav_path,
                result,
            ),
        }
    }

    fn spawn_next_job(self, requested: String, actions: Vec<Action>) -> (r: (Controller, Vec<Action>))
        ensures
            (r.0@, actions_view(r.1@)) == self@.spawn_next_job(requested@, actions_view(actions@)),
    {
        let mut this = self;
        let mut actions = actions;
        match spawn_next_job(&this.context, &mut this.queue, requested.as_str()) {
            Ok(message) => {
                push_action(&mut actions, Action::Submit(message));
                (this, actions)
            },
            Err(error) => this.fail(error, actions),
        }
    }

    fn on_recording_stopped(self, stopped: AppResult<String>, timed: bool) -> (r: (Controller, Vec<Action>))
        ensures
            (r.0@, actions_view(r.1@)) == self@.on_recording_stopped(
                match stopped {
                    Ok(p) => Ok(p@),
                    Err(e) => Err(e@),
                },
                timed,
            ),
    {
        let mut this = self;
        this.pending = Pending::Nothing;
        match stopped {
            Ok(wav_path) => {
                let requested = wav_path.clone();
                match this.queue.enqueue(wav_path) {
                    Err(error) => {
                        let message = error.detail();
                        let detail = concat2(
                            if timed {
                                "unable to enqueue timed recording stop: "
                            } else {
                                "unable to enqueue recording: "
                            },
                            message.as_str(),
                        );
                        this.degrade(detail, no_actions())
                    },
                    Ok(_) => {
                        this.state = ControllerState::Processing;
                        let mut actions = no_actions();
                        push_action(
                            &mut actions,
                            Action::Emit(ControllerOutput::StateChanged(ControllerState::Processing)),
                        );
                        this.spawn_next_job(requested, actions)
                    },
                }
            },
            Err(error) => {
                let message = error.detail();
                let detail = concat2(
                    if timed {
                        "failed to finalize timed recording: "
                    } else {
                        "failed to finalize recording: "
                    },
                    message.as_str(),
                );
                this.degrade(detail, no_actions())
            },
        }
    }

    fn on_recording_probed(self, snapshot: WatchdogSnapshot, elapsed: u128) -> (r: (
        Controller,
        Vec<Action>,
    ))
        ensures
            (r.0@, actions_view(r.1@)) == self@.on_recording_probed(snapshot, elapsed),
    {
        let mut this = self;
        let mut actions = no_actions();
        if !snapshot.armed || snapshot.stalled {
            push_action(&mut actions, Action::AbortRecording);
            this.recording = false;
            this.degrade(watchdog_reason(snapshot), actions)
        } else if elapsed > (this.context.config.audio.max_recording_seconds as u128) * NANOS_PER_SECOND {
            push_action(&mut actions, Action::StopRecording);
            this.recording = false;
            this.pending = Pending::StopForTimeout;
            (this, actions)
        } else {
            this.pending = Pending::Nothing;
            (this, actions)
        }
    }

    fn on_reply(self, reply: Reply) -> (r: (Controller, Vec<Action>))
        ensures
            (r.0@, actions_view(r.1@)) == self@.on_reply(reply@),
    {
        let mut this = self;
        let Controller { context, state, recording, queue, pending, halted } = this;
        match (pending, reply) {
            (Pending::Start, Reply::RecordingStarted) => {
                let mut actions = no_actions();
                push_action(
                    &mut actions,
                    Action::Emit(ControllerOutput::StateChanged(ControllerState::Recording)),
                );
                push_action(&mut actions, notification("Recording started"));
                (
                    Controller {
                        context,
                        state: ControllerState::Recording,
                        recording: true,
                        queue,
                        pending: Pending::Nothing,
                        halted,
                    },
                    actions,
                )
            },
            (Pending::Start, Reply::RecordingStartFailed(error)) => {
                let message = error.detail();
                let detail = concat2("recording start failed: ", message.as_str());
                let c = Controller { context, state, recording, queue, pending: Pending::Start, halted };
                c.degrade(detail, no_actions())
            },
            (Pending::StopForToggle, Reply::RecordingStopped(stopped)) => {
                let c = Controller { context, state, recording, queue, pending: Pending::StopForToggle, halted };
                c.on_recording_stopped(stopped, false)
            },
            (Pending::StopForTimeout, Reply::RecordingStopped(stopped)) => {
                let c = Controller { context, state, recording, queue, pending: Pending::StopForTimeout, halted };
                c.on_recording_stopped(stopped, true)
            },
            (Pending::Probe, Reply::RecordingProbed { snapshot, elapsed }) => {
                let c = Controller { context, state, recording, queue, pending: Pending::Probe, halted };
                c.on_recording_probed(snapshot, elapsed)
            },
            (Pending::Doctor, Reply::DoctorFinished(report)) => {
                let mut actions = no_actions();
                push_action(&mut actions, Action::Emit(ControllerOutput::DoctorReport(report)));
                (Controller { context, state, recording, queue, pending: Pending::Nothing, halted }, actions)
            },
            (Pending::Clipboard(transcript), Reply::ClipboardWritten(written)) => {
                let c = Controller { context, state, recording, queue, pending: Pending::Nothing, halted };
                match written {
                    Ok(_) => c.complete(transcript, no_actions()),
                    Err(error) => {
                        let message = error.detail();
                        let detail = concat2("clipboard output failed: ", message.as_str());
                        c.degrade(detail, no_actions())
                    },
                }
            },
            (pending, _) => (Controller { context, state, recording, queue, pending, halted }, no_actions()),
        }
    }

    fn on_fault(self, fault: Fault) -> (r: (Controller, Vec<Action>))
        ensures
            (r.0@, actions_view(r.1@)) == self@.on_fault(fault),
    {
        match fault {
            Fault::EventChannelClosed => self.fail(
                AppError::ChannelClosed(String::from_str("controller event channel closed")),
                no_actions(),
            ),
            Fault::OutputChannelClosed => self.fail(
                AppError::ChannelClosed(String::from_str("controller output channel closed")),
                no_actions(),
            ),
            Fault::WorkerChannelClosed => {
                let mut actions = no_actions();
                push_action(&mut actions, notification("transcription worker channel is closed"));
                self.fail(
                    AppError::Controller(String::from_str("transcription worker channel closed")),
                    actions,
                )
            },
        }
    }

    /// Takes one input and returns the next controller with the actions the host has to
    /// carry out, in order. Events are taken one at a time: the host hands over the next
    /// event only after it has carried out the actions of the last one and answered those
    /// that ask for an answer, so no event arrives while the controller waits.
    pub fn step(self, input: Input) -> (r: (Controller, Vec<Action>))
        requires
            input is Event ==> self@.halted || self@.pending is Nothing,
        ensures
            (r.0@, actions_view(r.1@)) == self@.step(input@),
            self@.consistent() ==> r.0@.consistent(),
    {
        let mut this = self;
        proof {
            if this@.consistent() {
                lemma_step_keeps_consistency(this@, input@);
            }
        }
        if this.halted {
            match input {
                Input::Event(ControllerEvent::TranscriptionFinished { .. }) => {
                    this.queue.mark_finished();
                    (this, no_actions())
                },
                _ => (this, no_actions()),
            }
        } else {
            match input {
                Input::Event(event) => {
                    if matches!(this.pending, Pending::Nothing) {
                        this.on_event(event)
                    } else {
                        (this, no_actions())
                    }
                },
                Input::Reply(reply) => this.on_reply(reply),
                Input::Fault(fault) => this.on_fault(fault),
            }
        }
    }
}

impl ControllerView {
    /// What holds of every controller a run can reach: the queue admits one job and is
    /// within its bound, a capture is only stopped or probed while none is marked live,
    /// and a controller that has ended waits for nothing.
    pub open spec fn consistent(self) -> bool {
        &&& self.queue.max_in_flight == 1
        &&& self.queue.bounded()
        &&& self.halted ==> self.pending is Nothing
        &&& (self.pending is StopForToggle || self.pending is StopForTimeout) ==> !self.recording
    }
}

/// Every step keeps the invariant, from whatever input.
pub proof fn lemma_step_keeps_consistency(c: ControllerView, input: InputView)
    requires
        c.consistent(),
    ensures
        c.step(input).0.consistent(),
{
}

} // verus!
