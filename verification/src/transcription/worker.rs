use vstd::prelude::*;
use vstd::string::StringExecFns;

use crate::controller::events::{ControllerEvent, ControllerEventView, ControllerOutput, ControllerOutputView};
use crate::controller::machine::WorkerMessage;
use crate::error::AppResult;
use crate::transcription::engine::EngineAdapter;
use crate::transcription::scheduler::{
    job_ran, result_view, run_transcription_job, TranscriptResult, TranscriptResultView,
};

verus! {

/// The completion reported for a job: its capture and the transcript, or the failure's
/// own text as the reason.
pub open spec fn spec_completion_event(
    wav_path: Seq<char>,
    outcome: Result<TranscriptResultView, crate::error::AppErrorView>,
) -> ControllerEventView {
    ControllerEventView::TranscriptionFinished {
        wav_path,
        result: match outcome {
            Ok(t) => Ok(t),
            Err(e) => Err(e.detail()),
        },
    }
}

/// Wraps the outcome of a job into the event the controller is told.
pub fn completion_event(wav_path: String, outcome: AppResult<TranscriptResult>) -> (event: ControllerEvent)
    ensures
        event@ == spec_completion_event(
            wav_path@,
            match outcome {
                Ok(t) => Ok(t@),
                Err(e) => Err(e@),
            },
        ),
{
    ControllerEvent::TranscriptionFinished {
        wav_path,
        result: match outcome {
            Ok(t) => Ok(t),
            Err(e) => Err(e.detail()),
        },
    }
}

/// Whether `event` reports the completion of the job on `wav_path`.
pub open spec fn completes(event: ControllerEvent, wav_path: Seq<char>) -> bool {
    event matches ControllerEvent::TranscriptionFinished { wav_path: reported, .. } && reported@ == wav_path
}

/// Serves one message: a job is run on the engine and answered with exactly one
/// completion for its capture, carrying what the job returned; a shutdown is answered
/// with nothing and ends the worker.
pub fn handle_worker_message<E: EngineAdapter>(engine: &E, message: &WorkerMessage) -> (r: Option<ControllerEvent>)
    ensures
        match *message {
            WorkerMessage::Transcribe { wav_path, db_path, config } => r matches Some(event) && completes(
                event,
                wav_path@,
            ) && exists|outcome: Result<TranscriptResultView, crate::error::AppErrorView>| #[trigger]
                job_ran(engine, wav_path@, db_path@, config@, outcome) && event@ == spec_completion_event(
                    wav_path@,
                    outcome,
                ),
            WorkerMessage::Shutdown => r is None,
        },
{
    match message {
        WorkerMessage::Transcribe { wav_path, db_path, config } => {
            let outcome = run_transcription_job(engine, wav_path.clone(), db_path.clone(), config);
            let ghost ran = result_view(outcome);
            let event = completion_event(wav_path.clone(), outcome);
            assert(job_ran(engine, wav_path@, db_path@, config@, ran) && event@ == spec_completion_event(
                wav_path@,
                ran,
            ));
            Some(event)
        },
        WorkerMessage::Shutdown => None,
    }
}

/// Serves a batch of messages in arrival order until a shutdown: every job accepted
/// before it is answered with exactly one completion, the completions come in the order
/// of the jobs, and nothing after the shutdown is served.
pub fn process_messages<E: EngineAdapter>(engine: &E, messages: &Vec<WorkerMessage>) -> (events: Vec<
    ControllerEvent,
>)
    ensures
        events@.len() <= messages@.len(),
        forall|i: int|
            0 <= i < events@.len() ==> (#[trigger] messages@[i] matches WorkerMessage::Transcribe {
                wav_path,
                ..
            } && completes(events@[i], wav_path@)),
        events@.len() == messages@.len() || messages@[events@.len() as int] is Shutdown,
{
    let mut events: Vec<ControllerEvent> = Vec::new();
    let mut i: usize = 0;
    while i < messages.len()
        invariant
            i <= messages.len(),
            events@.len() == i,
            forall|j: int|
                0 <= j < i ==> (#[trigger] messages@[j] matches WorkerMessage::Transcribe { wav_path, .. }
                    && completes(events@[j], wav_path@)),
        decreases messages.len() - i,
    {
        match handle_worker_message(engine, &messages[i]) {
            Some(event) => events.push(event),
            None => return events,
        }
        i += 1;
    }
    events
}

/// The notice published when a completion can no longer be delivered.
pub fn undelivered_notice() -> (output: ControllerOutput)
    ensures
        output@ == ControllerOutputView::Notification(
            "controller stopped before transcription completion could be delivered"@,
        ),
{
    ControllerOutput::Notification(
        String::from_str("controller stopped before transcription completion could be delivered"),
    )
}

} // verus!
