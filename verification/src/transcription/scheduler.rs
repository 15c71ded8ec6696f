use vstd::prelude::*;

use crate::config::schema::{TranscriptionConfig, TranscriptionConfigView};
use crate::error::{AppErrorView, AppResult};
use crate::text::{clone_opt_string, clone_strings, opt_view, strings_view};
use crate::transcription::backend::BackendKind;
use crate::transcription::engine::{EngineAdapter, RunReport};
use crate::transcription::request_builder::{build_request, spec_build_request};

verus! {

/// What a finished transcription hands to its listeners.
#[derive(Debug, Clone)]
pub struct TranscriptResult {
    pub run_id: String,
    pub backend: BackendKind,
    pub transcript: String,
    pub language: Option<String>,
    pub warnings: Vec<String>,
    pub finished_at_rfc3339: String,
}

/// Mathematical model of a [`TranscriptResult`].
pub struct TranscriptResultView {
    pub run_id: Seq<char>,
    pub backend: BackendKind,
    pub transcript: Seq<char>,
    pub language: Option<Seq<char>>,
    pub warnings: Seq<Seq<char>>,
    pub finished_at_rfc3339: Seq<char>,
}

impl View for TranscriptResult {
    type V = TranscriptResultView;

    open spec fn view(&self) -> TranscriptResultView {
        TranscriptResultView {
            run_id: self.run_id@,
            backend: self.backend,
            transcript: self.transcript@,
            language: opt_view(self.language),
            warnings: strings_view(self.warnings@),
            finished_at_rfc3339: self.finished_at_rfc3339@,
        }
    }
}

impl TranscriptResult {
    /// Copies the result.
    pub fn duplicate(&self) -> (r: Self)
        ensures
            r@ == self@,
    {
        TranscriptResult {
            run_id: self.run_id.clone(),
            backend: self.backend,
            transcript: self.transcript.clone(),
            language: clone_opt_string(&self.language),
            warnings: clone_strings(&self.warnings),
            finished_at_rfc3339: self.finished_at_rfc3339.clone(),
        }
    }
}

/// The result a run report is condensed to.
pub open spec fn spec_transcript_from_report(report: RunReport) -> TranscriptResultView {
    TranscriptResultView {
        run_id: report.run_id@,
        backend: report.result.backend,
        transcript: report.result.transcript@,
        language: opt_view(report.result.language),
        warnings: strings_view(report.warnings@),
        finished_at_rfc3339: report.finished_at_rfc3339@,
    }
}

/// Condenses the engine's report to what listeners need.
pub fn transcript_from_report(report: RunReport) -> (r: TranscriptResult)
    ensures
        r@ == spec_transcript_from_report(report),
{
    TranscriptResult {
        run_id: report.run_id,
        backend: report.result.backend,
        transcript: report.result.transcript,
        language: report.result.language,
        warnings: report.warnings,
        finished_at_rfc3339: report.finished_at_rfc3339,
    }
}

/// What a job returns for each outcome of the engine call: the condensed report, or
/// the engine's error unchanged.
pub open spec fn spec_job_outcome(outcome: AppResult<RunReport>) -> Result<TranscriptResultView, AppErrorView> {
    match outcome {
        Ok(report) => Ok(spec_transcript_from_report(report)),
        Err(error) => Err(error@),
    }
}

/// The model of a job's result.
pub open spec fn result_view(r: AppResult<TranscriptResult>) -> Result<TranscriptResultView, AppErrorView> {
    match r {
        Ok(t) => Ok(t@),
        Err(e) => Err(e@),
    }
}

/// What a job returns for each outcome of the engine call.
pub fn job_outcome(outcome: AppResult<RunReport>) -> (r: AppResult<TranscriptResult>)
    ensures
        result_view(r) == spec_job_outcome(outcome),
{
    match outcome {
        Ok(report) => Ok(transcript_from_report(report)),
        Err(error) => Err(error),
    }
}

/// The result `r` is what the job on `wav_path` returns for some answer of the engine to
/// exactly the request built from the job.
pub open spec fn job_ran<E: EngineAdapter>(
    engine: &E,
    wav_path: Seq<char>,
    db_path: Seq<char>,
    config: TranscriptionConfigView,
    r: Result<TranscriptResultView, AppErrorView>,
) -> bool {
    exists|outcome: AppResult<RunReport>| #[trigger]
        engine.answered(spec_build_request(wav_path, db_path, config), outcome) && r == spec_job_outcome(
            outcome,
        )
}

/// Runs one transcription: hands the engine the request built from the job, once, and
/// condenses its answer. Whether the engine succeeds is the engine's affair.
pub fn run_transcription_job<E: EngineAdapter>(
    engine: &E,
    wav_path: String,
    db_path: String,
    config: &TranscriptionConfig,
) -> (r: AppResult<TranscriptResult>)
    ensures
        job_ran(engine, wav_path@, db_path@, config@, result_view(r)),
{
    let request = build_request(wav_path, db_path, config);
    let outcome = engine.transcribe_request(request);
    job_outcome(outcome)
}

} // verus!
