use vstd::prelude::*;

use crate::error::{AppError, AppErrorView, AppResult};
use crate::text::concat2;
use crate::transcription::backend::BackendKind;
use crate::transcription::request_builder::{TranscribeRequest, TranscribeRequestView};

verus! {

/// The part of a run report that describes the transcript.
#[derive(Debug, Clone)]
pub struct TranscriptionResult {
    pub backend: BackendKind,
    pub transcript: String,
    pub language: Option<String>,
}

/// What the engine reports about a finished run.
#[derive(Debug, Clone)]
pub struct RunReport {
    pub run_id: String,
    pub finished_at_rfc3339: String,
    pub result: TranscriptionResult,
    pub warnings: Vec<String>,
}

/// A speech-to-text engine: takes a request, returns a report or fails.
pub trait EngineAdapter {
    /// Whether the engine, asked `request`, may answer `outcome`. An engine that says
    /// nothing about itself may answer anything; the relation then only records which
    /// request an outcome belongs to.
    open spec fn answered(&self, request: TranscribeRequestView, outcome: AppResult<RunReport>) -> bool {
        true
    }

    fn transcribe_request(&self, request: TranscribeRequest) -> (outcome: AppResult<RunReport>)
        ensures
            self.answered(request@, outcome),
    ;
}

/// The error for an engine that could not be constructed.
pub fn map_init_error(detail: &str) -> (e: AppError)
    ensures
        e@ == AppErrorView::Transcription("engine init failed: "@ + detail@),
{
    AppError::Transcription(concat2("engine init failed: ", detail))
}

/// Passes a successful engine call through and wraps a failed one.
pub fn map_transcribe_result<T>(result: Result<T, String>) -> (r: AppResult<T>)
    ensures
        match result {
            Ok(value) => r == Ok::<T, AppError>(value),
            Err(detail) => r matches Err(e) && e@ == AppErrorView::Transcription(
                "engine transcribe failed: "@ + detail@,
            ),
        },
{
    match result {
        Ok(value) => Ok(value),
        Err(detail) => Err(
            AppError::Transcription(concat2("engine transcribe failed: ", detail.as_str())),
        ),
    }
}

} // verus!
