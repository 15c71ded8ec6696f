use vstd::prelude::*;

use crate::config::schema::{TranscriptionConfig, TranscriptionConfigView};
use crate::text::{clone_opt_string, opt_view};
use crate::transcription::backend::BackendKind;

verus! {

/// Everything the engine is told about one job.
#[derive(Debug, Clone)]
pub struct TranscribeRequest {
    pub input_path: String,
    pub backend: BackendKind,
    pub model: Option<String>,
    pub language: Option<String>,
    pub translate: bool,
    pub diarize: bool,
    pub persist: bool,
    pub db_path: String,
    pub timeout_ms: Option<u64>,
    pub threads: Option<u32>,
    pub processors: Option<u32>,
}

/// Mathematical model of a [`TranscribeRequest`].
pub struct TranscribeRequestView {
    pub input_path: Seq<char>,
    pub backend: BackendKind,
    pub model: Option<Seq<char>>,
    pub language: Option<Seq<char>>,
    pub translate: bool,
    pub diarize: bool,
    pub persist: bool,
    pub db_path: Seq<char>,
    pub timeout_ms: Option<u64>,
    pub threads: Option<u32>,
    pub processors: Option<u32>,
}

impl View for TranscribeRequest {
    type V = TranscribeRequestView;

    open spec fn view(&self) -> TranscribeRequestView {
        TranscribeRequestView {
            input_path: self.input_path@,
            backend: self.backend,
            model: opt_view(self.model),
            language: opt_view(self.language),
            translate: self.translate,
            diarize: self.diarize,
            persist: self.persist,
            db_path: self.db_path@,
            timeout_ms: self.timeout_ms,
            threads: self.threads,
            processors: self.processors,
        }
    }
}

/// The request for a job: the configured options, the run always persisted, and the
/// timeout handed over in milliseconds so that the engine itself enforces it.
pub open spec fn spec_build_request(
    wav_path: Seq<char>,
    db_path: Seq<char>,
    cfg: TranscriptionConfigView,
) -> TranscribeRequestView {
    TranscribeRequestView {
        input_path: wav_path,
        backend: cfg.backend,
        model: cfg.model_id,
        language: cfg.language,
        translate: cfg.translate,
        diarize: cfg.diarize,
        persist: true,
        db_path,
        timeout_ms: Some(cfg.timeout_ms()),
        threads: cfg.threads,
        processors: cfg.processors,
    }
}

/// Builds the engine request for one job.
pub fn build_request(wav_path: String, db_path: String, cfg: &TranscriptionConfig) -> (r: TranscribeRequest)
    ensures
        r@ == spec_build_request(wav_path@, db_path@, cfg@),
{
    TranscribeRequest {
        input_path: wav_path,
        backend: cfg.backend,
        model: clone_opt_string(&cfg.model_id),
        language: clone_opt_string(&cfg.language),
        translate: cfg.translate,
        diarize: cfg.diarize,
        persist: true,
        db_path,
        timeout_ms: Some(cfg.timeout_ms()),
        threads: cfg.threads,
        processors: cfg.processors,
    }
}

} // verus!
