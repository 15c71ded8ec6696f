use vstd::prelude::*;

use crate::transcription::backend::BackendKind;

verus! {

/// What the status report shows of one past run.
#[derive(Debug, Clone)]
pub struct RunSummary {
    pub run_id: String,
    pub started_at_rfc3339: String,
    pub finished_at_rfc3339: String,
    pub backend: BackendKind,
    pub transcript_preview: String,
}

/// Mathematical model of a [`RunSummary`].
pub struct RunSummaryView {
    pub run_id: Seq<char>,
    pub started_at_rfc3339: Seq<char>,
    pub finished_at_rfc3339: Seq<char>,
    pub backend: BackendKind,
    pub transcript_preview: Seq<char>,
}

impl View for RunSummary {
    type V = RunSummaryView;

    open spec fn view(&self) -> RunSummaryView {
        RunSummaryView {
            run_id: self.run_id@,
            started_at_rfc3339: self.started_at_rfc3339@,
            finished_at_rfc3339: self.finished_at_rfc3339@,
            backend: self.backend,
            transcript_preview: self.transcript_preview@,
        }
    }
}

} // verus!
