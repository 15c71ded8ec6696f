use vstd::prelude::*;

use crate::error::{AppError, AppErrorView, AppResult};
use crate::history::models::{RunSummary, RunSummaryView};
use crate::text::{contains, spec_contains, spec_take_chars, take_chars, text_eq};
use crate::transcription::backend::BackendKind;

verus! {

/// Longest transcript preview kept in a summary, in characters.
pub const PREVIEW_CHARS: usize = 140;

/// Reads run summaries from the history database at `db_path`.
#[derive(Debug, Clone)]
pub struct HistoryStore {
    db_path: String,
}

/// One row of the `runs` table as stored.
#[derive(Debug, Clone)]
pub struct RunRow {
    pub id: String,
    pub started_at: String,
    pub finished_at: String,
    pub backend: String,
    pub transcript: String,
}

/// A database failure as far as the store looks at it.
#[derive(Debug, Clone)]
pub struct SqliteFailure {
    /// The message of a failure the database itself reported, if it was such a failure
    /// and carried one.
    pub engine_message: Option<String>,
    /// The failure spelled out for the user.
    pub description: String,
}

/// The backend a stored label names; an unknown label counts as automatic.
pub open spec fn spec_parse_backend(raw: Seq<char>) -> BackendKind {
    if raw == "whisper_cpp"@ {
        BackendKind::WhisperCpp
    } else if raw == "insanely_fast"@ {
        BackendKind::InsanelyFast
    } else if raw == "whisper_diarization"@ {
        BackendKind::WhisperDiarization
    } else {
        BackendKind::Auto
    }
}

/// Reads a stored backend label.
pub fn parse_backend(raw: &str) -> (r: BackendKind)
    ensures
        r == spec_parse_backend(raw@),
{
    if text_eq(raw, "whisper_cpp") {
        BackendKind::WhisperCpp
    } else if text_eq(raw, "insanely_fast") {
        BackendKind::InsanelyFast
    } else if text_eq(raw, "whisper_diarization") {
        BackendKind::WhisperDiarization
    } else {
        BackendKind::Auto
    }
}

/// The summary of a stored row: its fields, the backend read from its label, and at
/// most the first 140 characters of the transcript.
pub open spec fn spec_summarize(row: RunRow) -> RunSummaryView {
    RunSummaryView {
        run_id: row.id@,
        started_at_rfc3339: row.started_at@,
        finished_at_rfc3339: row.finished_at@,
        backend: spec_parse_backend(row.backend@),
        transcript_preview: spec_take_chars(row.transcript@, PREVIEW_CHARS as nat),
    }
}

/// Summarizes one stored row.
pub fn summarize(row: RunRow) -> (r: RunSummary)
    ensures
        r@ == spec_summarize(row),
        r@.transcript_preview.len() <= 140,
{
    let backend = parse_backend(row.backend.as_str());
    let transcript_preview = take_chars(row.transcript.as_str(), PREVIEW_CHARS);
    RunSummary {
        run_id: row.id,
        started_at_rfc3339: row.started_at,
        finished_at_rfc3339: row.finished_at,
        backend,
        transcript_preview,
    }
}

/// Summarizes the rows a query returned, keeping their order.
pub fn summarize_rows(rows: Vec<RunRow>) -> (r: Vec<RunSummary>)
    ensures
        r@.len() == rows@.len(),
        forall|i: int| 0 <= i < rows@.len() ==> (#[trigger] r@[i])@ == spec_summarize(rows@[i]),
{
    let mut out: Vec<RunSummary> = Vec::new();
    let mut i: usize = 0;
    while i < rows.len()
        invariant
            i <= rows.len(),
            out@.len() == i,
            forall|j: int| 0 <= j < i ==> (#[trigger] out@[j])@ == spec_summarize(rows@[j]),
        decreases rows.len() - i,
    {
        let row = &rows[i];
        out.push(
            summarize(
                RunRow {
                    id: row.id.clone(),
                    started_at: row.started_at.clone(),
                    finished_at: row.finished_at.clone(),
                    backend: row.backend.clone(),
                    transcript: row.transcript.clone(),
                },
            ),
        );
        i += 1;
    }
    out
}

/// The row limit handed to the query: zero asks for everything.
pub fn limit_param(limit: usize) -> (r: i64)
    ensures
        r == (if limit == 0 || limit > i64::MAX {
            i64::MAX
        } else {
            limit as i64
        }),
{
    let wide: u64 = limit as u64;
    if wide == 0 || wide > 0x7FFF_FFFF_FFFF_FFFF {
        0x7FFF_FFFF_FFFF_FFFF
    } else {
        limit as i64
    }
}

/// Whether a failure only says that the schema is not there yet.
pub open spec fn spec_is_missing_schema(failure: SqliteFailure) -> bool {
    failure.engine_message matches Some(message) && (spec_contains(message@, "no such table"@)
        || spec_contains(message@, "no such column"@))
}

/// What a failed query amounts to: a missing table or column means an empty history,
/// anything else is an error.
pub fn handle_missing_schema(failure: SqliteFailure) -> (r: AppResult<Vec<RunSummary>>)
    ensures
        spec_is_missing_schema(failure) ==> (r matches Ok(runs) && runs@.len() == 0),
        !spec_is_missing_schema(failure) ==> (r matches Err(e) && e@ == AppErrorView::Sqlite(
            failure.description@,
        )),
{
    let missing = match &failure.engine_message {
        Some(message) => contains(message.as_str(), "no such table") || contains(
            message.as_str(),
            "no such column",
        ),
        None => false,
    };
    if missing {
        Ok(Vec::new())
    } else {
        Err(AppError::Sqlite(failure.description))
    }
}

/// The newest run among those a query for one row returned.
pub fn latest_of(runs: Vec<RunSummary>) -> (r: Option<RunSummary>)
    ensures
        runs@.len() == 0 ==> r is None,
        runs@.len() > 0 ==> r == Some(runs@.last()),
{
    let mut runs = runs;
    runs.pop()
}

impl HistoryStore {
    /// The database the store reads.
    pub closed spec fn spec_db_path(&self) -> Seq<char> {
        self.db_path@
    }

    /// Creates a store over the database at `db_path`.
    pub fn new(db_path: String) -> (store: Self)
        ensures
            store.spec_db_path() == db_path@,
    {
        HistoryStore { db_path }
    }

    /// The recent runs, given how the query for them went: the rows summarized in order,
    /// an empty history while the schema is missing, the failure otherwise.
    pub fn list_recent_runs(&self, queried: Result<Vec<RunRow>, SqliteFailure>) -> (r: AppResult<Vec<RunSummary>>)
        ensures
            match queried {
                Ok(rows) => r matches Ok(runs) && runs@.len() == rows@.len() && forall|i: int|
                    0 <= i < rows@.len() ==> (#[trigger] runs@[i])@ == spec_summarize(rows@[i]),
                Err(failure) => if spec_is_missing_schema(failure) {
                    r matches Ok(runs) && runs@.len() == 0
                } else {
                    r matches Err(e) && e@ == AppErrorView::Sqlite(failure.description@)
                },
            },
    {
        match queried {
            Ok(rows) => Ok(summarize_rows(rows)),
            Err(failure) => handle_missing_schema(failure),
        }
    }

    /// The newest run among those a query for one row returned.
    pub fn latest_run(&self, runs: Vec<RunSummary>) -> (r: Option<RunSummary>)
        ensures
            runs@.len() == 0 ==> r is None,
            runs@.len() > 0 ==> r == Some(runs@.last()),
    {
        latest_of(runs)
    }

    /// The database the store reads.
    pub fn db_path(&self) -> (r: &String)
        ensures
            r@ == self.spec_db_path(),
    {
        &self.db_path
    }
}

} // verus!
