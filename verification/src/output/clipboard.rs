use vstd::prelude::*;

use crate::error::{AppError, AppErrorView, AppResult};
use crate::text::concat2;

verus! {

/// Writes transcripts to the system clipboard.
#[derive(Debug, Clone, Copy)]
pub struct ClipboardOutput;

/// How an attempt to put text on the clipboard went.
#[derive(Debug, Clone)]
pub enum ClipboardAttempt {
    /// The clipboard could not be opened.
    InitFailed(String),
    /// The clipboard was opened but refused the text.
    WriteFailed(String),
    /// The text is on the clipboard.
    Written,
}

/// The result of a clipboard attempt.
pub open spec fn spec_write_text(attempt: ClipboardAttempt) -> Result<(), AppErrorView> {
    match attempt {
        ClipboardAttempt::InitFailed(detail) => Err(
            AppErrorView::Clipboard("clipboard init failed: "@ + detail@),
        ),
        ClipboardAttempt::WriteFailed(detail) => Err(
            AppErrorView::Clipboard("clipboard write failed: "@ + detail@),
        ),
        ClipboardAttempt::Written => Ok(()),
    }
}

impl ClipboardOutput {
    /// Turns the outcome of a clipboard attempt into the result reported to the
    /// controller, with a prefix that tells opening from writing.
    pub fn write_text(attempt: &ClipboardAttempt) -> (r: AppResult<()>)
        ensures
            match spec_write_text(*attempt) {
                Ok(_) => r is Ok,
                Err(expected) => r matches Err(e) && e@ == expected,
            },
    {
        match attempt {
            ClipboardAttempt::InitFailed(detail) => Err(
                AppError::Clipboard(concat2("clipboard init failed: ", detail.as_str())),
            ),
            ClipboardAttempt::WriteFailed(detail) => Err(
                AppError::Clipboard(concat2("clipboard write failed: ", detail.as_str())),
            ),
            ClipboardAttempt::Written => Ok(()),
        }
    }
}

} // verus!
