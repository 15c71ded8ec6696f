use vstd::prelude::*;

verus! {

/// The speech-to-text backends a job can be routed to.
#[derive(Debug, Clone, Copy, PartialEq, Eq, Structural)]
pub enum BackendKind {
    Auto,
    WhisperCpp,
    InsanelyFast,
    WhisperDiarization,
}

impl BackendKind {
    /// The snake_case label under which the backend is stored and shown.
    pub open spec fn spec_label(self) -> Seq<char> {
        match self {
            BackendKind::Auto => "auto"@,
            BackendKind::WhisperCpp => "whisper_cpp"@,
            BackendKind::InsanelyFast => "insanely_fast"@,
            BackendKind::WhisperDiarization => "whisper_diarization"@,
        }
    }

    /// Returns the snake_case label of the backend.
    pub fn label(self) -> (r: &'static str)
        ensures
            r@ == self.spec_label(),
    {
        match self {
            BackendKind::Auto => "auto",
            BackendKind::WhisperCpp => "whisper_cpp",
            BackendKind::InsanelyFast => "insanely_fast",
            BackendKind::WhisperDiarization => "whisper_diarization",
        }
    }

    /// The variant name, as a debug rendering shows it.
    pub open spec fn spec_debug_name(self) -> Seq<char> {
        match self {
            BackendKind::Auto => "Auto"@,
            BackendKind::WhisperCpp => "WhisperCpp"@,
            BackendKind::InsanelyFast => "InsanelyFast"@,
            BackendKind::WhisperDiarization => "WhisperDiarization"@,
        }
    }

    /// Returns the variant name.
    pub fn debug_name(self) -> (r: &'static str)
        ensures
            r@ == self.spec_debug_name(),
    {
        match self {
            BackendKind::Auto => "Auto",
            BackendKind::WhisperCpp => "WhisperCpp",
            BackendKind::InsanelyFast => "InsanelyFast",
            BackendKind::WhisperDiarization => "WhisperDiarization",
        }
    }
}

} // verus!
