use vstd::prelude::*;

use crate::controller::state::{ControllerState, ControllerStateView};
use crate::doctor::report::{DoctorReport, DoctorReportView};
use crate::transcription::scheduler::{TranscriptResult, TranscriptResultView};

verus! {

/// What can happen to the controller from outside.
#[derive(Debug)]
pub enum ControllerEvent {
    Toggle,
    RunDoctor,
    Tick,
    Shutdown,
    TranscriptionFinished { wav_path: String, result: Result<TranscriptResult, String> },
}

/// Mathematical model of a [`ControllerEvent`].
pub enum ControllerEventView {
    Toggle,
    RunDoctor,
    Tick,
    Shutdown,
    TranscriptionFinished { wav_path: Seq<char>, result: Result<TranscriptResultView, Seq<char>> },
}

impl View for ControllerEvent {
    type V = ControllerEventView;

    open spec fn view(&self) -> ControllerEventView {
        match *self {
            ControllerEvent::Toggle => ControllerEventView::Toggle,
            ControllerEvent::RunDoctor => ControllerEventView::RunDoctor,
            ControllerEvent::Tick => ControllerEventView::Tick,
            ControllerEvent::Shutdown => ControllerEventView::Shutdown,
            ControllerEvent::TranscriptionFinished { wav_path, result } => {
                ControllerEventView::TranscriptionFinished {
                    wav_path: wav_path@,
                    result: match result {
                        Ok(r) => Ok(r@),
                        Err(reason) => Err(reason@),
                    },
                }
            },
        }
    }
}

/// What the controller tells its listeners.
#[derive(Debug, Clone)]
pub enum ControllerOutput {
    StateChanged(ControllerState),
    Notification(String),
    DoctorReport(DoctorReport),
    TranscriptReady(TranscriptResult),
    Stopped,
}

/// Mathematical model of a [`ControllerOutput`].
pub enum ControllerOutputView {
    StateChanged(ControllerStateView),
    Notification(Seq<char>),
    DoctorReport(DoctorReportView),
    TranscriptReady(TranscriptResultView),
    Stopped,
}

impl View for ControllerOutput {
    type V = ControllerOutputView;

    open spec fn view(&self) -> ControllerOutputView {
        match *self {
            ControllerOutput::StateChanged(s) => ControllerOutputView::StateChanged(s@),
            ControllerOutput::Notification(m) => ControllerOutputView::Notification(m@),
            ControllerOutput::DoctorReport(r) => ControllerOutputView::DoctorReport(r@),
            ControllerOutput::TranscriptReady(r) => ControllerOutputView::TranscriptReady(r@),
            ControllerOutput::Stopped => ControllerOutputView::Stopped,
        }
    }
}

impl ControllerOutputView {
    /// The snake_case tag under which the output is published.
    pub open spec fn tag(self) -> Seq<char> {
        match self {
            ControllerOutputView::StateChanged(_) => "state_changed"@,
            ControllerOutputView::Notification(_) => "notification"@,
            ControllerOutputView::DoctorReport(_) => "doctor_report"@,
            ControllerOutputView::TranscriptReady(_) => "transcript_ready"@,
            ControllerOutputView::Stopped => "stopped"@,
        }
    }
}

impl ControllerOutput {
    /// The snake_case tag under which the output is published.
    pub fn tag(&self) -> (r: &'static str)
        ensures
            r@ == self@.tag(),
    {
        match self {
            ControllerOutput::StateChanged(_) => "state_changed",
            ControllerOutput::Notification(_) => "notification",
            ControllerOutput::DoctorReport(_) => "doctor_report",
            ControllerOutput::TranscriptReady(_) => "transcript_ready",
            ControllerOutput::Stopped => "stopped",
        }
    }
}

} // verus!
