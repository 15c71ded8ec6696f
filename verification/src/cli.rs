use vstd::prelude::*;

use crate::config::load::{parse_output_mode, spec_parse_output_mode, CliOverrides};
use crate::config::schema::OutputMode;
use crate::text::{clone_opt_string, opt_view};
use crate::transcription::backend::BackendKind;

verus! {

/// What the daemon was asked to do.
#[derive(Debug, Clone, Copy, PartialEq, Eq, Structural)]
pub enum Command {
    Run,
    Doctor { json: bool },
    Install,
    Status,
}

/// The parsed command line.
#[derive(Debug, Clone)]
pub struct Cli {
    pub config: Option<String>,
    pub backend: Option<BackendKind>,
    pub model_id: Option<String>,
    pub language: Option<String>,
    pub timeout_seconds: Option<u64>,
    pub diarize: Option<bool>,
    pub translate: Option<bool>,
    pub hotkey_binding: Option<String>,
    pub output_mode: Option<String>,
    pub command: Command,
}

/// Reads the output mode given on the command line; an unknown word overrides nothing.
pub fn parse_output_mode_override(raw: &str) -> (r: Option<OutputMode>)
    ensures
        r == spec_parse_output_mode(raw@),
{
    parse_output_mode(raw)
}

impl Cli {
    /// The overrides the command line asks for.
    pub fn to_overrides(&self) -> (o: CliOverrides)
        ensures
            opt_view(o.config_path) == opt_view(self.config),
            o.backend == self.backend,
            opt_view(o.model_id) == opt_view(self.model_id),
            opt_view(o.language) == opt_view(self.language),
            o.timeout_seconds == self.timeout_seconds,
            o.diarize == self.diarize,
            o.translate == self.translate,
            opt_view(o.hotkey_binding) == opt_view(self.hotkey_binding),
            o.output_mode == (match self.output_mode {
                Some(raw) => spec_parse_output_mode(raw@),
                None => None,
            }),
    {
        CliOverrides {
            config_path: clone_opt_string(&self.config),
            backend: self.backend,
            model_id: clone_opt_string(&self.model_id),
            language: clone_opt_string(&self.language),
            timeout_seconds: self.timeout_seconds,
            diarize: self.diarize,
            translate: self.translate,
            hotkey_binding: clone_opt_string(&self.hotkey_binding),
            output_mode: match &self.output_mode {
                Some(raw) => parse_output_mode_override(raw.as_str()),
                None => None,
            },
        }
    }
}

} // verus!
