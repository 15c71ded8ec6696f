use vstd::prelude::*;
use vstd::string::StringExecFns;

use crate::text::{clone_opt_string, opt_view};
use crate::transcription::backend::BackendKind;

verus! {

/// The whole configuration of the daemon, one section per concern.
#[derive(Debug, Clone)]
pub struct AppConfig {
    pub hotkey: HotkeyConfig,
    pub audio: AudioConfig,
    pub transcription: TranscriptionConfig,
    pub output: OutputConfig,
    pub history: HistoryConfig,
    pub service: ServiceConfig,
    pub diagnostics: DiagnosticsConfig,
    pub permissions: PermissionsConfig,
}

/// Mathematical model of an [`AppConfig`].
pub struct AppConfigView {
    pub hotkey: HotkeyConfigView,
    pub audio: AudioConfigView,
    pub transcription: TranscriptionConfigView,
    pub output: OutputConfig,
    pub history: HistoryConfigView,
    pub service: ServiceConfig,
    pub diagnostics: DiagnosticsConfigView,
    pub permissions: PermissionsConfig,
}

impl View for AppConfig {
    type V = AppConfigView;

    open spec fn view(&self) -> AppConfigView {
        AppConfigView {
            hotkey: self.hotkey@,
            audio: self.audio@,
            transcription: self.transcription@,
            output: self.output,
            history: self.history@,
            service: self.service,
            diagnostics: self.diagnostics@,
            permissions: self.permissions,
        }
    }
}

impl AppConfigView {
    /// The configuration used when nothing is specified.
    pub open spec fn default_value() -> AppConfigView {
        AppConfigView {
            hotkey: HotkeyConfigView::default_value(),
            audio: AudioConfigView::default_value(),
            transcription: TranscriptionConfigView::default_value(),
            output: OutputConfig::default_value(),
            history: HistoryConfigView::default_value(),
            service: ServiceConfig::default_value(),
            diagnostics: DiagnosticsConfigView::default_value(),
            permissions: PermissionsConfig::default_value(),
        }
    }
}

impl Default for AppConfig {
    fn default() -> (r: Self)
        ensures
            r@ == AppConfigView::default_value(),
    {
        AppConfig {
            hotkey: HotkeyConfig::default(),
            audio: AudioConfig::default(),
            transcription: TranscriptionConfig::default(),
            output: OutputConfig::default(),
            history: HistoryConfig::default(),
            service: ServiceConfig::default(),
            diagnostics: DiagnosticsConfig::default(),
            permissions: PermissionsConfig::default(),
        }
    }
}

impl AppConfig {
    /// Copies the configuration.
    pub fn duplicate(&self) -> (r: Self)
        ensures
            r@ == self@,
    {
        AppConfig {
            hotkey: self.hotkey.duplicate(),
            audio: self.audio.duplicate(),
            transcription: self.transcription.duplicate(),
            output: self.output,
            history: self.history.duplicate(),
            service: self.service,
            diagnostics: self.diagnostics.duplicate(),
            permissions: self.permissions,
        }
    }
}

/// The global toggle binding and how a failed registration is retried.
#[derive(Debug, Clone)]
pub struct HotkeyConfig {
    pub binding: String,
    pub retry_strategy: HotkeyRetryStrategy,
}

/// Mathematical model of a [`HotkeyConfig`].
pub struct HotkeyConfigView {
    pub binding: Seq<char>,
    pub retry_strategy: HotkeyRetryStrategy,
}

impl View for HotkeyConfig {
    type V = HotkeyConfigView;

    open spec fn view(&self) -> HotkeyConfigView {
        HotkeyConfigView { binding: self.binding@, retry_strategy: self.retry_strategy }
    }
}

impl HotkeyConfigView {
    /// The values used when the section is not configured.
    pub open spec fn default_value() -> HotkeyConfigView {
        HotkeyConfigView {
            binding: "Ctrl+Shift+Space"@,
            retry_strategy: HotkeyRetryStrategy::Immediate,
        }
    }
}

impl Default for HotkeyConfig {
    fn default() -> (r: Self)
        ensures
            r@ == HotkeyConfigView::default_value(),
    {
        HotkeyConfig {
            binding: String::from_str("Ctrl+Shift+Space"),
            retry_strategy: HotkeyRetryStrategy::Immediate,
        }
    }
}

impl HotkeyConfig {
    /// Copies the section.
    pub fn duplicate(&self) -> (r: Self)
        ensures
            r@ == self@,
    {
        HotkeyConfig { binding: self.binding.clone(), retry_strategy: self.retry_strategy }
    }
}

/// How a failed hotkey registration is retried.
#[derive(Debug, Clone, Copy, PartialEq, Eq, Structural)]
pub enum HotkeyRetryStrategy {
    Immediate,
    ExponentialBackoff,
}

/// Capture settings: device choice, the recording cap and the watchdog timeouts.
#[derive(Debug, Clone)]
pub struct AudioConfig {
    pub device: Option<String>,
    pub sample_rate_preference: Option<u32>,
    pub max_recording_seconds: u32,
    pub retain_audio: bool,
    pub arming_timeout_ms: u64,
    pub stall_timeout_ms: u64,
}

/// Mathematical model of an [`AudioConfig`].
pub struct AudioConfigView {
    pub device: Option<Seq<char>>,
    pub sample_rate_preference: Option<u32>,
    pub max_recording_seconds: u32,
    pub retain_audio: bool,
    pub arming_timeout_ms: u64,
    pub stall_timeout_ms: u64,
}

impl View for AudioConfig {
    type V = AudioConfigView;

    open spec fn view(&self) -> AudioConfigView {
        AudioConfigView {
            device: opt_view(self.device),
            sample_rate_preference: self.sample_rate_preference,
            max_recording_seconds: self.max_recording_seconds,
            retain_audio: self.retain_audio,
            arming_timeout_ms: self.arming_timeout_ms,
            stall_timeout_ms: self.stall_timeout_ms,
        }
    }
}

impl AudioConfigView {
    /// The values used when the section is not configured.
    pub open spec fn default_value() -> AudioConfigView {
        AudioConfigView {
            device: None,
            sample_rate_preference: None,
            max_recording_seconds: 300,
            retain_audio: false,
            arming_timeout_ms: 2_000,
            stall_timeout_ms: 750,
        }
    }
}

impl Default for AudioConfig {
    fn default() -> (r: Self)
        ensures
            r@ == AudioConfigView::default_value(),
    {
        AudioConfig {
            device: None,
            sample_rate_preference: None,
            max_recording_seconds: 300,
            retain_audio: false,
            arming_timeout_ms: 2_000,
            stall_timeout_ms: 750,
        }
    }
}

impl AudioConfig {
    /// Copies the section.
    pub fn duplicate(&self) -> (r: Self)
        ensures
            r@ == self@,
    {
        AudioConfig {
            device: clone_opt_string(&self.device),
            sample_rate_preference: self.sample_rate_preference,
            max_recording_seconds: self.max_recording_seconds,
            retain_audio: self.retain_audio,
            arming_timeout_ms: self.arming_timeout_ms,
            stall_timeout_ms: self.stall_timeout_ms,
        }
    }
}

/// What a transcription job asks of the engine.
#[derive(Debug, Clone)]
pub struct TranscriptionConfig {
    pub backend: BackendKind,
    pub model_id: Option<String>,
    pub language: Option<String>,
    pub translate: bool,
    pub diarize: bool,
    pub timeout_seconds: u64,
    pub threads: Option<u32>,
    pub processors: Option<u32>,
}

/// Mathematical model of a [`TranscriptionConfig`].
pub struct TranscriptionConfigView {
    pub backend: BackendKind,
    pub model_id: Option<Seq<char>>,
    pub language: Option<Seq<char>>,
    pub translate: bool,
    pub diarize: bool,
    pub timeout_seconds: u64,
    pub threads: Option<u32>,
    pub processors: Option<u32>,
}

impl View for TranscriptionConfig {
    type V = TranscriptionConfigView;

    open spec fn view(&self) -> TranscriptionConfigView {
        TranscriptionConfigView {
            backend: self.backend,
            model_id: opt_view(self.model_id),
            language: opt_view(self.language),
            translate: self.translate,
            diarize: self.diarize,
            timeout_seconds: self.timeout_seconds,
            threads: self.threads,
            processors: self.processors,
        }
    }
}

impl TranscriptionConfigView {
    /// The values used when the section is not configured.
    pub open spec fn default_value() -> TranscriptionConfigView {
        TranscriptionConfigView {
            backend: BackendKind::Auto,
            model_id: None,
            language: None,
            translate: false,
            diarize: false,
            timeout_seconds: 45,
            threads: None,
            processors: None,
        }
    }

    /// The engine timeout in milliseconds, saturating at the largest `u64`.
    pub open spec fn timeout_ms(self) -> u64 {
        if self.timeout_seconds * 1_000 <= u64::MAX {
            (self.timeout_seconds * 1_000) as u64
        } else {
            u64::MAX
        }
    }
}

impl Default for TranscriptionConfig {
    fn default() -> (r: Self)
        ensures
            r@ == TranscriptionConfigView::default_value(),
    {
        TranscriptionConfig {
            backend: BackendKind::Auto,
            model_id: None,
            language: None,
            translate: false,
            diarize: false,
            timeout_seconds: 45,
            threads: None,
            processors: None,
        }
    }
}

impl TranscriptionConfig {
    /// The engine timeout in milliseconds, saturating on overflow.
    pub fn timeout_ms(&self) -> (ms: u64)
        ensures
            ms == self@.timeout_ms(),
    {
        if self.timeout_seconds <= u64::MAX / 1_000 {
            self.timeout_seconds * 1_000
        } else {
            u64::MAX
        }
    }

    /// Copies the section.
    pub fn duplicate(&self) -> (r: Self)
        ensures
            r@ == self@,
    {
        TranscriptionConfig {
            backend: self.backend,
            model_id: clone_opt_string(&self.model_id),
            language: clone_opt_string(&self.language),
            translate: self.translate,
            diarize: self.diarize,
            timeout_seconds: self.timeout_seconds,
            threads: self.threads,
            processors: self.processors,
        }
    }
}

/// Where a finished transcript goes.
#[derive(Debug, Clone, Copy, PartialEq, Eq, Structural)]
pub struct OutputConfig {
    pub mode: OutputMode,
    pub enable_notifications: bool,
    pub auto_paste_delay_ms: u64,
}

impl OutputConfig {
    /// The values used when the section is not configured.
    pub open spec fn default_value() -> OutputConfig {
        OutputConfig { mode: OutputMode::ClipboardOnly, enable_notifications: true, auto_paste_delay_ms: 0 }
    }
}

impl Default for OutputConfig {
    fn default() -> (r: Self)
        ensures
            r == OutputConfig::default_value(),
    {
        OutputConfig { mode: OutputMode::ClipboardOnly, enable_notifications: true, auto_paste_delay_ms: 0 }
    }
}

/// Whether transcripts go to the clipboard or nowhere.
#[derive(Debug, Clone, Copy, PartialEq, Eq, Structural)]
pub enum OutputMode {
    ClipboardOnly,
    Disabled,
}

/// Where run metadata is kept and how much of it.
#[derive(Debug, Clone)]
pub struct HistoryConfig {
    pub db_path: Option<String>,
    pub max_entries: usize,
    pub prune_policy: PrunePolicy,
}

/// Mathematical model of a [`HistoryConfig`].
pub struct HistoryConfigView {
    pub db_path: Option<Seq<char>>,
    pub max_entries: usize,
    pub prune_policy: PrunePolicy,
}

impl View for HistoryConfig {
    type V = HistoryConfigView;

    open spec fn view(&self) -> HistoryConfigView {
        HistoryConfigView {
            db_path: opt_view(self.db_path),
            max_entries: self.max_entries,
            prune_policy: self.prune_policy,
        }
    }
}

impl HistoryConfigView {
    /// The values used when the section is not configured.
    pub open spec fn default_value() -> HistoryConfigView {
        HistoryConfigView { db_path: None, max_entries: 1_000, prune_policy: PrunePolicy::NoPrune }
    }
}

impl Default for HistoryConfig {
    fn default() -> (r: Self)
        ensures
            r@ == HistoryConfigView::default_value(),
    {
        HistoryConfig { db_path: None, max_entries: 1_000, prune_policy: PrunePolicy::NoPrune }
    }
}

impl HistoryConfig {
    /// Copies the section.
    pub fn duplicate(&self) -> (r: Self)
        ensures
            r@ == self@,
    {
        HistoryConfig {
            db_path: clone_opt_string(&self.db_path),
            max_entries: self.max_entries,
            prune_policy: self.prune_policy,
        }
    }
}

/// Whether old history entries are pruned.
#[derive(Debug, Clone, Copy, PartialEq, Eq, Structural)]
pub enum PrunePolicy {
    NoPrune,
    KeepRecent,
}

/// Whether the daemon starts with the session.
#[derive(Debug, Clone, Copy, PartialEq, Eq, Structural)]
pub struct ServiceConfig {
    pub autostart_enabled: bool,
}

impl ServiceConfig {
    /// The values used when the section is not configured.
    pub open spec fn default_value() -> ServiceConfig {
        ServiceConfig { autostart_enabled: false }
    }
}

impl Default for ServiceConfig {
    fn default() -> (r: Self)
        ensures
            r == ServiceConfig::default_value(),
    {
        ServiceConfig { autostart_enabled: false }
    }
}

/// Logging settings.
#[derive(Debug, Clone)]
pub struct DiagnosticsConfig {
    pub log_level: String,
    pub log_retention_days: u32,
}

/// Mathematical model of a [`DiagnosticsConfig`].
pub struct DiagnosticsConfigView {
    pub log_level: Seq<char>,
    pub log_retention_days: u32,
}

impl View for DiagnosticsConfig {
    type V = DiagnosticsConfigView;

    open spec fn view(&self) -> DiagnosticsConfigView {
        DiagnosticsConfigView {
            log_level: self.log_level@,
            log_retention_days: self.log_retention_days,
        }
    }
}

impl DiagnosticsConfigView {
    /// The values used when the section is not configured.
    pub open spec fn default_value() -> DiagnosticsConfigView {
        DiagnosticsConfigView { log_level: "info"@, log_retention_days: 14 }
    }
}

impl Default for DiagnosticsConfig {
    fn default() -> (r: Self)
        ensures
            r@ == DiagnosticsConfigView::default_value(),
    {
        DiagnosticsConfig { log_level: String::from_str("info"), log_retention_days: 14 }
    }
}

impl DiagnosticsConfig {
    /// Copies the section.
    pub fn duplicate(&self) -> (r: Self)
        ensures
            r@ == self@,
    {
        DiagnosticsConfig {
            log_level: self.log_level.clone(),
            log_retention_days: self.log_retention_days,
        }
    }
}

/// Which system permissions the daemon insists on.
#[derive(Debug, Clone, Copy, PartialEq, Eq, Structural)]
pub struct PermissionsConfig {
    pub microphone_required: bool,
    pub accessibility_required: bool,
}

impl PermissionsConfig {
    /// The values used when the section is not configured.
    pub open spec fn default_value() -> PermissionsConfig {
        PermissionsConfig { microphone_required: true, accessibility_required: false }
    }
}

impl Default for PermissionsConfig {
    fn default() -> (r: Self)
        ensures
            r == PermissionsConfig::default_value(),
    {
        PermissionsConfig { microphone_required: true, accessibility_required: false }
    }
}

} // verus!
