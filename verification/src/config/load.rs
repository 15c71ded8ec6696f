use vstd::prelude::*;
use vstd::string::StringExecFns;

use crate::config::schema::{
    AppConfig, AppConfigView, AudioConfigView, DiagnosticsConfigView, HistoryConfigView,
    HotkeyConfigView, OutputConfig, OutputMode, ServiceConfig, TranscriptionConfigView,
};
use crate::error::{AppError, AppErrorView, AppResult};
use crate::text::{
    clone_opt_string, keyword, opt_view, parse_u32, parse_u64, spec_keyword, spec_parse_unsigned,
    spec_trim, text_eq, trim,
};
use crate::transcription::backend::BackendKind;

verus! {

/// Settings given on the command line; each one present replaces the configured value.
#[derive(Debug, Clone)]
pub struct CliOverrides {
    pub config_path: Option<String>,
    pub backend: Option<BackendKind>,
    pub model_id: Option<String>,
    pub language: Option<String>,
    pub timeout_seconds: Option<u64>,
    pub diarize: Option<bool>,
    pub translate: Option<bool>,
    pub hotkey_binding: Option<String>,
    pub output_mode: Option<OutputMode>,
}

impl CliOverrides {
    /// No setting is overridden.
    pub open spec fn is_empty(self) -> bool {
        self.config_path is None && self.backend is None && self.model_id is None && self.language is None
            && self.timeout_seconds is None && self.diarize is None && self.translate is None
            && self.hotkey_binding is None && self.output_mode is None
    }
}

impl Default for CliOverrides {
    fn default() -> (r: Self)
        ensures
            r.is_empty(),
    {
        CliOverrides {
            config_path: None,
            backend: None,
            model_id: None,
            language: None,
            timeout_seconds: None,
            diarize: None,
            translate: None,
            hotkey_binding: None,
            output_mode: None,
        }
    }
}

/// The values of the environment variables the daemon consults, each absent or as set.
#[derive(Debug, Clone)]
pub struct EnvOverrides {
    pub backend: Option<String>,
    pub model_id: Option<String>,
    pub language: Option<String>,
    pub translate: Option<String>,
    pub diarize: Option<String>,
    pub timeout_seconds: Option<String>,
    pub output_mode: Option<String>,
    pub hotkey_binding: Option<String>,
    pub history_db_path: Option<String>,
    pub autostart_enabled: Option<String>,
    pub log_level: Option<String>,
    pub max_recording_seconds: Option<String>,
}

impl EnvOverrides {
    /// No variable is set.
    pub open spec fn is_empty(self) -> bool {
        self.backend is None && self.model_id is None && self.language is None && self.translate is None
            && self.diarize is None && self.timeout_seconds is None && self.output_mode is None
            && self.hotkey_binding is None && self.history_db_path is None
            && self.autostart_enabled is None && self.log_level is None
            && self.max_recording_seconds is None
    }
}

impl Default for EnvOverrides {
    fn default() -> (r: Self)
        ensures
            r.is_empty(),
    {
        EnvOverrides {
            backend: None,
            model_id: None,
            language: None,
            translate: None,
            diarize: None,
            timeout_seconds: None,
            output_mode: None,
            hotkey_binding: None,
            history_db_path: None,
            autostart_enabled: None,
            log_level: None,
            max_recording_seconds: None,
        }
    }
}

/// The boolean a word stands for: `1`, `true`, `yes`, `on` or `0`, `false`, `no`, `off`,
/// in any letter case and with surrounding whitespace ignored.
pub open spec fn spec_parse_bool(value: Seq<char>) -> Option<bool> {
    let k = spec_keyword(value);
    if k == "1"@ || k == "true"@ || k == "yes"@ || k == "on"@ {
        Some(true)
    } else if k == "0"@ || k == "false"@ || k == "no"@ || k == "off"@ {
        Some(false)
    } else {
        None
    }
}

/// Reads a boolean word.
pub fn parse_bool(value: &str) -> (r: Option<bool>)
    ensures
        r == spec_parse_bool(value@),
{
    let k = keyword(value);
    let k = k.as_str();
    if text_eq(k, "1") || text_eq(k, "true") || text_eq(k, "yes") || text_eq(k, "on") {
        Some(true)
    } else if text_eq(k, "0") || text_eq(k, "false") || text_eq(k, "no") || text_eq(k, "off") {
        Some(false)
    } else {
        None
    }
}

/// The backend a word names, with `-` accepted for `_`.
pub open spec fn spec_parse_backend_kind(value: Seq<char>) -> Option<BackendKind> {
    let k = spec_keyword(value);
    if k == "auto"@ {
        Some(BackendKind::Auto)
    } else if k == "whisper_cpp"@ || k == "whisper-cpp"@ {
        Some(BackendKind::WhisperCpp)
    } else if k == "insanely_fast"@ || k == "insanely-fast"@ {
        Some(BackendKind::InsanelyFast)
    } else if k == "whisper_diarization"@ || k == "whisper-diarization"@ {
        Some(BackendKind::WhisperDiarization)
    } else {
        None
    }
}

/// Reads a backend name.
pub fn parse_backend_kind(value: &str) -> (r: Option<BackendKind>)
    ensures
        r == spec_parse_backend_kind(value@),
{
    let k = keyword(value);
    let k = k.as_str();
    if text_eq(k, "auto") {
        Some(BackendKind::Auto)
    } else if text_eq(k, "whisper_cpp") || text_eq(k, "whisper-cpp") {
        Some(BackendKind::WhisperCpp)
    } else if text_eq(k, "insanely_fast") || text_eq(k, "insanely-fast") {
        Some(BackendKind::InsanelyFast)
    } else if text_eq(k, "whisper_diarization") || text_eq(k, "whisper-diarization") {
        Some(BackendKind::WhisperDiarization)
    } else {
        None
    }
}

/// The output mode a word names: `clipboard_only` or `clipboard-only`, `disabled` or `none`.
pub open spec fn spec_parse_output_mode(value: Seq<char>) -> Option<OutputMode> {
    let k = spec_keyword(value);
    if k == "clipboard_only"@ || k == "clipboard-only"@ {
        Some(OutputMode::ClipboardOnly)
    } else if k == "disabled"@ || k == "none"@ {
        Some(OutputMode::Disabled)
    } else {
        None
    }
}

/// Reads an output mode.
pub fn parse_output_mode(value: &str) -> (r: Option<OutputMode>)
    ensures
        r == spec_parse_output_mode(value@),
{
    let k = keyword(value);
    let k = k.as_str();
    if text_eq(k, "clipboard_only") || text_eq(k, "clipboard-only") {
        Some(OutputMode::ClipboardOnly)
    } else if text_eq(k, "disabled") || text_eq(k, "none") {
        Some(OutputMode::Disabled)
    } else {
        None
    }
}

/// The rejection of a configuration with a zero timeout, if it has one.
pub open spec fn spec_validate(config: AppConfigView) -> Option<AppErrorView> {
    if config.transcription.timeout_seconds == 0 {
        Some(AppErrorView::Config("transcription.timeout_seconds must be > 0"@))
    } else if config.audio.max_recording_seconds == 0 {
        Some(AppErrorView::Config("audio.max_recording_seconds must be > 0"@))
    } else {
        None
    }
}

/// Accepts a configuration unless its transcription timeout or recording cap is zero.
pub fn validate(config: &AppConfig) -> (r: AppResult<()>)
    ensures
        match spec_validate(config@) {
            Some(expected) => r matches Err(e) && e@ == expected,
            None => r is Ok,
        },
{
    if config.transcription.timeout_seconds == 0 {
        return Err(AppError::Config(String::from_str("transcription.timeout_seconds must be > 0")));
    }
    if config.audio.max_recording_seconds == 0 {
        return Err(AppError::Config(String::from_str("audio.max_recording_seconds must be > 0")));
    }
    Ok(())
}

/// The value a parsed override yields: itself if it parsed, the current value otherwise.
pub open spec fn spec_or_keep<T>(parsed: Option<T>, current: T) -> T {
    match parsed {
        Some(v) => v,
        None => current,
    }
}

/// A parsed number from a variable that may be unset.
pub open spec fn spec_env_number(value: Option<String>, max: nat) -> Option<nat> {
    match value {
        Some(v) => spec_parse_unsigned(v@, max),
        None => None,
    }
}

/// An optional text field under a variable: unset keeps it, blank clears it, anything
/// else replaces it.
pub open spec fn spec_env_optional_text(value: Option<String>, current: Option<Seq<char>>) -> Option<Seq<char>> {
    match value {
        Some(v) => if spec_trim(v@).len() == 0 {
            None
        } else {
            Some(v@)
        },
        None => current,
    }
}

/// The configuration after the environment was laid over it.
pub open spec fn spec_apply_env(c: AppConfigView, env: EnvOverrides) -> AppConfigView {
    AppConfigView {
        hotkey: HotkeyConfigView {
            binding: match env.hotkey_binding {
                Some(v) => v@,
                None => c.hotkey.binding,
            },
            ..c.hotkey
        },
        audio: AudioConfigView {
            max_recording_seconds: match spec_env_number(env.max_recording_seconds, u32::MAX as nat) {
                Some(n) => n as u32,
                None => c.audio.max_recording_seconds,
            },
            ..c.audio
        },
        transcription: TranscriptionConfigView {
            backend: match env.backend {
                Some(v) => spec_or_keep(spec_parse_backend_kind(v@), c.transcription.backend),
                None => c.transcription.backend,
            },
            model_id: spec_env_optional_text(env.model_id, c.transcription.model_id),
            language: spec_env_optional_text(env.language, c.transcription.language),
            translate: match env.translate {
                Some(v) => spec_or_keep(spec_parse_bool(v@), c.transcription.translate),
                None => c.transcription.translate,
            },
            diarize: match env.diarize {
                Some(v) => spec_or_keep(spec_parse_bool(v@), c.transcription.diarize),
                None => c.transcription.diarize,
            },
            timeout_seconds: match spec_env_number(env.timeout_seconds, u64::MAX as nat) {
                Some(n) => n as u64,
                None => c.transcription.timeout_seconds,
            },
            ..c.transcription
        },
        output: OutputConfig {
            mode: match env.output_mode {
                Some(v) => spec_or_keep(spec_parse_output_mode(v@), c.output.mode),
                None => c.output.mode,
            },
            ..c.output
        },
        history: HistoryConfigView {
            db_path: match env.history_db_path {
                Some(v) => if spec_trim(v@).len() == 0 {
                    c.history.db_path
                } else {
                    Some(v@)
                },
                None => c.history.db_path,
            },
            ..c.history
        },
        service: ServiceConfig {
            autostart_enabled: match env.autostart_enabled {
                Some(v) => spec_or_keep(spec_parse_bool(v@), c.service.autostart_enabled),
                None => c.service.autostart_enabled,
            },
        },
        diagnostics: DiagnosticsConfigView {
            log_level: match env.log_level {
                Some(v) => v@,
                None => c.diagnostics.log_level,
            },
            ..c.diagnostics
        },
        permissions: c.permissions,
    }
}

fn is_blank(value: &str) -> (r: bool)
    ensures
        r == (spec_trim(value@).len() == 0),
{
    let t = trim(value);
    t.as_str().unicode_len() == 0
}

fn or_keep<T: Copy>(parsed: Option<T>, current: T) -> (r: T)
    ensures
        r == spec_or_keep(parsed, current),
{
    match parsed {
        Some(v) => v,
        None => current,
    }
}

fn env_bool(value: &Option<String>, current: bool) -> (r: bool)
    ensures
        r == (match *value {
            Some(v) => spec_or_keep(spec_parse_bool(v@), current),
            None => current,
        }),
{
    match value {
        Some(v) => or_keep(parse_bool(v.as_str()), current),
        None => current,
    }
}

fn env_optional_text(value: &Option<String>, current: &Option<String>) -> (r: Option<String>)
    ensures
        opt_view(r) == spec_env_optional_text(*value, opt_view(*current)),
{
    match value {
        Some(v) => if is_blank(v.as_str()) {
            None
        } else {
            Some(v.clone())
        },
        None => clone_opt_string(current),
    }
}

fn env_text(value: &Option<String>, current: &String) -> (r: String)
    ensures
        r@ == (match *value {
            Some(v) => v@,
            None => current@,
        }),
{
    match value {
        Some(v) => v.clone(),
        None => current.clone(),
    }
}

fn env_u64(value: &Option<String>, current: u64) -> (r: u64)
    ensures
        r == (match spec_env_number(*value, u64::MAX as nat) {
            Some(n) => n as u64,
            None => current,
        }),
{
    match value {
        Some(v) => or_keep(parse_u64(v.as_str()), current),
        None => current,
    }
}

fn env_u32(value: &Option<String>, current: u32) -> (r: u32)
    ensures
        r == (match spec_env_number(*value, u32::MAX as nat) {
            Some(n) => n as u32,
            None => current,
        }),
{
    match value {
        Some(v) => or_keep(parse_u32(v.as_str()), current),
        None => current,
    }
}

fn env_backend(value: &Option<String>, current: BackendKind) -> (r: BackendKind)
    ensures
        r == (match *value {
            Some(v) => spec_or_keep(spec_parse_backend_kind(v@), current),
            None => current,
        }),
{
    match value {
        Some(v) => or_keep(parse_backend_kind(v.as_str()), current),
        None => current,
    }
}

fn env_output_mode(value: &Option<String>, current: OutputMode) -> (r: OutputMode)
    ensures
        r == (match *value {
            Some(v) => spec_or_keep(spec_parse_output_mode(v@), current),
            None => current,
        }),
{
    match value {
        Some(v) => or_keep(parse_output_mode(v.as_str()), current),
        None => current,
    }
}

fn env_db_path(value: &Option<String>, current: &Option<String>) -> (r: Option<String>)
    ensures
        opt_view(r) == (match *value {
            Some(v) => if spec_trim(v@).len() == 0 {
                opt_view(*current)
            } else {
                Some(v@)
            },
            None => opt_view(*current),
        }),
{
    match value {
        Some(v) => if is_blank(v.as_str()) {
            clone_opt_string(current)
        } else {
            Some(v.clone())
        },
        None => clone_opt_string(current),
    }
}

fn cli_text(value: &Option<String>, current: &String) -> (r: String)
    ensures
        r@ == (match *value {
            Some(v) => v@,
            None => current@,
        }),
{
    env_text(value, current)
}

fn cli_optional_text(value: &Option<String>, current: &Option<String>) -> (r: Option<String>)
    ensures
        opt_view(r) == (match *value {
            Some(v) => Some(v@),
            None => opt_view(*current),
        }),
{
    match value {
        Some(v) => Some(v.clone()),
        None => clone_opt_string(current),
    }
}

/// Lays the environment over the configuration; unparsable values leave their field as
/// it was.
pub fn apply_env_overrides(config: &mut AppConfig, env: &EnvOverrides)
    ensures
        final(config)@ == spec_apply_env(old(config)@, *env),
{
    let backend = env_backend(&env.backend, config.transcription.backend);
    let model_id = env_optional_text(&env.model_id, &config.transcription.model_id);
    let language = env_optional_text(&env.language, &config.transcription.language);
    let translate = env_bool(&env.translate, config.transcription.translate);
    let diarize = env_bool(&env.diarize, config.transcription.diarize);
    let timeout_seconds = env_u64(&env.timeout_seconds, config.transcription.timeout_seconds);
    let mode = env_output_mode(&env.output_mode, config.output.mode);
    let binding = env_text(&env.hotkey_binding, &config.hotkey.binding);
    let db_path = env_db_path(&env.history_db_path, &config.history.db_path);
    let autostart_enabled = env_bool(&env.autostart_enabled, config.service.autostart_enabled);
    let log_level = env_text(&env.log_level, &config.diagnostics.log_level);
    let max_recording_seconds = env_u32(&env.max_recording_seconds, config.audio.max_recording_seconds);
    config.transcription.backend = backend;
    config.transcription.model_id = model_id;
    config.transcription.language = language;
    config.transcription.translate = translate;
    config.transcription.diarize = diarize;
    config.transcription.timeout_seconds = timeout_seconds;
    config.output.mode = mode;
    config.hotkey.binding = binding;
    config.history.db_path = db_path;
    config.service.autostart_enabled = autostart_enabled;
    config.diagnostics.log_level = log_level;
    config.audio.max_recording_seconds = max_recording_seconds;
}

/// The configuration after the command line was laid over it.
pub open spec fn spec_apply_cli(c: AppConfigView, o: CliOverrides) -> AppConfigView {
    AppConfigView {
        hotkey: HotkeyConfigView {
            binding: match o.hotkey_binding {
                Some(v) => v@,
                None => c.hotkey.binding,
            },
            ..c.hotkey
        },
        transcription: TranscriptionConfigView {
            backend: spec_or_keep(o.backend, c.transcription.backend),
            model_id: match o.model_id {
                Some(v) => Some(v@),
                None => c.transcription.model_id,
            },
            language: match o.language {
                Some(v) => Some(v@),
                None => c.transcription.language,
            },
            timeout_seconds: spec_or_keep(o.timeout_seconds, c.transcription.timeout_seconds),
            diarize: spec_or_keep(o.diarize, c.transcription.diarize),
            translate: spec_or_keep(o.translate, c.transcription.translate),
            ..c.transcription
        },
        output: OutputConfig { mode: spec_or_keep(o.output_mode, c.output.mode), ..c.output },
        ..c
    }
}

/// Lays the command line over the configuration.
pub fn apply_cli_overrides(config: &mut AppConfig, overrides: &CliOverrides)
    ensures
        final(config)@ == spec_apply_cli(old(config)@, *overrides),
{
    let backend = or_keep(overrides.backend, config.transcription.backend);
    let model_id = cli_optional_text(&overrides.model_id, &config.transcription.model_id);
    let language = cli_optional_text(&overrides.language, &config.transcription.language);
    let timeout_seconds = or_keep(overrides.timeout_seconds, config.transcription.timeout_seconds);
    let diarize = or_keep(overrides.diarize, config.transcription.diarize);
    let translate = or_keep(overrides.translate, config.transcription.translate);
    let binding = cli_text(&overrides.hotkey_binding, &config.hotkey.binding);
    let mode = or_keep(overrides.output_mode, config.output.mode);
    config.transcription.backend = backend;
    config.transcription.model_id = model_id;
    config.transcription.language = language;
    config.transcription.timeout_seconds = timeout_seconds;
    config.transcription.diarize = diarize;
    config.transcription.translate = translate;
    config.hotkey.binding = binding;
    config.output.mode = mode;
}

/// The configuration with the history database defaulted to `history_db` when unset.
pub open spec fn spec_with_history_db(c: AppConfigView, history_db: Seq<char>) -> AppConfigView {
    AppConfigView {
        history: HistoryConfigView {
            db_path: match c.history.db_path {
                Some(p) => Some(p),
                None => Some(history_db),
            },
            ..c.history
        },
        ..c
    }
}

/// The effective configuration: the file's values, then the default history database,
/// then the environment, then the command line.
pub open spec fn spec_overlay(
    base: AppConfigView,
    history_db: Seq<char>,
    env: EnvOverrides,
    overrides: CliOverrides,
) -> AppConfigView {
    spec_apply_cli(spec_apply_env(spec_with_history_db(base, history_db), env), overrides)
}

/// Finishes loading: lays defaults, environment and command line over the configuration
/// read from the file, in that order, and rejects the result if a timeout is zero.
pub fn load_config(base: AppConfig, history_db: &str, env: &EnvOverrides, overrides: &CliOverrides) -> (r:
    AppResult<AppConfig>)
    ensures
        match spec_validate(spec_overlay(base@, history_db@, *env, *overrides)) {
            Some(expected) => r matches Err(e) && e@ == expected,
            None => r matches Ok(c) && c@ == spec_overlay(base@, history_db@, *env, *overrides),
        },
        r matches Ok(c) ==> c@.transcription.timeout_seconds > 0 && c@.audio.max_recording_seconds > 0
            && c@.history.db_path is Some,
{
    let mut config = base;
    if config.history.db_path.is_none() {
        config.history.db_path = Some(String::from_str(history_db));
    }
    apply_env_overrides(&mut config, env);
    apply_cli_overrides(&mut config, overrides);
    match validate(&config) {
        Ok(_) => Ok(config),
        Err(e) => Err(e),
    }
}

/// The file the configuration is read from: the one named on the command line, else the
/// default location.
pub fn config_file_path(default_file: &str, overrides: &CliOverrides) -> (r: String)
    ensures
        r@ == (match overrides.config_path {
            Some(p) => p@,
            None => default_file@,
        }),
{
    match &overrides.config_path {
        Some(p) => p.clone(),
        None => String::from_str(default_file),
    }
}

/// Loading is stable: with nothing set in the environment and nothing given on the
/// command line, loading what a first load returned gives the same configuration again,
/// and loading the defaults gives the defaults with the history database filled in.
pub proof fn lemma_reload_is_stable(base: AppConfigView, history_db: Seq<char>, env: EnvOverrides, overrides: CliOverrides)
    requires
        env.is_empty(),
        overrides.is_empty(),
    ensures
        spec_overlay(spec_overlay(base, history_db, env, overrides), history_db, env, overrides)
            == spec_overlay(base, history_db, env, overrides),
        spec_overlay(AppConfigView::default_value(), history_db, env, overrides) == (AppConfigView {
            history: HistoryConfigView {
                db_path: Some(history_db),
                ..AppConfigView::default_value().history
            },
            ..AppConfigView::default_value()
        }),
        spec_validate(spec_overlay(AppConfigView::default_value(), history_db, env, overrides)) is None,
{
}

/// A later layer wins over an earlier one: a setting given on the command line is the
/// effective one whatever the file and the environment say.
pub proof fn lemma_cli_takes_precedence(
    base: AppConfigView,
    history_db: Seq<char>,
    env: EnvOverrides,
    overrides: CliOverrides,
)
    ensures
        overrides.backend matches Some(b) ==> spec_overlay(base, history_db, env, overrides).transcription.backend
            == b,
        overrides.timeout_seconds matches Some(t) ==> spec_overlay(
            base,
            history_db,
            env,
            overrides,
        ).transcription.timeout_seconds == t,
        overrides.output_mode matches Some(m) ==> spec_overlay(base, history_db, env, overrides).output.mode
            == m,
        overrides.is_empty() && env.is_empty() ==> spec_overlay(base, history_db, env, overrides)
            == spec_with_history_db(base, history_db),
{
}

} // verus!
