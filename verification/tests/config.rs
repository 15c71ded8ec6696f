use quedo_daemon::cli::{parse_output_mode_override, Cli, Command};
use quedo_daemon::config::load::{
    apply_cli_overrides, apply_env_overrides, load_config, parse_backend_kind, parse_bool,
    parse_output_mode, validate, CliOverrides, EnvOverrides,
};
use quedo_daemon::config::schema::{AppConfig, OutputMode, TranscriptionConfig};
use quedo_daemon::error::AppError;
use quedo_daemon::transcription::backend::BackendKind;

#[test]
fn output_mode_aliases_parse() {
    assert_eq!(
        parse_output_mode_override("clipboard_only"),
        Some(OutputMode::ClipboardOnly)
    );
    assert_eq!(
        parse_output_mode_override("clipboard-only"),
        Some(OutputMode::ClipboardOnly)
    );
    assert_eq!(
        parse_output_mode_override("disabled"),
        Some(OutputMode::Disabled)
    );
    assert_eq!(parse_output_mode_override("none"), Some(OutputMode::Disabled));
    assert_eq!(parse_output_mode_override("unknown"), None);
}

#[test]
fn to_overrides_maps_all_fields() {
    let cli = Cli {
        config: Some(String::from("/tmp/config.toml")),
        backend: Some(BackendKind::WhisperCpp),
        model_id: Some("model-a".to_owned()),
        language: Some("en".to_owned()),
        timeout_seconds: Some(88),
        diarize: Some(true),
        translate: Some(true),
        hotkey_binding: Some("Ctrl+Shift+Space".to_owned()),
        output_mode: Some("clipboard-only".to_owned()),
        command: Command::Status,
    };

    let overrides = cli.to_overrides();
    assert_eq!(overrides.config_path, Some(String::from("/tmp/config.toml")));
    assert_eq!(overrides.backend, Some(BackendKind::WhisperCpp));
    assert_eq!(overrides.model_id.as_deref(), Some("model-a"));
    assert_eq!(overrides.language.as_deref(), Some("en"));
    assert_eq!(overrides.timeout_seconds, Some(88));
    assert_eq!(overrides.diarize, Some(true));
    assert_eq!(overrides.translate, Some(true));
    assert_eq!(overrides.hotkey_binding.as_deref(), Some("Ctrl+Shift+Space"));
    assert_eq!(overrides.output_mode, Some(OutputMode::ClipboardOnly));
}

#[test]
fn invalid_output_mode_does_not_override() {
    let cli = Cli {
        config: None,
        backend: None,
        model_id: None,
        language: None,
        timeout_seconds: None,
        diarize: None,
        translate: None,
        hotkey_binding: None,
        output_mode: Some("invalid".to_owned()),
        command: Command::Run,
    };

    let overrides = cli.to_overrides();
    assert!(overrides.output_mode.is_none());
}

#[test]
fn validate_rejects_zero_timeout_and_max_recording() {
    let mut config = AppConfig::default();
    config.transcription.timeout_seconds = 0;
    assert!(
        matches!(validate(&config), Err(AppError::Config(message)) if message.contains("timeout_seconds"))
    );

    config.transcription.timeout_seconds = 1;
    config.audio.max_recording_seconds = 0;
    assert!(
        matches!(validate(&config), Err(AppError::Config(message)) if message.contains("max_recording_seconds"))
    );
}

#[test]
fn parse_bool_supports_canonical_values() {
    let truthy = ["1", "true", "yes", "on", " TRUE "];
    let falsy = ["0", "false", "no", "off", " Off "];
    for value in truthy {
        assert_eq!(parse_bool(value), Some(true), "{value}");
    }
    for value in falsy {
        assert_eq!(parse_bool(value), Some(false), "{value}");
    }
    assert_eq!(parse_bool("maybe"), None);
}

#[test]
fn backend_parser_supports_labels_and_aliases() {
    assert_eq!(parse_backend_kind("auto"), Some(BackendKind::Auto));
    assert_eq!(
        parse_backend_kind("whisper_cpp"),
        Some(BackendKind::WhisperCpp)
    );
    assert_eq!(
        parse_backend_kind("whisper-cpp"),
        Some(BackendKind::WhisperCpp)
    );
    assert_eq!(
        parse_backend_kind("insanely_fast"),
        Some(BackendKind::InsanelyFast)
    );
    assert_eq!(
        parse_backend_kind("insanely-fast"),
        Some(BackendKind::InsanelyFast)
    );
    assert_eq!(
        parse_backend_kind("whisper_diarization"),
        Some(BackendKind::WhisperDiarization)
    );
    assert_eq!(
        parse_backend_kind("whisper-diarization"),
        Some(BackendKind::WhisperDiarization)
    );
    assert_eq!(parse_backend_kind("nope"), None);
}

#[test]
fn output_mode_parser_supports_aliases() {
    assert_eq!(parse_output_mode("clipboard_only"), Some(OutputMode::ClipboardOnly));
    assert_eq!(parse_output_mode("clipboard-only"), Some(OutputMode::ClipboardOnly));
    assert_eq!(parse_output_mode("disabled"), Some(OutputMode::Disabled));
    assert_eq!(parse_output_mode("none"), Some(OutputMode::Disabled));
    assert_eq!(parse_output_mode("other"), None);
}

#[test]
fn env_overrides_update_fields() {
    let env = EnvOverrides {
        backend: Some("whisper_cpp".to_owned()),
        model_id: Some("m1".to_owned()),
        language: Some("en".to_owned()),
        translate: Some("yes".to_owned()),
        diarize: Some("true".to_owned()),
        timeout_seconds: Some("77".to_owned()),
        output_mode: Some("disabled".to_owned()),
        hotkey_binding: Some("Ctrl+Alt+Q".to_owned()),
        history_db_path: Some("/tmp/h.sqlite3".to_owned()),
        autostart_enabled: Some("1".to_owned()),
        log_level: Some("debug".to_owned()),
        max_recording_seconds: Some("123".to_owned()),
    };

    let mut config = AppConfig::default();
    apply_env_overrides(&mut config, &env);
    assert_eq!(config.transcription.backend, BackendKind::WhisperCpp);
    assert_eq!(config.transcription.model_id.as_deref(), Some("m1"));
    assert_eq!(config.transcription.language.as_deref(), Some("en"));
    assert!(config.transcription.translate);
    assert!(config.transcription.diarize);
    assert_eq!(config.transcription.timeout_seconds, 77);
    assert_eq!(config.output.mode, OutputMode::Disabled);
    assert_eq!(config.hotkey.binding, "Ctrl+Alt+Q");
    assert_eq!(
        config.history.db_path.as_ref(),
        Some(&String::from("/tmp/h.sqlite3"))
    );
    assert!(config.service.autostart_enabled);
    assert_eq!(config.diagnostics.log_level, "debug");
    assert_eq!(config.audio.max_recording_seconds, 123);
}

#[test]
fn cli_overrides_update_fields() {
    let mut config = AppConfig::default();
    let overrides = CliOverrides {
        backend: Some(BackendKind::InsanelyFast),
        model_id: Some("model-x".to_owned()),
        language: Some("fr".to_owned()),
        timeout_seconds: Some(66),
        diarize: Some(true),
        translate: Some(true),
        hotkey_binding: Some("Ctrl+Shift+R".to_owned()),
        output_mode: Some(OutputMode::Disabled),
        ..CliOverrides::default()
    };
    apply_cli_overrides(&mut config, &overrides);
    assert_eq!(config.transcription.backend, BackendKind::InsanelyFast);
    assert_eq!(config.transcription.model_id.as_deref(), Some("model-x"));
    assert_eq!(config.transcription.language.as_deref(), Some("fr"));
    assert_eq!(config.transcription.timeout_seconds, 66);
    assert!(config.transcription.diarize);
    assert!(config.transcription.translate);
    assert_eq!(config.hotkey.binding, "Ctrl+Shift+R");
    assert_eq!(config.output.mode, OutputMode::Disabled);
}

#[test]
fn overlay_applies_file_then_env_then_cli() {
    let mut base = AppConfig::default();
    base.transcription.model_id = Some("from_toml".to_owned());
    base.transcription.timeout_seconds = 11;
    base.transcription.language = Some("de".to_owned());
    base.output.mode = OutputMode::Disabled;
    let env = EnvOverrides {
        backend: Some("insanely_fast".to_owned()),
        model_id: Some("from_env".to_owned()),
        timeout_seconds: Some("22".to_owned()),
        diarize: Some("true".to_owned()),
        ..EnvOverrides::default()
    };
    let overrides = CliOverrides {
        backend: Some(BackendKind::WhisperCpp),
        model_id: Some("from_cli".to_owned()),
        timeout_seconds: Some(33),
        diarize: Some(false),
        output_mode: Some(OutputMode::ClipboardOnly),
        ..CliOverrides::default()
    };

    let config = load_config(base, "/data/history.sqlite3", &env, &overrides).expect("overlay");
    assert_eq!(config.transcription.backend, BackendKind::WhisperCpp);
    assert_eq!(config.transcription.model_id.as_deref(), Some("from_cli"));
    assert_eq!(config.transcription.timeout_seconds, 33);
    assert!(!config.transcription.diarize);
    assert_eq!(config.transcription.language.as_deref(), Some("de"));
    assert_eq!(config.output.mode, OutputMode::ClipboardOnly);
    assert_eq!(config.history.db_path.as_deref(), Some("/data/history.sqlite3"));
}

#[test]
fn overlay_rejects_zero_timeout_from_environment() {
    let env = EnvOverrides {
        timeout_seconds: Some("0".to_owned()),
        ..EnvOverrides::default()
    };
    let error = load_config(AppConfig::default(), "/d/h.db", &env, &CliOverrides::default())
        .expect_err("zero timeout");
    assert!(matches!(error, AppError::Config(message) if message == "transcription.timeout_seconds must be > 0"));
}

#[test]
fn env_blank_model_clears_and_bad_values_are_ignored() {
    let mut config = AppConfig::default();
    config.transcription.model_id = Some("base".to_owned());
    config.transcription.timeout_seconds = 45;
    let env = EnvOverrides {
        model_id: Some("   ".to_owned()),
        timeout_seconds: Some(" 12".to_owned()),
        translate: Some("maybe".to_owned()),
        history_db_path: Some("  ".to_owned()),
        max_recording_seconds: Some("4294967296".to_owned()),
        ..EnvOverrides::default()
    };
    apply_env_overrides(&mut config, &env);
    assert_eq!(config.transcription.model_id, None);
    assert_eq!(config.transcription.timeout_seconds, 45);
    assert!(!config.transcription.translate);
    assert_eq!(config.history.db_path, None);
    assert_eq!(config.audio.max_recording_seconds, 300);
}

#[test]
fn timeout_ms_multiplies_and_saturates() {
    let mut cfg = TranscriptionConfig::default();
    assert_eq!(cfg.timeout_ms(), 45_000);
    cfg.timeout_seconds = u64::MAX / 1_000;
    assert_eq!(cfg.timeout_ms(), (u64::MAX / 1_000) * 1_000);
    cfg.timeout_seconds = u64::MAX / 1_000 + 1;
    assert_eq!(cfg.timeout_ms(), u64::MAX);
}

#[test]
fn defaults_match_documented_values() {
    let config = AppConfig::default();
    assert_eq!(config.hotkey.binding, "Ctrl+Shift+Space");
    assert_eq!(config.audio.max_recording_seconds, 300);
    assert_eq!(config.audio.arming_timeout_ms, 2_000);
    assert_eq!(config.audio.stall_timeout_ms, 750);
    assert!(!config.audio.retain_audio);
    assert_eq!(config.transcription.backend, BackendKind::Auto);
    assert_eq!(config.transcription.timeout_seconds, 45);
    assert_eq!(config.output.mode, OutputMode::ClipboardOnly);
    assert!(config.output.enable_notifications);
    assert_eq!(config.history.max_entries, 1_000);
    assert_eq!(config.diagnostics.log_level, "info");
    assert_eq!(config.diagnostics.log_retention_days, 14);
    assert!(config.permissions.microphone_required);
    assert!(!config.service.autostart_enabled);
}

#[test]
fn loading_the_result_of_a_load_changes_nothing() {
    let none = EnvOverrides::default();
    let cli = CliOverrides::default();
    let first = load_config(AppConfig::default(), "/data/history.sqlite3", &none, &cli).expect("first");
    let second = load_config(first.duplicate(), "/data/history.sqlite3", &none, &cli).expect("second");
    assert_eq!(format!("{first:?}"), format!("{second:?}"));
    let mut expected = AppConfig::default();
    expected.history.db_path = Some("/data/history.sqlite3".to_owned());
    assert_eq!(format!("{second:?}"), format!("{expected:?}"));
}
