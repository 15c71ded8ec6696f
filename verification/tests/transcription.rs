use std::sync::Mutex;

use quedo_daemon::config::schema::TranscriptionConfig;
use quedo_daemon::controller::events::{ControllerEvent, ControllerOutput};
use quedo_daemon::controller::machine::WorkerMessage;
use quedo_daemon::error::{AppError, AppResult};
use quedo_daemon::transcription::backend::BackendKind;
use quedo_daemon::transcription::engine::{
    map_init_error, map_transcribe_result, EngineAdapter, RunReport, TranscriptionResult,
};
use quedo_daemon::transcription::request_builder::{build_request, TranscribeRequest};
use quedo_daemon::transcription::scheduler::{job_outcome, run_transcription_job};
use quedo_daemon::transcription::worker::{
    completion_event, handle_worker_message, process_messages, undelivered_notice,
};

struct FakeEngine {
    requests: Mutex<Vec<TranscribeRequest>>,
    result: Mutex<Option<AppResult<RunReport>>>,
}

impl FakeEngine {
    fn with_result(result: AppResult<RunReport>) -> Self {
        Self {
            requests: Mutex::new(Vec::new()),
            result: Mutex::new(Some(result)),
        }
    }
}

impl EngineAdapter for FakeEngine {
    fn transcribe_request(&self, request: TranscribeRequest) -> AppResult<RunReport> {
        self.requests.lock().expect("lock").push(request);
        self.result
            .lock()
            .expect("lock")
            .take()
            .expect("configured result")
    }
}

struct EchoEngine;

impl EngineAdapter for EchoEngine {
    fn transcribe_request(&self, request: TranscribeRequest) -> AppResult<RunReport> {
        if request.input_path.contains("bad") {
            return Err(AppError::Transcription("engine transcribe failed: bad input".to_owned()));
        }
        Ok(RunReport {
            run_id: format!("run:{}", request.input_path),
            finished_at_rfc3339: "2026-02-25T00:00:02Z".to_owned(),
            result: TranscriptionResult {
                backend: request.backend,
                transcript: "ok".to_owned(),
                language: request.language,
            },
            warnings: Vec::new(),
        })
    }
}

fn sample_report() -> RunReport {
    RunReport {
        run_id: "run-123".to_owned(),
        finished_at_rfc3339: "2026-02-25T00:00:02Z".to_owned(),
        result: TranscriptionResult {
            backend: BackendKind::WhisperCpp,
            transcript: "hello world".to_owned(),
            language: Some("en".to_owned()),
        },
        warnings: vec!["minor".to_owned()],
    }
}

fn job(wav: &str) -> WorkerMessage {
    WorkerMessage::Transcribe {
        wav_path: wav.to_owned(),
        db_path: "/tmp/history.sqlite3".to_owned(),
        config: TranscriptionConfig::default(),
    }
}

#[test]
fn init_error_mapping_uses_stable_prefix() {
    let error = map_init_error("boom");
    assert!(matches!(
        error,
        AppError::Transcription(message) if message == "engine init failed: boom"
    ));
}

#[test]
fn transcribe_error_mapping_uses_stable_prefix() {
    let error = map_transcribe_result::<()>(Err("timeout".to_owned())).expect_err("must fail");
    assert!(matches!(
        error,
        AppError::Transcription(message) if message == "engine transcribe failed: timeout"
    ));
    assert_eq!(map_transcribe_result::<u8>(Ok(7)).expect("ok"), 7);
}

#[test]
fn build_request_maps_all_fields_exactly() {
    let cfg = TranscriptionConfig {
        backend: BackendKind::InsanelyFast,
        model_id: Some("m".to_owned()),
        language: Some("en".to_owned()),
        translate: true,
        diarize: true,
        timeout_seconds: 12,
        threads: Some(7),
        processors: Some(2),
    };
    let wav = String::from("/tmp/in.wav");
    let db = String::from("/tmp/history.sqlite3");
    let request = build_request(wav.clone(), db.clone(), &cfg);

    assert_eq!(request.input_path, wav);
    assert_eq!(request.backend, BackendKind::InsanelyFast);
    assert_eq!(request.model.as_deref(), Some("m"));
    assert_eq!(request.language.as_deref(), Some("en"));
    assert!(request.translate);
    assert!(request.diarize);
    assert!(request.persist);
    assert_eq!(request.db_path, db);
    assert_eq!(request.timeout_ms, Some(12_000));
    assert_eq!(request.threads, Some(7));
    assert_eq!(request.processors, Some(2));
}

#[test]
fn build_request_uses_defaults_for_optional_fields() {
    let cfg = TranscriptionConfig::default();
    let request = build_request(
        String::from("/tmp/input.wav"),
        String::from("/tmp/history.sqlite3"),
        &cfg,
    );
    assert_eq!(request.model, None);
    assert_eq!(request.language, None);
    assert!(request.persist);
    assert_eq!(request.timeout_ms, Some(45_000));
    assert_eq!(request.threads, None);
    assert_eq!(request.processors, None);
}

#[test]
fn maps_run_report_to_transcript_result() {
    let engine = FakeEngine::with_result(Ok(sample_report()));
    let config = TranscriptionConfig::default();
    let output = run_transcription_job(
        &engine,
        String::from("/tmp/in.wav"),
        String::from("/tmp/history.sqlite3"),
        &config,
    )
    .expect("success");

    assert_eq!(output.run_id, "run-123");
    assert_eq!(output.backend, BackendKind::WhisperCpp);
    assert_eq!(output.transcript, "hello world");
    assert_eq!(output.language.as_deref(), Some("en"));
    assert_eq!(output.warnings, vec!["minor".to_owned()]);
    assert_eq!(output.finished_at_rfc3339, "2026-02-25T00:00:02Z");
}

#[test]
fn transcribe_job_sends_exact_request_to_engine() {
    let engine = FakeEngine::with_result(Ok(sample_report()));
    let config = TranscriptionConfig {
        backend: BackendKind::InsanelyFast,
        model_id: Some("base.en".to_owned()),
        language: Some("en".to_owned()),
        translate: true,
        diarize: true,
        timeout_seconds: 12,
        threads: Some(7),
        processors: Some(2),
    };
    let wav_path = String::from("/tmp/input.wav");
    let db_path = String::from("/tmp/history.sqlite3");

    run_transcription_job(&engine, wav_path.clone(), db_path.clone(), &config)
        .expect("transcription should succeed");

    let captured = engine.requests.lock().expect("lock captured requests");
    assert_eq!(captured.len(), 1, "exactly one request should be sent");

    let expected = build_request(wav_path, db_path, &config);
    let sent = captured.first().expect("request present");
    assert_eq!(sent.input_path, expected.input_path);
    assert_eq!(sent.backend, expected.backend);
    assert_eq!(sent.model, expected.model);
    assert_eq!(sent.language, expected.language);
    assert_eq!(sent.translate, expected.translate);
    assert_eq!(sent.diarize, expected.diarize);
    assert_eq!(sent.persist, expected.persist);
    assert_eq!(sent.db_path, expected.db_path);
    assert_eq!(sent.timeout_ms, expected.timeout_ms);
    assert_eq!(sent.threads, expected.threads);
    assert_eq!(sent.processors, expected.processors);
}

#[test]
fn propagates_engine_failures() {
    let engine = FakeEngine::with_result(Err(AppError::Transcription("timeout".to_owned())));
    let config = TranscriptionConfig::default();
    let error = run_transcription_job(
        &engine,
        String::from("/tmp/in.wav"),
        String::from("/tmp/history.sqlite3"),
        &config,
    )
    .expect_err("must fail");
    assert!(matches!(error, AppError::Transcription(message) if message.contains("timeout")));
    assert!(matches!(
        job_outcome(Err(AppError::Transcription("x".to_owned()))),
        Err(AppError::Transcription(m)) if m == "x"
    ));
}

#[test]
fn worker_answers_each_job_once_and_in_order() {
    let messages = vec![job("/tmp/a.wav"), job("/tmp/bad.wav"), job("/tmp/c.wav"), WorkerMessage::Shutdown, job("/tmp/late.wav")];
    let events = process_messages(&EchoEngine, &messages);
    assert_eq!(events.len(), 3);
    let paths: Vec<String> = events
        .iter()
        .map(|event| match event {
            ControllerEvent::TranscriptionFinished { wav_path, .. } => wav_path.clone(),
            other => panic!("unexpected event {other:?}"),
        })
        .collect();
    assert_eq!(paths, vec!["/tmp/a.wav", "/tmp/bad.wav", "/tmp/c.wav"]);
    assert!(matches!(
        &events[0],
        ControllerEvent::TranscriptionFinished { result: Ok(t), .. } if t.run_id == "run:/tmp/a.wav"
    ));
    assert!(matches!(
        &events[1],
        ControllerEvent::TranscriptionFinished { result: Err(reason), .. }
            if reason == "engine transcribe failed: bad input"
    ));
    assert!(process_messages(&EchoEngine, &Vec::new()).is_empty());
}

#[test]
fn worker_stops_on_shutdown_message() {
    assert!(handle_worker_message(&EchoEngine, &WorkerMessage::Shutdown).is_none());
    let event = handle_worker_message(&EchoEngine, &job("/tmp/x.wav")).expect("completion");
    assert!(matches!(
        event,
        ControllerEvent::TranscriptionFinished { wav_path, result: Ok(_) } if wav_path == "/tmp/x.wav"
    ));
    let failed = completion_event("/tmp/y.wav".to_owned(), Err(AppError::Transcription("t".to_owned())));
    assert!(matches!(
        failed,
        ControllerEvent::TranscriptionFinished { wav_path, result: Err(r) }
            if wav_path == "/tmp/y.wav" && r == "t"
    ));
    assert!(matches!(
        undelivered_notice(),
        ControllerOutput::Notification(m)
            if m == "controller stopped before transcription completion could be delivered"
    ));
}

#[test]
fn backend_labels_and_names() {
    assert_eq!(BackendKind::WhisperCpp.label(), "whisper_cpp");
    assert_eq!(BackendKind::Auto.label(), "auto");
    assert_eq!(BackendKind::InsanelyFast.debug_name(), "InsanelyFast");
    assert_eq!(BackendKind::WhisperDiarization.label(), "whisper_diarization");
}
