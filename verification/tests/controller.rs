use quedo_daemon::bootstrap::paths::AppPaths;
use quedo_daemon::capture::mic::{CaptureWatchdogConfig, WatchdogSnapshot};
use quedo_daemon::capture::recorder::ActiveRecording;
use quedo_daemon::config::schema::{AppConfig, OutputMode};
use quedo_daemon::controller::events::{ControllerEvent, ControllerOutput};
use quedo_daemon::controller::machine::{
    spawn_next_job, watchdog_reason, Action, Controller, ControllerContext, Fault, Input, Reply,
    WorkerMessage,
};
use quedo_daemon::controller::queue::SingleFlightQueue;
use quedo_daemon::controller::state::ControllerState;
use quedo_daemon::doctor::report::{DoctorReport, DoctorState};
use quedo_daemon::error::AppError;
use quedo_daemon::transcription::backend::BackendKind;
use quedo_daemon::transcription::scheduler::TranscriptResult;

fn sample_transcript_result() -> TranscriptResult {
    TranscriptResult {
        run_id: "run-1".to_owned(),
        backend: BackendKind::WhisperCpp,
        transcript: "hello world".to_owned(),
        language: Some("en".to_owned()),
        warnings: Vec::new(),
        finished_at_rfc3339: "2026-02-25T00:00:02Z".to_owned(),
    }
}

fn sample_doctor_report() -> DoctorReport {
    DoctorReport {
        generated_at_rfc3339: "2026-02-25T00:00:00Z".to_owned(),
        state: DoctorState::Ready,
        checks: Vec::new(),
    }
}

fn sample_context(root: &str) -> ControllerContext {
    let mut config = AppConfig::default();
    config.history.db_path = Some(format!("{root}/history.sqlite3"));
    config.output.mode = OutputMode::Disabled;
    config.audio.retain_audio = true;

    ControllerContext {
        config,
        paths: AppPaths {
            config_dir: format!("{root}/config"),
            data_dir: format!("{root}/data"),
            cache_dir: format!("{root}/cache"),
            logs_dir: format!("{root}/cache/logs"),
            state_dir: format!("{root}/cache/fw-state"),
            config_file: format!("{root}/config/config.toml"),
            history_db: format!("{root}/data/history.sqlite3"),
            autostart_file: format!("{root}/autostart/quedo-daemon.desktop"),
        },
    }
}

fn armed() -> WatchdogSnapshot {
    WatchdogSnapshot {
        armed: true,
        stalled: false,
        first_frame_seen: true,
    }
}

fn start(context: ControllerContext) -> Controller {
    let (controller, actions) = Controller::new(context, None);
    assert_eq!(actions.len(), 1);
    assert!(matches!(
        &actions[0],
        Action::Emit(ControllerOutput::StateChanged(ControllerState::Idle))
    ));
    controller
}

fn finished(wav: &str, result: Result<TranscriptResult, String>) -> Input {
    Input::Event(ControllerEvent::TranscriptionFinished {
        wav_path: wav.to_owned(),
        result,
    })
}

#[test]
fn spawn_next_job_sends_transcribe_message() {
    let context = sample_context("/tmp/root");
    let requested = String::from("/tmp/a.wav");
    let mut queue = SingleFlightQueue::new(1);
    queue.enqueue(requested.clone()).expect("enqueue");

    let message = spawn_next_job(&context, &mut queue, requested.as_str()).expect("spawn");

    match message {
        WorkerMessage::Transcribe {
            wav_path,
            db_path,
            config: _,
        } => {
            assert_eq!(wav_path, requested);
            assert_eq!(db_path, context.config.history.db_path.expect("db path"));
        }
        WorkerMessage::Shutdown => panic!("unexpected shutdown"),
    }
    assert_eq!(queue.in_flight(), 1);
    assert_eq!(queue.pending_len(), 0);
}

#[test]
fn spawn_next_job_detects_queue_mismatch() {
    let context = sample_context("/tmp/root");
    let expected = String::from("/tmp/expected.wav");
    let queued = String::from("/tmp/other.wav");
    let mut queue = SingleFlightQueue::new(1);
    queue.enqueue(queued).expect("enqueue");

    let error = spawn_next_job(&context, &mut queue, expected.as_str()).expect_err("mismatch");
    assert!(error.message().contains("queue scheduling mismatch"));
    assert_eq!(
        error.message(),
        "controller error: queue scheduling mismatch: expected /tmp/expected.wav, got /tmp/other.wav"
    );
}

#[test]
fn spawn_next_job_reports_empty_queue_and_falls_back_to_default_db() {
    let mut context = sample_context("/tmp/root");
    context.config.history.db_path = None;
    let mut queue = SingleFlightQueue::new(1);
    let error = spawn_next_job(&context, &mut queue, "/tmp/a.wav").expect_err("empty");
    assert!(matches!(error, AppError::Controller(m) if m == "queue was expected to have a job"));

    queue.enqueue("/tmp/a.wav".to_owned()).expect("enqueue");
    match spawn_next_job(&context, &mut queue, "/tmp/a.wav").expect("spawn") {
        WorkerMessage::Transcribe { db_path, .. } => {
            assert_eq!(db_path, "/tmp/root/data/history.sqlite3")
        }
        WorkerMessage::Shutdown => panic!("unexpected shutdown"),
    }
}

#[test]
fn controller_state_machine_transitions_idle_recording_processing_idle() {
    let controller = start(sample_context("/tmp/root"));

    let (controller, actions) = controller.step(Input::Event(ControllerEvent::Toggle));
    assert_eq!(actions.len(), 1);
    match &actions[0] {
        Action::StartRecording { output_dir, watchdog } => {
            assert_eq!(output_dir, "/tmp/root/cache/capture");
            assert_eq!(
                *watchdog,
                CaptureWatchdogConfig {
                    arming_timeout: 2_000_000_000,
                    stall_timeout: 750_000_000,
                }
            );
        }
        other => panic!("unexpected action {other:?}"),
    }
    assert!(controller.is_waiting());

    let (controller, actions) = controller.step(Input::Reply(Reply::RecordingStarted));
    assert_eq!(actions.len(), 2);
    assert!(matches!(
        &actions[0],
        Action::Emit(ControllerOutput::StateChanged(ControllerState::Recording))
    ));
    assert!(matches!(
        &actions[1],
        Action::Emit(ControllerOutput::Notification(message)) if message == "Recording started"
    ));
    assert!(controller.is_recording());

    let (controller, actions) = controller.step(Input::Event(ControllerEvent::Toggle));
    assert!(matches!(actions.as_slice(), [Action::StopRecording]));

    let (controller, actions) = controller.step(Input::Reply(Reply::RecordingStopped(Ok(
        "/tmp/root/capture.wav".to_owned(),
    ))));
    assert_eq!(actions.len(), 2);
    assert!(matches!(
        &actions[0],
        Action::Emit(ControllerOutput::StateChanged(ControllerState::Processing))
    ));
    match &actions[1] {
        Action::Submit(WorkerMessage::Transcribe { wav_path, db_path, config }) => {
            assert_eq!(wav_path, "/tmp/root/capture.wav");
            assert_eq!(db_path, "/tmp/root/history.sqlite3");
            assert_eq!(config.timeout_seconds, 45);
        }
        other => panic!("unexpected action {other:?}"),
    }

    let (controller, actions) =
        controller.step(finished("/tmp/root/capture.wav", Ok(sample_transcript_result())));
    assert_eq!(actions.len(), 3);
    assert!(matches!(
        &actions[0],
        Action::Emit(ControllerOutput::TranscriptReady(result))
            if result.run_id == "run-1" && result.transcript == "hello world"
                && result.backend == BackendKind::WhisperCpp
    ));
    assert!(matches!(
        &actions[1],
        Action::Emit(ControllerOutput::StateChanged(ControllerState::Idle))
    ));
    assert!(matches!(
        &actions[2],
        Action::Emit(ControllerOutput::Notification(message)) if message == "Transcription complete"
    ));

    let (controller, actions) = controller.step(Input::Event(ControllerEvent::Shutdown));
    assert!(matches!(
        actions.as_slice(),
        [Action::ShutdownWorker, Action::Emit(ControllerOutput::Stopped)]
    ));
    assert!(controller.is_halted());
}

#[test]
fn controller_rejects_toggle_during_processing() {
    let controller = start(sample_context("/tmp/root"));
    let (controller, _) = controller.step(Input::Event(ControllerEvent::Toggle));
    let (controller, _) = controller.step(Input::Reply(Reply::RecordingStarted));
    let (controller, _) = controller.step(Input::Event(ControllerEvent::Toggle));
    let (controller, actions) =
        controller.step(Input::Reply(Reply::RecordingStopped(Ok("/tmp/c.wav".to_owned()))));
    assert!(matches!(
        &actions[0],
        Action::Emit(ControllerOutput::StateChanged(ControllerState::Processing))
    ));

    let (controller, actions) = controller.step(Input::Event(ControllerEvent::Toggle));
    assert_eq!(actions.len(), 1);
    assert!(matches!(
        &actions[0],
        Action::Emit(ControllerOutput::Notification(message))
            if message == "Transcription already in progress; finishing current job."
    ));
    assert!(matches!(controller.state(), ControllerState::Processing));

    let (controller, actions) = controller.step(finished("/tmp/c.wav", Ok(sample_transcript_result())));
    assert_eq!(actions.len(), 3);

    let (controller, actions) = controller.step(Input::Event(ControllerEvent::Shutdown));
    assert!(matches!(
        actions.last(),
        Some(Action::Emit(ControllerOutput::Stopped))
    ));
    assert!(controller.is_halted());
}

#[test]
fn controller_enters_degraded_then_recovers() {
    let controller = start(sample_context("/tmp/root"));

    let (controller, _) = controller.step(Input::Event(ControllerEvent::Toggle));
    let (controller, actions) = controller.step(Input::Reply(Reply::RecordingStartFailed(
        AppError::Capture("microphone unavailable".to_owned()),
    )));
    assert_eq!(actions.len(), 2);
    assert!(matches!(
        &actions[0],
        Action::Emit(ControllerOutput::StateChanged(ControllerState::Degraded(reason)))
            if reason.contains("recording start failed")
    ));
    assert!(matches!(
        &actions[1],
        Action::Emit(ControllerOutput::Notification(message))
            if message.contains("recording start failed")
    ));
    assert!(matches!(
        &actions[0],
        Action::Emit(ControllerOutput::StateChanged(ControllerState::Degraded(reason)))
            if reason == "recording start failed: microphone unavailable"
    ));
    assert!(matches!(
        &actions[1],
        Action::Emit(ControllerOutput::Notification(message))
            if message == "recording start failed: microphone unavailable"
    ));

    let (controller, actions) = controller.step(Input::Event(ControllerEvent::Toggle));
    assert!(matches!(actions.as_slice(), [Action::StartRecording { .. }]));
    let (controller, actions) = controller.step(Input::Reply(Reply::RecordingStarted));
    assert!(matches!(
        &actions[0],
        Action::Emit(ControllerOutput::StateChanged(ControllerState::Recording))
    ));
    assert!(matches!(
        &actions[1],
        Action::Emit(ControllerOutput::Notification(message)) if message == "Recording started"
    ));

    let (controller, _) = controller.step(Input::Event(ControllerEvent::Toggle));
    let (controller, actions) =
        controller.step(Input::Reply(Reply::RecordingStopped(Ok("/tmp/c.wav".to_owned()))));
    assert!(matches!(
        &actions[0],
        Action::Emit(ControllerOutput::StateChanged(ControllerState::Processing))
    ));

    let (controller, actions) = controller.step(finished("/tmp/c.wav", Ok(sample_transcript_result())));
    assert!(matches!(
        &actions[1],
        Action::Emit(ControllerOutput::StateChanged(ControllerState::Idle))
    ));

    let (_, actions) = controller.step(Input::Event(ControllerEvent::Shutdown));
    assert!(matches!(
        actions.last(),
        Some(Action::Emit(ControllerOutput::Stopped))
    ));
}

#[test]
fn controller_shutdown_drains_worker_and_active_recording() {
    let controller = start(sample_context("/tmp/root"));
    let (controller, _) = controller.step(Input::Event(ControllerEvent::Toggle));
    let (controller, actions) = controller.step(Input::Reply(Reply::RecordingStarted));
    assert!(matches!(
        &actions[0],
        Action::Emit(ControllerOutput::StateChanged(ControllerState::Recording))
    ));

    let (controller, actions) = controller.step(Input::Event(ControllerEvent::Shutdown));
    assert!(matches!(
        actions.as_slice(),
        [
            Action::AbortRecording,
            Action::ShutdownWorker,
            Action::Emit(ControllerOutput::Stopped)
        ]
    ));
    assert!(controller.is_halted());
    assert!(!controller.is_recording());

    let (controller, actions) = controller.step(Input::Event(ControllerEvent::Toggle));
    assert!(actions.is_empty());
    let (controller, actions) = controller.step(finished("/tmp/c.wav", Err("late".to_owned())));
    assert!(actions.is_empty());
    let (_, actions) = controller.step(Input::Event(ControllerEvent::Shutdown));
    assert!(actions.is_empty());
}

#[test]
fn tick_with_unarmed_capture_degrades_with_arming_reason() {
    let controller = start(sample_context("/tmp/root"));
    let (controller, _) = controller.step(Input::Event(ControllerEvent::Toggle));
    let (controller, _) = controller.step(Input::Reply(Reply::RecordingStarted));

    let (controller, actions) = controller.step(Input::Event(ControllerEvent::Tick));
    assert!(matches!(actions.as_slice(), [Action::ProbeRecording]));
    let (controller, actions) = controller.step(Input::Reply(Reply::RecordingProbed {
        snapshot: WatchdogSnapshot {
            armed: false,
            stalled: false,
            first_frame_seen: false,
        },
        elapsed: 0,
    }));
    let reason = "capture watchdog arming timeout exceeded (first_frame_seen=false)";
    assert_eq!(actions.len(), 3);
    assert!(matches!(&actions[0], Action::AbortRecording));
    assert!(matches!(
        &actions[1],
        Action::Emit(ControllerOutput::StateChanged(ControllerState::Degraded(r))) if r == reason
    ));
    assert!(matches!(
        &actions[2],
        Action::Emit(ControllerOutput::Notification(m)) if m == reason
    ));
    assert!(!controller.is_recording());

    let (_, actions) = controller.step(Input::Event(ControllerEvent::Tick));
    assert!(actions.is_empty());
}

#[test]
fn tick_with_stalled_capture_degrades_even_past_recording_cap() {
    let mut context = sample_context("/tmp/root");
    context.config.audio.max_recording_seconds = 1;
    let controller = start(context);
    let (controller, _) = controller.step(Input::Event(ControllerEvent::Toggle));
    let (controller, _) = controller.step(Input::Reply(Reply::RecordingStarted));
    let (controller, _) = controller.step(Input::Event(ControllerEvent::Tick));
    let (controller, actions) = controller.step(Input::Reply(Reply::RecordingProbed {
        snapshot: WatchdogSnapshot {
            armed: true,
            stalled: true,
            first_frame_seen: true,
        },
        elapsed: 3_600_000_000_000,
    }));
    let reason = "capture watchdog stall detected (first_frame_seen=true)";
    assert!(matches!(&actions[0], Action::AbortRecording));
    assert!(matches!(
        &actions[1],
        Action::Emit(ControllerOutput::StateChanged(ControllerState::Degraded(r))) if r == reason
    ));
    assert!(matches!(controller.state(), ControllerState::Degraded(r) if r == reason));
    assert_eq!(
        watchdog_reason(WatchdogSnapshot {
            armed: true,
            stalled: true,
            first_frame_seen: true
        }),
        reason
    );
}

#[test]
fn tick_past_recording_cap_stops_and_processes() {
    let mut context = sample_context("/tmp/root");
    context.config.audio.max_recording_seconds = 1;
    let controller = start(context);
    let (controller, _) = controller.step(Input::Event(ControllerEvent::Toggle));
    let (controller, _) = controller.step(Input::Reply(Reply::RecordingStarted));

    let (controller, _) = controller.step(Input::Event(ControllerEvent::Tick));
    let (controller, actions) = controller.step(Input::Reply(Reply::RecordingProbed {
        snapshot: armed(),
        elapsed: 1_000_000_000,
    }));
    assert!(actions.is_empty());
    assert!(controller.is_recording());

    let (controller, _) = controller.step(Input::Event(ControllerEvent::Tick));
    let (controller, actions) = controller.step(Input::Reply(Reply::RecordingProbed {
        snapshot: armed(),
        elapsed: 1_500_000_000,
    }));
    assert!(matches!(actions.as_slice(), [Action::StopRecording]));

    let (controller, actions) = controller.step(Input::Reply(Reply::RecordingStopped(Err(
        AppError::Capture("boom".to_owned()),
    ))));
    assert!(matches!(
        &actions[0],
        Action::Emit(ControllerOutput::StateChanged(ControllerState::Degraded(r)))
            if r == "failed to finalize timed recording: boom"
    ));
    assert!(matches!(controller.state(), ControllerState::Degraded(_)));
}

#[test]
fn failed_stop_on_toggle_degrades() {
    let controller = start(sample_context("/tmp/root"));
    let (controller, _) = controller.step(Input::Event(ControllerEvent::Toggle));
    let (controller, _) = controller.step(Input::Reply(Reply::RecordingStarted));
    let (controller, _) = controller.step(Input::Event(ControllerEvent::Toggle));
    let (_, actions) = controller.step(Input::Reply(Reply::RecordingStopped(Err(
        AppError::Capture("recorded audio is empty".to_owned()),
    ))));
    assert!(matches!(
        &actions[0],
        Action::Emit(ControllerOutput::StateChanged(ControllerState::Degraded(r)))
            if r == "failed to finalize recording: recorded audio is empty"
    ));
    assert!(matches!(
        &actions[1],
        Action::Emit(ControllerOutput::Notification(m))
            if m == "failed to finalize recording: recorded audio is empty"
    ));
}

#[test]
fn clipboard_mode_writes_before_publishing_and_degrades_on_failure() {
    let mut context = sample_context("/tmp/root");
    context.config.output.mode = OutputMode::ClipboardOnly;
    context.config.audio.retain_audio = false;
    let controller = start(context);

    let (controller, actions) = controller.step(finished("/tmp/c.wav", Ok(sample_transcript_result())));
    assert_eq!(actions.len(), 2);
    assert!(matches!(&actions[0], Action::RemoveArtifact(p) if p == "/tmp/c.wav"));
    assert!(matches!(&actions[1], Action::WriteClipboard(t) if t == "hello world"));

    let (controller, actions) = controller.step(Input::Reply(Reply::ClipboardWritten(Err(
        AppError::Clipboard("clipboard init failed: no display".to_owned()),
    ))));
    assert_eq!(actions.len(), 2);
    let reason = "clipboard output failed: clipboard init failed: no display";
    assert!(matches!(
        &actions[0],
        Action::Emit(ControllerOutput::StateChanged(ControllerState::Degraded(r))) if r == reason
    ));
    assert!(matches!(
        &actions[1],
        Action::Emit(ControllerOutput::Notification(m)) if m == reason
    ));

    let (controller, _) = controller.step(finished("/tmp/d.wav", Ok(sample_transcript_result())));
    let (controller, actions) = controller.step(Input::Reply(Reply::ClipboardWritten(Ok(()))));
    assert!(matches!(
        actions.as_slice(),
        [
            Action::Emit(ControllerOutput::TranscriptReady(_)),
            Action::Emit(ControllerOutput::StateChanged(ControllerState::Idle)),
            Action::Emit(ControllerOutput::Notification(_))
        ]
    ));
    assert!(matches!(controller.state(), ControllerState::Idle));
}

#[test]
fn failed_job_degrades_with_reason() {
    let controller = start(sample_context("/tmp/root"));
    let (controller, actions) = controller.step(finished("/tmp/c.wav", Err("engine timeout".to_owned())));
    assert!(matches!(
        actions.as_slice(),
        [
            Action::Emit(ControllerOutput::StateChanged(ControllerState::Degraded(r))),
            Action::Emit(ControllerOutput::Notification(m))
        ] if r == "transcription job failed: engine timeout" && m == r
    ));
    assert!(matches!(controller.state(), ControllerState::Degraded(_)));
}

#[test]
fn unavailable_controller_refuses_toggle_with_reason() {
    let (controller, actions) =
        Controller::new(sample_context("/tmp/root"), Some("ffmpeg missing".to_owned()));
    assert!(matches!(
        actions.as_slice(),
        [
            Action::Emit(ControllerOutput::StateChanged(ControllerState::Unavailable(r))),
            Action::Emit(ControllerOutput::Notification(m))
        ] if r == "ffmpeg missing" && m == "ffmpeg missing"
    ));
    let (controller, actions) = controller.step(Input::Event(ControllerEvent::Toggle));
    assert!(matches!(
        actions.as_slice(),
        [Action::Emit(ControllerOutput::Notification(m))] if m == "recording disabled: ffmpeg missing"
    ));
    assert!(matches!(controller.state(), ControllerState::Unavailable(_)));
    let (controller, actions) = controller.step(Input::Event(ControllerEvent::Tick));
    assert!(actions.is_empty());
    let (_, actions) = controller.step(Input::Event(ControllerEvent::Shutdown));
    assert!(matches!(
        actions.as_slice(),
        [Action::ShutdownWorker, Action::Emit(ControllerOutput::Stopped)]
    ));
}

#[test]
fn doctor_request_publishes_report() {
    let controller = start(sample_context("/tmp/root"));
    let (controller, actions) = controller.step(Input::Event(ControllerEvent::RunDoctor));
    assert!(matches!(actions.as_slice(), [Action::RunDoctor]));
    let (controller, actions) =
        controller.step(Input::Reply(Reply::DoctorFinished(sample_doctor_report())));
    assert!(matches!(
        actions.as_slice(),
        [Action::Emit(ControllerOutput::DoctorReport(r))] if r.state == DoctorState::Ready
    ));
    assert!(matches!(controller.state(), ControllerState::Idle));
}

#[test]
fn faults_end_the_run_with_channel_errors() {
    let controller = start(sample_context("/tmp/root"));
    let (controller, actions) = controller.step(Input::Fault(Fault::WorkerChannelClosed));
    assert!(matches!(
        actions.as_slice(),
        [
            Action::Emit(ControllerOutput::Notification(m)),
            Action::Fail(AppError::Controller(e))
        ] if m == "transcription worker channel is closed" && e == "transcription worker channel closed"
    ));
    assert!(controller.is_halted());

    let controller = start(sample_context("/tmp/root"));
    let (_, actions) = controller.step(Input::Fault(Fault::EventChannelClosed));
    assert!(matches!(
        actions.as_slice(),
        [Action::Fail(AppError::ChannelClosed(e))] if e == "controller event channel closed"
    ));
    let controller = start(sample_context("/tmp/root"));
    let (_, actions) = controller.step(Input::Fault(Fault::OutputChannelClosed));
    assert!(matches!(
        actions.as_slice(),
        [Action::Fail(AppError::ChannelClosed(e))] if e == "controller output channel closed"
    ));
}

#[test]
fn unexpected_replies_are_ignored() {
    let controller = start(sample_context("/tmp/root"));
    let (controller, actions) = controller.step(Input::Reply(Reply::RecordingStarted));
    assert!(actions.is_empty());
    assert!(matches!(controller.state(), ControllerState::Idle));
    assert!(!controller.is_waiting());

    let (controller, _) = controller.step(Input::Event(ControllerEvent::Toggle));
    assert!(controller.is_waiting());
    let (controller, actions) = controller.step(Input::Reply(Reply::ClipboardWritten(Ok(()))));
    assert!(actions.is_empty());
    assert!(controller.is_waiting());
    let (controller, actions) = controller.step(Input::Reply(Reply::RecordingStarted));
    assert_eq!(actions.len(), 2);
    assert!(!controller.is_waiting());
}

#[test]
fn removes_capture_only_when_audio_is_not_retained() {
    let mut context = sample_context("/tmp/root");
    context.config.audio.retain_audio = false;
    let controller = start(context);
    let (_, actions) = controller.step(finished("/tmp/c.wav", Err("x".to_owned())));
    assert!(matches!(&actions[0], Action::RemoveArtifact(p) if p == "/tmp/c.wav"));
    assert_eq!(actions.len(), 3);
}

#[test]
fn arming_timeout_scenario_degrades_on_tick() {
    let mut context = sample_context("/tmp/root");
    context.config.audio.arming_timeout_ms = 40;
    context.config.audio.stall_timeout_ms = 500;
    let controller = start(context);
    let (controller, actions) = controller.step(Input::Event(ControllerEvent::Toggle));
    let watchdog = match &actions[0] {
        Action::StartRecording { watchdog, .. } => *watchdog,
        other => panic!("unexpected action {other:?}"),
    };
    let mut recording = ActiveRecording::begin("/tmp/root/cache/capture/c.wav".to_owned(), watchdog, 0);
    let (mut controller, _) = controller.step(Input::Reply(Reply::RecordingStarted));

    let mut outputs = Vec::new();
    for tick in 1..=2u128 {
        let now = tick * 60_000_000;
        let (next, actions) = controller.step(Input::Event(ControllerEvent::Tick));
        controller = next;
        if actions.is_empty() {
            continue;
        }
        assert!(matches!(actions.as_slice(), [Action::ProbeRecording]));
        let snapshot = recording.watchdog_snapshot(0, now);
        let (next, actions) = controller.step(Input::Reply(Reply::RecordingProbed {
            snapshot,
            elapsed: 0,
        }));
        controller = next;
        outputs.extend(actions);
    }
    let reason = "capture watchdog arming timeout exceeded (first_frame_seen=false)";
    assert!(matches!(
        outputs.as_slice(),
        [
            Action::AbortRecording,
            Action::Emit(ControllerOutput::StateChanged(ControllerState::Degraded(r))),
            Action::Emit(ControllerOutput::Notification(m))
        ] if r == reason && m == reason
    ));
}

#[test]
fn stall_scenario_degrades_on_second_snapshot() {
    let mut context = sample_context("/tmp/root");
    context.config.audio.arming_timeout_ms = 500;
    context.config.audio.stall_timeout_ms = 50;
    let controller = start(context);
    let (controller, actions) = controller.step(Input::Event(ControllerEvent::Toggle));
    let watchdog = match &actions[0] {
        Action::StartRecording { watchdog, .. } => *watchdog,
        other => panic!("unexpected action {other:?}"),
    };
    let mut recording = ActiveRecording::begin("/tmp/root/cache/capture/c.wav".to_owned(), watchdog, 0);
    let (controller, _) = controller.step(Input::Reply(Reply::RecordingStarted));

    let (controller, _) = controller.step(Input::Event(ControllerEvent::Tick));
    let first = recording.watchdog_snapshot(44 + 80, 60_000_000);
    assert_eq!(first, WatchdogSnapshot { armed: true, stalled: false, first_frame_seen: true });
    let (controller, actions) = controller.step(Input::Reply(Reply::RecordingProbed {
        snapshot: first,
        elapsed: 0,
    }));
    assert!(actions.is_empty());

    let (controller, _) = controller.step(Input::Event(ControllerEvent::Tick));
    let second = recording.watchdog_snapshot(44 + 80, 180_000_000);
    assert!(second.stalled);
    let (controller, actions) = controller.step(Input::Reply(Reply::RecordingProbed {
        snapshot: second,
        elapsed: 0,
    }));
    let reason = "capture watchdog stall detected (first_frame_seen=true)";
    assert!(matches!(
        &actions[1],
        Action::Emit(ControllerOutput::StateChanged(ControllerState::Degraded(r))) if r == reason
    ));
    assert!(matches!(controller.state(), ControllerState::Degraded(_)));
}

#[test]
fn full_queue_degrades_with_the_queue_reason() {
    let controller = start(sample_context("/tmp/root"));
    let (controller, _) = controller.step(Input::Event(ControllerEvent::Toggle));
    let (controller, _) = controller.step(Input::Reply(Reply::RecordingStarted));
    let (controller, _) = controller.step(Input::Event(ControllerEvent::Toggle));
    let (controller, _) =
        controller.step(Input::Reply(Reply::RecordingStopped(Ok("/tmp/a.wav".to_owned()))));
    assert_eq!(
        format!("{:?}", controller.state()),
        format!("{:?}", ControllerState::Processing)
    );
    let (controller, actions) =
        controller.step(finished("/tmp/a.wav", Err("engine transcribe failed: x".to_owned())));
    assert!(matches!(
        &actions[0],
        Action::Emit(ControllerOutput::StateChanged(ControllerState::Degraded(r)))
            if r == "transcription job failed: engine transcribe failed: x"
    ));
    assert!(!controller.is_waiting());
}

#[test]
fn recording_cap_is_compared_in_the_clocks_unit() {
    let mut context = sample_context("/tmp/root");
    context.config.audio.max_recording_seconds = 1;
    let controller = start(context);
    let (controller, _) = controller.step(Input::Event(ControllerEvent::Toggle));
    let (controller, _) = controller.step(Input::Reply(Reply::RecordingStarted));

    let (controller, _) = controller.step(Input::Event(ControllerEvent::Tick));
    let (controller, actions) = controller.step(Input::Reply(Reply::RecordingProbed {
        snapshot: armed(),
        elapsed: 1_000_000_000,
    }));
    assert!(actions.is_empty());
    let (controller, actions) = controller.step(Input::Event(ControllerEvent::Toggle));
    assert!(matches!(actions.as_slice(), [Action::StopRecording]));
    let (controller, _) =
        controller.step(Input::Reply(Reply::RecordingStopped(Ok("/tmp/a.wav".to_owned()))));
    let (controller, _) = controller.step(finished("/tmp/a.wav", Err("x".to_owned())));

    let (controller, _) = controller.step(Input::Event(ControllerEvent::Toggle));
    let (controller, _) = controller.step(Input::Reply(Reply::RecordingStarted));
    let (controller, _) = controller.step(Input::Event(ControllerEvent::Tick));
    let (controller, actions) = controller.step(Input::Reply(Reply::RecordingProbed {
        snapshot: armed(),
        elapsed: 1_000_000_001,
    }));
    assert!(matches!(actions.as_slice(), [Action::StopRecording]));
    let (controller, actions) =
        controller.step(Input::Reply(Reply::RecordingStopped(Ok("/tmp/b.wav".to_owned()))));
    assert!(matches!(
        actions.as_slice(),
        [
            Action::Emit(ControllerOutput::StateChanged(ControllerState::Processing)),
            Action::Submit(WorkerMessage::Transcribe { wav_path, .. })
        ] if wav_path == "/tmp/b.wav"
    ));
    assert!(!controller.is_recording());
}
