use quedo_daemon::capture::devices::{list_input_devices, parse_arecord_listing, select_device, DeviceProbe};
use quedo_daemon::capture::mic::{
    elapsed, snapshot_or_fail_safe, CaptureWatchdogConfig, FileWatchdog, MicrophoneCapture,
    WatchdogSnapshot, WatchdogState,
};
use quedo_daemon::capture::recorder::{
    capture_path, fresh_capture_path, plan_recording_with, recorder_args, select_recorder, termination_error,
    termination_step, validate_wav_header, ActiveRecording, RecorderKind, TerminationFailure,
    TerminationStep, WavFileProbe,
};
use quedo_daemon::capture::stream::{sample_kind, SampleFormat, SampleKind};
use quedo_daemon::error::AppError;

const MS: u128 = 1_000_000;

fn watchdog(arming_ms: u64, stall_ms: u64) -> CaptureWatchdogConfig {
    CaptureWatchdogConfig::from_millis(arming_ms, stall_ms)
}

fn header(len: u64, bytes: &[u8; 12]) -> WavFileProbe {
    WavFileProbe::Header { len, bytes: *bytes }
}

#[test]
fn watchdog_config_converts_milliseconds() {
    let cfg = watchdog(40, 500);
    assert_eq!(cfg.arming_timeout, 40_000_000);
    assert_eq!(cfg.stall_timeout, 500_000_000);
    let big = watchdog(u64::MAX, 1);
    assert_eq!(big.arming_timeout, (u64::MAX as u128) * 1_000_000);
}

#[test]
fn watchdog_arming_timeout_detection() {
    let cfg = watchdog(40, 500);
    let mut recording = ActiveRecording::begin("/tmp/capture-x.wav".to_owned(), cfg, 0);
    let snapshot = recording.watchdog_snapshot(0, 80 * MS);
    assert!(!snapshot.armed);
    assert!(!snapshot.first_frame_seen);
    assert!(!snapshot.stalled);

    let mut fresh = FileWatchdog::new(1_000);
    assert!(fresh.observe(cfg, 0, 1_000 + 40 * MS).armed);
    assert!(!fresh.observe(cfg, 44, 1_000 + 40 * MS + 1).armed);
}

#[test]
fn watchdog_stall_detection_after_initial_growth() {
    let cfg = watchdog(500, 50);
    let mut recording = ActiveRecording::begin("/tmp/capture-x.wav".to_owned(), cfg, 0);
    let first = recording.watchdog_snapshot(44 + 80, 60 * MS);
    assert!(first.armed);
    assert!(first.first_frame_seen);
    assert!(!first.stalled);

    let snapshot = recording.watchdog_snapshot(44 + 80, 180 * MS);
    assert!(snapshot.stalled);
    assert!(snapshot.first_frame_seen);
    assert!(snapshot.armed);

    let grown = recording.watchdog_snapshot(44 + 160, 400 * MS);
    assert!(!grown.stalled);
}

#[test]
fn file_watchdog_latches_first_frame_and_tracks_growth() {
    let cfg = watchdog(100, 100);
    let mut w = FileWatchdog::new(0);
    w.observe(cfg, 45, 10 * MS);
    assert!(w.first_frame_seen);
    assert_eq!(w.last_size, 45);
    assert_eq!(w.last_growth_at, 10 * MS);
    let s = w.observe(cfg, 10, 20 * MS);
    assert!(s.first_frame_seen);
    assert_eq!(w.last_size, 45);
    assert_eq!(w.last_growth_at, 10 * MS);
    let s = w.observe(cfg, 45, 110 * MS);
    assert!(!s.stalled);
    let s = w.observe(cfg, 45, 110 * MS + 1);
    assert!(s.stalled);
}

#[test]
fn callback_watchdog_reports_arming_and_stall() {
    let cfg = watchdog(40, 50);
    let mut w = WatchdogState::new(100);
    assert_eq!(
        w.snapshot(cfg, 100 + 40 * MS),
        WatchdogSnapshot { armed: true, stalled: false, first_frame_seen: false }
    );
    assert_eq!(
        w.snapshot(cfg, 100 + 40 * MS + 1),
        WatchdogSnapshot { armed: false, stalled: false, first_frame_seen: false }
    );
    w.mark_buffer(0, 150);
    assert!(!w.first_frame_seen);
    w.mark_buffer(512, 200 + 60 * MS);
    assert_eq!(w.last_frame_at, Some(200 + 60 * MS));
    w.mark_frame(200 + 60 * MS);
    assert_eq!(
        w.snapshot(cfg, 200 + 110 * MS),
        WatchdogSnapshot { armed: true, stalled: false, first_frame_seen: true }
    );
    assert_eq!(
        w.snapshot(cfg, 200 + 110 * MS + 1),
        WatchdogSnapshot { armed: true, stalled: true, first_frame_seen: true }
    );
    assert_eq!(w.snapshot(cfg, 0).stalled, false);
    assert_eq!(elapsed(5, 9), 0);
    assert_eq!(elapsed(9, 5), 4);
}

#[test]
fn unreadable_watchdog_state_fails_safe() {
    let cfg = watchdog(40, 50);
    assert_eq!(
        snapshot_or_fail_safe(None, cfg, 0),
        WatchdogSnapshot { armed: false, stalled: true, first_frame_seen: false }
    );
    let w = WatchdogState::new(0);
    assert_eq!(snapshot_or_fail_safe(Some(&w), cfg, 1), w.snapshot(cfg, 1));
    assert_eq!(WatchdogSnapshot::fail_safe().stalled, true);
}

#[test]
fn linux_uses_arecord_when_present() {
    let plan = plan_recording_with(&None, "/tmp/out", "0000", true, true).expect("plan");
    assert_eq!(plan.kind, RecorderKind::Arecord);
    assert_eq!(plan.kind.program(), "arecord");
    assert_eq!(plan.wav_path, "/tmp/out/capture-0000.wav");
    assert_eq!(
        plan.args,
        vec!["-q", "-f", "S16_LE", "-r", "16000", "-c", "1", "/tmp/out/capture-0000.wav"]
    );
}

#[test]
fn linux_falls_back_to_ffmpeg_when_arecord_missing() {
    let plan = plan_recording_with(&None, "/tmp/out/", "ab", false, true).expect("plan");
    assert_eq!(plan.kind, RecorderKind::Ffmpeg);
    assert_eq!(plan.kind.program(), "ffmpeg");
    assert_eq!(plan.wav_path, "/tmp/out/capture-ab.wav");
    assert_eq!(
        plan.args,
        vec![
            "-f", "alsa", "-i", "default", "-ac", "1", "-ar", "16000", "-c:a", "pcm_s16le",
            "/tmp/out/capture-ab.wav"
        ]
    );
}

#[test]
fn linux_errors_when_no_recorder_binary() {
    let result = plan_recording_with(&None, "/tmp/out", "ab", false, false);
    assert!(matches!(result, Err(AppError::BinaryMissing { binary }) if binary == "arecord or ffmpeg"));
    assert!(matches!(select_recorder(false, false), Err(AppError::BinaryMissing { .. })));
    assert!(matches!(select_recorder(true, false), Ok(RecorderKind::Arecord)));
}

#[test]
fn recorder_arguments_carry_the_preferred_device() {
    let device = Some("hw:1,0".to_owned());
    assert_eq!(
        recorder_args(RecorderKind::Arecord, &device, "/o/c.wav"),
        vec!["-q", "-f", "S16_LE", "-r", "16000", "-c", "1", "-D", "hw:1,0", "/o/c.wav"]
    );
    assert_eq!(
        recorder_args(RecorderKind::Ffmpeg, &device, "/o/c.wav"),
        vec![
            "-f", "alsa", "-i", "hw:1,0", "-ac", "1", "-ar", "16000", "-c:a", "pcm_s16le",
            "/o/c.wav"
        ]
    );
    assert_eq!(capture_path("", "id"), "capture-id.wav");
}

#[test]
fn fresh_capture_paths_are_uuid_named_and_distinct() {
    let first = fresh_capture_path("/tmp/captures");
    let name = first.strip_prefix("/tmp/captures/capture-").expect("prefix");
    let id = name.strip_suffix(".wav").expect("suffix");
    assert_eq!(id.len(), 36);
    for (index, byte) in id.bytes().enumerate() {
        if [8, 13, 18, 23].contains(&index) {
            assert_eq!(byte, b'-');
        } else {
            assert!(byte.is_ascii_hexdigit());
        }
    }
    assert_ne!(fresh_capture_path("/tmp/captures"), first);
}

#[test]
fn plan_recording_draws_a_fresh_capture_name() {
    let capture = MicrophoneCapture::new(Some("default".to_owned()));
    assert_eq!(capture.preferred_device().as_deref(), Some("default"));
    match capture.plan_recording("/tmp/captures") {
        Ok(plan) => {
            let name = plan.wav_path.strip_prefix("/tmp/captures/capture-").expect("prefix");
            let id = name.strip_suffix(".wav").expect("suffix");
            assert_eq!(id.len(), 36);
            assert_eq!(id.as_bytes()[8], b'-');
            assert_eq!(id.as_bytes()[23], b'-');
            assert_eq!(plan.args.last(), Some(&plan.wav_path));
            let other = capture.plan_recording("/tmp/captures").expect("second plan");
            assert_ne!(other.wav_path, plan.wav_path);
        }
        Err(error) => assert!(matches!(error, AppError::BinaryMissing { .. })),
    }
}

#[test]
fn stop_terminates_child_and_returns_wav_path() {
    let recording =
        ActiveRecording::begin("/tmp/out/capture-1.wav".to_owned(), watchdog(500, 500), 0);
    assert_eq!(recording.wav_path(), "/tmp/out/capture-1.wav");
    assert_eq!(recording.elapsed(2_500_000_000), 2_500_000_000);
    let wav = recording
        .stop(Ok(()), &header(44 + 128, b"RIFF0000WAVE"))
        .expect("stop");
    assert_eq!(wav, "/tmp/out/capture-1.wav");
    assert!(wav.ends_with(".wav"));
}

#[test]
fn stop_reports_termination_failure_before_file_verdict() {
    let recording = ActiveRecording::begin("/tmp/c.wav".to_owned(), watchdog(500, 500), 0);
    let error = recording
        .stop(
            Err(termination_error(TerminationFailure::Kill, "EPERM")),
            &header(10, b"RIFF0000WAVE"),
        )
        .expect_err("termination failed");
    assert!(matches!(error, AppError::Capture(m)
        if m == "failed to SIGKILL recorder process after timeout: EPERM"));
}

#[test]
fn wav_validation_rejects_short_empty_and_unmarked_files() {
    let path = "/tmp/c.wav";
    let msg = |r: Result<(), AppError>| match r {
        Err(AppError::Capture(m)) => m,
        other => panic!("unexpected {other:?}"),
    };
    assert_eq!(
        msg(validate_wav_header(path, &header(43, b"RIFF0000WAVE"))),
        "recorded audio is not a valid WAV file (too short): /tmp/c.wav"
    );
    assert_eq!(
        msg(validate_wav_header(path, &header(44, b"RIFF0000WAVE"))),
        "recorded audio is empty (WAV header present but no PCM frames): /tmp/c.wav"
    );
    assert_eq!(
        msg(validate_wav_header(path, &header(45, b"RIFX0000WAVE"))),
        "recorded audio is missing RIFF/WAVE header markers: /tmp/c.wav"
    );
    assert_eq!(
        msg(validate_wav_header(path, &header(45, b"RIFF0000WAVX"))),
        "recorded audio is missing RIFF/WAVE header markers: /tmp/c.wav"
    );
    assert_eq!(
        msg(validate_wav_header(path, &WavFileProbe::StatFailed("gone".to_owned()))),
        "failed to stat recorder output /tmp/c.wav: gone"
    );
    assert_eq!(
        msg(validate_wav_header(
            path,
            &WavFileProbe::OpenFailed { len: 100, error: "denied".to_owned() }
        )),
        "failed to open recorder output for WAV validation /tmp/c.wav: denied"
    );
    assert_eq!(
        msg(validate_wav_header(
            path,
            &WavFileProbe::ReadFailed { len: 100, error: "eof".to_owned() }
        )),
        "failed to read WAV header from /tmp/c.wav: eof"
    );
    assert_eq!(
        msg(validate_wav_header(
            path,
            &WavFileProbe::ReadFailed { len: 3, error: "eof".to_owned() }
        )),
        "recorded audio is not a valid WAV file (too short): /tmp/c.wav"
    );
    assert!(validate_wav_header(path, &header(45, b"RIFF\x01\x00\x00\x00WAVE")).is_ok());
}

#[test]
fn termination_polls_until_grace_period_then_escalates() {
    assert!(matches!(termination_step(Ok(true), 0), Ok(TerminationStep::Finished)));
    assert!(matches!(
        termination_step(Ok(true), 5_000_000_000),
        Ok(TerminationStep::Finished)
    ));
    assert!(matches!(
        termination_step(Ok(false), 1_999_999_999),
        Ok(TerminationStep::PollAgain)
    ));
    assert!(matches!(
        termination_step(Ok(false), 2_000_000_000),
        Ok(TerminationStep::Escalate)
    ));
    assert!(matches!(
        termination_step(Err("ECHILD".to_owned()), 0),
        Err(AppError::Capture(m)) if m == "failed while waiting for recorder process termination: ECHILD"
    ));
    assert!(matches!(
        termination_error(TerminationFailure::Reap, "x"),
        AppError::Capture(m) if m == "failed waiting for recorder process after SIGKILL: x"
    ));
}

#[test]
fn list_devices_prefers_arecord() {
    let probe = DeviceProbe::ArecordListing(
        "**** List of CAPTURE Hardware Devices ****\ncard 0: Device [Mock Device], device 0: Mock [Mock]\r\n  Subdevices: 1/1\n  card 1: Other \n".to_owned(),
    );
    let devices = list_input_devices(&probe).expect("devices");
    assert_eq!(
        devices,
        vec![
            "card 0: Device [Mock Device], device 0: Mock [Mock]".to_owned(),
            "card 1: Other".to_owned()
        ]
    );
    assert!(parse_arecord_listing("").is_empty());
}

#[test]
fn list_devices_falls_back_to_ffmpeg() {
    let devices = list_input_devices(&DeviceProbe::FfmpegOnly).expect("devices");
    assert_eq!(devices, vec!["default (ffmpeg/alsa input)".to_owned()]);
}

#[test]
fn list_devices_errors_when_no_recorders() {
    let result = list_input_devices(&DeviceProbe::NoRecorder);
    assert!(matches!(result, Err(AppError::BinaryMissing { .. })));
    let failed = list_input_devices(&DeviceProbe::ArecordFailed("no such file".to_owned()));
    assert!(matches!(failed, Err(AppError::Capture(m)) if m == "failed to execute `arecord -l`: no such file"));
}

#[test]
fn select_device_finds_first_match_or_defaults() {
    let names = vec!["Built-in".to_owned(), "USB Mic".to_owned(), "USB Mic".to_owned()];
    assert_eq!(select_device(&names, &Some("USB Mic".to_owned())), Some(1));
    assert_eq!(select_device(&names, &Some("Missing".to_owned())), None);
    assert_eq!(select_device(&names, &None), None);
}

#[test]
fn only_three_sample_formats_are_captured() {
    assert!(matches!(sample_kind(SampleFormat::F32), Ok(SampleKind::F32)));
    assert!(matches!(sample_kind(SampleFormat::I16), Ok(SampleKind::I16)));
    assert!(matches!(sample_kind(SampleFormat::U16), Ok(SampleKind::U16)));
    for format in [
        SampleFormat::I8,
        SampleFormat::I32,
        SampleFormat::I64,
        SampleFormat::U8,
        SampleFormat::U32,
        SampleFormat::U64,
        SampleFormat::F64,
    ] {
        assert!(matches!(
            sample_kind(format),
            Err(AppError::Capture(m)) if m == "unsupported input sample format"
        ));
    }
}
