use vstd::prelude::*;
use vstd::string::StringExecFns;

use crate::capture::mic::NANOS_PER_MILLI;
use crate::controller::events::{ControllerEvent, ControllerEventView, ControllerOutput};
use crate::controller::state::ControllerState;
use crate::error::{AppError, AppErrorView, AppResult};
use crate::history::models::RunSummary;
use crate::text::{append_decimal, keyword, spec_decimal, spec_keyword, strings_view, text_eq};

verus! {

/// Longest pause between two ticks, in milliseconds.
pub const TICK_INTERVAL_MS: u64 = 150;

/// Pause of the host loop between two rounds, in milliseconds.
pub const LOOP_PAUSE_MS: u64 = 50;

/// The pause between ticks for the given watchdog timeouts: at most half the shorter
/// timeout, so that a watchdog verdict is never late by more than that, and never more
/// than the usual interval.
pub open spec fn spec_tick_interval_ms(arming_timeout_ms: u64, stall_timeout_ms: u64) -> u64 {
    let shorter = if arming_timeout_ms <= stall_timeout_ms {
        arming_timeout_ms
    } else {
        stall_timeout_ms
    };
    if shorter / 2 < TICK_INTERVAL_MS {
        shorter / 2
    } else {
        TICK_INTERVAL_MS
    }
}

/// Chooses the pause between ticks.
pub fn tick_interval_ms(arming_timeout_ms: u64, stall_timeout_ms: u64) -> (r: u64)
    ensures
        r == spec_tick_interval_ms(arming_timeout_ms, stall_timeout_ms),
        2 * r <= arming_timeout_ms && 2 * r <= stall_timeout_ms,
        r <= TICK_INTERVAL_MS,
{
    let shorter = if arming_timeout_ms <= stall_timeout_ms {
        arming_timeout_ms
    } else {
        stall_timeout_ms
    };
    if shorter / 2 < TICK_INTERVAL_MS {
        shorter / 2
    } else {
        TICK_INTERVAL_MS
    }
}

/// Whether the host owes the controller a tick: not while stopping, and only once the
/// interval has passed since the last one.
pub fn tick_due(stopping: bool, since_last_tick: u128, interval_ms: u64) -> (r: bool)
    ensures
        r == (!stopping && since_last_tick >= interval_ms * NANOS_PER_MILLI),
{
    !stopping && since_last_tick >= (interval_ms as u128) * NANOS_PER_MILLI
}

/// Whether the host is stopping after forwarding `event`.
pub fn stopping_after(stopping: bool, event: &ControllerEvent) -> (r: bool)
    ensures
        r == (stopping || event@ is Shutdown),
{
    stopping || matches!(event, ControllerEvent::Shutdown)
}

/// The event a line typed on standard input asks for.
pub open spec fn spec_parse_stdin_command(line: Seq<char>) -> Option<ControllerEventView> {
    let k = spec_keyword(line);
    if k == "toggle"@ {
        Some(ControllerEventView::Toggle)
    } else if k == "doctor"@ {
        Some(ControllerEventView::RunDoctor)
    } else if k == "quit"@ || k == "exit"@ {
        Some(ControllerEventView::Shutdown)
    } else {
        None
    }
}

/// Reads a command line typed on standard input: `toggle`, `doctor`, `quit` or `exit`.
pub fn parse_stdin_command(line: &str) -> (r: Option<ControllerEvent>)
    ensures
        match spec_parse_stdin_command(line@) {
            Some(expected) => r matches Some(event) && event@ == expected,
            None => r is None,
        },
{
    let k = keyword(line);
    let k = k.as_str();
    if text_eq(k, "toggle") {
        Some(ControllerEvent::Toggle)
    } else if text_eq(k, "doctor") {
        Some(ControllerEvent::RunDoctor)
    } else if text_eq(k, "quit") || text_eq(k, "exit") {
        Some(ControllerEvent::Shutdown)
    } else {
        None
    }
}

/// The desktop notification an output calls for, as title and body.
pub open spec fn spec_notification_for(output: ControllerOutput) -> Option<(Seq<char>, Seq<char>)> {
    match output {
        ControllerOutput::StateChanged(ControllerState::Degraded(reason)) => Some(("Quedo Degraded"@, reason@)),
        ControllerOutput::StateChanged(ControllerState::Unavailable(reason)) => Some(
            ("Quedo Unavailable"@, reason@),
        ),
        ControllerOutput::Notification(message) => Some(("Quedo"@, message@)),
        ControllerOutput::TranscriptReady(_) => Some(("Quedo"@, "Transcript copied to clipboard"@)),
        _ => None,
    }
}

/// Chooses the desktop notification for an output, if it calls for one.
pub fn notification_for(output: &ControllerOutput) -> (r: Option<(String, String)>)
    ensures
        match spec_notification_for(*output) {
            Some(expected) => r matches Some(pair) && pair.0@ == expected.0 && pair.1@ == expected.1,
            None => r is None,
        },
{
    match output {
        ControllerOutput::StateChanged(ControllerState::Degraded(reason)) => Some(
            (String::from_str("Quedo Degraded"), reason.clone()),
        ),
        ControllerOutput::StateChanged(ControllerState::Unavailable(reason)) => Some(
            (String::from_str("Quedo Unavailable"), reason.clone()),
        ),
        ControllerOutput::Notification(message) => Some((String::from_str("Quedo"), message.clone())),
        ControllerOutput::TranscriptReady(_) => Some(
            (String::from_str("Quedo"), String::from_str("Transcript copied to clipboard")),
        ),
        _ => None,
    }
}

/// How the host found the controller when its run was over.
#[derive(Debug)]
pub enum ControllerExit {
    /// The final output arrived. `panicked` tells whether the controller thread
    /// panicked; `result` is what its loop returned, if that could be received.
    Stopped { panicked: bool, result: Option<AppResult<()>> },
    /// The output channel was found disconnected.
    OutputDisconnected { panicked: bool, result: Option<AppResult<()>> },
    /// The loop returned although no final output had arrived.
    ReturnedEarly { panicked: bool, result: AppResult<()> },
    /// The channel carrying the loop's result was found disconnected.
    ResultDisconnected,
}

/// The failure of the controller with `message`.
pub open spec fn spec_controller_error(message: Seq<char>) -> Result<(), AppErrorView> {
    Err(AppErrorView::Controller(message))
}

/// The model of a result without a value.
pub open spec fn spec_result_view(result: AppResult<()>) -> Result<(), AppErrorView> {
    match result {
        Ok(_) => Ok(()),
        Err(e) => Err(e@),
    }
}

/// What the host returns for each way the controller's run can be over.
pub open spec fn spec_conclude(exit: ControllerExit) -> Result<(), AppErrorView> {
    match exit {
        ControllerExit::Stopped { panicked, result } => match result {
            None => spec_controller_error("controller result channel closed before completion"@),
            Some(r) => if panicked {
                spec_controller_error("controller thread panicked"@)
            } else {
                spec_result_view(r)
            },
        },
        ControllerExit::OutputDisconnected { panicked, result } => if panicked {
            spec_controller_error("controller thread panicked"@)
        } else {
            match result {
                Some(r) => spec_result_view(r),
                None => spec_controller_error("controller output channel disconnected"@),
            }
        },
        ControllerExit::ReturnedEarly { panicked, result } => if panicked {
            spec_controller_error("controller thread panicked"@)
        } else {
            match result {
                Ok(_) => spec_controller_error("controller loop exited without stop signal"@),
                Err(e) => Err(e@),
            }
        },
        ControllerExit::ResultDisconnected => spec_controller_error(
            "controller result channel disconnected"@,
        ),
    }
}

fn controller_error(message: &str) -> (r: AppResult<()>)
    ensures
        spec_result_view(r) == spec_controller_error(message@),
{
    Err(AppError::Controller(String::from_str(message)))
}

/// Decides what the host returns once the controller's run is over.
pub fn conclude(exit: ControllerExit) -> (r: AppResult<()>)
    ensures
        spec_result_view(r) == spec_conclude(exit),
{
    match exit {
        ControllerExit::Stopped { panicked, result } => match result {
            None => controller_error("controller result channel closed before completion"),
            Some(r) => if panicked {
                controller_error("controller thread panicked")
            } else {
                r
            },
        },
        ControllerExit::OutputDisconnected { panicked, result } => if panicked {
            controller_error("controller thread panicked")
        } else {
            match result {
                Some(r) => r,
                None => controller_error("controller output channel disconnected"),
            }
        },
        ControllerExit::ReturnedEarly { panicked, result } => if panicked {
            controller_error("controller thread panicked")
        } else {
            match result {
                Ok(_) => controller_error("controller loop exited without stop signal"),
                Err(e) => Err(e),
            }
        },
        ControllerExit::ResultDisconnected => controller_error("controller result channel disconnected"),
    }
}

/// Only a run whose final output arrived, whose thread did not panic and whose loop
/// returned success is reported as a success.
pub proof fn lemma_success_needs_stop(exit: ControllerExit)
    requires
        spec_conclude(exit) is Ok,
    ensures
        exit is Stopped || exit is OutputDisconnected,
        exit matches ControllerExit::Stopped { panicked, result } ==> (!panicked && (result matches Some(r)
            && r is Ok)),
{
}

/// The autostart entry that launches `executable run`: a launch agent on macOS, a
/// desktop entry elsewhere.
pub open spec fn spec_autostart_entry(executable: Seq<char>, macos: bool) -> Seq<char> {
    if macos {
        "<?xml version=\"1.0\" encoding=\"UTF-8\"?>\n<!DOCTYPE plist PUBLIC \"-//Apple//DTD PLIST 1.0//EN\" \"http://www.apple.com/DTDs/PropertyList-1.0.dtd\">\n<plist version=\"1.0\">\n<dict>\n  <key>Label</key>\n  <string>io.quedo.daemon</string>\n  <key>ProgramArguments</key>\n  <array>\n    <string>"@
            + executable
            + "</string>\n    <string>run</string>\n  </array>\n  <key>RunAtLoad</key>\n  <true/>\n  <key>KeepAlive</key>\n  <true/>\n</dict>\n</plist>\n"@
    } else {
        "[Desktop Entry]\nType=Application\nName=Quedo Daemon\nExec="@ + executable
            + " run\nX-GNOME-Autostart-enabled=true\n"@
    }
}

/// Writes out the autostart entry for `executable`.
pub fn autostart_entry(executable: &str, macos: bool) -> (r: String)
    ensures
        r@ == spec_autostart_entry(executable@, macos),
{
    if macos {
        let mut r = String::from_str(
            "<?xml version=\"1.0\" encoding=\"UTF-8\"?>\n<!DOCTYPE plist PUBLIC \"-//Apple//DTD PLIST 1.0//EN\" \"http://www.apple.com/DTDs/PropertyList-1.0.dtd\">\n<plist version=\"1.0\">\n<dict>\n  <key>Label</key>\n  <string>io.quedo.daemon</string>\n  <key>ProgramArguments</key>\n  <array>\n    <string>",
        );
        r.append(executable);
        r.append(
            "</string>\n    <string>run</string>\n  </array>\n  <key>RunAtLoad</key>\n  <true/>\n  <key>KeepAlive</key>\n  <true/>\n</dict>\n</plist>\n",
        );
        r
    } else {
        let mut r = String::from_str("[Desktop Entry]\nType=Application\nName=Quedo Daemon\nExec=");
        r.append(executable);
        r.append(" run\nX-GNOME-Autostart-enabled=true\n");
        r
    }
}

/// How the status report describes the recording backend.
pub open spec fn spec_recording_capability(devices: Result<Seq<Seq<char>>, AppErrorView>) -> Seq<char> {
    match devices {
        Ok(names) => if names.len() > 0 {
            "available"@
        } else {
            "unavailable (no input devices)"@
        },
        Err(error) => "unavailable ("@ + error.message() + ")"@,
    }
}

/// The last line of the status report, about the newest run.
pub open spec fn spec_last_run_line(latest: Option<RunSummary>) -> Seq<char> {
    match latest {
        Some(run) => "  last_run: "@ + run.run_id@ + " backend="@ + run.backend.spec_debug_name()
            + " finished="@ + run.finished_at_rfc3339@ + "\n"@,
        None => Seq::<char>::empty(),
    }
}

/// The status report: where things are, whether recording is possible, and what the
/// history holds.
pub open spec fn spec_status_report(
    config_file: Seq<char>,
    db_path: Seq<char>,
    state_dir: Seq<char>,
    devices: Result<Seq<Seq<char>>, AppErrorView>,
    recent_runs: nat,
    latest: Option<RunSummary>,
) -> Seq<char> {
    "Quedo daemon status\n"@ + "  config: "@ + config_file + "\n"@ + "  history_db: "@ + db_path + "\n"@
        + "  franken_state_dir: "@ + state_dir + "\n"@ + "  recording_backend: "@
        + spec_recording_capability(devices) + "\n"@ + "  recent_runs: "@ + spec_decimal(recent_runs)
        + "\n"@ + spec_last_run_line(latest)
}

/// Renders the status report.
pub fn status_report(
    config_file: &str,
    db_path: &str,
    state_dir: &str,
    devices: &AppResult<Vec<String>>,
    recent_runs: usize,
    latest: &Option<RunSummary>,
) -> (out: String)
    ensures
        out@ == spec_status_report(
            config_file@,
            db_path@,
            state_dir@,
            match *devices {
                Ok(v) => Ok(strings_view(v@)),
                Err(e) => Err(e@),
            },
            recent_runs as nat,
            *latest,
        ),
{
    let mut out = String::from_str("Quedo daemon status\n");
    out.append("  config: ");
    out.append(config_file);
    out.append("\n");
    out.append("  history_db: ");
    out.append(db_path);
    out.append("\n");
    out.append("  franken_state_dir: ");
    out.append(state_dir);
    out.append("\n");
    out.append("  recording_backend: ");
    match devices {
        Ok(names) => {
            if names.len() > 0 {
                out.append("available");
            } else {
                out.append("unavailable (no input devices)");
            }
        },
        Err(error) => {
            let message = error.message();
            out.append("unavailable (");
            out.append(message.as_str());
            out.append(")");
        },
    }
    out.append("\n");
    out.append("  recent_runs: ");
    append_decimal(&mut out, recent_runs as u64);
    out.append("\n");
    match latest {
        Some(run) => {
            out.append("  last_run: ");
            out.append(run.run_id.as_str());
            out.append(" backend=");
            out.append(run.backend.debug_name());
            out.append(" finished=");
            out.append(run.finished_at_rfc3339.as_str());
            out.append("\n");
        },
        None => {},
    }
    assert(out@ =~= spec_status_report(
        config_file@,
        db_path@,
        state_dir@,
        match *devices {
            Ok(v) => Ok(strings_view(v@)),
            Err(e) => Err(e@),
        },
        recent_runs as nat,
        *latest,
    ));
    out
}

} // verus!
