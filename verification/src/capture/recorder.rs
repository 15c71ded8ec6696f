use vstd::prelude::*;
use vstd::string::StringExecFns;

use crate::bootstrap::paths::{join_path, spec_join_path};
use crate::capture::mic::{
    CaptureWatchdogConfig, FileWatchdog, MicrophoneCapture, WatchdogSnapshot, WAV_HEADER_LEN,
};
use crate::error::{AppError, AppErrorView, AppResult};
use crate::text::{concat2, concat3, opt_view, strings_view};

verus! {

/// Whether `s` has the shape of a hyphenated UUID: 36 characters with hyphens after the
/// 8th, 12th, 16th and 20th digit.
pub open spec fn spec_uuid_shaped(s: Seq<char>) -> bool {
    s.len() == 36 && s[8] == '-' && s[13] == '-' && s[18] == '-' && s[23] == '-'
}

/// Draws a fresh random identifier with `uuid::Uuid::new_v4` and spells it as the crate's
/// `Display` does. The value is random; only its hyphenated shape is claimed.
#[verifier::external_body]
fn fresh_uuid_text() -> (r: String)
    ensures
        spec_uuid_shaped(r@),
{
    uuid::Uuid::new_v4().to_string()
}

/// Looks a binary up with `which::which` and tells whether it was found. The answer
/// depends on `PATH` and the file system, so nothing is claimed about it.
#[verifier::external_body]
fn binary_on_path(name: &str) -> (found: bool) {
    which::which(name).is_ok()
}

/// The file a capture identified by `id` is written to.
pub open spec fn spec_capture_file_name(id: Seq<char>) -> Seq<char> {
    "capture-"@ + id + ".wav"@
}

/// The path of the capture identified by `id` inside `output_dir`.
pub open spec fn spec_capture_path(output_dir: Seq<char>, id: Seq<char>) -> Seq<char> {
    spec_join_path(output_dir, spec_capture_file_name(id))
}

/// Names the capture file for `id` inside `output_dir`.
pub fn capture_path(output_dir: &str, id: &str) -> (r: String)
    ensures
        r@ == spec_capture_path(output_dir@, id@),
{
    let name = concat3("capture-", id, ".wav");
    join_path(output_dir, name.as_str())
}

/// Names a new capture file inside `output_dir` after a freshly drawn identifier, so
/// that captures started in quick succession never share a file.
pub fn fresh_capture_path(output_dir: &str) -> (r: String)
    ensures
        exists|id: Seq<char>| spec_uuid_shaped(id) && r@ == #[trigger] spec_capture_path(output_dir@, id),
{
    let id = fresh_uuid_text();
    let r = capture_path(output_dir, id.as_str());
    assert(r@ == spec_capture_path(output_dir@, id@));
    r
}

/// The recorder programs a subprocess capture can use, in order of preference.
#[derive(Debug, Clone, Copy, PartialEq, Eq, Structural)]
pub enum RecorderKind {
    Arecord,
    Ffmpeg,
}

impl RecorderKind {
    /// The name of the program to spawn.
    pub open spec fn spec_program(self) -> Seq<char> {
        match self {
            RecorderKind::Arecord => "arecord"@,
            RecorderKind::Ffmpeg => "ffmpeg"@,
        }
    }

    /// The name of the program to spawn.
    pub fn program(self) -> (r: &'static str)
        ensures
            r@ == self.spec_program(),
    {
        match self {
            RecorderKind::Arecord => "arecord",
            RecorderKind::Ffmpeg => "ffmpeg",
        }
    }
}

/// The recorder chosen from what is installed: `arecord` first, `ffmpeg` as fallback.
pub open spec fn spec_select_recorder(arecord_found: bool, ffmpeg_found: bool) -> Option<RecorderKind> {
    if arecord_found {
        Some(RecorderKind::Arecord)
    } else if ffmpeg_found {
        Some(RecorderKind::Ffmpeg)
    } else {
        None
    }
}

/// The error reported when neither recorder is installed.
pub open spec fn spec_no_recorder() -> AppErrorView {
    AppErrorView::BinaryMissing { binary: "arecord or ffmpeg"@ }
}

/// Chooses the recorder program, or reports that none is installed.
pub fn select_recorder(arecord_found: bool, ffmpeg_found: bool) -> (r: AppResult<RecorderKind>)
    ensures
        match spec_select_recorder(arecord_found, ffmpeg_found) {
            Some(kind) => r == Ok::<RecorderKind, AppError>(kind),
            None => r matches Err(e) && e@ == spec_no_recorder(),
        },
{
    if arecord_found {
        Ok(RecorderKind::Arecord)
    } else if ffmpeg_found {
        Ok(RecorderKind::Ffmpeg)
    } else {
        Err(AppError::BinaryMissing { binary: String::from_str("arecord or ffmpeg") })
    }
}

/// Arguments of `arecord`: quiet, signed 16-bit little-endian, 16 kHz, mono, the device
/// if one is preferred, then the output file.
pub open spec fn spec_arecord_args(device: Option<Seq<char>>, wav_path: Seq<char>) -> Seq<Seq<char>> {
    seq!["-q"@, "-f"@, "S16_LE"@, "-r"@, "16000"@, "-c"@, "1"@] + (match device {
        Some(d) => seq!["-D"@, d],
        None => Seq::<Seq<char>>::empty(),
    }) + seq![wav_path]
}

/// Arguments of `ffmpeg`: ALSA input from the preferred device or `default`, mono, 16 kHz,
/// signed 16-bit PCM, then the output file.
pub open spec fn spec_ffmpeg_args(device: Option<Seq<char>>, wav_path: Seq<char>) -> Seq<Seq<char>> {
    seq![
        "-f"@,
        "alsa"@,
        "-i"@,
        match device {
            Some(d) => d,
            None => "default"@,
        },
        "-ac"@,
        "1"@,
        "-ar"@,
        "16000"@,
        "-c:a"@,
        "pcm_s16le"@,
        wav_path,
    ]
}

/// Arguments with which `kind` records to `wav_path`.
pub open spec fn spec_recorder_args(kind: RecorderKind, device: Option<Seq<char>>, wav_path: Seq<char>) -> Seq<
    Seq<char>,
> {
    match kind {
        RecorderKind::Arecord => spec_arecord_args(device, wav_path),
        RecorderKind::Ffmpeg => spec_ffmpeg_args(device, wav_path),
    }
}

fn push_text(v: &mut Vec<String>, s: &str)
    ensures
        strings_view(final(v)@) == strings_view(old(v)@).push(s@),
{
    v.push(String::from_str(s));
    assert(strings_view(v@) =~= strings_view(old(v)@).push(s@));
}

/// Builds the argument list of the recorder.
pub fn recorder_args(kind: RecorderKind, device: &Option<String>, wav_path: &str) -> (args: Vec<String>)
    ensures
        strings_view(args@) == spec_recorder_args(kind, opt_view(*device), wav_path@),
{
    let mut args: Vec<String> = Vec::new();
    assert(strings_view(args@) =~= Seq::<Seq<char>>::empty());
    match kind {
        RecorderKind::Arecord => {
            push_text(&mut args, "-q");
            push_text(&mut args, "-f");
            push_text(&mut args, "S16_LE");
            push_text(&mut args, "-r");
            push_text(&mut args, "16000");
            push_text(&mut args, "-c");
            push_text(&mut args, "1");
            match device {
                Some(d) => {
                    push_text(&mut args, "-D");
                    push_text(&mut args, d.as_str());
                },
                None => {},
            }
            push_text(&mut args, wav_path);
            assert(strings_view(args@) =~= spec_arecord_args(opt_view(*device), wav_path@));
        },
        RecorderKind::Ffmpeg => {
            push_text(&mut args, "-f");
            push_text(&mut args, "alsa");
            push_text(&mut args, "-i");
            match device {
                Some(d) => push_text(&mut args, d.as_str()),
                None => push_text(&mut args, "default"),
            }
            push_text(&mut args, "-ac");
            push_text(&mut args, "1");
            push_text(&mut args, "-ar");
            push_text(&mut args, "16000");
            push_text(&mut args, "-c:a");
            push_text(&mut args, "pcm_s16le");
            push_text(&mut args, wav_path);
            assert(strings_view(args@) =~= spec_ffmpeg_args(opt_view(*device), wav_path@));
        },
    }
    args
}

/// Everything needed to spawn a recorder: the program, its arguments and the file it fills.
#[derive(Debug, Clone)]
pub struct RecorderPlan {
    pub kind: RecorderKind,
    pub args: Vec<String>,
    pub wav_path: String,
}

impl RecorderPlan {
    /// The plan records to the capture file of `id` under `output_dir` with the arguments
    /// its recorder takes for `device`.
    pub open spec fn matches_request(self, output_dir: Seq<char>, device: Option<Seq<char>>, id: Seq<char>) -> bool {
        self.wav_path@ == spec_capture_path(output_dir, id) && strings_view(self.args@)
            == spec_recorder_args(self.kind, device, self.wav_path@)
    }
}

/// Plans a capture identified by `id`, given which recorders are installed.
pub fn plan_recording_with(
    device: &Option<String>,
    output_dir: &str,
    id: &str,
    arecord_found: bool,
    ffmpeg_found: bool,
) -> (r: AppResult<RecorderPlan>)
    ensures
        match spec_select_recorder(arecord_found, ffmpeg_found) {
            Some(kind) => r matches Ok(plan) && plan.kind == kind && plan.matches_request(
                output_dir@,
                opt_view(*device),
                id@,
            ),
            None => r matches Err(e) && e@ == spec_no_recorder(),
        },
{
    let wav_path = capture_path(output_dir, id);
    match select_recorder(arecord_found, ffmpeg_found) {
        Ok(kind) => {
            let args = recorder_args(kind, device, wav_path.as_str());
            Ok(RecorderPlan { kind, args, wav_path })
        },
        Err(e) => Err(e),
    }
}

impl MicrophoneCapture {
    /// Plans a new capture under `output_dir`: draws a fresh file name, probes for the
    /// recorder programs and lays out the command. Which recorder is found depends on the
    /// machine; whatever is found, the plan is the one [`plan_recording_with`] gives.
    pub fn plan_recording(&self, output_dir: &str) -> (r: AppResult<RecorderPlan>)
        ensures
            r matches Ok(plan) ==> exists|id: Seq<char>|
                spec_uuid_shaped(id) && #[trigger] plan.matches_request(
                    output_dir@,
                    self.spec_preferred_device(),
                    id,
                ),
            r matches Err(e) ==> e@ == spec_no_recorder(),
    {
        let id = fresh_uuid_text();
        let arecord_found = binary_on_path(RecorderKind::Arecord.program());
        let ffmpeg_found = !arecord_found && binary_on_path(RecorderKind::Ffmpeg.program());
        let device = self.preferred_device();
        let r = plan_recording_with(&device, output_dir, id.as_str(), arecord_found, ffmpeg_found);
        proof {
            if r is Ok {
                assert(r->Ok_0.matches_request(output_dir@, self.spec_preferred_device(), id@));
            }
        }
        r
    }
}

/// How long a recorder is given to exit after the graceful signal, in nanoseconds.
pub const TERMINATION_GRACE: u128 = 2_000_000_000;

/// Pause between two polls of a terminating recorder, in milliseconds.
pub const TERMINATION_POLL_MS: u64 = 25;

/// What to do next with a recorder that was asked to terminate.
#[derive(Debug, Clone, Copy, PartialEq, Eq, Structural)]
pub enum TerminationStep {
    /// The process has exited.
    Finished,
    /// Sleep one poll interval and look again.
    PollAgain,
    /// The grace period is over: kill the process and reap it.
    Escalate,
}

/// The next step given whether the process has exited and how long ago it was signalled.
pub open spec fn spec_termination_step(exited: bool, since_signal: u128) -> TerminationStep {
    if exited {
        TerminationStep::Finished
    } else if since_signal < TERMINATION_GRACE {
        TerminationStep::PollAgain
    } else {
        TerminationStep::Escalate
    }
}

/// The stage at which terminating a recorder failed.
#[derive(Debug, Clone, Copy, PartialEq, Eq, Structural)]
pub enum TerminationFailure {
    Poll,
    Kill,
    Reap,
}

/// The error reported for a failure at `stage` with the system's `detail`.
pub open spec fn spec_termination_error(stage: TerminationFailure, detail: Seq<char>) -> AppErrorView {
    AppErrorView::Capture(
        match stage {
            TerminationFailure::Poll => "failed while waiting for recorder process termination: "@,
            TerminationFailure::Kill => "failed to SIGKILL recorder process after timeout: "@,
            TerminationFailure::Reap => "failed waiting for recorder process after SIGKILL: "@,
        } + detail,
    )
}

/// Builds the error for a failed termination stage.
pub fn termination_error(stage: TerminationFailure, detail: &str) -> (e: AppError)
    ensures
        e@ == spec_termination_error(stage, detail@),
{
    let prefix = match stage {
        TerminationFailure::Poll => "failed while waiting for recorder process termination: ",
        TerminationFailure::Kill => "failed to SIGKILL recorder process after timeout: ",
        TerminationFailure::Reap => "failed waiting for recorder process after SIGKILL: ",
    };
    AppError::Capture(concat2(prefix, detail))
}

/// Decides the next step after polling a recorder that was sent the graceful signal
/// `since_signal` nanoseconds ago: done once it has exited, another poll while the grace
/// period lasts, escalation afterwards; a failed poll ends the attempt with an error.
pub fn termination_step(poll: Result<bool, String>, since_signal: u128) -> (r: AppResult<TerminationStep>)
    ensures
        match poll {
            Ok(exited) => r == Ok::<TerminationStep, AppError>(spec_termination_step(exited, since_signal)),
            Err(detail) => r matches Err(e) && e@ == spec_termination_error(
                TerminationFailure::Poll,
                detail@,
            ),
        },
{
    match poll {
        Ok(exited) => {
            if exited {
                Ok(TerminationStep::Finished)
            } else if since_signal < TERMINATION_GRACE {
                Ok(TerminationStep::PollAgain)
            } else {
                Ok(TerminationStep::Escalate)
            }
        },
        Err(detail) => Err(termination_error(TerminationFailure::Poll, detail.as_str())),
    }
}

/// A recorder is never killed before the grace period is over, and never polled again
/// after it.
pub proof fn lemma_escalation_only_after_grace(exited: bool, since_signal: u128)
    ensures
        spec_termination_step(exited, since_signal) == TerminationStep::Escalate <==> !exited
            && since_signal >= TERMINATION_GRACE,
        spec_termination_step(exited, since_signal) == TerminationStep::PollAgain ==> since_signal
            < TERMINATION_GRACE,
{
}

/// What was found when the finished capture file was inspected.
#[derive(Debug, Clone)]
pub enum WavFileProbe {
    /// The file's metadata could not be read.
    StatFailed(String),
    /// The file has `len` bytes but could not be opened.
    OpenFailed { len: u64, error: String },
    /// The file has `len` bytes but its first twelve could not be read.
    ReadFailed { len: u64, error: String },
    /// The file has `len` bytes and starts with `bytes`.
    Header { len: u64, bytes: [u8; 12] },
}

/// Whether the twelve leading bytes carry `RIFF` at offset 0 and `WAVE` at offset 8.
pub open spec fn spec_has_riff_wave_markers(bytes: Seq<u8>) -> bool {
    bytes.len() >= 12 && bytes[0] == 0x52 && bytes[1] == 0x49 && bytes[2] == 0x46 && bytes[3] == 0x46
        && bytes[8] == 0x57 && bytes[9] == 0x41 && bytes[10] == 0x56 && bytes[11] == 0x45
}

/// Whether the probe shows a RIFF/WAVE file holding data beyond its header.
pub open spec fn spec_is_valid_capture(probe: WavFileProbe) -> bool {
    probe matches WavFileProbe::Header { len, bytes } && len > WAV_HEADER_LEN
        && spec_has_riff_wave_markers(bytes@)
}

/// The verdict on a finished capture file at `path`.
pub open spec fn spec_validate_wav_header(path: Seq<char>, probe: WavFileProbe) -> Result<(), AppErrorView> {
    match probe {
        WavFileProbe::StatFailed(error) => Err(
            AppErrorView::Capture("failed to stat recorder output "@ + path + ": "@ + error@),
        ),
        WavFileProbe::OpenFailed { len, error } => match spec_length_verdict(path, len) {
            Some(e) => Err(e),
            None => Err(
                AppErrorView::Capture(
                    "failed to open recorder output for WAV validation "@ + path + ": "@ + error@,
                ),
            ),
        },
        WavFileProbe::ReadFailed { len, error } => match spec_length_verdict(path, len) {
            Some(e) => Err(e),
            None => Err(
                AppErrorView::Capture("failed to read WAV header from "@ + path + ": "@ + error@),
            ),
        },
        WavFileProbe::Header { len, bytes } => match spec_length_verdict(path, len) {
            Some(e) => Err(e),
            None => if spec_has_riff_wave_markers(bytes@) {
                Ok(())
            } else {
                Err(
                    AppErrorView::Capture(
                        "recorded audio is missing RIFF/WAVE header markers: "@ + path,
                    ),
                )
            },
        },
    }
}

/// The rejection of a file too short to hold audio: shorter than a header, or a header
/// with nothing after it.
pub open spec fn spec_length_verdict(path: Seq<char>, len: u64) -> Option<AppErrorView> {
    if len < WAV_HEADER_LEN {
        Some(AppErrorView::Capture("recorded audio is not a valid WAV file (too short): "@ + path))
    } else if len == WAV_HEADER_LEN {
        Some(
            AppErrorView::Capture(
                "recorded audio is empty (WAV header present but no PCM frames): "@ + path,
            ),
        )
    } else {
        None
    }
}

fn capture_error3(a: &str, b: &str, c: &str, d: &str) -> (e: AppError)
    ensures
        e@ == AppErrorView::Capture(a@ + b@ + c@ + d@),
{
    let mut s = String::from_str(a);
    s.append(b);
    s.append(c);
    s.append(d);
    AppError::Capture(s)
}

/// Judges a finished capture file: it must be longer than a bare header and start with
/// the RIFF/WAVE markers.
pub fn validate_wav_header(path: &str, probe: &WavFileProbe) -> (r: AppResult<()>)
    ensures
        r is Ok <==> spec_is_valid_capture(*probe),
        match spec_validate_wav_header(path@, *probe) {
            Ok(_) => r is Ok,
            Err(expected) => r matches Err(e) && e@ == expected,
        },
{
    let len: u64 = match probe {
        WavFileProbe::StatFailed(error) => {
            return Err(
                capture_error3("failed to stat recorder output ", path, ": ", error.as_str()),
            );
        },
        WavFileProbe::OpenFailed { len, .. } => *len,
        WavFileProbe::ReadFailed { len, .. } => *len,
        WavFileProbe::Header { len, .. } => *len,
    };
    if len < WAV_HEADER_LEN {
        return Err(
            AppError::Capture(concat2("recorded audio is not a valid WAV file (too short): ", path)),
        );
    }
    if len == WAV_HEADER_LEN {
        return Err(
            AppError::Capture(
                concat2("recorded audio is empty (WAV header present but no PCM frames): ", path),
            ),
        );
    }
    match probe {
        WavFileProbe::OpenFailed { error, .. } => Err(
            capture_error3(
                "failed to open recorder output for WAV validation ",
                path,
                ": ",
                error.as_str(),
            ),
        ),
        WavFileProbe::ReadFailed { error, .. } => Err(
            capture_error3("failed to read WAV header from ", path, ": ", error.as_str()),
        ),
        WavFileProbe::Header { bytes, .. } => {
            if bytes[0] == 0x52 && bytes[1] == 0x49 && bytes[2] == 0x46 && bytes[3] == 0x46
                && bytes[8] == 0x57 && bytes[9] == 0x41 && bytes[10] == 0x56 && bytes[11] == 0x45 {
                Ok(())
            } else {
                Err(
                    AppError::Capture(
                        concat2("recorded audio is missing RIFF/WAVE header markers: ", path),
                    ),
                )
            }
        },
        WavFileProbe::StatFailed(_) => Ok(()),
    }
}

/// The pure core of a capture written by a child process: where it writes, when it
/// started, and its watchdog. The owner keeps the process handle beside it.
#[derive(Debug)]
pub struct ActiveRecording {
    wav_path: String,
    started_at: u128,
    watchdog_cfg: CaptureWatchdogConfig,
    watchdog: FileWatchdog,
}

/// Mathematical model of an [`ActiveRecording`].
pub struct ActiveRecordingView {
    pub wav_path: Seq<char>,
    pub started_at: u128,
    pub watchdog_cfg: CaptureWatchdogConfig,
    pub watchdog: FileWatchdog,
}

impl View for ActiveRecording {
    type V = ActiveRecordingView;

    closed spec fn view(&self) -> ActiveRecordingView {
        ActiveRecordingView {
            wav_path: self.wav_path@,
            started_at: self.started_at,
            watchdog_cfg: self.watchdog_cfg,
            watchdog: self.watchdog,
        }
    }
}

/// What stopping a recording returns, given how termination went and what the file holds:
/// a termination failure comes first, then the file's verdict, then the path.
pub open spec fn spec_stop(
    wav_path: Seq<char>,
    termination: Result<(), AppErrorView>,
    probe: WavFileProbe,
) -> Result<Seq<char>, AppErrorView> {
    match termination {
        Err(e) => Err(e),
        Ok(_) => match spec_validate_wav_header(wav_path, probe) {
            Err(e) => Err(e),
            Ok(_) => Ok(wav_path),
        },
    }
}

impl ActiveRecording {
    /// Begins tracking a recorder spawned at `now` that writes to `wav_path`.
    pub fn begin(wav_path: String, watchdog_cfg: CaptureWatchdogConfig, now: u128) -> (r: Self)
        ensures
            r@ == (ActiveRecordingView {
                wav_path: wav_path@,
                started_at: now,
                watchdog_cfg,
                watchdog: FileWatchdog {
                    first_frame_seen: false,
                    last_size: 0,
                    last_growth_at: now,
                    started_at: now,
                },
            }),
    {
        ActiveRecording { wav_path, started_at: now, watchdog_cfg, watchdog: FileWatchdog::new(now) }
    }

    /// The file the recorder writes.
    pub fn wav_path(&self) -> (r: &String)
        ensures
            r@ == self@.wav_path,
    {
        &self.wav_path
    }

    /// How long the recording has lasted at `now`, in nanoseconds.
    pub fn elapsed(&self, now: u128) -> (lasted: u128)
        ensures
            lasted == crate::capture::mic::spec_elapsed(now, self@.started_at),
    {
        crate::capture::mic::elapsed(now, self.started_at)
    }

    /// Takes in the capture file's current `size` at `now` and reports on the capture.
    pub fn watchdog_snapshot(&mut self, size: u64, now: u128) -> (s: WatchdogSnapshot)
        ensures
            final(self)@ == (ActiveRecordingView {
                watchdog: old(self)@.watchdog.observed(size, now),
                ..old(self)@
            }),
            s == final(self)@.watchdog.spec_snapshot(old(self)@.watchdog_cfg, now),
            s.consistent(),
            old(self)@.watchdog.first_frame_seen ==> s.first_frame_seen,
    {
        self.watchdog.observe(self.watchdog_cfg, size, now)
    }

    /// Concludes the recording once its recorder was terminated: returns the capture's path
    /// if termination succeeded and the file is a RIFF/WAVE file with data beyond the header.
    pub fn stop(self, termination: AppResult<()>, probe: &WavFileProbe) -> (r: AppResult<String>)
        ensures
            match spec_stop(
                self@.wav_path,
                match termination {
                    Ok(_) => Ok(()),
                    Err(e) => Err(e@),
                },
                *probe,
            ) {
                Ok(path) => r matches Ok(p) && p@ == path,
                Err(expected) => r matches Err(e) && e@ == expected,
            },
            r is Ok ==> spec_is_valid_capture(*probe),
    {
        match termination {
            Err(e) => Err(e),
            Ok(_) => match validate_wav_header(self.wav_path.as_str(), probe) {
                Err(e) => Err(e),
                Ok(_) => Ok(self.wav_path),
            },
        }
    }
}

/// A capture that stopped successfully left a file that begins with `RIFF`, carries
/// `WAVE` at offset 8 and is longer than the 44-byte header.
pub proof fn lemma_successful_stop_means_valid_wav(
    wav_path: Seq<char>,
    termination: Result<(), AppErrorView>,
    probe: WavFileProbe,
)
    requires
        spec_stop(wav_path, termination, probe) is Ok,
    ensures
        probe matches WavFileProbe::Header { len, bytes } && len > 44 && bytes@.subrange(0, 4) == seq![
            0x52u8,
            0x49u8,
            0x46u8,
            0x46u8,
        ] && bytes@.subrange(8, 12) == seq![0x57u8, 0x41u8, 0x56u8, 0x45u8],
{
    match probe {
        WavFileProbe::Header { len, bytes } => {
            assert(bytes@.subrange(0, 4) =~= seq![0x52u8, 0x49u8, 0x46u8, 0x46u8]);
            assert(bytes@.subrange(8, 12) =~= seq![0x57u8, 0x41u8, 0x56u8, 0x45u8]);
        },
        _ => {},
    }
}

} // verus!
