use vstd::prelude::*;
use vstd::string::StringExecFns;

use crate::bootstrap::paths::{join_path, spec_join_path};
use crate::doctor::checks::spec_soft_status;
use crate::doctor::report::{checks_view, CheckResult, CheckResultView, CheckStatus};
use crate::text::{
    concat2, contains, spec_ascii_lowercase, spec_contains, spec_trim, text_eq, to_ascii_lowercase,
    trim,
};

verus! {

/// What asking the system for the microphone authorization turned up.
#[derive(Debug, Clone)]
pub enum AuthorizationProbe {
    /// The `swift` tool needed for the query is not installed.
    SwiftMissing,
    /// The query could not be run.
    QueryFailed(String),
    /// The query ran and printed this.
    Status(String),
}

fn check(name: &str, status: CheckStatus, detail: String, required: bool, remediation: Option<&str>) -> (r:
    CheckResult)
    ensures
        r@ == (CheckResultView {
            name: name@,
            status,
            detail: detail@,
            required,
            remediation: match remediation {
                Some(t) => Some(t@),
                None => None,
            },
        }),
{
    CheckResult {
        name: String::from_str(name),
        status,
        detail,
        required,
        remediation: match remediation {
            Some(t) => Some(String::from_str(t)),
            None => None,
        },
    }
}

/// A check with the given fields.
pub open spec fn spec_check(
    name: Seq<char>,
    status: CheckStatus,
    detail: Seq<char>,
    required: bool,
    remediation: Option<Seq<char>>,
) -> CheckResultView {
    CheckResultView { name, status, detail, required, remediation }
}

/// The microphone permission check for a probe of the authorization status.
pub open spec fn spec_check_microphone_authorization(required: bool, probe: AuthorizationProbe) -> CheckResultView {
    let name = "microphone_permission"@;
    match probe {
        AuthorizationProbe::SwiftMissing => spec_check(
            name,
            spec_soft_status(required),
            "swift not available to query AVFoundation authorization status"@,
            required,
            Some("Install Xcode command line tools and rerun doctor."@),
        ),
        AuthorizationProbe::QueryFailed(error) => spec_check(
            name,
            spec_soft_status(required),
            "permission probe command failed: "@ + error@,
            required,
            Some("Verify Swift toolchain availability."@),
        ),
        AuthorizationProbe::Status(stdout) => {
            let raw = spec_trim(stdout@);
            if raw == "3"@ {
                spec_check(name, CheckStatus::Pass, "authorized"@, required, None)
            } else if raw == "0"@ {
                spec_check(
                    name,
                    CheckStatus::Warn,
                    "not determined"@,
                    required,
                    Some(
                        "Start Quedo and grant microphone access when prompted in System Settings."@,
                    ),
                )
            } else if raw == "1"@ || raw == "2"@ {
                spec_check(
                    name,
                    CheckStatus::Fail,
                    "denied/restricted"@,
                    required,
                    Some(
                        "Open System Settings -> Privacy & Security -> Microphone and allow Quedo."@,
                    ),
                )
            } else {
                spec_check(
                    name,
                    CheckStatus::Warn,
                    "unexpected permission status `"@ + raw + "`"@,
                    required,
                    Some("Retry permission probe with `quedo-daemon doctor`."@),
                )
            }
        },
    }
}

fn soft(required: bool) -> (s: CheckStatus)
    ensures
        s == spec_soft_status(required),
{
    if required {
        CheckStatus::Warn
    } else {
        CheckStatus::Skip
    }
}

/// Checks the microphone authorization on macOS.
pub fn check_microphone_authorization(required: bool, probe: &AuthorizationProbe) -> (r: CheckResult)
    ensures
        r@ == spec_check_microphone_authorization(required, *probe),
{
    let name = "microphone_permission";
    match probe {
        AuthorizationProbe::SwiftMissing => check(
            name,
            soft(required),
            String::from_str("swift not available to query AVFoundation authorization status"),
            required,
            Some("Install Xcode command line tools and rerun doctor."),
        ),
        AuthorizationProbe::QueryFailed(error) => check(
            name,
            soft(required),
            concat2("permission probe command failed: ", error.as_str()),
            required,
            Some("Verify Swift toolchain availability."),
        ),
        AuthorizationProbe::Status(stdout) => {
            let raw = trim(stdout.as_str());
            let raw = raw.as_str();
            if text_eq(raw, "3") {
                check(name, CheckStatus::Pass, String::from_str("authorized"), required, None)
            } else if text_eq(raw, "0") {
                check(
                    name,
                    CheckStatus::Warn,
                    String::from_str("not determined"),
                    required,
                    Some("Start Quedo and grant microphone access when prompted in System Settings."),
                )
            } else if text_eq(raw, "1") || text_eq(raw, "2") {
                check(
                    name,
                    CheckStatus::Fail,
                    String::from_str("denied/restricted"),
                    required,
                    Some("Open System Settings -> Privacy & Security -> Microphone and allow Quedo."),
                )
            } else {
                let mut detail = String::from_str("unexpected permission status `");
                detail.append(raw);
                detail.append("`");
                check(
                    name,
                    CheckStatus::Warn,
                    detail,
                    required,
                    Some("Retry permission probe with `quedo-daemon doctor`."),
                )
            }
        },
    }
}

/// How the smoke run of the transcription tool ended.
#[derive(Debug, Clone)]
pub enum SmokeRun {
    /// The tool could not be started.
    SpawnFailed(String),
    /// The tool ran and failed; this is what it wrote to standard error.
    Failed(String),
    /// The tool ran and succeeded; this is what it wrote.
    Succeeded { stdout: String, stderr: String },
}

/// How far the GPU backend probe got, and what it found there.
#[derive(Debug, Clone)]
pub enum SmokeProbe {
    /// The model file is not at this path.
    ModelMissing(String),
    /// `ffmpeg` is not installed, so no test audio can be made.
    FfmpegMissing,
    /// No temporary directory could be created.
    TempDirFailed(String),
    /// `ffmpeg` could not be run to make the test audio.
    FfmpegFailed,
    /// The smoke run took place.
    Ran(SmokeRun),
}

/// What inspecting the linkage of the transcription tool turned up.
#[derive(Debug, Clone)]
pub enum LinkProbe {
    /// `otool` could not be run.
    OtoolFailed(String),
    /// `otool -L` printed this about the tool at `path`.
    Listing { path: String, stdout: String },
}

/// What probing the GPU backend turned up.
#[derive(Debug, Clone)]
pub enum MetalProbe {
    /// The transcription tool is not installed.
    WhisperMissing,
    /// The tool is installed; its linkage was inspected and the smoke test attempted.
    Probed { link: LinkProbe, smoke: SmokeProbe },
}

/// The check of the tool's linkage against the GPU framework.
pub open spec fn spec_metal_link(link: LinkProbe) -> CheckResultView {
    let name = "metal_link"@;
    match link {
        LinkProbe::Listing { path, stdout } => if spec_contains(
            spec_ascii_lowercase(stdout@),
            "metal.framework"@,
        ) {
            spec_check(name, CheckStatus::Pass, "Metal.framework linked in "@ + path@, true, None)
        } else {
            spec_check(
                name,
                CheckStatus::Fail,
                "whisper-cli does not link Metal.framework"@,
                true,
                Some("Rebuild whisper.cpp with Metal support enabled."@),
            )
        },
        LinkProbe::OtoolFailed(error) => spec_check(
            name,
            CheckStatus::Warn,
            "failed to execute otool: "@ + error@,
            true,
            Some("Install Xcode command line tools."@),
        ),
    }
}

/// Whether the tool's output mentions the GPU backend.
pub open spec fn spec_has_metal_markers(stdout: Seq<char>, stderr: Seq<char>) -> bool {
    let logs = spec_ascii_lowercase(stdout) + spec_ascii_lowercase(stderr);
    spec_contains(logs, "metal"@) || spec_contains(logs, "mps"@) || spec_contains(logs, "gpu"@)
}

/// The check that follows the linkage check: the model, or the smoke test.
pub open spec fn spec_metal_smoke(smoke: SmokeProbe) -> CheckResultView {
    let name = "metal_smoke"@;
    match smoke {
        SmokeProbe::ModelMissing(path) => spec_check(
            "metal_model"@,
            CheckStatus::Fail,
            "model file not found: "@ + path@,
            true,
            Some("Set WHISPER_MODEL_PATH to a valid whisper.cpp model file."@),
        ),
        SmokeProbe::FfmpegMissing => spec_check(
            name,
            CheckStatus::Fail,
            "ffmpeg missing; cannot generate smoke-test audio"@,
            true,
            Some("Install ffmpeg and rerun doctor."@),
        ),
        SmokeProbe::TempDirFailed(error) => spec_check(
            name,
            CheckStatus::Warn,
            "unable to create temp directory: "@ + error@,
            true,
            Some("Verify temporary directory permissions."@),
        ),
        SmokeProbe::FfmpegFailed => spec_check(
            name,
            CheckStatus::Fail,
            "ffmpeg command failed while preparing smoke test"@,
            true,
            Some("Verify ffmpeg installation."@),
        ),
        SmokeProbe::Ran(SmokeRun::SpawnFailed(error)) => spec_check(
            name,
            CheckStatus::Fail,
            "failed to execute whisper-cli smoke test: "@ + error@,
            true,
            Some("Verify whisper-cli installation and model path."@),
        ),
        SmokeProbe::Ran(SmokeRun::Failed(stderr)) => spec_check(
            name,
            CheckStatus::Fail,
            "whisper-cli smoke test failed: "@ + stderr@,
            true,
            Some("Run whisper-cli manually to inspect backend logs."@),
        ),
        SmokeProbe::Ran(SmokeRun::Succeeded { stdout, stderr }) => if spec_has_metal_markers(
            stdout@,
            stderr@,
        ) {
            spec_check(
                name,
                CheckStatus::Pass,
                "whisper-cli smoke test completed with Metal markers"@,
                true,
                None,
            )
        } else {
            spec_check(
                name,
                CheckStatus::Warn,
                "smoke test passed, but no explicit Metal markers were found"@,
                true,
                Some("Run with verbose whisper-cli logging to confirm GPU backend usage."@),
            )
        },
    }
}

/// The GPU backend checks on macOS: one check if the tool is missing, else the linkage
/// check followed by the model or smoke check.
pub open spec fn spec_check_metal(probe: MetalProbe) -> Seq<CheckResultView> {
    match probe {
        MetalProbe::WhisperMissing => seq![
            spec_check(
                "metal_link"@,
                CheckStatus::Fail,
                "whisper-cli missing from PATH"@,
                true,
                Some("Install whisper.cpp and expose whisper-cli."@),
            ),
        ],
        MetalProbe::Probed { link, smoke } => seq![spec_metal_link(link), spec_metal_smoke(smoke)],
    }
}

fn metal_link(link: &LinkProbe) -> (r: CheckResult)
    ensures
        r@ == spec_metal_link(*link),
{
    let name = "metal_link";
    match link {
        LinkProbe::Listing { path, stdout } => {
            let lowered = to_ascii_lowercase(stdout.as_str());
            if contains(lowered.as_str(), "metal.framework") {
                check(
                    name,
                    CheckStatus::Pass,
                    concat2("Metal.framework linked in ", path.as_str()),
                    true,
                    None,
                )
            } else {
                check(
                    name,
                    CheckStatus::Fail,
                    String::from_str("whisper-cli does not link Metal.framework"),
                    true,
                    Some("Rebuild whisper.cpp with Metal support enabled."),
                )
            }
        },
        LinkProbe::OtoolFailed(error) => check(
            name,
            CheckStatus::Warn,
            concat2("failed to execute otool: ", error.as_str()),
            true,
            Some("Install Xcode command line tools."),
        ),
    }
}

fn has_metal_markers(stdout: &str, stderr: &str) -> (r: bool)
    ensures
        r == spec_has_metal_markers(stdout@, stderr@),
{
    let mut logs = to_ascii_lowercase(stdout);
    let lowered = to_ascii_lowercase(stderr);
    logs.append(lowered.as_str());
    contains(logs.as_str(), "metal") || contains(logs.as_str(), "mps") || contains(logs.as_str(), "gpu")
}

fn metal_smoke(smoke: &SmokeProbe) -> (r: CheckResult)
    ensures
        r@ == spec_metal_smoke(*smoke),
{
    let name = "metal_smoke";
    match smoke {
        SmokeProbe::ModelMissing(path) => check(
            "metal_model",
            CheckStatus::Fail,
            concat2("model file not found: ", path.as_str()),
            true,
            Some("Set WHISPER_MODEL_PATH to a valid whisper.cpp model file."),
        ),
        SmokeProbe::FfmpegMissing => check(
            name,
            CheckStatus::Fail,
            String::from_str("ffmpeg missing; cannot generate smoke-test audio"),
            true,
            Some("Install ffmpeg and rerun doctor."),
        ),
        SmokeProbe::TempDirFailed(error) => check(
            name,
            CheckStatus::Warn,
            concat2("unable to create temp directory: ", error.as_str()),
            true,
            Some("Verify temporary directory permissions."),
        ),
        SmokeProbe::FfmpegFailed => check(
            name,
            CheckStatus::Fail,
            String::from_str("ffmpeg command failed while preparing smoke test"),
            true,
            Some("Verify ffmpeg installation."),
        ),
        SmokeProbe::Ran(SmokeRun::SpawnFailed(error)) => check(
            name,
            CheckStatus::Fail,
            concat2("failed to execute whisper-cli smoke test: ", error.as_str()),
            true,
            Some("Verify whisper-cli installation and model path."),
        ),
        SmokeProbe::Ran(SmokeRun::Failed(stderr)) => check(
            name,
            CheckStatus::Fail,
            concat2("whisper-cli smoke test failed: ", stderr.as_str()),
            true,
            Some("Run whisper-cli manually to inspect backend logs."),
        ),
        SmokeProbe::Ran(SmokeRun::Succeeded { stdout, stderr }) => {
            if has_metal_markers(stdout.as_str(), stderr.as_str()) {
                check(
                    name,
                    CheckStatus::Pass,
                    String::from_str("whisper-cli smoke test completed with Metal markers"),
                    true,
                    None,
                )
            } else {
                check(
                    name,
                    CheckStatus::Warn,
                    String::from_str("smoke test passed, but no explicit Metal markers were found"),
                    true,
                    Some("Run with verbose whisper-cli logging to confirm GPU backend usage."),
                )
            }
        },
    }
}

/// Checks the GPU backend on macOS from what the probe found.
pub fn check_metal(probe: &MetalProbe) -> (r: Vec<CheckResult>)
    ensures
        checks_view(r@) == spec_check_metal(*probe),
{
    let mut r: Vec<CheckResult> = Vec::new();
    match probe {
        MetalProbe::WhisperMissing => {
            r.push(
                check(
                    "metal_link",
                    CheckStatus::Fail,
                    String::from_str("whisper-cli missing from PATH"),
                    true,
                    Some("Install whisper.cpp and expose whisper-cli."),
                ),
            );
        },
        MetalProbe::Probed { link, smoke } => {
            r.push(metal_link(link));
            r.push(metal_smoke(smoke));
        },
    }
    assert(checks_view(r@) =~= spec_check_metal(*probe));
    r
}

/// Where the model for the smoke test is looked for: the path named by the environment,
/// else the user's cache, else the application's cache.
pub open spec fn spec_model_path(
    from_environment: Option<Seq<char>>,
    home_dir: Option<Seq<char>>,
    cache_dir: Seq<char>,
) -> Seq<char> {
    match from_environment {
        Some(path) => path,
        None => match home_dir {
            Some(home) => spec_join_path(
                spec_join_path(spec_join_path(home, ".cache"@), "whisper.cpp"@),
                "ggml-base.en.bin"@,
            ),
            None => spec_join_path(spec_join_path(cache_dir, "models"@), "ggml-base.en.bin"@),
        },
    }
}

/// Chooses where the model for the smoke test is looked for.
pub fn model_path(from_environment: Option<&str>, home_dir: Option<&str>, cache_dir: &str) -> (r: String)
    ensures
        r@ == spec_model_path(
            match from_environment {
                Some(p) => Some(p@),
                None => None,
            },
            match home_dir {
                Some(p) => Some(p@),
                None => None,
            },
            cache_dir@,
        ),
{
    match from_environment {
        Some(path) => String::from_str(path),
        None => match home_dir {
            Some(home) => {
                let a = join_path(home, ".cache");
                let b = join_path(a.as_str(), "whisper.cpp");
                join_path(b.as_str(), "ggml-base.en.bin")
            },
            None => {
                let a = join_path(cache_dir, "models");
                join_path(a.as_str(), "ggml-base.en.bin")
            },
        },
    }
}

} // verus!
