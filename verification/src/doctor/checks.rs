use vstd::prelude::*;
use vstd::string::StringExecFns;

use crate::config::schema::AppConfig;
use crate::doctor::report::{
    checks_view, CheckResult, CheckResultView, CheckStatus, DoctorReport, DoctorState,
};
use crate::error::{AppErrorView, AppResult};
use crate::text::{
    append_decimal, concat2, contains, opt_view, parse_u32, spec_ascii_lowercase, spec_contains,
    spec_decimal, spec_parse_unsigned, spec_split, spec_trim, split, strings_view,
    to_ascii_lowercase, trim,
};

verus! {

/// Whether some required check failed.
pub open spec fn spec_required_failed(checks: Seq<CheckResultView>) -> bool {
    exists|i: int| 0 <= i < checks.len() && (#[trigger] checks[i]).required && checks[i].status == CheckStatus::Fail
}

/// Whether some check warned or failed.
pub open spec fn spec_any_degraded(checks: Seq<CheckResultView>) -> bool {
    exists|i: int|
        0 <= i < checks.len() && ((#[trigger] checks[i]).status == CheckStatus::Warn || checks[i].status
            == CheckStatus::Fail)
}

/// The verdict over all checks: unavailable if a required check failed, degraded if any
/// check warned or failed, ready otherwise.
pub open spec fn spec_derive_state(checks: Seq<CheckResultView>) -> DoctorState {
    if spec_required_failed(checks) {
        DoctorState::Unavailable
    } else if spec_any_degraded(checks) {
        DoctorState::Degraded
    } else {
        DoctorState::Ready
    }
}

/// Derives the overall verdict from the checks.
pub fn derive_state(checks: &Vec<CheckResult>) -> (state: DoctorState)
    ensures
        state == spec_derive_state(checks_view(checks@)),
{
    let mut required_failed = false;
    let mut any_degraded = false;
    let mut i: usize = 0;
    while i < checks.len()
        invariant
            i <= checks.len(),
            required_failed == spec_required_failed(checks_view(checks@).take(i as int)),
            any_degraded == spec_any_degraded(checks_view(checks@).take(i as int)),
        decreases checks.len() - i,
    {
        let ghost before = checks_view(checks@).take(i as int);
        let ghost after = checks_view(checks@).take(i + 1);
        assert(after[i as int] == checks@[i as int]@);
        assert(forall|j: int| 0 <= j < i ==> after[j] == before[j]);
        let check = &checks[i];
        let failed = matches!(check.status, CheckStatus::Fail);
        let warned = matches!(check.status, CheckStatus::Warn);
        if check.required && failed {
            required_failed = true;
        }
        if failed || warned {
            any_degraded = true;
        }
        i += 1;
    }
    assert(checks_view(checks@).take(checks.len() as int) =~= checks_view(checks@));
    if required_failed {
        DoctorState::Unavailable
    } else if any_degraded {
        DoctorState::Degraded
    } else {
        DoctorState::Ready
    }
}

/// The pattern that finds a version in a tool's output: two or three dot-separated runs
/// of digits.
pub open spec fn spec_version_pattern() -> Seq<char> {
    r"(\d+)\.(\d+)(?:\.(\d+))?"@
}

/// What the first match of `pattern` in `text` captures: for each group of the pattern
/// in order, the matched text or nothing; no value if the pattern is invalid or does not
/// match.
pub uninterp spec fn regex_first_captures(pattern: Seq<char>, text: Seq<char>) -> Option<Seq<Option<Seq<char>>>>;

/// Compiles `pattern` with `regex::Regex::new` and runs `Regex::captures` on `text`,
/// returning the text of every capture group but the whole match. The result is the one
/// named by [`regex_first_captures`].
#[verifier::external_body]
fn first_captures(pattern: &str, text: &str) -> (r: Option<Vec<Option<String>>>)
    ensures
        r.deep_view() == regex_first_captures(pattern@, text@),
{
    let re = match regex::Regex::new(pattern) {
        Ok(re) => re,
        Err(_) => return None,
    };
    let caps = re.captures(text)?;
    Some(caps.iter().skip(1).map(|m| m.map(|m| m.as_str().to_owned())).collect())
}

/// The number a captured group spells, if the group took part in the match.
pub open spec fn spec_group_number(groups: Seq<Option<Seq<char>>>, index: int) -> Option<u32> {
    if 0 <= index < groups.len() {
        match groups[index] {
            Some(digits) => match spec_parse_unsigned(digits, u32::MAX as nat) {
                Some(n) => Some(n as u32),
                None => None,
            },
            None => None,
        }
    } else {
        None
    }
}

/// The version captured groups spell: major and minor are needed, a missing patch is zero.
pub open spec fn spec_triplet_from_captures(groups: Seq<Option<Seq<char>>>) -> Option<Seq<u32>> {
    match (spec_group_number(groups, 0), spec_group_number(groups, 1)) {
        (Some(major), Some(minor)) => if groups.len() > 2 && groups[2] is Some {
            match spec_group_number(groups, 2) {
                Some(patch) => Some(seq![major, minor, patch]),
                None => None,
            }
        } else {
            Some(seq![major, minor, 0u32])
        },
        _ => None,
    }
}

fn group_number(groups: &Vec<Option<String>>, index: usize) -> (r: Option<u32>)
    ensures
        r == spec_group_number(groups.deep_view(), index as int),
{
    if index < groups.len() {
        assert(groups.deep_view()[index as int] == groups@[index as int].deep_view());
        match &groups[index] {
            Some(digits) => parse_u32(digits.as_str()),
            None => None,
        }
    } else {
        None
    }
}

/// Reads a version from the groups a match of the version pattern captured.
pub fn triplet_from_captures(groups: &Vec<Option<String>>) -> (r: Option<[u32; 3]>)
    ensures
        match spec_triplet_from_captures(groups.deep_view()) {
            Some(t) => r matches Some(a) && a@ == t,
            None => r is None,
        },
{
    let major = match group_number(groups, 0) {
        Some(n) => n,
        None => return None,
    };
    let minor = match group_number(groups, 1) {
        Some(n) => n,
        None => return None,
    };
    let has_patch = groups.len() > 2 && groups[2].is_some();
    proof {
        if groups.len() > 2 {
            assert(groups.deep_view()[2] == groups@[2].deep_view());
        }
    }
    let patch: u32 = if has_patch {
        match group_number(groups, 2) {
            Some(n) => n,
            None => return None,
        }
    } else {
        0
    };
    let a: [u32; 3] = [major, minor, patch];
    assert(a@ =~= seq![major, minor, patch]);
    Some(a)
}

/// The version found in `text`, as a function of what the pattern captures there.
pub open spec fn spec_parse_version_triplet(text: Seq<char>) -> Option<Seq<u32>> {
    match regex_first_captures(spec_version_pattern(), text) {
        Some(groups) => spec_triplet_from_captures(groups),
        None => None,
    }
}

/// Finds the first version number in a tool's output.
pub fn parse_version_triplet(text: &str) -> (r: Option<[u32; 3]>)
    ensures
        match spec_parse_version_triplet(text@) {
            Some(t) => r matches Some(a) && a@ == t,
            None => r is None,
        },
{
    match first_captures(r"(\d+)\.(\d+)(?:\.(\d+))?", text) {
        Some(groups) => triplet_from_captures(&groups),
        None => None,
    }
}

/// The numbers among dot-separated parts, in order; parts that are no number are skipped.
pub open spec fn spec_numbers(parts: Seq<Seq<char>>) -> Seq<u32>
    decreases parts.len(),
{
    if parts.len() == 0 {
        Seq::<u32>::empty()
    } else {
        let init = spec_numbers(parts.drop_last());
        match spec_parse_unsigned(parts.last(), u32::MAX as nat) {
            Some(n) => init.push(n as u32),
            None => init,
        }
    }
}

/// The `index`-th number, or zero when there are fewer.
pub open spec fn spec_number_or_zero(numbers: Seq<u32>, index: int) -> u32 {
    if 0 <= index < numbers.len() {
        numbers[index]
    } else {
        0
    }
}

/// The version a requirement such as `6.0` or `1.7.2` names, padded with zeros.
pub open spec fn spec_parse_target_version(text: Seq<char>) -> Seq<u32> {
    let numbers = spec_numbers(spec_split(text, '.'));
    seq![
        spec_number_or_zero(numbers, 0),
        spec_number_or_zero(numbers, 1),
        spec_number_or_zero(numbers, 2),
    ]
}

/// Reads a required version.
pub fn parse_target_version(text: &str) -> (r: [u32; 3])
    ensures
        r@ == spec_parse_target_version(text@),
{
    let parts = split(text, '.');
    let mut numbers: Vec<u32> = Vec::new();
    let mut i: usize = 0;
    assert(strings_view(parts@).take(0) =~= Seq::<Seq<char>>::empty());
    while i < parts.len()
        invariant
            i <= parts.len(),
            numbers@ == spec_numbers(strings_view(parts@).take(i as int)),
        decreases parts.len() - i,
    {
        let ghost prefix = strings_view(parts@).take(i + 1);
        assert(prefix.drop_last() =~= strings_view(parts@).take(i as int));
        assert(prefix.last() == parts@[i as int]@);
        match parse_u32(parts[i].as_str()) {
            Some(n) => numbers.push(n),
            None => {},
        }
        i += 1;
    }
    assert(strings_view(parts@).take(parts.len() as int) =~= strings_view(parts@));
    let a: u32 = if numbers.len() > 0 {
        numbers[0]
    } else {
        0
    };
    let b: u32 = if numbers.len() > 1 {
        numbers[1]
    } else {
        0
    };
    let c: u32 = if numbers.len() > 2 {
        numbers[2]
    } else {
        0
    };
    let r: [u32; 3] = [a, b, c];
    assert(r@ =~= spec_parse_target_version(text@));
    r
}

/// Whether version `found` is `required` or newer, comparing major, then minor, then patch.
pub open spec fn spec_version_at_least(found: Seq<u32>, required: Seq<u32>) -> bool {
    found[0] > required[0] || (found[0] == required[0] && (found[1] > required[1] || (found[1]
        == required[1] && found[2] >= required[2])))
}

/// Compares two versions.
pub fn version_at_least(found: &[u32; 3], required: &[u32; 3]) -> (r: bool)
    ensures
        r == spec_version_at_least(found@, required@),
{
    found[0] > required[0] || (found[0] == required[0] && (found[1] > required[1] || (found[1]
        == required[1] && found[2] >= required[2])))
}

/// A version spelled `major.minor.patch`.
pub open spec fn spec_version_triplet_string(value: Seq<u32>) -> Seq<char> {
    spec_decimal(value[0] as nat) + "."@ + spec_decimal(value[1] as nat) + "."@ + spec_decimal(
        value[2] as nat,
    )
}

/// Spells a version.
pub fn version_triplet_string(value: &[u32; 3]) -> (r: String)
    ensures
        r@ == spec_version_triplet_string(value@),
{
    let mut r = String::new();
    append_decimal(&mut r, value[0] as u64);
    r.append(".");
    append_decimal(&mut r, value[1] as u64);
    r.append(".");
    append_decimal(&mut r, value[2] as u64);
    assert(r@ =~= spec_version_triplet_string(value@));
    r
}

/// The arguments with which a tool is asked for its version, in the order tried.
pub fn version_arguments() -> (r: Vec<&'static str>)
    ensures
        r@.len() == 3,
        r@[0]@ == "--version"@,
        r@[1]@ == "-V"@,
        r@[2]@ == "version"@,
{
    let mut r: Vec<&'static str> = Vec::new();
    r.push("--version");
    r.push("-V");
    r.push("version");
    r
}

/// What a tool said when asked for its version: its standard output, or its standard
/// error if the output is empty; nothing if that text is blank.
pub open spec fn spec_version_text(stdout: Seq<char>, stderr: Seq<char>) -> Option<Seq<char>> {
    let text = if stdout.len() == 0 {
        stderr
    } else {
        stdout
    };
    if spec_trim(text).len() == 0 {
        None
    } else {
        Some(text)
    }
}

/// Picks the text in which a tool stated its version from what it wrote.
pub fn version_text(stdout: &str, stderr: &str) -> (r: Option<String>)
    ensures
        opt_view(r) == spec_version_text(stdout@, stderr@),
{
    let text = if stdout.unicode_len() == 0 {
        stderr
    } else {
        stdout
    };
    let trimmed = trim(text);
    if trimmed.as_str().unicode_len() == 0 {
        None
    } else {
        Some(String::from_str(text))
    }
}

/// One attempt to ask a tool for its version: what it wrote to standard output and to
/// standard error, or nothing if it could not be run.
#[derive(Debug, Clone)]
pub struct VersionAnswer {
    pub output: Option<(String, String)>,
}

/// The version text given by a series of attempts, one per argument form in order: the
/// first attempt that says something wins, and an attempt that could not be run ends
/// the search with nothing.
pub open spec fn spec_version_output(answers: Seq<VersionAnswer>) -> Option<Seq<char>>
    decreases answers.len(),
{
    if answers.len() == 0 {
        None
    } else {
        match answers[0].output {
            None => None,
            Some(written) => match spec_version_text(written.0@, written.1@) {
                Some(text) => Some(text),
                None => spec_version_output(answers.drop_first()),
            },
        }
    }
}

/// Whether the attempts made so far settle the search, so that no further argument form
/// has to be tried.
pub open spec fn spec_version_settled(answers: Seq<VersionAnswer>) -> bool
    decreases answers.len(),
{
    if answers.len() == 0 {
        false
    } else {
        match answers[0].output {
            None => true,
            Some(written) => spec_version_text(written.0@, written.1@) is Some || spec_version_settled(
                answers.drop_first(),
            ),
        }
    }
}

/// Reads the version text from the attempts made, and tells whether they settle the
/// search.
pub fn version_output(answers: &Vec<VersionAnswer>) -> (r: (Option<String>, bool))
    ensures
        opt_view(r.0) == spec_version_output(answers@),
        r.1 == spec_version_settled(answers@),
{
    let mut i: usize = 0;
    assert(answers@.skip(0) =~= answers@);
    while i < answers.len()
        invariant
            i <= answers.len(),
            spec_version_output(answers@) == spec_version_output(answers@.skip(i as int)),
            spec_version_settled(answers@) == spec_version_settled(answers@.skip(i as int)),
        decreases answers.len() - i,
    {
        assert(answers@.skip(i as int)[0] == answers@[i as int]);
        assert(answers@.skip(i as int).drop_first() =~= answers@.skip(i + 1));
        match &answers[i].output {
            None => return (None, true),
            Some(written) => match version_text(written.0.as_str(), written.1.as_str()) {
                Some(text) => return (Some(text), true),
                None => {},
            },
        }
        i += 1;
    }
    (None, false)
}

/// What looking for a binary turned up.
#[derive(Debug, Clone)]
pub enum BinaryProbe {
    /// The binary is not on the search path.
    Missing,
    /// The binary was found at `path`; `version_output` is what it printed when asked for
    /// its version, if it printed anything.
    Found { path: String, version_output: Option<String> },
}

/// The check of one binary against its minimum version.
pub open spec fn spec_check_binary_version(
    binary: Seq<char>,
    min_version: Seq<char>,
    required: bool,
    remediation: Option<Seq<char>>,
    probe: BinaryProbe,
) -> CheckResultView {
    match probe {
        BinaryProbe::Missing => CheckResultView {
            name: binary,
            status: CheckStatus::Fail,
            detail: "binary not found in PATH"@,
            required,
            remediation,
        },
        BinaryProbe::Found { path, version_output } => {
            let parsed = match version_output {
                Some(text) => spec_parse_version_triplet(text@),
                None => None,
            };
            match parsed {
                Some(found) => if spec_version_at_least(found, spec_parse_target_version(min_version)) {
                    CheckResultView {
                        name: binary,
                        status: CheckStatus::Pass,
                        detail: spec_version_triplet_string(found) + " (>= "@ + min_version + ") at "@
                            + path@,
                        required,
                        remediation: None,
                    }
                } else {
                    CheckResultView {
                        name: binary,
                        status: CheckStatus::Fail,
                        detail: spec_version_triplet_string(found) + " (< "@ + min_version + ")"@,
                        required,
                        remediation,
                    }
                },
                None => CheckResultView {
                    name: binary,
                    status: CheckStatus::Warn,
                    detail: "installed at "@ + path@ + ", version parse failed"@,
                    required,
                    remediation,
                },
            }
        },
    }
}

fn owned_opt(text: Option<&str>) -> (r: Option<String>)
    ensures
        opt_view(r) == (match text {
            Some(t) => Some(t@),
            None => None,
        }),
{
    match text {
        Some(t) => Some(String::from_str(t)),
        None => None,
    }
}

/// Checks one binary: it must be installed and report at least `min_version`.
pub fn check_binary_version(
    binary: &str,
    min_version: &str,
    required: bool,
    remediation: Option<&str>,
    probe: &BinaryProbe,
) -> (r: CheckResult)
    ensures
        r@ == spec_check_binary_version(
            binary@,
            min_version@,
            required,
            match remediation {
                Some(t) => Some(t@),
                None => None,
            },
            *probe,
        ),
{
    match probe {
        BinaryProbe::Missing => CheckResult {
            name: String::from_str(binary),
            status: CheckStatus::Fail,
            detail: String::from_str("binary not found in PATH"),
            required,
            remediation: owned_opt(remediation),
        },
        BinaryProbe::Found { path, version_output } => {
            let parsed = match version_output {
                Some(text) => parse_version_triplet(text.as_str()),
                None => None,
            };
            match parsed {
                Some(found) => {
                    let target = parse_target_version(min_version);
                    let mut detail = version_triplet_string(&found);
                    if version_at_least(&found, &target) {
                        detail.append(" (>= ");
                        detail.append(min_version);
                        detail.append(") at ");
                        detail.append(path.as_str());
                        CheckResult {
                            name: String::from_str(binary),
                            status: CheckStatus::Pass,
                            detail,
                            required,
                            remediation: None,
                        }
                    } else {
                        detail.append(" (< ");
                        detail.append(min_version);
                        detail.append(")");
                        CheckResult {
                            name: String::from_str(binary),
                            status: CheckStatus::Fail,
                            detail,
                            required,
                            remediation: owned_opt(remediation),
                        }
                    }
                },
                None => {
                    let mut detail = String::from_str("installed at ");
                    detail.append(path.as_str());
                    detail.append(", version parse failed");
                    CheckResult {
                        name: String::from_str(binary),
                        status: CheckStatus::Warn,
                        detail,
                        required,
                        remediation: owned_opt(remediation),
                    }
                },
            }
        },
    }
}

/// The check of the recording backend, from the outcome of device discovery.
pub open spec fn spec_check_recording_backend(devices: Result<Seq<Seq<char>>, AppErrorView>) -> CheckResultView {
    match devices {
        Ok(names) => if names.len() == 0 {
            CheckResultView {
                name: "recording_backend"@,
                status: CheckStatus::Warn,
                detail: "no recording devices discovered"@,
                required: true,
                remediation: Some(
                    "Connect a microphone and verify audio subsystem configuration."@,
                ),
            }
        } else {
            CheckResultView {
                name: "recording_backend"@,
                status: CheckStatus::Pass,
                detail: spec_decimal(names.len()) + " device(s) discovered"@,
                required: true,
                remediation: None,
            }
        },
        Err(error) => CheckResultView {
            name: "recording_backend"@,
            status: CheckStatus::Fail,
            detail: "recording backend unavailable: "@ + error.message(),
            required: true,
            remediation: Some(
                "Install/enable `arecord` or `ffmpeg` recording support for Linux capture."@,
            ),
        },
    }
}

/// Checks that some recording device can be used.
pub fn check_recording_backend_capability(devices: &AppResult<Vec<String>>) -> (r: CheckResult)
    ensures
        r@ == spec_check_recording_backend(
            match *devices {
                Ok(v) => Ok(strings_view(v@)),
                Err(e) => Err(e@),
            },
        ),
{
    match devices {
        Ok(names) => {
            if names.len() == 0 {
                CheckResult {
                    name: String::from_str("recording_backend"),
                    status: CheckStatus::Warn,
                    detail: String::from_str("no recording devices discovered"),
                    required: true,
                    remediation: Some(
                        String::from_str(
                            "Connect a microphone and verify audio subsystem configuration.",
                        ),
                    ),
                }
            } else {
                let mut detail = String::new();
                append_decimal(&mut detail, names.len() as u64);
                detail.append(" device(s) discovered");
                assert(detail@ =~= spec_decimal(names@.len()) + " device(s) discovered"@);
                CheckResult {
                    name: String::from_str("recording_backend"),
                    status: CheckStatus::Pass,
                    detail,
                    required: true,
                    remediation: None,
                }
            }
        },
        Err(error) => {
            let message = error.message();
            CheckResult {
                name: String::from_str("recording_backend"),
                status: CheckStatus::Fail,
                detail: concat2("recording backend unavailable: ", message.as_str()),
                required: true,
                remediation: Some(
                    String::from_str(
                        "Install/enable `arecord` or `ffmpeg` recording support for Linux capture.",
                    ),
                ),
            }
        },
    }
}

/// What probing for capture hardware with `arecord -l` turned up.
#[derive(Debug, Clone)]
pub enum MicrophoneProbe {
    /// `arecord` is not installed.
    ArecordMissing,
    /// `arecord -l` could not be run.
    ListingFailed(String),
    /// `arecord -l` ran and printed this.
    Listing(String),
}

/// The status of a probe that found nothing: a warning if a microphone is required,
/// skipped otherwise.
pub open spec fn spec_soft_status(required: bool) -> CheckStatus {
    if required {
        CheckStatus::Warn
    } else {
        CheckStatus::Skip
    }
}

/// The microphone check for a probe.
pub open spec fn spec_check_microphone_probe(required: bool, probe: MicrophoneProbe) -> CheckResultView {
    match probe {
        MicrophoneProbe::Listing(stdout) => if spec_contains(spec_ascii_lowercase(stdout@), "card"@) {
            CheckResultView {
                name: "microphone_probe"@,
                status: CheckStatus::Pass,
                detail: "capture devices detected via arecord -l"@,
                required,
                remediation: None,
            }
        } else {
            CheckResultView {
                name: "microphone_probe"@,
                status: spec_soft_status(required),
                detail: "no input devices listed"@,
                required,
                remediation: Some("Connect a microphone or verify ALSA/PulseAudio device routing."@),
            }
        },
        MicrophoneProbe::ListingFailed(error) => CheckResultView {
            name: "microphone_probe"@,
            status: spec_soft_status(required),
            detail: "failed to execute arecord -l: "@ + error@,
            required,
            remediation: Some("Install ALSA utils for input probing."@),
        },
        MicrophoneProbe::ArecordMissing => CheckResultView {
            name: "microphone_probe"@,
            status: spec_soft_status(required),
            detail: "arecord not installed; cannot probe input device availability"@,
            required,
            remediation: Some("Install `alsa-utils` and rerun doctor."@),
        },
    }
}

fn soft_status(required: bool) -> (s: CheckStatus)
    ensures
        s == spec_soft_status(required),
{
    if required {
        CheckStatus::Warn
    } else {
        CheckStatus::Skip
    }
}

/// Checks that capture hardware is visible.
pub fn check_microphone_permission(required: bool, probe: &MicrophoneProbe) -> (r: CheckResult)
    ensures
        r@ == spec_check_microphone_probe(required, *probe),
{
    match probe {
        MicrophoneProbe::Listing(stdout) => {
            let lowered = to_ascii_lowercase(stdout.as_str());
            if contains(lowered.as_str(), "card") {
                CheckResult {
                    name: String::from_str("microphone_probe"),
                    status: CheckStatus::Pass,
                    detail: String::from_str("capture devices detected via arecord -l"),
                    required,
                    remediation: None,
                }
            } else {
                CheckResult {
                    name: String::from_str("microphone_probe"),
                    status: soft_status(required),
                    detail: String::from_str("no input devices listed"),
                    required,
                    remediation: Some(
                        String::from_str(
                            "Connect a microphone or verify ALSA/PulseAudio device routing.",
                        ),
                    ),
                }
            }
        },
        MicrophoneProbe::ListingFailed(error) => CheckResult {
            name: String::from_str("microphone_probe"),
            status: soft_status(required),
            detail: concat2("failed to execute arecord -l: ", error.as_str()),
            required,
            remediation: Some(String::from_str("Install ALSA utils for input probing.")),
        },
        MicrophoneProbe::ArecordMissing => CheckResult {
            name: String::from_str("microphone_probe"),
            status: soft_status(required),
            detail: String::from_str("arecord not installed; cannot probe input device availability"),
            required,
            remediation: Some(String::from_str("Install `alsa-utils` and rerun doctor.")),
        },
    }
}

/// The GPU backend check on a machine that is not a Mac: skipped.
pub open spec fn spec_metal_skipped() -> Seq<CheckResultView> {
    seq![
        CheckResultView {
            name: "metal_backend"@,
            status: CheckStatus::Skip,
            detail: "not macOS"@,
            required: false,
            remediation: None,
        },
    ]
}

/// Reports the GPU backend check as skipped, as it is everywhere but on macOS.
pub fn check_macos_metal() -> (r: Vec<CheckResult>)
    ensures
        checks_view(r@) == spec_metal_skipped(),
{
    let mut r: Vec<CheckResult> = Vec::new();
    r.push(
        CheckResult {
            name: String::from_str("metal_backend"),
            status: CheckStatus::Skip,
            detail: String::from_str("not macOS"),
            required: false,
            remediation: None,
        },
    );
    assert(checks_view(r@) =~= spec_metal_skipped());
    r
}

/// One binary the daemon depends on.
#[derive(Debug, Clone, Copy)]
pub struct BinaryRequirement {
    pub binary: &'static str,
    pub min_version: &'static str,
    pub required: bool,
    pub remediation: &'static str,
}

/// The binaries checked, in report order; `python3` is required only for diarization.
pub fn binary_requirements(config: &AppConfig) -> (r: Vec<BinaryRequirement>)
    ensures
        r@.len() == 5,
        r@[0].binary@ == "ffmpeg"@ && r@[0].min_version@ == "6.0"@ && r@[0].required,
        r@[0].remediation@ == "Install ffmpeg via your package manager."@,
        r@[1].binary@ == "ffprobe"@ && r@[1].min_version@ == "6.0"@ && r@[1].required,
        r@[1].remediation@ == "Install ffmpeg package, which includes ffprobe."@,
        r@[2].binary@ == "whisper-cli"@ && r@[2].min_version@ == "1.7.2"@ && r@[2].required,
        r@[2].remediation@ == "Install whisper.cpp and ensure whisper-cli is in PATH."@,
        r@[3].binary@ == "insanely-fast-whisper"@ && r@[3].min_version@ == "0.0.15"@ && !r@[3].required,
        r@[3].remediation@
            == "Install with pipx install insanely-fast-whisper if you want fallback backend."@,
        r@[4].binary@ == "python3"@ && r@[4].min_version@ == "3.10"@ && r@[4].required
            == config.transcription.diarize,
        r@[4].remediation@ == "Install python3 >= 3.10 for diarization backend support."@,
{
    let mut r: Vec<BinaryRequirement> = Vec::new();
    r.push(
        BinaryRequirement {
            binary: "ffmpeg",
            min_version: "6.0",
            required: true,
            remediation: "Install ffmpeg via your package manager.",
        },
    );
    r.push(
        BinaryRequirement {
            binary: "ffprobe",
            min_version: "6.0",
            required: true,
            remediation: "Install ffmpeg package, which includes ffprobe.",
        },
    );
    r.push(
        BinaryRequirement {
            binary: "whisper-cli",
            min_version: "1.7.2",
            required: true,
            remediation: "Install whisper.cpp and ensure whisper-cli is in PATH.",
        },
    );
    r.push(
        BinaryRequirement {
            binary: "insanely-fast-whisper",
            min_version: "0.0.15",
            required: false,
            remediation: "Install with pipx install insanely-fast-whisper if you want fallback backend.",
        },
    );
    r.push(
        BinaryRequirement {
            binary: "python3",
            min_version: "3.10",
            required: config.transcription.diarize,
            remediation: "Install python3 >= 3.10 for diarization backend support.",
        },
    );
    r
}

/// Reads the clock with `chrono::Utc::now` and spells the instant with
/// `DateTime::to_rfc3339`. The value is the time of the call; nothing is claimed of it.
#[verifier::external_body]
fn now_rfc3339() -> (r: String) {
    chrono::Utc::now().to_rfc3339()
}

/// Puts a report together from its time stamp and checks; the verdict is derived.
pub fn assemble_report(generated_at_rfc3339: String, checks: Vec<CheckResult>) -> (r: DoctorReport)
    ensures
        r.generated_at_rfc3339@ == generated_at_rfc3339@,
        r.checks == checks,
        r.state == spec_derive_state(checks_view(checks@)),
{
    let state = derive_state(&checks);
    DoctorReport { generated_at_rfc3339, state, checks }
}

/// Stamps the gathered checks with the current time and derives the verdict.
pub fn run_doctor(checks: Vec<CheckResult>) -> (r: DoctorReport)
    ensures
        r.checks == checks,
        r.state == spec_derive_state(checks_view(checks@)),
{
    assemble_report(now_rfc3339(), checks)
}

/// Whether check `i` is required and failed.
pub open spec fn spec_blocks(checks: Seq<CheckResultView>, i: int) -> bool {
    0 <= i < checks.len() && checks[i].required && checks[i].status == CheckStatus::Fail
}

/// Why recording cannot be offered, as told by check `i`: its name and what it found.
pub open spec fn spec_blocking_reason(check: CheckResultView) -> Seq<char> {
    check.name + ": "@ + check.detail
}

/// Decides from a preflight report whether the controller has to start unavailable: it
/// has to if a required check failed, and the reason is that of the first such check.
pub fn unavailable_reason(report: &DoctorReport) -> (r: Option<String>)
    ensures
        r is Some <==> spec_required_failed(checks_view(report.checks@)),
        r matches Some(reason) ==> exists|i: int| #[trigger]
            spec_blocks(checks_view(report.checks@), i) && reason@ == spec_blocking_reason(
                checks_view(report.checks@)[i],
            ) && forall|j: int| 0 <= j < i ==> !spec_blocks(checks_view(report.checks@), j),
{
    let mut i: usize = 0;
    while i < report.checks.len()
        invariant
            i <= report.checks.len(),
            forall|j: int| 0 <= j < i ==> !spec_blocks(checks_view(report.checks@), j),
        decreases report.checks.len() - i,
    {
        let check = &report.checks[i];
        assert(checks_view(report.checks@)[i as int] == check@);
        if check.required && matches!(check.status, CheckStatus::Fail) {
            let mut reason = check.name.clone();
            reason.append(": ");
            reason.append(check.detail.as_str());
            assert(spec_blocks(checks_view(report.checks@), i as int));
            return Some(reason);
        }
        i += 1;
    }
    assert(!spec_required_failed(checks_view(report.checks@))) by {
        if spec_required_failed(checks_view(report.checks@)) {
            let k = choose|k: int|
                0 <= k < checks_view(report.checks@).len() && (#[trigger] checks_view(
                    report.checks@,
                )[k]).required && checks_view(report.checks@)[k].status == CheckStatus::Fail;
            assert(spec_blocks(checks_view(report.checks@), k));
        }
    }
    None
}

/// A failed required check makes the verdict unavailable whatever else was found; with
/// no warning and no failure the verdict is ready.
pub proof fn lemma_verdict_follows_checks(checks: Seq<CheckResultView>, i: int)
    requires
        0 <= i < checks.len(),
    ensures
        checks[i].required && checks[i].status == CheckStatus::Fail ==> spec_derive_state(checks)
            == DoctorState::Unavailable,
        checks[i].status == CheckStatus::Warn || checks[i].status == CheckStatus::Fail
            ==> spec_derive_state(checks) != DoctorState::Ready,
        spec_derive_state(checks) == DoctorState::Ready ==> checks[i].status == CheckStatus::Pass
            || checks[i].status == CheckStatus::Skip,
{
}

} // verus!
