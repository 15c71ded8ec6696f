use vstd::prelude::*;
use vstd::string::StringExecFns;

use crate::text::{append_padded, clone_opt_string, opt_view, spec_pad_right};

verus! {

/// How one check came out.
#[derive(Debug, Clone, Copy, PartialEq, Eq, Structural)]
pub enum CheckStatus {
    Pass,
    Warn,
    Fail,
    Skip,
}

/// The verdict over all checks.
#[derive(Debug, Clone, Copy, PartialEq, Eq, Structural)]
pub enum DoctorState {
    Ready,
    Degraded,
    Unavailable,
}

/// The outcome of one preflight check.
#[derive(Debug, Clone)]
pub struct CheckResult {
    pub name: String,
    pub status: CheckStatus,
    pub detail: String,
    pub required: bool,
    pub remediation: Option<String>,
}

/// Mathematical model of a [`CheckResult`].
pub struct CheckResultView {
    pub name: Seq<char>,
    pub status: CheckStatus,
    pub detail: Seq<char>,
    pub required: bool,
    pub remediation: Option<Seq<char>>,
}

impl View for CheckResult {
    type V = CheckResultView;

    open spec fn view(&self) -> CheckResultView {
        CheckResultView {
            name: self.name@,
            status: self.status,
            detail: self.detail@,
            required: self.required,
            remediation: opt_view(self.remediation),
        }
    }
}

impl CheckResult {
    /// Copies the check.
    pub fn duplicate(&self) -> (r: Self)
        ensures
            r@ == self@,
    {
        CheckResult {
            name: self.name.clone(),
            status: self.status,
            detail: self.detail.clone(),
            required: self.required,
            remediation: clone_opt_string(&self.remediation),
        }
    }
}

/// The models of a list of checks.
pub open spec fn checks_view(checks: Seq<CheckResult>) -> Seq<CheckResultView> {
    checks.map_values(|c: CheckResult| c@)
}

/// A preflight report: when it was made, the overall verdict, and every check.
#[derive(Debug, Clone)]
pub struct DoctorReport {
    pub generated_at_rfc3339: String,
    pub state: DoctorState,
    pub checks: Vec<CheckResult>,
}

/// Mathematical model of a [`DoctorReport`].
pub struct DoctorReportView {
    pub generated_at_rfc3339: Seq<char>,
    pub state: DoctorState,
    pub checks: Seq<CheckResultView>,
}

impl View for DoctorReport {
    type V = DoctorReportView;

    open spec fn view(&self) -> DoctorReportView {
        DoctorReportView {
            generated_at_rfc3339: self.generated_at_rfc3339@,
            state: self.state,
            checks: checks_view(self.checks@),
        }
    }
}

/// The upper-case label of a status.
pub open spec fn spec_status_label(status: CheckStatus) -> Seq<char> {
    match status {
        CheckStatus::Pass => "PASS"@,
        CheckStatus::Warn => "WARN"@,
        CheckStatus::Fail => "FAIL"@,
        CheckStatus::Skip => "SKIP"@,
    }
}

/// Returns the upper-case label of a status.
pub fn status_label(status: CheckStatus) -> (r: &'static str)
    ensures
        r@ == spec_status_label(status),
{
    match status {
        CheckStatus::Pass => "PASS",
        CheckStatus::Warn => "WARN",
        CheckStatus::Fail => "FAIL",
        CheckStatus::Skip => "SKIP",
    }
}

/// The name of a verdict as the report header shows it.
pub open spec fn spec_state_name(state: DoctorState) -> Seq<char> {
    match state {
        DoctorState::Ready => "Ready"@,
        DoctorState::Degraded => "Degraded"@,
        DoctorState::Unavailable => "Unavailable"@,
    }
}

/// Returns the name of a verdict.
pub fn state_name(state: DoctorState) -> (r: &'static str)
    ensures
        r@ == spec_state_name(state),
{
    match state {
        DoctorState::Ready => "Ready",
        DoctorState::Degraded => "Degraded",
        DoctorState::Unavailable => "Unavailable",
    }
}

/// One table row: three left-aligned columns of 30, 8 and 8 characters, then free text.
pub open spec fn spec_row(a: Seq<char>, b: Seq<char>, c: Seq<char>, d: Seq<char>) -> Seq<char> {
    spec_pad_right(a, 30) + " "@ + spec_pad_right(b, 8) + " "@ + spec_pad_right(c, 8) + " "@ + d
        + "\n"@
}

/// The two lines before the table and the table's two heading rows.
pub open spec fn spec_header(report: DoctorReportView) -> Seq<char> {
    "Doctor state: "@ + spec_state_name(report.state) + "\n"@ + "Generated at: "@
        + report.generated_at_rfc3339 + "\n\n"@ + spec_row(
        "CHECK"@,
        "STATUS"@,
        "REQUIRED"@,
        "DETAIL"@,
    ) + spec_row("-----"@, "------"@, "--------"@, "------"@)
}

/// The row of one check, followed by its remediation line if it has one.
pub open spec fn spec_check_lines(check: CheckResultView) -> Seq<char> {
    spec_row(
        check.name,
        spec_status_label(check.status),
        if check.required {
            "yes"@
        } else {
            "no"@
        },
        check.detail,
    ) + match check.remediation {
        Some(r) => "  remediation: "@ + r + "\n"@,
        None => Seq::<char>::empty(),
    }
}

/// The rows of all checks, in order.
pub open spec fn spec_rows(checks: Seq<CheckResultView>) -> Seq<char>
    decreases checks.len(),
{
    if checks.len() == 0 {
        Seq::<char>::empty()
    } else {
        spec_rows(checks.drop_last()) + spec_check_lines(checks.last())
    }
}

/// The whole report as text.
pub open spec fn spec_render_text(report: DoctorReportView) -> Seq<char> {
    spec_header(report) + spec_rows(report.checks)
}

fn append_row(out: &mut String, a: &str, b: &str, c: &str, d: &str)
    ensures
        final(out)@ == old(out)@ + spec_row(a@, b@, c@, d@),
{
    append_padded(out, a, 30);
    out.append(" ");
    append_padded(out, b, 8);
    out.append(" ");
    append_padded(out, c, 8);
    out.append(" ");
    out.append(d);
    out.append("\n");
    assert(out@ =~= old(out)@ + spec_row(a@, b@, c@, d@));
}

fn append_check(out: &mut String, check: &CheckResult)
    ensures
        final(out)@ == old(out)@ + spec_check_lines(check@),
{
    append_row(
        out,
        check.name.as_str(),
        status_label(check.status),
        if check.required {
            "yes"
        } else {
            "no"
        },
        check.detail.as_str(),
    );
    match &check.remediation {
        Some(r) => {
            out.append("  remediation: ");
            out.append(r.as_str());
            out.append("\n");
        },
        None => {},
    }
    assert(out@ =~= old(out)@ + spec_check_lines(check@));
}

impl DoctorReport {
    /// Renders the report as a plain-text table.
    pub fn render_text(&self) -> (out: String)
        ensures
            out@ == spec_render_text(self@),
    {
        let mut out = String::new();
        out.append("Doctor state: ");
        out.append(state_name(self.state));
        out.append("\n");
        out.append("Generated at: ");
        out.append(self.generated_at_rfc3339.as_str());
        out.append("\n\n");
        append_row(&mut out, "CHECK", "STATUS", "REQUIRED", "DETAIL");
        append_row(&mut out, "-----", "------", "--------", "------");
        assert(out@ =~= spec_header(self@));
        let mut i: usize = 0;
        while i < self.checks.len()
            invariant
                i <= self.checks.len(),
                out@ == spec_header(self@) + spec_rows(checks_view(self.checks@).take(i as int)),
            decreases self.checks.len() - i,
        {
            let ghost rows = checks_view(self.checks@);
            assert(rows.take(i + 1).drop_last() =~= rows.take(i as int));
            assert(rows.take(i + 1).last() == self.checks@[i as int]@);
            append_check(&mut out, &self.checks[i]);
            assert(out@ =~= spec_header(self@) + spec_rows(rows.take(i + 1)));
            i += 1;
        }
        assert(checks_view(self.checks@).take(self.checks.len() as int) =~= checks_view(
            self.checks@,
        ));
        out
    }

    /// Copies the report.
    pub fn duplicate(&self) -> (r: Self)
        ensures
            r@ == self@,
    {
        let mut checks: Vec<CheckResult> = Vec::new();
        let mut i: usize = 0;
        while i < self.checks.len()
            invariant
                i <= self.checks.len(),
                checks@.len() == i,
                forall|j: int| 0 <= j < i ==> checks@[j]@ == self.checks@[j]@,
            decreases self.checks.len() - i,
        {
            checks.push(self.checks[i].duplicate());
            i += 1;
        }
        assert(checks_view(checks@) =~= checks_view(self.checks@));
        DoctorReport {
            generated_at_rfc3339: self.generated_at_rfc3339.clone(),
            state: self.state,
            checks,
        }
    }
}

} // verus!
