//! GitLab CI specific output: the variables of a report and a collapsible
//! log section that lists its checks.

use vstd::prelude::*;
use vstd::string::StringExecFns;
use crate::conformity::append_percentage;
use crate::conformity::percentage_text;
use crate::report::CheckView;
use crate::report::ComplianceReport;
use crate::report::ReportView;
use crate::text::append_decimal;
use crate::text::bool_name;
use crate::text::bool_text;
use crate::text::decimal;

verus! {

/// The lines that give the variables of a report.
pub open spec fn variable_lines(report: ReportView) -> Seq<char> {
    "RHODIBOT_PASSED="@ + decimal(report.passed_count()) + "\n"@ + "RHODIBOT_TOTAL="@ + decimal(
        report.total_count(),
    ) + "\n"@ + "RHODIBOT_PERCENTAGE="@ + percentage_text(report.percentage_tenths()) + "\n"@
        + "RHODIBOT_BRONZE_COMPLIANT="@ + bool_text(report.bronze_compliance()) + "\n"@
        + "RHODIBOT_HAS_WARNINGS="@ + bool_text(report.has_critical_warnings()) + "\n"@
}

/// The line of one check: a green tick or a red cross, then the check.
pub open spec fn check_line(check: CheckView) -> Seq<char> {
    "\x1b["@ + (if check.passed {
        "32"@
    } else {
        "31"@
    }) + "m["@ + (if check.passed {
        "\u{2713}"@
    } else {
        "\u{2717}"@
    }) + "]\x1b[0m "@ + check.category + " - "@ + check.item + "\n"@
}

/// The lines of the checks of `checks`, in order.
pub open spec fn check_lines(checks: Seq<CheckView>) -> Seq<char>
    decreases checks.len(),
{
    if checks.len() == 0 {
        Seq::empty()
    } else {
        check_lines(checks.drop_last()) + check_line(checks.last())
    }
}

/// A report as GitLab CI takes it: the variables, then the checks in a
/// log section that opens at `started` and closes at `ended`, both in
/// seconds since the epoch.
pub open spec fn output_text(report: ReportView, started: u64, ended: u64) -> Seq<char> {
    variable_lines(report) + "\n\\e[0Ksection_start:"@ + decimal(started as nat)
        + ":rhodibot_report[collapsed=false]\\r\\e[0K\x1b[36mRhodibot Report\x1b[0m\n"@
        + check_lines(report.checks) + "section_end:"@ + decimal(ended as nat)
        + ":rhodibot_report\\r\\e[0K\n"@
}

/// Output report in GitLab CI compatible format: the text to print.
pub fn output_report(report: &ComplianceReport, started: u64, ended: u64) -> (out: String)
    ensures
        out@ == output_text(report@, started, ended),
{
    let mut out = String::new();
    out.append("RHODIBOT_PASSED=");
    append_decimal(&mut out, report.passed_count() as u64);
    out.append("\n");
    out.append("RHODIBOT_TOTAL=");
    append_decimal(&mut out, report.total_count() as u64);
    out.append("\n");
    out.append("RHODIBOT_PERCENTAGE=");
    append_percentage(&mut out, report.percentage_tenths());
    out.append("\n");
    out.append("RHODIBOT_BRONZE_COMPLIANT=");
    out.append(bool_name(report.bronze_compliance()));
    out.append("\n");
    out.append("RHODIBOT_HAS_WARNINGS=");
    out.append(bool_name(report.has_critical_warnings()));
    out.append("\n");
    assert(out@ == variable_lines(report@));
    out.append("\n\\e[0Ksection_start:");
    append_decimal(&mut out, started);
    out.append(":rhodibot_report[collapsed=false]\\r\\e[0K\x1b[36mRhodibot Report\x1b[0m\n");
    let ghost head = out@;
    let mut i: usize = 0;
    while i < report.checks.len()
        invariant
            i <= report.checks.len(),
            out@ == head + check_lines(report@.checks.take(i as int)),
        decreases report.checks.len() - i,
    {
        assert(report@.checks.take(i + 1).drop_last() == report@.checks.take(i as int));
        assert(report@.checks.take(i + 1).last() == report.checks@[i as int]@);
        let ghost before = out@;
        out.append("\x1b[");
        if report.checks[i].passed {
            out.append("32");
        } else {
            out.append("31");
        }
        out.append("m[");
        if report.checks[i].passed {
            out.append("\u{2713}");
        } else {
            out.append("\u{2717}");
        }
        out.append("]\x1b[0m ");
        out.append(report.checks[i].category.as_str());
        out.append(" - ");
        out.append(report.checks[i].item.as_str());
        out.append("\n");
        assert(out@ == before + check_line(report.checks@[i as int]@));
        i += 1;
    }
    assert(report@.checks.take(i as int) == report@.checks);
    out.append("section_end:");
    append_decimal(&mut out, ended);
    out.append(":rhodibot_report\\r\\e[0K\n");
    out
}

} // verus!
