//! A report as text: for people, briefly or at length, as one word, and as
//! JSON.

use vstd::prelude::*;
use vstd::string::StringExecFns;
use crate::conformity::append_percentage;
use crate::conformity::append_score;
use crate::conformity::percentage_text;
use crate::conformity::score_text;
use crate::exit_codes::COMPLIANCE_FAILED;
use crate::exit_codes::SECURITY_WARNING;
use crate::exit_codes::SUCCESS;
use crate::level::WarningLevel;
use crate::report::CheckView;
use crate::report::ComplianceReport;
use crate::report::ReportView;
use crate::report::WarningView;
use crate::text::append_decimal;
use crate::text::bool_name;
use crate::text::bool_text;
use crate::text::decimal;
use crate::text::json_escape;
use crate::text::json_escaped;
use crate::timestamp::format_timestamp;
use crate::timestamp::timestamp_text;

verus! {

/// The version of the tool, as reports state it.
pub const VERSION: &'static str = "0.1.0";

/// The rule drawn above and below the body of a report.
pub const RULE: &'static str =
    "\u{2501}\u{2501}\u{2501}\u{2501}\u{2501}\u{2501}\u{2501}\u{2501}\u{2501}\u{2501}\u{2501}\u{2501}\u{2501}\u{2501}\u{2501}\u{2501}\u{2501}\u{2501}\u{2501}\u{2501}\u{2501}\u{2501}\u{2501}\u{2501}\u{2501}\u{2501}\u{2501}\u{2501}\u{2501}\u{2501}\u{2501}\u{2501}\u{2501}\u{2501}\u{2501}\u{2501}\u{2501}\u{2501}\u{2501}\u{2501}\u{2501}\u{2501}\u{2501}\u{2501}\u{2501}\u{2501}";

/// The longer rule of the report at length.
pub const LONG_RULE: &'static str =
    "\u{2501}\u{2501}\u{2501}\u{2501}\u{2501}\u{2501}\u{2501}\u{2501}\u{2501}\u{2501}\u{2501}\u{2501}\u{2501}\u{2501}\u{2501}\u{2501}\u{2501}\u{2501}\u{2501}\u{2501}\u{2501}\u{2501}\u{2501}\u{2501}\u{2501}\u{2501}\u{2501}\u{2501}\u{2501}\u{2501}\u{2501}\u{2501}\u{2501}\u{2501}\u{2501}\u{2501}\u{2501}\u{2501}\u{2501}\u{2501}\u{2501}\u{2501}\u{2501}\u{2501}\u{2501}\u{2501}\u{2501}\u{2501}\u{2501}\u{2501}\u{2501}\u{2501}\u{2501}\u{2501}\u{2501}\u{2501}\u{2501}\u{2501}";

/// The category under which the check before the last of `checks` stands;
/// none, the empty text, before the first.
pub open spec fn category_before(checks: Seq<CheckView>) -> Seq<char> {
    if checks.len() == 0 {
        Seq::empty()
    } else {
        checks.last().category
    }
}

/// The line of one check, under the heading of its category where the
/// check before it stands under another.
pub open spec fn check_entry(check: CheckView, category_before: Seq<char>) -> Seq<char> {
    (if check.category != category_before {
        "\n\u{1f4cb} "@ + check.category + "\n"@
    } else {
        Seq::empty()
    }) + "  "@ + (if check.passed {
        "\u{2705}"@
    } else {
        "\u{274c}"@
    }) + " "@ + check.item + " ["@ + check.required_for.display_text() + "]\n"@
}

/// The checks of a report, grouped under their categories as they come.
pub open spec fn check_entries(checks: Seq<CheckView>) -> Seq<char>
    decreases checks.len(),
{
    if checks.len() == 0 {
        Seq::empty()
    } else {
        check_entries(checks.drop_last()) + check_entry(
            checks.last(),
            category_before(checks.drop_last()),
        )
    }
}

/// The sign that stands for a warning of `level`, to the width of two.
pub open spec fn warning_icon(level: WarningLevel) -> Seq<char> {
    match level {
        WarningLevel::Info => "\u{2139}\u{fe0f} "@,
        WarningLevel::Warning => "\u{26a0}\u{fe0f} "@,
        WarningLevel::Critical => "\u{1f6a8}"@,
    }
}

/// The tag that names a warning's level in the report at length.
pub open spec fn warning_tag(level: WarningLevel) -> Seq<char> {
    match level {
        WarningLevel::Info => "[INFO]"@,
        WarningLevel::Warning => "[WARN]"@,
        WarningLevel::Critical => "[CRITICAL]"@,
    }
}

/// The name of a warning's level in JSON.
pub open spec fn warning_name(level: WarningLevel) -> Seq<char> {
    match level {
        WarningLevel::Info => "info"@,
        WarningLevel::Warning => "warning"@,
        WarningLevel::Critical => "critical"@,
    }
}

/// The lines of the warnings of a report.
pub open spec fn warning_entries(warnings: Seq<WarningView>) -> Seq<char>
    decreases warnings.len(),
{
    if warnings.len() == 0 {
        Seq::empty()
    } else {
        warning_entries(warnings.drop_last()) + "  "@ + warning_icon(warnings.last().level) + " "@
            + warnings.last().message + "\n"@
    }
}

/// The lines of one warning in the report at length: the warning with its
/// level, and the path that drew it where there is one.
pub open spec fn long_warning_entry(warning: WarningView) -> Seq<char> {
    "  "@ + warning_icon(warning.level) + " "@ + warning_tag(warning.level) + " "@
        + warning.message + "\n"@ + (match warning.path {
        Some(path) => "      Path: "@ + path + "\n"@,
        None => Seq::empty(),
    })
}

/// The lines of the warnings of a report at length.
pub open spec fn long_warning_entries(warnings: Seq<WarningView>) -> Seq<char>
    decreases warnings.len(),
{
    if warnings.len() == 0 {
        Seq::empty()
    } else {
        long_warning_entries(warnings.drop_last()) + long_warning_entry(warnings.last())
    }
}

/// The report for people.
pub open spec fn report_text(report: ReportView) -> Seq<char> {
    "\u{1f916} Rhodibot - RSR Compliance Report\n"@ + RULE@ + "\n"@ + "Repository: "@
        + report.repository_path + "\n"@ + "Verified:   "@ + timestamp_text(report.verified_at)
        + "\n"@ + "\n"@ + check_entries(report.checks) + (if report.warnings.len() > 0 {
        "\n\u{1f6e1}\u{fe0f}  Security Warnings\n"@ + warning_entries(report.warnings)
    } else {
        Seq::empty()
    }) + "\n"@ + RULE@ + "\n"@ + "Score: "@ + score_text(report) + "\n"@ + (
    if report.has_critical_warnings() {
        "\u{1f6a8} CRITICAL: Security warnings detected - review required\n"@
    } else {
        Seq::empty()
    }) + (if report.bronze_compliance() && !report.has_critical_warnings() {
        "\u{1f3c6} Bronze-level RSR compliance: ACHIEVED\n"@
    } else if report.bronze_compliance() {
        "\u{26a0}\u{fe0f}  Bronze-level RSR compliance: ACHIEVED (with warnings)\n"@
    } else {
        "\u{26a0}\u{fe0f}  Bronze-level RSR compliance: NOT MET\n"@
    }) + "\n"@
}

/// The verdict of a report in a word or two.
pub open spec fn quiet_text(report: ReportView) -> Seq<char> {
    if report.bronze_compliance() && !report.has_critical_warnings() {
        "PASS\n"@
    } else if report.has_critical_warnings() {
        "FAIL (security)\n"@
    } else {
        "FAIL\n"@
    }
}

/// The line that explains an exit code.
pub open spec fn exit_code_line(code: i32, name: Seq<char>) -> Seq<char> {
    "   Exit code: "@ + decimal(code as nat) + " ("@ + name + ")\n"@
}

/// The verdict lines of the report at length, each with the exit code that
/// goes with it.
pub open spec fn long_verdict(report: ReportView) -> Seq<char> {
    (if report.has_critical_warnings() {
        "\u{1f6a8} CRITICAL: Security warnings detected - review required\n"@ + exit_code_line(
            SECURITY_WARNING,
            "SECURITY_WARNING"@,
        )
    } else {
        Seq::empty()
    }) + (if report.bronze_compliance() && !report.has_critical_warnings() {
        "\u{1f3c6} Bronze-level RSR compliance: ACHIEVED\n"@ + exit_code_line(SUCCESS, "SUCCESS"@)
    } else if report.bronze_compliance() {
        "\u{26a0}\u{fe0f}  Bronze-level RSR compliance: ACHIEVED (with warnings)\n"@
            + exit_code_line(SECURITY_WARNING, "SECURITY_WARNING"@)
    } else {
        "\u{26a0}\u{fe0f}  Bronze-level RSR compliance: NOT MET\n"@ + exit_code_line(
            COMPLIANCE_FAILED,
            "COMPLIANCE_FAILED"@,
        )
    })
}

/// The report for people, at length.
pub open spec fn verbose_text(report: ReportView) -> Seq<char> {
    "\u{1f916} Rhodibot - RSR Compliance Report (Verbose)\n"@ + LONG_RULE@ + "\n"@
        + "Repository: "@ + report.repository_path + "\n"@ + "Verified:   "@ + timestamp_text(
        report.verified_at,
    ) + "\n"@ + "Version:    "@ + VERSION@ + "\n"@ + "\n"@ + check_entries(report.checks) + (
    if report.warnings.len() > 0 {
        "\n\u{1f6e1}\u{fe0f}  Security Warnings ("@ + decimal(report.warnings.len()) + " total)\n"@
            + long_warning_entries(report.warnings)
    } else {
        Seq::empty()
    }) + "\n"@ + LONG_RULE@ + "\n"@ + "Score: "@ + score_text(report) + "\n"@ + long_verdict(
        report,
    ) + "\n"@
}

/// The comma between the items of a JSON array: none behind the last.
pub open spec fn comma_before_end(position: int, count: int) -> Seq<char> {
    if position < count - 1 {
        ","@
    } else {
        ""@
    }
}

/// One check as a JSON object, at `position` among `count`.
pub open spec fn json_check(check: CheckView, position: int, count: int) -> Seq<char> {
    "    {\n"@ + "      \"category\": \""@ + json_escaped(check.category) + "\",\n"@
        + "      \"item\": \""@ + json_escaped(check.item) + "\",\n"@ + "      \"passed\": "@
        + bool_text(check.passed) + ",\n"@ + "      \"level\": \""@
        + check.required_for.display_text() + "\"\n"@ + "    }"@ + comma_before_end(
        position,
        count,
    ) + "\n"@
}

/// The first `upto` checks of `checks` as JSON objects.
pub open spec fn json_checks(checks: Seq<CheckView>, upto: int) -> Seq<char>
    decreases upto,
{
    if upto <= 0 {
        Seq::empty()
    } else {
        json_checks(checks, upto - 1) + json_check(checks[upto - 1], upto - 1, checks.len() as int)
    }
}

/// One warning as a JSON object, at `position` among `count`.
pub open spec fn json_warning(warning: WarningView, position: int, count: int) -> Seq<char> {
    "    {\n"@ + "      \"level\": \""@ + warning_name(warning.level) + "\",\n"@
        + "      \"message\": \""@ + json_escaped(warning.message) + "\"\n"@ + "    }"@
        + comma_before_end(position, count) + "\n"@
}

/// The first `upto` warnings of `warnings` as JSON objects.
pub open spec fn json_warnings(warnings: Seq<WarningView>, upto: int) -> Seq<char>
    decreases upto,
{
    if upto <= 0 {
        Seq::empty()
    } else {
        json_warnings(warnings, upto - 1) + json_warning(
            warnings[upto - 1],
            upto - 1,
            warnings.len() as int,
        )
    }
}

/// The report as JSON.
pub open spec fn json_text(report: ReportView) -> Seq<char> {
    "{\n"@ + "  \"tool\": \"rhodibot\",\n"@ + "  \"version\": \""@ + VERSION@ + "\",\n"@
        + "  \"repository\": \""@ + json_escaped(report.repository_path) + "\",\n"@
        + "  \"verified_at\": \""@ + timestamp_text(report.verified_at) + "\",\n"@
        + "  \"score\": {\n"@ + "    \"passed\": "@ + decimal(report.passed_count()) + ",\n"@
        + "    \"total\": "@ + decimal(report.total_count()) + ",\n"@ + "    \"percentage\": "@
        + percentage_text(report.percentage_tenths()) + "\n"@ + "  },\n"@
        + "  \"bronze_compliant\": "@ + bool_text(report.bronze_compliance()) + ",\n"@
        + "  \"has_critical_warnings\": "@ + bool_text(report.has_critical_warnings()) + ",\n"@
        + "  \"checks\": [\n"@ + json_checks(report.checks, report.checks.len() as int)
        + "  ],\n"@ + "  \"warnings\": [\n"@ + json_warnings(
        report.warnings,
        report.warnings.len() as int,
    ) + "  ]\n"@ + "}\n"@
}

fn icon_of(level: WarningLevel) -> (icon: &'static str)
    ensures
        icon@ == warning_icon(level),
{
    match level {
        WarningLevel::Info => "\u{2139}\u{fe0f} ",
        WarningLevel::Warning => "\u{26a0}\u{fe0f} ",
        WarningLevel::Critical => "\u{1f6a8}",
    }
}

fn tag_of(level: WarningLevel) -> (tag: &'static str)
    ensures
        tag@ == warning_tag(level),
{
    match level {
        WarningLevel::Info => "[INFO]",
        WarningLevel::Warning => "[WARN]",
        WarningLevel::Critical => "[CRITICAL]",
    }
}

fn name_of(level: WarningLevel) -> (name: &'static str)
    ensures
        name@ == warning_name(level),
{
    match level {
        WarningLevel::Info => "info",
        WarningLevel::Warning => "warning",
        WarningLevel::Critical => "critical",
    }
}

fn append_check_entries(out: &mut String, report: &ComplianceReport)
    ensures
        final(out)@ == old(out)@ + check_entries(report@.checks),
{
    let mut current_category = String::new();
    let mut i: usize = 0;
    while i < report.checks.len()
        invariant
            i <= report.checks.len(),
            current_category@ == category_before(report@.checks.take(i as int)),
            out@ == old(out)@ + check_entries(report@.checks.take(i as int)),
        decreases report.checks.len() - i,
    {
        let ghost done = report@.checks.take(i as int);
        assert(report@.checks.take(i + 1).drop_last() == done);
        assert(report@.checks.take(i + 1).last() == report.checks@[i as int]@);
        let check = &report.checks[i];
        let ghost before = out@;
        if !(check.category == current_category) {
            out.append("\n\u{1f4cb} ");
            out.append(check.category.as_str());
            out.append("\n");
            current_category = check.category.clone();
        }
        out.append("  ");
        if check.passed {
            out.append("\u{2705}");
        } else {
            out.append("\u{274c}");
        }
        out.append(" ");
        out.append(check.item.as_str());
        out.append(" [");
        out.append(check.required_for.display_name());
        out.append("]\n");
        assert(out@ =~= before + check_entry(check@, category_before(done)));
        i += 1;
    }
    assert(report@.checks.take(i as int) == report@.checks);
}

fn append_warning_entries(out: &mut String, report: &ComplianceReport)
    ensures
        final(out)@ == old(out)@ + warning_entries(report@.warnings),
{
    let mut i: usize = 0;
    while i < report.warnings.len()
        invariant
            i <= report.warnings.len(),
            out@ == old(out)@ + warning_entries(report@.warnings.take(i as int)),
        decreases report.warnings.len() - i,
    {
        assert(report@.warnings.take(i + 1).drop_last() == report@.warnings.take(i as int));
        assert(report@.warnings.take(i + 1).last() == report.warnings@[i as int]@);
        out.append("  ");
        out.append(icon_of(report.warnings[i].level));
        out.append(" ");
        out.append(report.warnings[i].message.as_str());
        out.append("\n");
        i += 1;
    }
    assert(report@.warnings.take(i as int) == report@.warnings);
}

fn append_long_warning_entries(out: &mut String, report: &ComplianceReport)
    ensures
        final(out)@ == old(out)@ + long_warning_entries(report@.warnings),
{
    let mut i: usize = 0;
    while i < report.warnings.len()
        invariant
            i <= report.warnings.len(),
            out@ == old(out)@ + long_warning_entries(report@.warnings.take(i as int)),
        decreases report.warnings.len() - i,
    {
        assert(report@.warnings.take(i + 1).drop_last() == report@.warnings.take(i as int));
        assert(report@.warnings.take(i + 1).last() == report.warnings@[i as int]@);
        let ghost before = out@;
        let warning = &report.warnings[i];
        out.append("  ");
        out.append(icon_of(warning.level));
        out.append(" ");
        out.append(tag_of(warning.level));
        out.append(" ");
        out.append(warning.message.as_str());
        out.append("\n");
        if let Some(path) = &warning.path {
            out.append("      Path: ");
            out.append(path.as_str());
            out.append("\n");
        }
        assert(out@ == before + long_warning_entry(warning@));
        i += 1;
    }
    assert(report@.warnings.take(i as int) == report@.warnings);
}

/// The compliance report in human format.
pub fn render_report(report: &ComplianceReport) -> (out: String)
    ensures
        out@ == report_text(report@),
{
    let timestamp = format_timestamp(report.verified_at);
    let mut out = String::new();
    out.append("\u{1f916} Rhodibot - RSR Compliance Report\n");
    out.append(RULE);
    out.append("\n");
    out.append("Repository: ");
    out.append(report.repository_path.as_str());
    out.append("\n");
    out.append("Verified:   ");
    out.append(timestamp.as_str());
    out.append("\n");
    out.append("\n");
    append_check_entries(&mut out, report);
    let ghost listed = out@;
    if report.warnings.len() > 0 {
        out.append("\n\u{1f6e1}\u{fe0f}  Security Warnings\n");
        append_warning_entries(&mut out, report);
        assert(out@ == listed + ("\n\u{1f6e1}\u{fe0f}  Security Warnings\n"@ + warning_entries(
            report@.warnings,
        )));
    }
    out.append("\n");
    out.append(RULE);
    out.append("\n");
    out.append("Score: ");
    append_score(&mut out, report);
    out.append("\n");
    if report.has_critical_warnings() {
        out.append("\u{1f6a8} CRITICAL: Security warnings detected - review required\n");
    }
    if report.bronze_compliance() && !report.has_critical_warnings() {
        out.append("\u{1f3c6} Bronze-level RSR compliance: ACHIEVED\n");
    } else if report.bronze_compliance() && report.has_critical_warnings() {
        out.append("\u{26a0}\u{fe0f}  Bronze-level RSR compliance: ACHIEVED (with warnings)\n");
    } else {
        out.append("\u{26a0}\u{fe0f}  Bronze-level RSR compliance: NOT MET\n");
    }
    out.append("\n");
    out
}

/// The report in quiet mode: the verdict alone.
pub fn render_quiet_report(report: &ComplianceReport) -> (out: String)
    ensures
        out@ == quiet_text(report@),
{
    let bronze_compliant = report.bronze_compliance();
    let has_critical = report.has_critical_warnings();
    if bronze_compliant && !has_critical {
        "PASS\n".to_owned()
    } else if has_critical {
        "FAIL (security)\n".to_owned()
    } else {
        "FAIL\n".to_owned()
    }
}

fn append_exit_code(out: &mut String, code: i32, name: &str)
    requires
        0 <= code,
    ensures
        final(out)@ == old(out)@ + exit_code_line(code, name@),
{
    out.append("   Exit code: ");
    append_decimal(out, code as u64);
    out.append(" (");
    out.append(name);
    out.append(")\n");
    assert(out@ =~= old(out)@ + exit_code_line(code, name@));
}

fn append_long_verdict(out: &mut String, report: &ComplianceReport)
    ensures
        final(out)@ == old(out)@ + long_verdict(report@),
{
    if report.has_critical_warnings() {
        out.append("\u{1f6a8} CRITICAL: Security warnings detected - review required\n");
        append_exit_code(out, SECURITY_WARNING, "SECURITY_WARNING");
    }
    let ghost middle = out@;
    if report.bronze_compliance() && !report.has_critical_warnings() {
        out.append("\u{1f3c6} Bronze-level RSR compliance: ACHIEVED\n");
        append_exit_code(out, SUCCESS, "SUCCESS");
    } else if report.bronze_compliance() && report.has_critical_warnings() {
        out.append("\u{26a0}\u{fe0f}  Bronze-level RSR compliance: ACHIEVED (with warnings)\n");
        append_exit_code(out, SECURITY_WARNING, "SECURITY_WARNING");
    } else {
        out.append("\u{26a0}\u{fe0f}  Bronze-level RSR compliance: NOT MET\n");
        append_exit_code(out, COMPLIANCE_FAILED, "COMPLIANCE_FAILED");
    }
    assert(out@ =~= old(out)@ + long_verdict(report@));
}

/// The compliance report in human format, at length.
pub fn render_verbose_report(report: &ComplianceReport) -> (out: String)
    ensures
        out@ == verbose_text(report@),
{
    let timestamp = format_timestamp(report.verified_at);
    let mut out = String::new();
    out.append("\u{1f916} Rhodibot - RSR Compliance Report (Verbose)\n");
    out.append(LONG_RULE);
    out.append("\n");
    out.append("Repository: ");
    out.append(report.repository_path.as_str());
    out.append("\n");
    out.append("Verified:   ");
    out.append(timestamp.as_str());
    out.append("\n");
    out.append("Version:    ");
    out.append(VERSION);
    out.append("\n");
    out.append("\n");
    append_check_entries(&mut out, report);
    let ghost listed = out@;
    if report.warnings.len() > 0 {
        out.append("\n\u{1f6e1}\u{fe0f}  Security Warnings (");
        append_decimal(&mut out, report.warnings.len() as u64);
        out.append(" total)\n");
        append_long_warning_entries(&mut out, report);
        assert(out@ == listed + ("\n\u{1f6e1}\u{fe0f}  Security Warnings ("@ + decimal(
            report@.warnings.len(),
        ) + " total)\n"@ + long_warning_entries(report@.warnings)));
    }
    out.append("\n");
    out.append(LONG_RULE);
    out.append("\n");
    out.append("Score: ");
    append_score(&mut out, report);
    out.append("\n");
    append_long_verdict(&mut out, report);
    out.append("\n");
    out
}

fn comma_at(position: usize, count: usize) -> (comma: &'static str)
    ensures
        comma@ == comma_before_end(position as int, count as int),
{
    if count > 0 && position < count - 1 {
        ","
    } else {
        ""
    }
}

fn append_json_checks(out: &mut String, report: &ComplianceReport)
    ensures
        final(out)@ == old(out)@ + json_checks(report@.checks, report@.checks.len() as int),
{
    let count = report.checks.len();
    let mut i: usize = 0;
    while i < count
        invariant
            i <= count,
            count == report.checks.len(),
            out@ == old(out)@ + json_checks(report@.checks, i as int),
        decreases count - i,
    {
        let check = &report.checks[i];
        let category = json_escape(check.category.as_str());
        let item = json_escape(check.item.as_str());
        let mut entry = "    {\n".to_owned();
        entry.append("      \"category\": \"");
        entry.append(category.as_str());
        entry.append("\",\n");
        entry.append("      \"item\": \"");
        entry.append(item.as_str());
        entry.append("\",\n");
        entry.append("      \"passed\": ");
        entry.append(bool_name(check.passed));
        entry.append(",\n");
        entry.append("      \"level\": \"");
        entry.append(check.required_for.display_name());
        entry.append("\"\n");
        entry.append("    }");
        entry.append(comma_at(i, count));
        entry.append("\n");
        assert(report@.checks[i as int] == check@);
        assert(entry@ == json_check(check@, i as int, count as int));
        out.append(entry.as_str());
        i += 1;
    }
}

fn append_json_warnings(out: &mut String, report: &ComplianceReport)
    ensures
        final(out)@ == old(out)@ + json_warnings(report@.warnings, report@.warnings.len() as int),
{
    let count = report.warnings.len();
    let mut i: usize = 0;
    while i < count
        invariant
            i <= count,
            count == report.warnings.len(),
            out@ == old(out)@ + json_warnings(report@.warnings, i as int),
        decreases count - i,
    {
        let warning = &report.warnings[i];
        let message = json_escape(warning.message.as_str());
        let mut entry = "    {\n".to_owned();
        entry.append("      \"level\": \"");
        entry.append(name_of(warning.level));
        entry.append("\",\n");
        entry.append("      \"message\": \"");
        entry.append(message.as_str());
        entry.append("\"\n");
        entry.append("    }");
        entry.append(comma_at(i, count));
        entry.append("\n");
        assert(report@.warnings[i as int] == warning@);
        assert(entry@ == json_warning(warning@, i as int, count as int));
        out.append(entry.as_str());
        i += 1;
    }
}

/// The report as JSON.
pub fn render_json_report(report: &ComplianceReport) -> (out: String)
    ensures
        out@ == json_text(report@),
{
    let timestamp = format_timestamp(report.verified_at);
    let repository = json_escape(report.repository_path.as_str());
    let mut out = String::new();
    out.append("{\n");
    out.append("  \"tool\": \"rhodibot\",\n");
    out.append("  \"version\": \"");
    out.append(VERSION);
    out.append("\",\n");
    out.append("  \"repository\": \"");
    out.append(repository.as_str());
    out.append("\",\n");
    out.append("  \"verified_at\": \"");
    out.append(timestamp.as_str());
    out.append("\",\n");
    out.append("  \"score\": {\n");
    out.append("    \"passed\": ");
    append_decimal(&mut out, report.passed_count() as u64);
    out.append(",\n");
    out.append("    \"total\": ");
    append_decimal(&mut out, report.total_count() as u64);
    out.append(",\n");
    out.append("    \"percentage\": ");
    append_percentage(&mut out, report.percentage_tenths());
    out.append("\n");
    out.append("  },\n");
    out.append("  \"bronze_compliant\": ");
    out.append(bool_name(report.bronze_compliance()));
    out.append(",\n");
    out.append("  \"has_critical_warnings\": ");
    out.append(bool_name(report.has_critical_warnings()));
    out.append(",\n");
    out.append("  \"checks\": [\n");
    append_json_checks(&mut out, report);
    out.append("  ],\n");
    out.append("  \"warnings\": [\n");
    append_json_warnings(&mut out, report);
    out.append("  ]\n");
    out.append("}\n");
    out
}

} // verus!
