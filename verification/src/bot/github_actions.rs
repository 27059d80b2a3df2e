//! GitHub Actions specific output commands: output variables, annotations,
//! log groups and the job summary of a report. Every function gives the
//! text; writing it where the platform reads it is the caller's part.

use vstd::prelude::*;
use vstd::string::StringExecFns;
use crate::conformity::append_percentage;
use crate::conformity::append_score;
use crate::conformity::percentage_text;
use crate::conformity::score_text;
use crate::level::WarningLevel;
use crate::report::CheckView;
use crate::report::ComplianceReport;
use crate::report::ReportView;
use crate::report::WarningView;
use crate::text::append_decimal;
use crate::text::bool_name;
use crate::text::bool_text;
use crate::text::decimal;
use crate::text::string_views;

verus! {

/// Where the platform takes output variables from.
#[derive(Debug, Clone, Copy, PartialEq, Eq, Structural)]
pub enum OutputChannel {
    /// The file that `GITHUB_OUTPUT` names.
    File,
    /// The `set-output` workflow command on the console.
    Command,
}

/// The line that sets the output variable `name` to `value`.
pub open spec fn output_line(name: Seq<char>, value: Seq<char>, channel: OutputChannel) -> Seq<
    char,
> {
    match channel {
        OutputChannel::File => name + "="@ + value,
        OutputChannel::Command => "::set-output name="@ + name + "::"@ + value,
    }
}

/// Set an output variable for GitHub Actions: the line to write to
/// `channel`.
pub fn set_output(name: &str, value: &str, channel: OutputChannel) -> (line: String)
    ensures
        line@ == output_line(name@, value@, channel),
{
    let mut line = String::new();
    match channel {
        OutputChannel::File => {
            line.append(name);
            line.append("=");
            line.append(value);
        },
        OutputChannel::Command => {
            line.append("::set-output name=");
            line.append(name);
            line.append("::");
            line.append(value);
        },
    }
    line
}

/// Where an annotation points: nothing without a file, else the file and,
/// where there is one, the line.
pub open spec fn annotation_place(file: Option<Seq<char>>, line: Option<u32>) -> Seq<char> {
    match file {
        Some(file) => " file="@ + file + (match line {
            Some(line) => ",line="@ + decimal(line as nat),
            None => Seq::empty(),
        }),
        None => Seq::empty(),
    }
}

/// The workflow command for an annotation of `kind`.
pub open spec fn annotation(
    kind: Seq<char>,
    message: Seq<char>,
    file: Option<Seq<char>>,
    line: Option<u32>,
) -> Seq<char> {
    "::"@ + kind + annotation_place(file, line) + "::"@ + message
}

/// The text of `text`, where there is one.
pub open spec fn optional_str(text: Option<&str>) -> Option<Seq<char>> {
    match text {
        Some(text) => Some(text@),
        None => None,
    }
}

fn annotate(kind: &str, message: &str, file: Option<&str>, line: Option<u32>) -> (cmd: String)
    ensures
        cmd@ == annotation(kind@, message@, optional_str(file), line),
{
    let mut cmd = String::new();
    cmd.append("::");
    cmd.append(kind);
    let ghost head = cmd@;
    if let Some(f) = file {
        cmd.append(" file=");
        cmd.append(f);
        if let Some(l) = line {
            cmd.append(",line=");
            append_decimal(&mut cmd, l as u64);
        }
    }
    assert(cmd@ == head + annotation_place(optional_str(file), line));
    cmd.append("::");
    cmd.append(message);
    cmd
}

/// Add a warning annotation: the workflow command.
pub fn warning(message: &str, file: Option<&str>, line: Option<u32>) -> (cmd: String)
    ensures
        cmd@ == annotation("warning"@, message@, optional_str(file), line),
{
    annotate("warning", message, file, line)
}

/// Add an error annotation: the workflow command.
pub fn error(message: &str, file: Option<&str>, line: Option<u32>) -> (cmd: String)
    ensures
        cmd@ == annotation("error"@, message@, optional_str(file), line),
{
    annotate("error", message, file, line)
}

/// Start a log group: the workflow command.
pub fn group(title: &str) -> (cmd: String)
    ensures
        cmd@ == "::group::"@ + title@,
{
    let mut cmd = String::new();
    cmd.append("::group::");
    cmd.append(title);
    cmd
}

/// End a log group: the workflow command.
pub fn endgroup() -> (cmd: String)
    ensures
        cmd@ == "::endgroup::"@,
{
    "::endgroup::".to_owned()
}

/// An output variable and its value.
#[derive(Debug, Clone)]
pub struct OutputVariable {
    pub name: String,
    pub value: String,
}

/// The variables of `items`, each as its name and its value.
pub open spec fn variable_views(items: Seq<OutputVariable>) -> Seq<(Seq<char>, Seq<char>)> {
    items.map_values(|item: OutputVariable| (item.name@, item.value@))
}

/// The output variables of a report: the counts, the percentage, and the
/// two verdicts.
pub open spec fn report_variables(report: ReportView) -> Seq<(Seq<char>, Seq<char>)> {
    seq![
        ("passed"@, decimal(report.passed_count())),
        ("total"@, decimal(report.total_count())),
        ("percentage"@, percentage_text(report.percentage_tenths())),
        ("bronze_compliant"@, bool_text(report.bronze_compliance())),
        ("has_warnings"@, bool_text(report.has_critical_warnings())),
    ]
}

/// The annotation of a failed check.
pub open spec fn failed_check_annotation(check: CheckView) -> Seq<char> {
    annotation(
        "warning"@,
        "RSR check failed: "@ + check.category + " - "@ + check.item,
        None,
        None,
    )
}

/// The annotations of the failed checks of `checks`, in order.
pub open spec fn failed_check_annotations(checks: Seq<CheckView>) -> Seq<Seq<char>>
    decreases checks.len(),
{
    if checks.len() == 0 {
        Seq::empty()
    } else if checks.last().passed {
        failed_check_annotations(checks.drop_last())
    } else {
        failed_check_annotations(checks.drop_last()).push(failed_check_annotation(checks.last()))
    }
}

/// The annotation of a security warning: an error for a critical one, a
/// warning for any other, at the path that drew it.
pub open spec fn warning_annotation(warning: WarningView) -> Seq<char> {
    annotation(
        if warning.level == WarningLevel::Critical {
            "error"@
        } else {
            "warning"@
        },
        warning.message,
        warning.path,
        None,
    )
}

/// The annotations of a report: those of its failed checks, then those of
/// its security warnings.
pub open spec fn report_annotations(report: ReportView) -> Seq<Seq<char>> {
    failed_check_annotations(report.checks) + report.warnings.map_values(
        |w: WarningView| warning_annotation(w),
    )
}

/// The sign that stands for a warning of `level`.
pub open spec fn level_icon(level: WarningLevel) -> Seq<char> {
    match level {
        WarningLevel::Info => "\u{2139}\u{fe0f}"@,
        WarningLevel::Warning => "\u{26a0}\u{fe0f}"@,
        WarningLevel::Critical => "\u{1f6a8}"@,
    }
}

/// The rows of the summary's table of checks.
pub open spec fn summary_rows(checks: Seq<CheckView>) -> Seq<char>
    decreases checks.len(),
{
    if checks.len() == 0 {
        Seq::empty()
    } else {
        summary_rows(checks.drop_last()) + "| "@ + checks.last().category + " | "@
            + checks.last().item + " | "@ + (if checks.last().passed {
            "\u{2705}"@
        } else {
            "\u{274c}"@
        }) + " |\n"@
    }
}

/// The items of the summary's list of warnings.
pub open spec fn summary_warnings(warnings: Seq<WarningView>) -> Seq<char>
    decreases warnings.len(),
{
    if warnings.len() == 0 {
        Seq::empty()
    } else {
        summary_warnings(warnings.drop_last()) + "- "@ + level_icon(warnings.last().level) + " "@
            + warnings.last().message + "\n"@
    }
}

/// The job summary of a report, in markdown.
pub open spec fn summary_text(report: ReportView) -> Seq<char> {
    "## \u{1f916} Rhodibot RSR Compliance Report\n\n"@ + (if report.bronze_compliance()
        && !report.has_critical_warnings() {
        "\u{2705} **Bronze-level RSR compliance: ACHIEVED**\n\n"@
    } else {
        "\u{274c} **Bronze-level RSR compliance: NOT MET**\n\n"@
    }) + "**Score**: "@ + score_text(report) + "\n\n"@ + "### Checks\n\n"@
        + "| Category | Item | Status |\n"@ + "|----------|------|--------|\n"@ + summary_rows(
        report.checks,
    ) + (if report.warnings.len() > 0 {
        "\n### Security Warnings\n\n"@ + summary_warnings(report.warnings)
    } else {
        Seq::empty()
    })
}

/// A report as GitHub Actions takes it.
#[derive(Debug)]
pub struct ReportOutput {
    /// The output variables to set, in order.
    pub variables: Vec<OutputVariable>,
    /// The annotation commands to print, in order.
    pub annotations: Vec<String>,
    /// The job summary, in markdown.
    pub summary: String,
}

fn variable(name: &str, value: String) -> (item: OutputVariable)
    ensures
        item.name@ == name@,
        item.value@ == value@,
{
    OutputVariable { name: name.to_owned(), value }
}

fn variables_of(report: &ComplianceReport) -> (variables: Vec<OutputVariable>)
    ensures
        variable_views(variables@) == report_variables(report@),
{
    let mut variables: Vec<OutputVariable> = Vec::new();
    let mut passed = String::new();
    append_decimal(&mut passed, report.passed_count() as u64);
    variables.push(variable("passed", passed));
    let mut total = String::new();
    append_decimal(&mut total, report.total_count() as u64);
    variables.push(variable("total", total));
    let mut percentage = String::new();
    append_percentage(&mut percentage, report.percentage_tenths());
    variables.push(variable("percentage", percentage));
    variables.push(variable("bronze_compliant", bool_name(report.bronze_compliance()).to_owned()));
    variables.push(variable("has_warnings", bool_name(report.has_critical_warnings()).to_owned()));
    assert(variable_views(variables@) =~= report_variables(report@));
    variables
}

fn annotations_of(report: &ComplianceReport) -> (annotations: Vec<String>)
    ensures
        string_views(annotations@) == report_annotations(report@),
{
    let mut annotations: Vec<String> = Vec::new();
    let mut i: usize = 0;
    while i < report.checks.len()
        invariant
            i <= report.checks.len(),
            string_views(annotations@) == failed_check_annotations(report@.checks.take(i as int)),
        decreases report.checks.len() - i,
    {
        assert(report@.checks.take(i + 1).drop_last() == report@.checks.take(i as int));
        assert(report@.checks.take(i + 1).last() == report.checks@[i as int]@);
        if !report.checks[i].passed {
            let mut message = String::new();
            message.append("RSR check failed: ");
            message.append(report.checks[i].category.as_str());
            message.append(" - ");
            message.append(report.checks[i].item.as_str());
            let ghost before = string_views(annotations@);
            annotations.push(warning(message.as_str(), None, None));
            assert(string_views(annotations@) =~= before.push(
                failed_check_annotation(report.checks@[i as int]@),
            ));
        }
        i += 1;
    }
    assert(report@.checks.take(i as int) == report@.checks);
    let ghost failed = string_views(annotations@);
    let ghost noted = |w: WarningView| warning_annotation(w);
    let mut j: usize = 0;
    while j < report.warnings.len()
        invariant
            j <= report.warnings.len(),
            noted == |w: WarningView| warning_annotation(w),
            string_views(annotations@) == failed + report@.warnings.take(j as int).map_values(
                noted,
            ),
        decreases report.warnings.len() - j,
    {
        let item = &report.warnings[j];
        let file: Option<&str> = match &item.path {
            Some(path) => Some(path.as_str()),
            None => None,
        };
        let cmd = match item.level {
            WarningLevel::Critical => error(item.message.as_str(), file, None),
            _ => warning(item.message.as_str(), file, None),
        };
        assert(cmd@ == warning_annotation(report@.warnings[j as int]));
        let ghost before = string_views(annotations@);
        annotations.push(cmd);
        assert(string_views(annotations@) =~= before.push(
            warning_annotation(report@.warnings[j as int]),
        ));
        assert(report@.warnings.take(j + 1).map_values(noted) =~= report@.warnings.take(
            j as int,
        ).map_values(noted).push(warning_annotation(report@.warnings[j as int])));
        j += 1;
    }
    assert(report@.warnings.take(j as int) == report@.warnings);
    annotations
}

fn summary_of(report: &ComplianceReport) -> (md: String)
    ensures
        md@ == summary_text(report@),
{
    let mut md = String::new();
    md.append("## \u{1f916} Rhodibot RSR Compliance Report\n\n");
    if report.bronze_compliance() && !report.has_critical_warnings() {
        md.append("\u{2705} **Bronze-level RSR compliance: ACHIEVED**\n\n");
    } else {
        md.append("\u{274c} **Bronze-level RSR compliance: NOT MET**\n\n");
    }
    md.append("**Score**: ");
    append_score(&mut md, report);
    md.append("\n\n");
    md.append("### Checks\n\n");
    md.append("| Category | Item | Status |\n");
    md.append("|----------|------|--------|\n");
    let ghost head = md@;
    let mut i: usize = 0;
    while i < report.checks.len()
        invariant
            i <= report.checks.len(),
            md@ == head + summary_rows(report@.checks.take(i as int)),
        decreases report.checks.len() - i,
    {
        assert(report@.checks.take(i + 1).drop_last() == report@.checks.take(i as int));
        assert(report@.checks.take(i + 1).last() == report.checks@[i as int]@);
        md.append("| ");
        md.append(report.checks[i].category.as_str());
        md.append(" | ");
        md.append(report.checks[i].item.as_str());
        md.append(" | ");
        if report.checks[i].passed {
            md.append("\u{2705}");
        } else {
            md.append("\u{274c}");
        }
        md.append(" |\n");
        i += 1;
    }
    assert(report@.checks.take(i as int) == report@.checks);
    let ghost table = md@;
    if report.warnings.len() > 0 {
        md.append("\n### Security Warnings\n\n");
        let ghost listed = md@;
        let mut j: usize = 0;
        while j < report.warnings.len()
            invariant
                j <= report.warnings.len(),
                md@ == listed + summary_warnings(report@.warnings.take(j as int)),
            decreases report.warnings.len() - j,
        {
            assert(report@.warnings.take(j + 1).drop_last() == report@.warnings.take(j as int));
            assert(report@.warnings.take(j + 1).last() == report.warnings@[j as int]@);
            md.append("- ");
            md.append(icon_of(report.warnings[j].level));
            md.append(" ");
            md.append(report.warnings[j].message.as_str());
            md.append("\n");
            j += 1;
        }
        assert(report@.warnings.take(j as int) == report@.warnings);
        assert(md@ == table + ("\n### Security Warnings\n\n"@ + summary_warnings(
            report@.warnings,
        )));
    }
    md
}

fn icon_of(level: WarningLevel) -> (icon: &'static str)
    ensures
        icon@ == level_icon(level),
{
    match level {
        WarningLevel::Info => "\u{2139}\u{fe0f}",
        WarningLevel::Warning => "\u{26a0}\u{fe0f}",
        WarningLevel::Critical => "\u{1f6a8}",
    }
}

/// Output report as GitHub Actions annotations and summary: the output
/// variables to set, the annotations to print and the summary to write.
pub fn output_report(report: &ComplianceReport) -> (output: ReportOutput)
    ensures
        variable_views(output.variables@) == report_variables(report@),
        string_views(output.annotations@) == report_annotations(report@),
        output.summary@ == summary_text(report@),
{
    ReportOutput {
        variables: variables_of(report),
        annotations: annotations_of(report),
        summary: summary_of(report),
    }
}

} // verus!
