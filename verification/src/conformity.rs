//! The badge and the conformity statement made from a report.

use vstd::prelude::*;
use vstd::string::StringExecFns;
use crate::level::ComplianceLevel;
use crate::path::file_name;
use crate::path::final_name;
use crate::report::CheckView;
use crate::report::ComplianceReport;
use crate::report::ReportView;
use crate::text::append_decimal;
use crate::text::before_first;
use crate::text::decimal;
use crate::text::prefix_before;
use crate::timestamp::format_timestamp;
use crate::timestamp::timestamp_text;

verus! {

/// The markdown of the badge for `level`.
pub open spec fn badge_text(level: ComplianceLevel) -> Seq<char> {
    "[![Rhodium Standard "@ + level.display_text() + "](https://img.shields.io/badge/RSR-"@
        + level.display_text() + "-"@ + level.badge_color_text()
        + ")](https://github.com/hyperpolymath/rhodium-standard-repositories)"@
}

/// Generate RSR badge markdown.
pub fn generate_badge(level: ComplianceLevel) -> (badge: String)
    ensures
        badge@ == badge_text(level),
{
    let mut badge = String::new();
    badge.append("[![Rhodium Standard ");
    badge.append(level.display_name());
    badge.append("](https://img.shields.io/badge/RSR-");
    badge.append(level.display_name());
    badge.append("-");
    badge.append(level.badge_color());
    badge.append(")](https://github.com/hyperpolymath/rhodium-standard-repositories)");
    badge
}

/// A percentage given in tenths, written with one decimal place.
pub open spec fn percentage_text(tenths: nat) -> Seq<char> {
    decimal(tenths / 10) + "."@ + decimal(tenths % 10)
}

/// Append a percentage given in tenths, with one decimal place.
pub fn append_percentage(out: &mut String, tenths: u64)
    ensures
        final(out)@ == old(out)@ + percentage_text(tenths as nat),
{
    append_decimal(out, tenths / 10);
    out.append(".");
    append_decimal(out, tenths % 10);
    assert(out@ == old(out)@ + (decimal((tenths / 10) as nat) + "."@ + decimal(
        (tenths % 10) as nat,
    )));
}

/// The score line of a report: how many checks passed, of how many, and
/// the percentage.
pub open spec fn score_text(report: ReportView) -> Seq<char> {
    decimal(report.passed_count()) + "/"@ + decimal(report.total_count()) + " checks passed ("@
        + percentage_text(report.percentage_tenths()) + "%)"@
}

/// Append the score line of `report`.
pub fn append_score(out: &mut String, report: &ComplianceReport)
    ensures
        final(out)@ == old(out)@ + score_text(report@),
{
    append_decimal(out, report.passed_count() as u64);
    out.append("/");
    append_decimal(out, report.total_count() as u64);
    out.append(" checks passed (");
    append_percentage(out, report.percentage_tenths());
    out.append("%)");
    assert(out@ == old(out)@ + score_text(report@));
}

/// The table row of one requirement.
pub open spec fn requirement_row(check: CheckView) -> Seq<char> {
    "| "@ + check.item + " | "@ + (if check.passed {
        "Yes"@
    } else {
        "No"@
    }) + " |\n"@
}

/// The table rows of the checks that `level` requires, in order.
pub open spec fn requirement_rows(checks: Seq<CheckView>, level: ComplianceLevel) -> Seq<char>
    decreases checks.len(),
{
    if checks.len() == 0 {
        Seq::empty()
    } else if checks.last().required_for == level {
        requirement_rows(checks.drop_last(), level) + requirement_row(checks.last())
    } else {
        requirement_rows(checks.drop_last(), level)
    }
}

/// The name of the project: the final name of the repository's path, or
/// `Unknown` where it has none.
pub open spec fn project_name(repository_path: Seq<char>) -> Seq<char> {
    match final_name(repository_path) {
        Some(name) => name,
        None => "Unknown"@,
    }
}

/// The section of the statement that lists the requirements of the tier
/// reached, each with whether it is met; nothing where no tier was
/// reached. For the report of a run that is the base tier with its
/// sixteen requirements.
pub open spec fn requirements_section(report: ReportView) -> Seq<char> {
    match report.highest_level() {
        Some(level) => "## "@ + level.display_text() + " Requirements Met\n\n"@
            + "| Requirement | Status |\n"@ + "|-------------|--------|\n"@ + requirement_rows(
            report.checks,
            level,
        ),
        None => Seq::empty(),
    }
}

/// The conformity statement of `report`.
pub open spec fn conformity_text(report: ReportView) -> Seq<char> {
    "# RSR Conformity Statement\n\n"@ + "**Project**: "@ + project_name(report.repository_path)
        + "\n"@ + "**RSR Level**: "@ + (match report.highest_level() {
        Some(level) => level.display_text(),
        None => "Not Met"@,
    }) + "\n"@
        + "**Standard**: [Rhodium Standard Repository](https://github.com/hyperpolymath/rhodium-standard-repositories)\n"@
        + "**Last Verified**: "@ + before_first(timestamp_text(report.verified_at), 'T') + "\n\n"@
        + requirements_section(report) + "\n## Verification\n\n"@ + "Run self-verification:\n"@
        + "```bash\n"@ + "rhodibot check .\n"@ + "```\n\n"@ + "Expected output: `"@ + score_text(
        report,
    ) + "`\n"@
}

/// Append the table rows of the checks of `report` that `level` requires.
fn append_requirement_rows(doc: &mut String, report: &ComplianceReport, level: ComplianceLevel)
    ensures
        final(doc)@ == old(doc)@ + requirement_rows(report@.checks, level),
{
    let mut i: usize = 0;
    while i < report.checks.len()
        invariant
            i <= report.checks.len(),
            doc@ == old(doc)@ + requirement_rows(report@.checks.take(i as int), level),
        decreases report.checks.len() - i,
    {
        assert(report@.checks.take(i + 1).drop_last() == report@.checks.take(i as int));
        assert(report@.checks.take(i + 1).last() == report.checks@[i as int]@);
        let ghost before = doc@;
        if report.checks[i].required_for == level {
            doc.append("| ");
            doc.append(report.checks[i].item.as_str());
            doc.append(" | ");
            if report.checks[i].passed {
                doc.append("Yes");
            } else {
                doc.append("No");
            }
            doc.append(" |\n");
            assert(doc@ == before + requirement_row(report.checks@[i as int]@));
        }
        i += 1;
    }
    assert(report@.checks.take(i as int) == report@.checks);
}

/// Generate RSR conformity document.
pub fn generate_conformity_doc(report: &ComplianceReport) -> (doc: String)
    ensures
        doc@ == conformity_text(report@),
{
    let level = report.highest_level();
    let timestamp = format_timestamp(report.verified_at);
    let date = prefix_before(timestamp.as_str(), 'T');

    let mut doc = String::new();
    doc.append("# RSR Conformity Statement\n\n");
    doc.append("**Project**: ");
    match file_name(report.repository_path.as_str()) {
        Some(name) => {
            doc.append(name.as_str());
        },
        None => {
            doc.append("Unknown");
        },
    }
    doc.append("\n");
    doc.append("**RSR Level**: ");
    match level {
        Some(l) => {
            doc.append(l.display_name());
        },
        None => {
            doc.append("Not Met");
        },
    }
    doc.append("\n");
    doc.append(
        "**Standard**: [Rhodium Standard Repository](https://github.com/hyperpolymath/rhodium-standard-repositories)\n",
    );
    doc.append("**Last Verified**: ");
    doc.append(date.as_str());
    doc.append("\n\n");
    let ghost head = doc@;

    if let Some(l) = level {
        doc.append("## ");
        doc.append(l.display_name());
        doc.append(" Requirements Met\n\n");
        doc.append("| Requirement | Status |\n");
        doc.append("|-------------|--------|\n");
        append_requirement_rows(&mut doc, report, l);
    }
    assert(doc@ == head + requirements_section(report@));

    doc.append("\n## Verification\n\n");
    doc.append("Run self-verification:\n");
    doc.append("```bash\n");
    doc.append("rhodibot check .\n");
    doc.append("```\n\n");
    doc.append("Expected output: `");
    append_score(&mut doc, report);
    doc.append("`\n");
    doc
}

} // verus!
