//! What holds of every run of the checks, proved from their definitions.

use vstd::prelude::*;
use crate::checks::Probe;
use crate::checks::alternative_path;
use crate::checks::bronze_check;
use crate::checks::build_files;
use crate::checks::build_system_checked;
use crate::checks::candidates;
use crate::checks::documentation_checked;
use crate::checks::file_probes;
use crate::checks::files_checked;
use crate::checks::files_failed;
use crate::checks::other_documents;
use crate::checks::primary_path;
use crate::checks::probe_passes;
use crate::checks::probe_warnings;
use crate::checks::probed;
use crate::checks::probes_made;
use crate::checks::required_kind;
use crate::checks::requirement_item;
use crate::checks::requirement_met;
use crate::checks::requirement_result;
use crate::checks::source_structure_checked;
use crate::checks::verified;
use crate::checks::warnings_of;
use crate::checks::well_known_checked;
use crate::checks::well_known_files;
use crate::inspect::FactsView;
use crate::inspect::LinkStatus;
use crate::inspect::TargetKind;
use crate::inspect::compared_root;
use crate::inspect::compared_target;
use crate::level::ComplianceLevel;
use crate::level::WarningLevel;
use crate::path::joined;
use crate::path::lies_under;
use crate::report::CheckView;
use crate::report::ReportView;
use crate::report::WarningView;
use crate::report::law_base_tier_without_silver_checks;
use crate::snapshot::facts_at;

verus! {

/// Checking files adds one result for each name, in order, and leaves the
/// rest of the report but its warnings as it was.
proof fn lemma_files_checked(
    report: ReportView,
    files: Map<Seq<char>, FactsView>,
    base: Seq<char>,
    category: Seq<char>,
    names: Seq<Seq<char>>,
)
    ensures
        files_checked(report, files, base, category, names).repository_path
            == report.repository_path,
        files_checked(report, files, base, category, names).verified_at == report.verified_at,
        files_checked(report, files, base, category, names).checks == report.checks + Seq::new(
            names.len(),
            |i: int|
                bronze_check(
                    category,
                    names[i],
                    probe_passes(
                        files,
                        report.repository_path,
                        joined(base, names[i]),
                        TargetKind::File,
                    ),
                ),
        ),
    decreases names.len(),
{
    if names.len() > 0 {
        lemma_files_checked(report, files, base, category, names.drop_last());
    }
}

/// Entering files as failed adds one failed result for each name, in
/// order, and nothing else.
proof fn lemma_files_failed(report: ReportView, category: Seq<char>, names: Seq<Seq<char>>)
    ensures
        files_failed(report, category, names).repository_path == report.repository_path,
        files_failed(report, category, names).verified_at == report.verified_at,
        files_failed(report, category, names).warnings == report.warnings,
        files_failed(report, category, names).checks == report.checks + Seq::new(
            names.len(),
            |i: int| bronze_check(category, names[i], false),
        ),
    decreases names.len(),
{
    if names.len() > 0 {
        lemma_files_failed(report, category, names.drop_last());
    }
}

/// The results that a run reports for `count` requirements from `from`
/// on.
pub open spec fn results_from(
    files: Map<Seq<char>, FactsView>,
    repo: Seq<char>,
    from: int,
    count: nat,
) -> Seq<CheckView> {
    Seq::new(count, |i: int| requirement_result(files, repo, from + i))
}

proof fn lemma_documentation_results(
    report: ReportView,
    files: Map<Seq<char>, FactsView>,
    repo: Seq<char>,
)
    requires
        report.repository_path == repo,
    ensures
        documentation_checked(report, files, repo).repository_path == repo,
        documentation_checked(report, files, repo).verified_at == report.verified_at,
        documentation_checked(report, files, repo).checks == report.checks + results_from(
            files,
            repo,
            0,
            7,
        ),
{
    reveal(documentation_checked);
    let readme = probed(report, files, repo, "README.md"@, TargetKind::File);
    let readme_done = if probe_passes(files, repo, joined(repo, "README.md"@), TargetKind::File) {
        readme
    } else {
        probed(readme, files, repo, "README.adoc"@, TargetKind::File)
    }.with_check(requirement_result(files, repo, 0));
    lemma_files_checked(readme_done, files, repo, "Documentation"@, other_documents());
    assert(documentation_checked(report, files, repo).checks =~= report.checks + results_from(
        files,
        repo,
        0,
        7,
    ));
}

proof fn lemma_well_known_results(
    report: ReportView,
    files: Map<Seq<char>, FactsView>,
    repo: Seq<char>,
)
    requires
        report.repository_path == repo,
    ensures
        well_known_checked(report, files, repo).repository_path == repo,
        well_known_checked(report, files, repo).verified_at == report.verified_at,
        well_known_checked(report, files, repo).checks == report.checks + results_from(
            files,
            repo,
            7,
            4,
        ),
{
    reveal(well_known_checked);
    let dir = joined(repo, ".well-known"@);
    let after_dir = probed(report, files, repo, ".well-known"@, TargetKind::Directory).with_check(
        requirement_result(files, repo, 7),
    );
    lemma_files_checked(after_dir, files, dir, "Well-Known"@, well_known_files());
    lemma_files_failed(after_dir, "Well-Known"@, well_known_files());
    assert(well_known_checked(report, files, repo).checks =~= report.checks + results_from(
        files,
        repo,
        7,
        4,
    ));
}

proof fn lemma_build_system_results(
    report: ReportView,
    files: Map<Seq<char>, FactsView>,
    repo: Seq<char>,
)
    requires
        report.repository_path == repo,
    ensures
        build_system_checked(report, files, repo).repository_path == repo,
        build_system_checked(report, files, repo).verified_at == report.verified_at,
        build_system_checked(report, files, repo).checks == report.checks + results_from(
            files,
            repo,
            11,
            3,
        ),
{
    reveal(build_system_checked);
    lemma_files_checked(report, files, repo, "Build System"@, build_files());
    assert(build_system_checked(report, files, repo).checks =~= report.checks + results_from(
        files,
        repo,
        11,
        3,
    ));
}

proof fn lemma_source_structure_results(
    report: ReportView,
    files: Map<Seq<char>, FactsView>,
    repo: Seq<char>,
)
    requires
        report.repository_path == repo,
    ensures
        source_structure_checked(report, files, repo).repository_path == repo,
        source_structure_checked(report, files, repo).verified_at == report.verified_at,
        source_structure_checked(report, files, repo).checks == report.checks + results_from(
            files,
            repo,
            14,
            2,
        ),
{
    reveal(source_structure_checked);
    assert(source_structure_checked(report, files, repo).checks =~= report.checks + results_from(
        files,
        repo,
        14,
        2,
    ));
}

/// A run reports exactly the sixteen requirements, each once and in their
/// fixed order, each for the base tier, and each as passed exactly where
/// the repository meets it.
pub proof fn law_sixteen_results(
    files: Map<Seq<char>, FactsView>,
    repo: Seq<char>,
    verified_at: Option<u64>,
)
    ensures
        verified(files, repo, verified_at).checks == Seq::new(
            16,
            |i: int| requirement_result(files, repo, i),
        ),
        verified(files, repo, verified_at).repository_path == repo,
        verified(files, repo, verified_at).verified_at == verified_at,
{
    let start = ReportView::empty(repo, verified_at);
    let documents = documentation_checked(start, files, repo);
    let well_known = well_known_checked(documents, files, repo);
    let build = build_system_checked(well_known, files, repo);
    let done = source_structure_checked(build, files, repo);
    lemma_documentation_results(start, files, repo);
    lemma_well_known_results(documents, files, repo);
    lemma_build_system_results(well_known, files, repo);
    lemma_source_structure_results(build, files, repo);
    assert(done.checks =~= Seq::new(16, |i: int| requirement_result(files, repo, i)));
}

/// The total number of checks of a run is sixteen, whatever the
/// repository holds.
pub proof fn law_total_is_sixteen(
    files: Map<Seq<char>, FactsView>,
    repo: Seq<char>,
    verified_at: Option<u64>,
)
    ensures
        verified(files, repo, verified_at).total_count() == 16,
{
    law_sixteen_results(files, repo, verified_at);
}

/// Where every check has passed, the passed ones are all of them.
proof fn lemma_all_passed(checks: Seq<CheckView>)
    requires
        forall|i: int| 0 <= i < checks.len() ==> checks[i].passed,
    ensures
        checks.filter(|c: CheckView| c.passed) == checks,
    decreases checks.len(),
{
    reveal(Seq::filter);
    if checks.len() > 0 {
        lemma_all_passed(checks.drop_last());
        assert(checks.drop_last().push(checks.last()) == checks);
    }
}

/// Where no check has passed, none is among the passed ones.
proof fn lemma_none_passed(checks: Seq<CheckView>)
    requires
        forall|i: int| 0 <= i < checks.len() ==> !checks[i].passed,
    ensures
        checks.filter(|c: CheckView| c.passed).len() == 0,
    decreases checks.len(),
{
    reveal(Seq::filter);
    if checks.len() > 0 {
        lemma_none_passed(checks.drop_last());
    }
}

/// Where a check has failed, the passed ones are fewer than all.
proof fn lemma_one_failed(checks: Seq<CheckView>, failed: int)
    requires
        0 <= failed < checks.len(),
        !checks[failed].passed,
    ensures
        checks.filter(|c: CheckView| c.passed).len() < checks.len(),
    decreases checks.len(),
{
    reveal(Seq::filter);
    let passed = |c: CheckView| c.passed;
    if failed == checks.len() - 1 {
        checks.drop_last().lemma_filter_len(passed);
    } else {
        lemma_one_failed(checks.drop_last(), failed);
    }
}

/// The base tier is met exactly where the repository meets all sixteen
/// requirements, and then, and only then, all sixteen checks have passed.
pub proof fn law_compliance_is_all_met(
    files: Map<Seq<char>, FactsView>,
    repo: Seq<char>,
    verified_at: Option<u64>,
)
    ensures
        verified(files, repo, verified_at).bronze_compliance() <==> (forall|i: int|
            0 <= i < 16 ==> requirement_met(files, repo, i)),
        verified(files, repo, verified_at).bronze_compliance() <==> verified(
            files,
            repo,
            verified_at,
        ).passed_count() == 16,
{
    law_sixteen_results(files, repo, verified_at);
    let report = verified(files, repo, verified_at);
    let passed = |c: CheckView| c.passed;
    if forall|i: int| 0 <= i < 16 ==> requirement_met(files, repo, i) {
        lemma_all_passed(report.checks);
    } else {
        let missing = choose|i: int| 0 <= i < 16 && !requirement_met(files, repo, i);
        assert(!report.checks[missing].passed);
        lemma_one_failed(report.checks, missing);
    }
}

/// The tier that a run reaches is the base tier, where the repository
/// meets all sixteen requirements and no warning is critical, and none
/// otherwise: a run holds no checks of any higher tier.
pub proof fn law_run_reaches_the_base_tier(
    files: Map<Seq<char>, FactsView>,
    repo: Seq<char>,
    verified_at: Option<u64>,
)
    ensures
        !verified(files, repo, verified_at).has_checks_for(ComplianceLevel::Silver),
        !verified(files, repo, verified_at).silver_compliance(),
        verified(files, repo, verified_at).highest_level() == if (forall|i: int|
            0 <= i < 16 ==> requirement_met(files, repo, i)) && !verified(
            files,
            repo,
            verified_at,
        ).has_critical_warnings() {
            Some(ComplianceLevel::Bronze)
        } else {
            None
        },
{
    law_sixteen_results(files, repo, verified_at);
    law_compliance_is_all_met(files, repo, verified_at);
    let report = verified(files, repo, verified_at);
    assert forall|i: int| 0 <= i < report.checks.len() implies (
    #[trigger] report.checks[i]).required_for != ComplianceLevel::Silver by {
        assert(report.checks[i] == requirement_result(files, repo, i));
    }
    law_base_tier_without_silver_checks(report);
}

/// A repository that does not meet one of the requirements does not meet
/// the base tier.
pub proof fn law_missing_entry_fails(
    files: Map<Seq<char>, FactsView>,
    repo: Seq<char>,
    verified_at: Option<u64>,
    index: int,
)
    requires
        0 <= index < 16,
        !requirement_met(files, repo, index),
    ensures
        !verified(files, repo, verified_at).bronze_compliance(),
{
    law_compliance_is_all_met(files, repo, verified_at);
}

/// A repository in which nothing is found where a requirement's entry
/// should be, under either of its names where it has two, does not meet
/// that requirement, and so does not meet the base tier.
pub proof fn law_absent_entry_fails(
    files: Map<Seq<char>, FactsView>,
    repo: Seq<char>,
    verified_at: Option<u64>,
    index: int,
)
    requires
        0 <= index < 16,
        facts_at(files, primary_path(repo, index)).status == LinkStatus::Missing,
        alternative_path(repo, index) matches Some(path) ==> facts_at(files, path).status
            == LinkStatus::Missing,
    ensures
        !requirement_met(files, repo, index),
        !verified(files, repo, verified_at).bronze_compliance(),
{
    law_missing_entry_fails(files, repo, verified_at, index);
}

/// Whether `path` holds an entry of `kind` that is no link.
pub open spec fn plainly_present(
    files: Map<Seq<char>, FactsView>,
    path: Seq<char>,
    kind: TargetKind,
) -> bool {
    facts_at(files, path).status == LinkStatus::Entry && facts_at(files, path).leads_to == kind
}

/// Whether `path` holds a symbolic link.
pub open spec fn is_link(files: Map<Seq<char>, FactsView>, path: Seq<char>) -> bool {
    facts_at(files, path).status == LinkStatus::Symlink
}

/// Checking files of which none is a link adds no warning.
proof fn lemma_files_checked_quietly(
    report: ReportView,
    files: Map<Seq<char>, FactsView>,
    base: Seq<char>,
    category: Seq<char>,
    names: Seq<Seq<char>>,
)
    requires
        forall|i: int| 0 <= i < names.len() ==> !is_link(files, joined(base, #[trigger] names[i])),
    ensures
        files_checked(report, files, base, category, names).warnings == report.warnings,
    decreases names.len(),
{
    if names.len() > 0 {
        lemma_files_checked_quietly(report, files, base, category, names.drop_last());
        lemma_files_checked(report, files, base, category, names.drop_last());
        assert(names.drop_last().len() == names.len() - 1);
        assert(!is_link(files, joined(base, names[names.len() - 1])));
    }
}

proof fn lemma_documentation_quiet(
    report: ReportView,
    files: Map<Seq<char>, FactsView>,
    repo: Seq<char>,
)
    requires
        !is_link(files, joined(repo, "README.md"@)),
        probe_passes(files, report.repository_path, joined(repo, "README.md"@), TargetKind::File)
            || !is_link(files, joined(repo, "README.adoc"@)),
        !is_link(files, joined(repo, "LICENSE.txt"@)),
        !is_link(files, joined(repo, "SECURITY.md"@)),
        !is_link(files, joined(repo, "CONTRIBUTING.md"@)),
        !is_link(files, joined(repo, "CODE_OF_CONDUCT.md"@)),
        !is_link(files, joined(repo, "MAINTAINERS.md"@)),
        !is_link(files, joined(repo, "CHANGELOG.md"@)),
    ensures
        documentation_checked(report, files, repo).warnings == report.warnings,
{
    reveal(documentation_checked);
    let root = report.repository_path;
    let markdown = probe_passes(files, root, joined(repo, "README.md"@), TargetKind::File);
    let asciidoc = probe_passes(files, root, joined(repo, "README.adoc"@), TargetKind::File);
    let first = probed(report, files, repo, "README.md"@, TargetKind::File);
    let second = if markdown {
        first
    } else {
        probed(first, files, repo, "README.adoc"@, TargetKind::File)
    };
    let readme_done = second.with_check(
        bronze_check("Documentation"@, "README.md"@, markdown || asciidoc),
    );
    assert(readme_done.warnings =~= report.warnings);
    lemma_files_checked_quietly(readme_done, files, repo, "Documentation"@, other_documents());
}

proof fn lemma_well_known_quiet(
    report: ReportView,
    files: Map<Seq<char>, FactsView>,
    repo: Seq<char>,
)
    requires
        !is_link(files, joined(repo, ".well-known"@)),
        !probe_passes(
            files,
            report.repository_path,
            joined(repo, ".well-known"@),
            TargetKind::Directory,
        ) || (!is_link(files, joined(joined(repo, ".well-known"@), "security.txt"@)) && !is_link(
            files,
            joined(joined(repo, ".well-known"@), "ai.txt"@),
        ) && !is_link(files, joined(joined(repo, ".well-known"@), "humans.txt"@))),
    ensures
        well_known_checked(report, files, repo).warnings == report.warnings,
{
    reveal(well_known_checked);
    let dir = joined(repo, ".well-known"@);
    let has_dir = probe_passes(files, report.repository_path, dir, TargetKind::Directory);
    let after_dir = probed(report, files, repo, ".well-known"@, TargetKind::Directory).with_check(
        bronze_check("Well-Known"@, ".well-known/ directory"@, has_dir),
    );
    assert(after_dir.warnings =~= report.warnings);
    if has_dir {
        lemma_files_checked_quietly(after_dir, files, dir, "Well-Known"@, well_known_files());
    } else {
        lemma_files_failed(after_dir, "Well-Known"@, well_known_files());
    }
}

proof fn lemma_build_system_quiet(
    report: ReportView,
    files: Map<Seq<char>, FactsView>,
    repo: Seq<char>,
)
    requires
        !is_link(files, joined(repo, "justfile"@)),
        !is_link(files, joined(repo, "flake.nix"@)),
        !is_link(files, joined(repo, ".gitlab-ci.yml"@)),
    ensures
        build_system_checked(report, files, repo).warnings == report.warnings,
{
    reveal(build_system_checked);
    lemma_files_checked_quietly(report, files, repo, "Build System"@, build_files());
}

proof fn lemma_source_structure_quiet(
    report: ReportView,
    files: Map<Seq<char>, FactsView>,
    repo: Seq<char>,
)
    requires
        !is_link(files, joined(repo, "src"@)),
        !is_link(files, joined(repo, "tests"@)),
        probe_passes(files, report.repository_path, joined(repo, "tests"@), TargetKind::Directory)
            || !is_link(files, joined(repo, "test"@)),
    ensures
        source_structure_checked(report, files, repo).warnings == report.warnings,
{
    reveal(source_structure_checked);
    assert(source_structure_checked(report, files, repo).warnings =~= report.warnings);
}

/// A repository that holds the first-choice entry of a requirement as a
/// plain file or directory meets that requirement.
proof fn lemma_plain_entry_meets(files: Map<Seq<char>, FactsView>, repo: Seq<char>, index: int)
    requires
        0 <= index < 16,
        plainly_present(files, primary_path(repo, index), required_kind(index)),
        plainly_present(files, primary_path(repo, 7), required_kind(7)),
    ensures
        requirement_met(files, repo, index),
{
}

/// A repository that holds the first-choice entry of every requirement as
/// a plain file or directory passes all sixteen checks, meets the base
/// tier, and draws no warning.
pub proof fn law_fully_present(
    files: Map<Seq<char>, FactsView>,
    repo: Seq<char>,
    verified_at: Option<u64>,
)
    requires
        forall|i: int|
            0 <= i < 16 ==> plainly_present(
                files,
                #[trigger] primary_path(repo, i),
                required_kind(i),
            ),
    ensures
        verified(files, repo, verified_at).passed_count() == 16,
        verified(files, repo, verified_at).total_count() == 16,
        verified(files, repo, verified_at).bronze_compliance(),
        verified(files, repo, verified_at).warnings.len() == 0,
{
    assert forall|i: int| 0 <= i < 16 implies requirement_met(files, repo, i) by {
        assert(plainly_present(files, primary_path(repo, i), required_kind(i)));
        assert(plainly_present(files, primary_path(repo, 7), required_kind(7)));
        lemma_plain_entry_meets(files, repo, i);
    }
    law_compliance_is_all_met(files, repo, verified_at);
    law_sixteen_results(files, repo, verified_at);

    assert(plainly_present(files, primary_path(repo, 0), required_kind(0)));
    assert(plainly_present(files, primary_path(repo, 1), required_kind(1)));
    assert(plainly_present(files, primary_path(repo, 2), required_kind(2)));
    assert(plainly_present(files, primary_path(repo, 3), required_kind(3)));
    assert(plainly_present(files, primary_path(repo, 4), required_kind(4)));
    assert(plainly_present(files, primary_path(repo, 5), required_kind(5)));
    assert(plainly_present(files, primary_path(repo, 6), required_kind(6)));
    assert(plainly_present(files, primary_path(repo, 7), required_kind(7)));
    assert(plainly_present(files, primary_path(repo, 8), required_kind(8)));
    assert(plainly_present(files, primary_path(repo, 9), required_kind(9)));
    assert(plainly_present(files, primary_path(repo, 10), required_kind(10)));
    assert(plainly_present(files, primary_path(repo, 11), required_kind(11)));
    assert(plainly_present(files, primary_path(repo, 12), required_kind(12)));
    assert(plainly_present(files, primary_path(repo, 13), required_kind(13)));
    assert(plainly_present(files, primary_path(repo, 14), required_kind(14)));
    assert(plainly_present(files, primary_path(repo, 15), required_kind(15)));
    let start = ReportView::empty(repo, verified_at);
    let documents = documentation_checked(start, files, repo);
    let well_known = well_known_checked(documents, files, repo);
    let build = build_system_checked(well_known, files, repo);
    lemma_documentation_results(start, files, repo);
    lemma_well_known_results(documents, files, repo);
    lemma_build_system_results(well_known, files, repo);
    lemma_documentation_quiet(start, files, repo);
    lemma_well_known_quiet(documents, files, repo);
    lemma_build_system_quiet(well_known, files, repo);
    lemma_source_structure_quiet(build, files, repo);
}

/// A run over a repository that holds no link among the candidate paths
/// draws no warning.
pub proof fn law_no_links_no_warnings(
    files: Map<Seq<char>, FactsView>,
    repo: Seq<char>,
    verified_at: Option<u64>,
)
    requires
        forall|i: int|
            0 <= i < candidates(repo).len() ==> !is_link(files, #[trigger] candidates(repo)[i]),
    ensures
        verified(files, repo, verified_at).warnings.len() == 0,
{
    lemma_candidates(repo);
    let paths = candidates(repo);
    assert(!is_link(files, paths[0]));
    assert(!is_link(files, paths[1]));
    assert(!is_link(files, paths[2]));
    assert(!is_link(files, paths[3]));
    assert(!is_link(files, paths[4]));
    assert(!is_link(files, paths[5]));
    assert(!is_link(files, paths[6]));
    assert(!is_link(files, paths[7]));
    assert(!is_link(files, paths[8]));
    assert(!is_link(files, paths[9]));
    assert(!is_link(files, paths[10]));
    assert(!is_link(files, paths[11]));
    assert(!is_link(files, paths[12]));
    assert(!is_link(files, paths[13]));
    assert(!is_link(files, paths[14]));
    assert(!is_link(files, paths[15]));
    assert(!is_link(files, paths[16]));
    assert(!is_link(files, paths[17]));
    let start = ReportView::empty(repo, verified_at);
    let documents = documentation_checked(start, files, repo);
    let well_known = well_known_checked(documents, files, repo);
    let build = build_system_checked(well_known, files, repo);
    lemma_documentation_results(start, files, repo);
    lemma_well_known_results(documents, files, repo);
    lemma_build_system_results(well_known, files, repo);
    lemma_documentation_quiet(start, files, repo);
    lemma_well_known_quiet(documents, files, repo);
    lemma_build_system_quiet(well_known, files, repo);
    lemma_source_structure_quiet(build, files, repo);
}

/// The first-choice entry of every requirement is a candidate path, and so
/// is the second-choice entry of the two requirements that have one.
proof fn lemma_entries_are_candidates(repo: Seq<char>, index: int)
    requires
        0 <= index < 16,
    ensures
        candidates(repo).len() == 18,
        primary_path(repo, index) == candidates(repo)[if index == 0 {
            0
        } else {
            index + 1
        }],
        alternative_path(repo, 0) == Some(candidates(repo)[1]),
        alternative_path(repo, 15) == Some(candidates(repo)[17]),
{
    lemma_candidates(repo);
    if index == 0 {
    } else if index == 1 {
    } else if index == 2 {
    } else if index == 3 {
    } else if index == 4 {
    } else if index == 5 {
    } else if index == 6 {
    } else if index == 7 {
    } else if index == 8 {
    } else if index == 9 {
    } else if index == 10 {
    } else if index == 11 {
    } else if index == 12 {
    } else if index == 13 {
    } else if index == 14 {
    } else {
    }
}

/// A run over a repository in which nothing is found at any candidate path
/// passes no check, does not meet the base tier, and draws no warning.
pub proof fn law_nothing_found(
    files: Map<Seq<char>, FactsView>,
    repo: Seq<char>,
    verified_at: Option<u64>,
)
    requires
        forall|i: int|
            0 <= i < candidates(repo).len() ==> facts_at(files, #[trigger] candidates(repo)[i])
                == FactsView::missing(),
    ensures
        verified(files, repo, verified_at).passed_count() == 0,
        verified(files, repo, verified_at).total_count() == 16,
        !verified(files, repo, verified_at).bronze_compliance(),
        verified(files, repo, verified_at).warnings.len() == 0,
{
    assert forall|i: int| 0 <= i < candidates(repo).len() implies !is_link(
        files,
        #[trigger] candidates(repo)[i],
    ) by {
        assert(facts_at(files, candidates(repo)[i]) == FactsView::missing());
    }
    law_no_links_no_warnings(files, repo, verified_at);
    law_sixteen_results(files, repo, verified_at);
    let report = verified(files, repo, verified_at);
    assert forall|i: int| 0 <= i < report.checks.len() implies !report.checks[i].passed by {
        lemma_entries_are_candidates(repo, i);
        assert(facts_at(files, candidates(repo)[1]) == FactsView::missing());
        assert(facts_at(files, candidates(repo)[17]) == FactsView::missing());
        assert(facts_at(files, candidates(repo)[if i == 0 {
            0
        } else {
            i + 1
        }]) == FactsView::missing());
        law_absent_entry_fails(files, repo, verified_at, i);
        assert(report.checks[i] == requirement_result(files, repo, i));
    }
    lemma_none_passed(report.checks);
    law_compliance_is_all_met(files, repo, verified_at);
}

/// The warnings of probes made one after the other are those of the
/// first ones, then those of the rest.
proof fn lemma_warnings_of_both(
    files: Map<Seq<char>, FactsView>,
    repo_root: Seq<char>,
    first: Seq<Probe>,
    rest: Seq<Probe>,
)
    ensures
        warnings_of(files, repo_root, first + rest) == warnings_of(files, repo_root, first)
            + warnings_of(files, repo_root, rest),
    decreases rest.len(),
{
    if rest.len() == 0 {
        assert(first + rest == first);
    } else {
        lemma_warnings_of_both(files, repo_root, first, rest.drop_last());
        assert((first + rest).drop_last() == first + rest.drop_last());
    }
}

/// The warnings of one probe.
proof fn lemma_warnings_of_one(
    files: Map<Seq<char>, FactsView>,
    repo_root: Seq<char>,
    probe: Probe,
)
    ensures
        warnings_of(files, repo_root, seq![probe]) == probe_warnings(
            files,
            repo_root,
            probe.base,
            probe.name,
            probe.kind,
        ),
{
    assert(seq![probe].drop_last() == Seq::<Probe>::empty());
    assert(warnings_of(files, repo_root, seq![probe].drop_last()) == Seq::<WarningView>::empty());
}

/// Checking files adds the warnings of their probes.
proof fn lemma_files_checked_warnings(
    report: ReportView,
    files: Map<Seq<char>, FactsView>,
    base: Seq<char>,
    category: Seq<char>,
    names: Seq<Seq<char>>,
)
    ensures
        files_checked(report, files, base, category, names).warnings == report.warnings
            + warnings_of(files, report.repository_path, file_probes(base, names)),
    decreases names.len(),
{
    if names.len() > 0 {
        lemma_files_checked_warnings(report, files, base, category, names.drop_last());
        lemma_files_checked(report, files, base, category, names.drop_last());
        assert(file_probes(base, names).drop_last() == file_probes(base, names.drop_last()));
    }
}

proof fn lemma_documentation_warnings(
    report: ReportView,
    files: Map<Seq<char>, FactsView>,
    repo: Seq<char>,
)
    requires
        report.repository_path == repo,
    ensures
        documentation_checked(report, files, repo).warnings == report.warnings + warnings_of(
            files,
            repo,
            seq![Probe { base: repo, name: "README.md"@, kind: TargetKind::File }] + (
            if probe_passes(files, repo, joined(repo, "README.md"@), TargetKind::File) {
                Seq::empty()
            } else {
                seq![Probe { base: repo, name: "README.adoc"@, kind: TargetKind::File }]
            }) + file_probes(repo, other_documents()),
        ),
{
    reveal(documentation_checked);
    let markdown = probe_passes(files, repo, joined(repo, "README.md"@), TargetKind::File);
    let asciidoc = probe_passes(files, repo, joined(repo, "README.adoc"@), TargetKind::File);
    let one = Probe { base: repo, name: "README.md"@, kind: TargetKind::File };
    let other = Probe { base: repo, name: "README.adoc"@, kind: TargetKind::File };
    let first = probed(report, files, repo, "README.md"@, TargetKind::File);
    let second = if markdown {
        first
    } else {
        probed(first, files, repo, "README.adoc"@, TargetKind::File)
    };
    let readme_done = second.with_check(
        bronze_check("Documentation"@, "README.md"@, markdown || asciidoc),
    );
    let readme_probes = seq![one] + (if markdown {
        Seq::empty()
    } else {
        seq![other]
    });
    lemma_warnings_of_one(files, repo, one);
    lemma_warnings_of_one(files, repo, other);
    lemma_warnings_of_both(files, repo, seq![one], seq![other]);
    assert(seq![one] + Seq::<Probe>::empty() == seq![one]);
    assert(readme_done.warnings =~= report.warnings + warnings_of(files, repo, readme_probes));
    lemma_files_checked_warnings(readme_done, files, repo, "Documentation"@, other_documents());
    lemma_warnings_of_both(files, repo, readme_probes, file_probes(repo, other_documents()));
}

proof fn lemma_well_known_warnings(
    report: ReportView,
    files: Map<Seq<char>, FactsView>,
    repo: Seq<char>,
)
    requires
        report.repository_path == repo,
    ensures
        well_known_checked(report, files, repo).warnings == report.warnings + warnings_of(
            files,
            repo,
            seq![Probe { base: repo, name: ".well-known"@, kind: TargetKind::Directory }] + (
            if probe_passes(files, repo, joined(repo, ".well-known"@), TargetKind::Directory) {
                file_probes(joined(repo, ".well-known"@), well_known_files())
            } else {
                Seq::empty()
            }),
        ),
{
    reveal(well_known_checked);
    let dir = joined(repo, ".well-known"@);
    let has_dir = probe_passes(files, repo, dir, TargetKind::Directory);
    let one = Probe { base: repo, name: ".well-known"@, kind: TargetKind::Directory };
    let after_dir = probed(report, files, repo, ".well-known"@, TargetKind::Directory).with_check(
        bronze_check("Well-Known"@, ".well-known/ directory"@, has_dir),
    );
    lemma_warnings_of_one(files, repo, one);
    if has_dir {
        lemma_files_checked_warnings(after_dir, files, dir, "Well-Known"@, well_known_files());
        lemma_warnings_of_both(files, repo, seq![one], file_probes(dir, well_known_files()));
    } else {
        lemma_files_failed(after_dir, "Well-Known"@, well_known_files());
        assert(seq![one] + Seq::<Probe>::empty() == seq![one]);
    }
}

proof fn lemma_build_system_warnings(
    report: ReportView,
    files: Map<Seq<char>, FactsView>,
    repo: Seq<char>,
)
    requires
        report.repository_path == repo,
    ensures
        build_system_checked(report, files, repo).warnings == report.warnings + warnings_of(
            files,
            repo,
            file_probes(repo, build_files()),
        ),
{
    reveal(build_system_checked);
    lemma_files_checked_warnings(report, files, repo, "Build System"@, build_files());
}

proof fn lemma_source_structure_warnings(
    report: ReportView,
    files: Map<Seq<char>, FactsView>,
    repo: Seq<char>,
)
    requires
        report.repository_path == repo,
    ensures
        source_structure_checked(report, files, repo).warnings == report.warnings + warnings_of(
            files,
            repo,
            seq![
                Probe { base: repo, name: "src"@, kind: TargetKind::Directory },
                Probe { base: repo, name: "tests"@, kind: TargetKind::Directory },
            ] + (if probe_passes(files, repo, joined(repo, "tests"@), TargetKind::Directory) {
                Seq::empty()
            } else {
                seq![Probe { base: repo, name: "test"@, kind: TargetKind::Directory }]
            }),
        ),
{
    reveal(source_structure_checked);
    let plural = probe_passes(files, repo, joined(repo, "tests"@), TargetKind::Directory);
    let one = Probe { base: repo, name: "src"@, kind: TargetKind::Directory };
    let two = Probe { base: repo, name: "tests"@, kind: TargetKind::Directory };
    let three = Probe { base: repo, name: "test"@, kind: TargetKind::Directory };
    lemma_warnings_of_one(files, repo, one);
    lemma_warnings_of_one(files, repo, two);
    lemma_warnings_of_one(files, repo, three);
    lemma_warnings_of_both(files, repo, seq![one], seq![two]);
    assert(seq![one] + seq![two] == seq![one, two]);
    if plural {
        assert(seq![one, two] + Seq::<Probe>::empty() == seq![one, two]);
    } else {
        lemma_warnings_of_both(files, repo, seq![one, two], seq![three]);
    }
    assert(source_structure_checked(report, files, repo).warnings =~= report.warnings
        + warnings_of(
        files,
        repo,
        seq![one, two] + (if plural {
            Seq::empty()
        } else {
            seq![three]
        }),
    ));
}

/// The warnings of a run are those that its probes draw, in the order of
/// the probes: one for each probed path that holds a link, none for any
/// other.
pub proof fn law_run_warnings(
    files: Map<Seq<char>, FactsView>,
    repo: Seq<char>,
    verified_at: Option<u64>,
)
    ensures
        verified(files, repo, verified_at).warnings == warnings_of(
            files,
            repo,
            probes_made(files, repo),
        ),
{
    let start = ReportView::empty(repo, verified_at);
    let documents = documentation_checked(start, files, repo);
    let well_known = well_known_checked(documents, files, repo);
    let build = build_system_checked(well_known, files, repo);
    let dir = joined(repo, ".well-known"@);
    lemma_documentation_results(start, files, repo);
    lemma_well_known_results(documents, files, repo);
    lemma_build_system_results(well_known, files, repo);
    lemma_documentation_warnings(start, files, repo);
    lemma_well_known_warnings(documents, files, repo);
    lemma_build_system_warnings(well_known, files, repo);
    lemma_source_structure_warnings(build, files, repo);
    let first = seq![Probe { base: repo, name: "README.md"@, kind: TargetKind::File }] + (
    if probe_passes(files, repo, joined(repo, "README.md"@), TargetKind::File) {
        Seq::empty()
    } else {
        seq![Probe { base: repo, name: "README.adoc"@, kind: TargetKind::File }]
    }) + file_probes(repo, other_documents());
    let second = seq![Probe { base: repo, name: ".well-known"@, kind: TargetKind::Directory }] + (
    if probe_passes(files, repo, dir, TargetKind::Directory) {
        file_probes(dir, well_known_files())
    } else {
        Seq::empty()
    });
    let third = file_probes(repo, build_files());
    let fourth = seq![
        Probe { base: repo, name: "src"@, kind: TargetKind::Directory },
        Probe { base: repo, name: "tests"@, kind: TargetKind::Directory },
    ] + (if probe_passes(files, repo, joined(repo, "tests"@), TargetKind::Directory) {
        Seq::empty()
    } else {
        seq![Probe { base: repo, name: "test"@, kind: TargetKind::Directory }]
    });
    lemma_warnings_of_both(files, repo, first, second);
    lemma_warnings_of_both(files, repo, first + second, third);
    lemma_warnings_of_both(files, repo, first + second + third, fourth);
    assert(probes_made(files, repo) =~= first + second + third + fourth);
    assert(start.warnings + warnings_of(files, repo, first) =~= warnings_of(files, repo, first));
}

/// Each probe draws one warning where its path holds a link and none
/// where it does not: the warnings of probes are as many as the links
/// among their paths.
pub proof fn law_one_warning_for_each_link(
    files: Map<Seq<char>, FactsView>,
    repo_root: Seq<char>,
    probes: Seq<Probe>,
)
    ensures
        warnings_of(files, repo_root, probes).len() == probes.filter(
            |probe: Probe| is_link(files, joined(probe.base, probe.name)),
        ).len(),
    decreases probes.len(),
{
    reveal(Seq::filter);
    if probes.len() > 0 {
        law_one_warning_for_each_link(files, repo_root, probes.drop_last());
    }
}

/// A link whose target lies within the repository draws exactly one
/// warning, an informational one, and counts as present exactly where it
/// leads to an entry of the kind asked for.
pub proof fn law_link_within_bounds(
    files: Map<Seq<char>, FactsView>,
    repo_root: Seq<char>,
    base: Seq<char>,
    name: Seq<char>,
    kind: TargetKind,
    target: Seq<char>,
)
    requires
        facts_at(files, joined(base, name)).status == LinkStatus::Symlink,
        facts_at(files, joined(base, name)).link_target == Some(target),
        lies_under(
            compared_target(joined(base, name), target, facts_at(files, joined(base, name))),
            compared_root(repo_root, facts_at(files, joined(base, name))),
        ),
    ensures
        probe_warnings(files, repo_root, base, name, kind).len() == 1,
        probe_warnings(files, repo_root, base, name, kind)[0].level == WarningLevel::Info,
        probe_warnings(files, repo_root, base, name, kind)[0].path == Some(joined(base, name)),
        probe_passes(files, repo_root, joined(base, name), kind) <==> facts_at(
            files,
            joined(base, name),
        ).leads_to == kind,
{
}

/// A link whose target lies outside the repository draws exactly one
/// warning, a critical one; the check is not failed on that account: the
/// link counts as present exactly where it leads to an entry of the kind
/// asked for.
pub proof fn law_link_escaping(
    files: Map<Seq<char>, FactsView>,
    repo_root: Seq<char>,
    base: Seq<char>,
    name: Seq<char>,
    kind: TargetKind,
    target: Seq<char>,
)
    requires
        facts_at(files, joined(base, name)).status == LinkStatus::Symlink,
        facts_at(files, joined(base, name)).link_target == Some(target),
        !lies_under(
            compared_target(joined(base, name), target, facts_at(files, joined(base, name))),
            compared_root(repo_root, facts_at(files, joined(base, name))),
        ),
    ensures
        probe_warnings(files, repo_root, base, name, kind).len() == 1,
        probe_warnings(files, repo_root, base, name, kind)[0].level == WarningLevel::Critical,
        probe_warnings(files, repo_root, base, name, kind)[0].path == Some(joined(base, name)),
        probe_passes(files, repo_root, joined(base, name), kind) <==> facts_at(
            files,
            joined(base, name),
        ).leads_to == kind,
{
}

/// A link whose target cannot be read is not held to escape: it draws one
/// informational warning.
pub proof fn law_link_unreadable(
    files: Map<Seq<char>, FactsView>,
    repo_root: Seq<char>,
    base: Seq<char>,
    name: Seq<char>,
    kind: TargetKind,
)
    requires
        facts_at(files, joined(base, name)).status == LinkStatus::Symlink,
        facts_at(files, joined(base, name)).link_target is None,
    ensures
        probe_warnings(files, repo_root, base, name, kind).len() == 1,
        probe_warnings(files, repo_root, base, name, kind)[0].level == WarningLevel::Info,
{
}

/// What is no link draws no warning.
pub proof fn law_no_link_no_warning(
    files: Map<Seq<char>, FactsView>,
    repo_root: Seq<char>,
    base: Seq<char>,
    name: Seq<char>,
    kind: TargetKind,
)
    requires
        facts_at(files, joined(base, name)).status != LinkStatus::Symlink,
    ensures
        probe_warnings(files, repo_root, base, name, kind).len() == 0,
{
}

/// No requirement but the first is reported under the name of the README.
proof fn lemma_one_readme(index: int)
    requires
        1 <= index < 16,
    ensures
        requirement_item(index) != "README.md"@,
{
    reveal_strlit("README.md");
    reveal_strlit("LICENSE.txt");
    reveal_strlit("SECURITY.md");
    reveal_strlit("CONTRIBUTING.md");
    reveal_strlit("CODE_OF_CONDUCT.md");
    reveal_strlit("MAINTAINERS.md");
    reveal_strlit("CHANGELOG.md");
    reveal_strlit(".well-known/ directory");
    reveal_strlit("security.txt");
    reveal_strlit("ai.txt");
    reveal_strlit("humans.txt");
    reveal_strlit("justfile");
    reveal_strlit("flake.nix");
    reveal_strlit(".gitlab-ci.yml");
    reveal_strlit("src/ directory");
    reveal_strlit("tests/ directory");
    let item = requirement_item(index);
    assert(item.len() != 9 || item[0] != 'R');
}

/// The README requirement is met by either of its two forms alone and by
/// nothing else, and it is reported once, as the first result, under the
/// name of the first form.
pub proof fn law_readme_alternatives(
    files: Map<Seq<char>, FactsView>,
    repo: Seq<char>,
    verified_at: Option<u64>,
)
    ensures
        verified(files, repo, verified_at).checks[0].item == "README.md"@,
        verified(files, repo, verified_at).checks[0].passed <==> (probe_passes(
            files,
            repo,
            joined(repo, "README.md"@),
            TargetKind::File,
        ) || probe_passes(files, repo, joined(repo, "README.adoc"@), TargetKind::File)),
        forall|i: int|
            1 <= i < 16 ==> (#[trigger] verified(files, repo, verified_at).checks[i]).item
                != "README.md"@,
{
    law_sixteen_results(files, repo, verified_at);
    let report = verified(files, repo, verified_at);
    assert forall|i: int| 1 <= i < 16 implies (#[trigger] report.checks[i]).item
        != "README.md"@ by {
        lemma_one_readme(i);
        assert(report.checks[i] == requirement_result(files, repo, i));
    }
}

/// The tests requirement is met by a directory of either name alone and
/// by nothing else.
pub proof fn law_tests_alternatives(
    files: Map<Seq<char>, FactsView>,
    repo: Seq<char>,
    verified_at: Option<u64>,
)
    ensures
        verified(files, repo, verified_at).checks[15].item == "tests/ directory"@,
        verified(files, repo, verified_at).checks[15].passed <==> (probe_passes(
            files,
            repo,
            joined(repo, "tests"@),
            TargetKind::Directory,
        ) || probe_passes(files, repo, joined(repo, "test"@), TargetKind::Directory)),
{
    law_sixteen_results(files, repo, verified_at);
}

/// Where the well-known directory is not there, its three files fail, and
/// they are not looked at: the well-known checks draw no warning but the
/// one that the directory's own path may draw.
pub proof fn law_well_known_absent(
    report: ReportView,
    files: Map<Seq<char>, FactsView>,
    repo: Seq<char>,
)
    requires
        !probe_passes(
            files,
            report.repository_path,
            joined(repo, ".well-known"@),
            TargetKind::Directory,
        ),
    ensures
        well_known_checked(report, files, repo).warnings == probed(
            report,
            files,
            repo,
            ".well-known"@,
            TargetKind::Directory,
        ).warnings,
        well_known_checked(report, files, repo).checks.len() == report.checks.len() + 4,
        forall|i: int|
            report.checks.len() <= i < report.checks.len() + 4 ==> !(
            #[trigger] well_known_checked(report, files, repo).checks[i]).passed,
{
    reveal(well_known_checked);
    let after_dir = probed(report, files, repo, ".well-known"@, TargetKind::Directory).with_check(
        bronze_check("Well-Known"@, ".well-known/ directory"@, false),
    );
    lemma_files_failed(after_dir, "Well-Known"@, well_known_files());
}

/// Checking files looks at nothing but the files' own paths.
proof fn lemma_files_checked_reads(
    report: ReportView,
    first: Map<Seq<char>, FactsView>,
    second: Map<Seq<char>, FactsView>,
    base: Seq<char>,
    category: Seq<char>,
    names: Seq<Seq<char>>,
)
    requires
        forall|i: int|
            0 <= i < names.len() ==> facts_at(first, joined(base, #[trigger] names[i]))
                == facts_at(second, joined(base, names[i])),
    ensures
        files_checked(report, first, base, category, names) == files_checked(
            report,
            second,
            base,
            category,
            names,
        ),
    decreases names.len(),
{
    if names.len() > 0 {
        lemma_files_checked_reads(report, first, second, base, category, names.drop_last());
        assert(names.drop_last().len() == names.len() - 1);
        assert(facts_at(first, joined(base, names[names.len() - 1])) == facts_at(
            second,
            joined(base, names[names.len() - 1]),
        ));
    }
}

/// Whether two snapshots hold the same facts about `path`.
pub open spec fn agree_at(
    first: Map<Seq<char>, FactsView>,
    second: Map<Seq<char>, FactsView>,
    path: Seq<char>,
) -> bool {
    facts_at(first, path) == facts_at(second, path)
}

proof fn lemma_documentation_reads(
    report: ReportView,
    first: Map<Seq<char>, FactsView>,
    second: Map<Seq<char>, FactsView>,
    repo: Seq<char>,
)
    requires
        agree_at(first, second, joined(repo, "README.md"@)),
        agree_at(first, second, joined(repo, "README.adoc"@)),
        agree_at(first, second, joined(repo, "LICENSE.txt"@)),
        agree_at(first, second, joined(repo, "SECURITY.md"@)),
        agree_at(first, second, joined(repo, "CONTRIBUTING.md"@)),
        agree_at(first, second, joined(repo, "CODE_OF_CONDUCT.md"@)),
        agree_at(first, second, joined(repo, "MAINTAINERS.md"@)),
        agree_at(first, second, joined(repo, "CHANGELOG.md"@)),
    ensures
        documentation_checked(report, first, repo) == documentation_checked(report, second, repo),
{
    reveal(documentation_checked);
    let root = report.repository_path;
    let markdown = probe_passes(first, root, joined(repo, "README.md"@), TargetKind::File);
    let asciidoc = probe_passes(first, root, joined(repo, "README.adoc"@), TargetKind::File);
    let readme = probed(report, first, repo, "README.md"@, TargetKind::File);
    let readme_done = if markdown {
        readme
    } else {
        probed(readme, first, repo, "README.adoc"@, TargetKind::File)
    }.with_check(bronze_check("Documentation"@, "README.md"@, markdown || asciidoc));
    lemma_files_checked_reads(
        readme_done,
        first,
        second,
        repo,
        "Documentation"@,
        other_documents(),
    );
}

proof fn lemma_well_known_reads(
    report: ReportView,
    first: Map<Seq<char>, FactsView>,
    second: Map<Seq<char>, FactsView>,
    repo: Seq<char>,
)
    requires
        agree_at(first, second, joined(repo, ".well-known"@)),
        agree_at(first, second, joined(joined(repo, ".well-known"@), "security.txt"@)),
        agree_at(first, second, joined(joined(repo, ".well-known"@), "ai.txt"@)),
        agree_at(first, second, joined(joined(repo, ".well-known"@), "humans.txt"@)),
    ensures
        well_known_checked(report, first, repo) == well_known_checked(report, second, repo),
{
    reveal(well_known_checked);
    let dir = joined(repo, ".well-known"@);
    let has_dir = probe_passes(first, report.repository_path, dir, TargetKind::Directory);
    let after_dir = probed(report, first, repo, ".well-known"@, TargetKind::Directory).with_check(
        bronze_check("Well-Known"@, ".well-known/ directory"@, has_dir),
    );
    lemma_files_checked_reads(after_dir, first, second, dir, "Well-Known"@, well_known_files());
}

proof fn lemma_build_system_reads(
    report: ReportView,
    first: Map<Seq<char>, FactsView>,
    second: Map<Seq<char>, FactsView>,
    repo: Seq<char>,
)
    requires
        agree_at(first, second, joined(repo, "justfile"@)),
        agree_at(first, second, joined(repo, "flake.nix"@)),
        agree_at(first, second, joined(repo, ".gitlab-ci.yml"@)),
    ensures
        build_system_checked(report, first, repo) == build_system_checked(report, second, repo),
{
    reveal(build_system_checked);
    lemma_files_checked_reads(report, first, second, repo, "Build System"@, build_files());
}

proof fn lemma_source_structure_reads(
    report: ReportView,
    first: Map<Seq<char>, FactsView>,
    second: Map<Seq<char>, FactsView>,
    repo: Seq<char>,
)
    requires
        agree_at(first, second, joined(repo, "src"@)),
        agree_at(first, second, joined(repo, "tests"@)),
        agree_at(first, second, joined(repo, "test"@)),
    ensures
        source_structure_checked(report, first, repo) == source_structure_checked(
            report,
            second,
            repo,
        ),
{
    reveal(source_structure_checked);
}

proof fn lemma_run_reads(
    first: Map<Seq<char>, FactsView>,
    second: Map<Seq<char>, FactsView>,
    repo: Seq<char>,
    verified_at: Option<u64>,
)
    requires
        agree_at(first, second, joined(repo, "README.md"@)),
        agree_at(first, second, joined(repo, "README.adoc"@)),
        agree_at(first, second, joined(repo, "LICENSE.txt"@)),
        agree_at(first, second, joined(repo, "SECURITY.md"@)),
        agree_at(first, second, joined(repo, "CONTRIBUTING.md"@)),
        agree_at(first, second, joined(repo, "CODE_OF_CONDUCT.md"@)),
        agree_at(first, second, joined(repo, "MAINTAINERS.md"@)),
        agree_at(first, second, joined(repo, "CHANGELOG.md"@)),
        agree_at(first, second, joined(repo, ".well-known"@)),
        agree_at(first, second, joined(joined(repo, ".well-known"@), "security.txt"@)),
        agree_at(first, second, joined(joined(repo, ".well-known"@), "ai.txt"@)),
        agree_at(first, second, joined(joined(repo, ".well-known"@), "humans.txt"@)),
        agree_at(first, second, joined(repo, "justfile"@)),
        agree_at(first, second, joined(repo, "flake.nix"@)),
        agree_at(first, second, joined(repo, ".gitlab-ci.yml"@)),
        agree_at(first, second, joined(repo, "src"@)),
        agree_at(first, second, joined(repo, "tests"@)),
        agree_at(first, second, joined(repo, "test"@)),
    ensures
        verified(first, repo, verified_at) == verified(second, repo, verified_at),
{
    let start = ReportView::empty(repo, verified_at);
    lemma_documentation_reads(start, first, second, repo);
    let documents = documentation_checked(start, first, repo);
    lemma_well_known_reads(documents, first, second, repo);
    let well_known = well_known_checked(documents, first, repo);
    lemma_build_system_reads(well_known, first, second, repo);
    let build = build_system_checked(well_known, first, repo);
    lemma_source_structure_reads(build, first, second, repo);
}

proof fn lemma_candidates(repo: Seq<char>)
    ensures
        candidates(repo).len() == 18,
        candidates(repo)[0] == joined(repo, "README.md"@),
        candidates(repo)[1] == joined(repo, "README.adoc"@),
        candidates(repo)[2] == joined(repo, "LICENSE.txt"@),
        candidates(repo)[3] == joined(repo, "SECURITY.md"@),
        candidates(repo)[4] == joined(repo, "CONTRIBUTING.md"@),
        candidates(repo)[5] == joined(repo, "CODE_OF_CONDUCT.md"@),
        candidates(repo)[6] == joined(repo, "MAINTAINERS.md"@),
        candidates(repo)[7] == joined(repo, "CHANGELOG.md"@),
        candidates(repo)[8] == joined(repo, ".well-known"@),
        candidates(repo)[9] == joined(joined(repo, ".well-known"@), "security.txt"@),
        candidates(repo)[10] == joined(joined(repo, ".well-known"@), "ai.txt"@),
        candidates(repo)[11] == joined(joined(repo, ".well-known"@), "humans.txt"@),
        candidates(repo)[12] == joined(repo, "justfile"@),
        candidates(repo)[13] == joined(repo, "flake.nix"@),
        candidates(repo)[14] == joined(repo, ".gitlab-ci.yml"@),
        candidates(repo)[15] == joined(repo, "src"@),
        candidates(repo)[16] == joined(repo, "tests"@),
        candidates(repo)[17] == joined(repo, "test"@),
{
}

/// A run reads nothing but the candidate paths: two snapshots that agree
/// on them give the same report.
pub proof fn law_only_candidates_matter(
    first: Map<Seq<char>, FactsView>,
    second: Map<Seq<char>, FactsView>,
    repo: Seq<char>,
    verified_at: Option<u64>,
)
    requires
        forall|i: int|
            0 <= i < candidates(repo).len() ==> agree_at(
                first,
                second,
                #[trigger] candidates(repo)[i],
            ),
    ensures
        verified(first, repo, verified_at) == verified(second, repo, verified_at),
{
    lemma_candidates(repo);
    lemma_run_reads(first, second, repo, verified_at);
}

} // verus!
