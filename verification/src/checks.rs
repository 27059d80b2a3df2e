//! The battery of repository checks. Each check probes one or two paths of
//! a snapshot, reports a symlink it meets as a warning, and adds one result
//! to the report; a run adds sixteen results, always in the same order.

use vstd::prelude::*;
use vstd::string::StringExecFns;
use crate::inspect::check_path_security;
use crate::inspect::inspection;
use crate::inspect::FactsView;
use crate::inspect::TargetKind;
use crate::laws::law_sixteen_results;
use crate::level::ComplianceLevel;
use crate::level::WarningLevel;
use crate::path::join;
use crate::path::joined;
use crate::report::CheckView;
use crate::report::ComplianceReport;
use crate::report::ReportView;
use crate::report::WarningView;
use crate::snapshot::facts_at;
use crate::snapshot::RepositorySnapshot;

verus! {

/// Whether `path` holds an entry of `kind`: something is at the path, and
/// followed through any links it is of that kind. A link that leaves the
/// repository is judged like any other: by what it leads to.
pub open spec fn probe_passes(
    files: Map<Seq<char>, FactsView>,
    repo_root: Seq<char>,
    path: Seq<char>,
    kind: TargetKind,
) -> bool {
    inspection(path, repo_root, facts_at(files, path)).exists && facts_at(files, path).leads_to
        == kind
}

/// The text of the warning about a link named `name` that leaves the
/// repository for `target`.
pub open spec fn escape_message(name: Seq<char>, target: Option<Seq<char>>, kind: TargetKind)
    -> Seq<char> {
    let shown = match target {
        Some(target) => target,
        None => Seq::empty(),
    };
    if kind == TargetKind::Directory {
        "Symlink directory '"@ + name + "' points outside repository to '"@ + shown + "'"@
    } else {
        "Symlink '"@ + name + "' points outside repository to '"@ + shown + "'"@
    }
}

/// The text of the note about a link named `name` that stays in the
/// repository.
pub open spec fn within_message(name: Seq<char>, kind: TargetKind) -> Seq<char> {
    if kind == TargetKind::Directory {
        "'"@ + name + "' is a symlink directory (within repository bounds)"@
    } else {
        "'"@ + name + "' is a symlink (within repository bounds)"@
    }
}

/// The warnings that probing `name` under `base` gives: none for what is
/// no link, else exactly one, critical where the link leaves the
/// repository and informational where it does not.
pub open spec fn probe_warnings(
    files: Map<Seq<char>, FactsView>,
    repo_root: Seq<char>,
    base: Seq<char>,
    name: Seq<char>,
    kind: TargetKind,
) -> Seq<WarningView> {
    let path = joined(base, name);
    let found = inspection(path, repo_root, facts_at(files, path));
    if !found.is_symlink {
        Seq::empty()
    } else if found.escapes_repo {
        seq![
            WarningView {
                level: WarningLevel::Critical,
                message: escape_message(name, found.target, kind),
                path: Some(path),
            },
        ]
    } else {
        seq![
            WarningView {
                level: WarningLevel::Info,
                message: within_message(name, kind),
                path: Some(path),
            },
        ]
    }
}

/// `report` after `name` under `base` was probed.
pub open spec fn probed(
    report: ReportView,
    files: Map<Seq<char>, FactsView>,
    base: Seq<char>,
    name: Seq<char>,
    kind: TargetKind,
) -> ReportView {
    report.with_warnings(probe_warnings(files, report.repository_path, base, name, kind))
}

/// A result of the base tier.
pub open spec fn bronze_check(category: Seq<char>, item: Seq<char>, passed: bool) -> CheckView {
    CheckView { category, item, passed, required_for: ComplianceLevel::Bronze, description: None }
}

/// `report` after the file `name` under `base` was probed and its result
/// added.
pub open spec fn file_checked(
    report: ReportView,
    files: Map<Seq<char>, FactsView>,
    base: Seq<char>,
    category: Seq<char>,
    name: Seq<char>,
) -> ReportView {
    probed(report, files, base, name, TargetKind::File).with_check(
        bronze_check(
            category,
            name,
            probe_passes(files, report.repository_path, joined(base, name), TargetKind::File),
        ),
    )
}

/// `report` after each file of `names` under `base` was checked in turn.
pub open spec fn files_checked(
    report: ReportView,
    files: Map<Seq<char>, FactsView>,
    base: Seq<char>,
    category: Seq<char>,
    names: Seq<Seq<char>>,
) -> ReportView
    decreases names.len(),
{
    if names.len() == 0 {
        report
    } else {
        file_checked(
            files_checked(report, files, base, category, names.drop_last()),
            files,
            base,
            category,
            names.last(),
        )
    }
}

/// `report` after each file of `names` was entered as failed, unprobed.
pub open spec fn files_failed(report: ReportView, category: Seq<char>, names: Seq<Seq<char>>)
    -> ReportView
    decreases names.len(),
{
    if names.len() == 0 {
        report
    } else {
        files_failed(report, category, names.drop_last()).with_check(
            bronze_check(category, names.last(), false),
        )
    }
}

/// The documentation files required besides the README.
pub open spec fn other_documents() -> Seq<Seq<char>> {
    seq![
        "LICENSE.txt"@,
        "SECURITY.md"@,
        "CONTRIBUTING.md"@,
        "CODE_OF_CONDUCT.md"@,
        "MAINTAINERS.md"@,
        "CHANGELOG.md"@,
    ]
}

/// The files required in the well-known directory.
pub open spec fn well_known_files() -> Seq<Seq<char>> {
    seq!["security.txt"@, "ai.txt"@, "humans.txt"@]
}

/// The build-system files required.
pub open spec fn build_files() -> Seq<Seq<char>> {
    seq!["justfile"@, "flake.nix"@, ".gitlab-ci.yml"@]
}

/// `report` after the documentation checks: the README in either of its
/// two forms (the second is probed only where the first is not there), then
/// the six other documents.
#[verifier::opaque]
pub open spec fn documentation_checked(
    report: ReportView,
    files: Map<Seq<char>, FactsView>,
    repo: Seq<char>,
) -> ReportView {
    let root = report.repository_path;
    let markdown = probe_passes(files, root, joined(repo, "README.md"@), TargetKind::File);
    let asciidoc = probe_passes(files, root, joined(repo, "README.adoc"@), TargetKind::File);
    let first = probed(report, files, repo, "README.md"@, TargetKind::File);
    let second = if markdown {
        first
    } else {
        probed(first, files, repo, "README.adoc"@, TargetKind::File)
    };
    files_checked(
        second.with_check(bronze_check("Documentation"@, "README.md"@, markdown || asciidoc)),
        files,
        repo,
        "Documentation"@,
        other_documents(),
    )
}

/// `report` after the well-known checks: the directory, then its three
/// files, which fail unprobed where the directory is not there.
#[verifier::opaque]
pub open spec fn well_known_checked(
    report: ReportView,
    files: Map<Seq<char>, FactsView>,
    repo: Seq<char>,
) -> ReportView {
    let root = report.repository_path;
    let has_dir = probe_passes(files, root, joined(repo, ".well-known"@), TargetKind::Directory);
    let after_dir = probed(report, files, repo, ".well-known"@, TargetKind::Directory).with_check(
        bronze_check("Well-Known"@, ".well-known/ directory"@, has_dir),
    );
    if has_dir {
        files_checked(
            after_dir,
            files,
            joined(repo, ".well-known"@),
            "Well-Known"@,
            well_known_files(),
        )
    } else {
        files_failed(after_dir, "Well-Known"@, well_known_files())
    }
}

/// `report` after the build-system checks.
#[verifier::opaque]
pub open spec fn build_system_checked(
    report: ReportView,
    files: Map<Seq<char>, FactsView>,
    repo: Seq<char>,
) -> ReportView {
    files_checked(report, files, repo, "Build System"@, build_files())
}

/// `report` after the source-structure checks: the source directory, and
/// the tests directory under either of its two names (the second is probed
/// only where the first is not there).
#[verifier::opaque]
pub open spec fn source_structure_checked(
    report: ReportView,
    files: Map<Seq<char>, FactsView>,
    repo: Seq<char>,
) -> ReportView {
    let root = report.repository_path;
    let has_src = probe_passes(files, root, joined(repo, "src"@), TargetKind::Directory);
    let plural = probe_passes(files, root, joined(repo, "tests"@), TargetKind::Directory);
    let singular = probe_passes(files, root, joined(repo, "test"@), TargetKind::Directory);
    let first = probed(report, files, repo, "src"@, TargetKind::Directory);
    let second = probed(first, files, repo, "tests"@, TargetKind::Directory);
    let third = if plural {
        second
    } else {
        probed(second, files, repo, "test"@, TargetKind::Directory)
    };
    third.with_check(bronze_check("Source Structure"@, "src/ directory"@, has_src)).with_check(
        bronze_check("Source Structure"@, "tests/ directory"@, plural || singular),
    )
}

/// The report of a run over `files` for the repository at `repo`.
pub open spec fn verified(
    files: Map<Seq<char>, FactsView>,
    repo: Seq<char>,
    verified_at: Option<u64>,
) -> ReportView {
    source_structure_checked(
        build_system_checked(
            well_known_checked(
                documentation_checked(ReportView::empty(repo, verified_at), files, repo),
                files,
                repo,
            ),
            files,
            repo,
        ),
        files,
        repo,
    )
}

/// One look at a path: the entry `name` under `base`, asked for as an
/// entry of `kind`.
pub struct Probe {
    pub base: Seq<char>,
    pub name: Seq<char>,
    pub kind: TargetKind,
}

/// The probes of the files `names` under `base`, in order.
pub open spec fn file_probes(base: Seq<char>, names: Seq<Seq<char>>) -> Seq<Probe> {
    names.map_values(|name: Seq<char>| Probe { base, name, kind: TargetKind::File })
}

/// The probes that a run over `files` makes, in order. The second form of
/// the README and the second name of the tests directory are probed only
/// where the first is not there, and the files of the well-known directory
/// only where that directory is there.
pub open spec fn probes_made(files: Map<Seq<char>, FactsView>, repo: Seq<char>) -> Seq<Probe> {
    let well_known = joined(repo, ".well-known"@);
    seq![Probe { base: repo, name: "README.md"@, kind: TargetKind::File }] + (if probe_passes(
        files,
        repo,
        joined(repo, "README.md"@),
        TargetKind::File,
    ) {
        Seq::empty()
    } else {
        seq![Probe { base: repo, name: "README.adoc"@, kind: TargetKind::File }]
    }) + file_probes(repo, other_documents()) + seq![
        Probe { base: repo, name: ".well-known"@, kind: TargetKind::Directory },
    ] + (if probe_passes(files, repo, well_known, TargetKind::Directory) {
        file_probes(well_known, well_known_files())
    } else {
        Seq::empty()
    }) + file_probes(repo, build_files()) + seq![
        Probe { base: repo, name: "src"@, kind: TargetKind::Directory },
        Probe { base: repo, name: "tests"@, kind: TargetKind::Directory },
    ] + (if probe_passes(files, repo, joined(repo, "tests"@), TargetKind::Directory) {
        Seq::empty()
    } else {
        seq![Probe { base: repo, name: "test"@, kind: TargetKind::Directory }]
    })
}

/// The warnings that `probes` draw, in order.
pub open spec fn warnings_of(
    files: Map<Seq<char>, FactsView>,
    repo_root: Seq<char>,
    probes: Seq<Probe>,
) -> Seq<WarningView>
    decreases probes.len(),
{
    if probes.len() == 0 {
        Seq::empty()
    } else {
        warnings_of(files, repo_root, probes.drop_last()) + probe_warnings(
            files,
            repo_root,
            probes.last().base,
            probes.last().name,
            probes.last().kind,
        )
    }
}

/// How many requirements a run checks.
pub open spec fn requirement_count() -> int {
    16
}

/// The category under which the requirement at `index` is reported.
pub open spec fn requirement_category(index: int) -> Seq<char> {
    if index <= 6 {
        "Documentation"@
    } else if index <= 10 {
        "Well-Known"@
    } else if index <= 13 {
        "Build System"@
    } else {
        "Source Structure"@
    }
}

/// The name under which the requirement at `index` is reported.
pub open spec fn requirement_item(index: int) -> Seq<char> {
    if index == 0 {
        "README.md"@
    } else if index <= 6 {
        other_documents()[index - 1]
    } else if index == 7 {
        ".well-known/ directory"@
    } else if index <= 10 {
        well_known_files()[index - 8]
    } else if index <= 13 {
        build_files()[index - 11]
    } else if index == 14 {
        "src/ directory"@
    } else {
        "tests/ directory"@
    }
}

/// Whether the repository at `repo` meets the requirement at `index`.
///
/// The README is met by either of its two forms, the tests directory by
/// either of its two names, and a file of the well-known directory only
/// where that directory is there.
pub open spec fn requirement_met(files: Map<Seq<char>, FactsView>, repo: Seq<char>, index: int)
    -> bool {
    let well_known = joined(repo, ".well-known"@);
    if index == 0 {
        probe_passes(files, repo, joined(repo, "README.md"@), TargetKind::File) || probe_passes(
            files,
            repo,
            joined(repo, "README.adoc"@),
            TargetKind::File,
        )
    } else if index <= 6 {
        probe_passes(files, repo, joined(repo, other_documents()[index - 1]), TargetKind::File)
    } else if index == 7 {
        probe_passes(files, repo, well_known, TargetKind::Directory)
    } else if index <= 10 {
        probe_passes(files, repo, well_known, TargetKind::Directory) && probe_passes(
            files,
            repo,
            joined(well_known, well_known_files()[index - 8]),
            TargetKind::File,
        )
    } else if index <= 13 {
        probe_passes(files, repo, joined(repo, build_files()[index - 11]), TargetKind::File)
    } else if index == 14 {
        probe_passes(files, repo, joined(repo, "src"@), TargetKind::Directory)
    } else {
        probe_passes(files, repo, joined(repo, "tests"@), TargetKind::Directory) || probe_passes(
            files,
            repo,
            joined(repo, "test"@),
            TargetKind::Directory,
        )
    }
}

/// The path of the entry that meets the requirement at `index` in the
/// first place (the README and the tests directory have a second).
pub open spec fn primary_path(repo: Seq<char>, index: int) -> Seq<char> {
    if index == 0 {
        joined(repo, "README.md"@)
    } else if index <= 6 {
        joined(repo, other_documents()[index - 1])
    } else if index == 7 {
        joined(repo, ".well-known"@)
    } else if index <= 10 {
        joined(joined(repo, ".well-known"@), well_known_files()[index - 8])
    } else if index <= 13 {
        joined(repo, build_files()[index - 11])
    } else if index == 14 {
        joined(repo, "src"@)
    } else {
        joined(repo, "tests"@)
    }
}

/// The path of the entry that meets the requirement at `index` in the
/// second place, for the two requirements that have one.
pub open spec fn alternative_path(repo: Seq<char>, index: int) -> Option<Seq<char>> {
    if index == 0 {
        Some(joined(repo, "README.adoc"@))
    } else if index == 15 {
        Some(joined(repo, "test"@))
    } else {
        None
    }
}

/// The kind of entry that the requirement at `index` asks for.
pub open spec fn required_kind(index: int) -> TargetKind {
    if index == 7 || index >= 14 {
        TargetKind::Directory
    } else {
        TargetKind::File
    }
}

/// Every path that a run may look at: the eighteen entries that can meet a
/// requirement, in the order in which a run comes to them.
pub open spec fn candidates(repo: Seq<char>) -> Seq<Seq<char>> {
    let well_known = joined(repo, ".well-known"@);
    seq![
        joined(repo, "README.md"@),
        joined(repo, "README.adoc"@),
        joined(repo, "LICENSE.txt"@),
        joined(repo, "SECURITY.md"@),
        joined(repo, "CONTRIBUTING.md"@),
        joined(repo, "CODE_OF_CONDUCT.md"@),
        joined(repo, "MAINTAINERS.md"@),
        joined(repo, "CHANGELOG.md"@),
        well_known,
        joined(well_known, "security.txt"@),
        joined(well_known, "ai.txt"@),
        joined(well_known, "humans.txt"@),
        joined(repo, "justfile"@),
        joined(repo, "flake.nix"@),
        joined(repo, ".gitlab-ci.yml"@),
        joined(repo, "src"@),
        joined(repo, "tests"@),
        joined(repo, "test"@),
    ]
}

/// The result that a run reports for the requirement at `index`.
pub open spec fn requirement_result(files: Map<Seq<char>, FactsView>, repo: Seq<char>, index: int)
    -> CheckView {
    bronze_check(
        requirement_category(index),
        requirement_item(index),
        requirement_met(files, repo, index),
    )
}

/// The texts of `names`.
pub open spec fn name_texts(names: Seq<&'static str>) -> Seq<Seq<char>> {
    names.map_values(|name: &'static str| name@)
}

/// Probe `name` under `base` for an entry of `kind`, and report a symlink.
fn probe(
    base: &str,
    name: &str,
    kind: TargetKind,
    report: &mut ComplianceReport,
    snapshot: &RepositorySnapshot,
) -> (passed: bool)
    ensures
        passed == probe_passes(
            snapshot@,
            old(report)@.repository_path,
            joined(base@, name@),
            kind,
        ),
        final(report)@ == probed(old(report)@, snapshot@, base@, name@, kind),
{
    let path = join(base, name);
    let facts = snapshot.facts_for(path.as_str());
    let security = check_path_security(path.as_str(), report.repository_path.as_str(), &facts);
    if security.is_symlink {
        let mut message = String::new();
        if security.escapes_repo {
            if kind == TargetKind::Directory {
                message.append("Symlink directory '");
            } else {
                message.append("Symlink '");
            }
            message.append(name);
            message.append("' points outside repository to '");
            match &security.target {
                Some(target) => {
                    message.append(target.as_str());
                },
                None => {},
            }
            message.append("'");
            report.add_warning(WarningLevel::Critical, message.as_str(), Some(path));
        } else {
            message.append("'");
            message.append(name);
            if kind == TargetKind::Directory {
                message.append("' is a symlink directory (within repository bounds)");
            } else {
                message.append("' is a symlink (within repository bounds)");
            }
            report.add_warning(WarningLevel::Info, message.as_str(), Some(path));
        }
    }
    security.exists && facts.leads_to == kind
}

/// Check if a file exists at the given path (with symlink detection).
pub fn check_file(
    base: &str,
    filename: &str,
    report: &mut ComplianceReport,
    snapshot: &RepositorySnapshot,
) -> (passed: bool)
    ensures
        passed == probe_passes(
            snapshot@,
            old(report)@.repository_path,
            joined(base@, filename@),
            TargetKind::File,
        ),
        final(report)@ == probed(old(report)@, snapshot@, base@, filename@, TargetKind::File),
{
    probe(base, filename, TargetKind::File, report, snapshot)
}

/// Check if a directory exists at the given path (with symlink detection).
pub fn check_dir(
    base: &str,
    dirname: &str,
    report: &mut ComplianceReport,
    snapshot: &RepositorySnapshot,
) -> (passed: bool)
    ensures
        passed == probe_passes(
            snapshot@,
            old(report)@.repository_path,
            joined(base@, dirname@),
            TargetKind::Directory,
        ),
        final(report)@ == probed(
            old(report)@,
            snapshot@,
            base@,
            dirname@,
            TargetKind::Directory,
        ),
{
    probe(base, dirname, TargetKind::Directory, report, snapshot)
}

/// Check each file of `names` under `base` and add its result.
fn check_files(
    report: &mut ComplianceReport,
    base: &str,
    category: &str,
    names: &Vec<&'static str>,
    snapshot: &RepositorySnapshot,
)
    ensures
        final(report)@ == files_checked(
            old(report)@,
            snapshot@,
            base@,
            category@,
            name_texts(names@),
        ),
{
    let mut i: usize = 0;
    while i < names.len()
        invariant
            i <= names.len(),
            report@ == files_checked(
                old(report)@,
                snapshot@,
                base@,
                category@,
                name_texts(names@).take(i as int),
            ),
        decreases names.len() - i,
    {
        proof {
            let texts = name_texts(names@);
            assert(texts.take(i + 1).drop_last() == texts.take(i as int));
            assert(texts.take(i + 1).last() == names@[i as int]@);
        }
        let exists = check_file(base, names[i], report, snapshot);
        report.add_check(category, names[i], exists, ComplianceLevel::Bronze);
        i += 1;
    }
    assert(name_texts(names@).take(i as int) == name_texts(names@));
}

/// Enter each file of `names` as failed.
fn fail_files(report: &mut ComplianceReport, category: &str, names: &Vec<&'static str>)
    ensures
        final(report)@ == files_failed(old(report)@, category@, name_texts(names@)),
{
    let mut i: usize = 0;
    while i < names.len()
        invariant
            i <= names.len(),
            report@ == files_failed(old(report)@, category@, name_texts(names@).take(i as int)),
        decreases names.len() - i,
    {
        proof {
            let texts = name_texts(names@);
            assert(texts.take(i + 1).drop_last() == texts.take(i as int));
            assert(texts.take(i + 1).last() == names@[i as int]@);
        }
        report.add_check(category, names[i], false, ComplianceLevel::Bronze);
        i += 1;
    }
    assert(name_texts(names@).take(i as int) == name_texts(names@));
}

/// Verify documentation files exist.
pub fn check_documentation(
    report: &mut ComplianceReport,
    repo_path: &str,
    snapshot: &RepositorySnapshot,
)
    ensures
        final(report)@ == documentation_checked(old(report)@, snapshot@, repo_path@),
{
    proof {
        reveal(documentation_checked);
    }
    let readme_md = check_file(repo_path, "README.md", report, snapshot);
    let readme_adoc = if !readme_md {
        check_file(repo_path, "README.adoc", report, snapshot)
    } else {
        false
    };
    report.add_check(
        "Documentation",
        "README.md",
        readme_md || readme_adoc,
        ComplianceLevel::Bronze,
    );
    let other_required_docs = vec![
        "LICENSE.txt",
        "SECURITY.md",
        "CONTRIBUTING.md",
        "CODE_OF_CONDUCT.md",
        "MAINTAINERS.md",
        "CHANGELOG.md",
    ];
    assert(name_texts(other_required_docs@) == other_documents());
    check_files(report, repo_path, "Documentation", &other_required_docs, snapshot);
}

/// Verify .well-known directory and required files.
pub fn check_well_known(
    report: &mut ComplianceReport,
    repo_path: &str,
    snapshot: &RepositorySnapshot,
)
    ensures
        final(report)@ == well_known_checked(old(report)@, snapshot@, repo_path@),
{
    proof {
        reveal(well_known_checked);
    }
    let has_dir = check_dir(repo_path, ".well-known", report, snapshot);
    report.add_check("Well-Known", ".well-known/ directory", has_dir, ComplianceLevel::Bronze);
    let well_known_path = join(repo_path, ".well-known");
    let required_files = vec!["security.txt", "ai.txt", "humans.txt"];
    assert(name_texts(required_files@) == well_known_files());
    if has_dir {
        check_files(report, well_known_path.as_str(), "Well-Known", &required_files, snapshot);
    } else {
        fail_files(report, "Well-Known", &required_files);
    }
}

/// Verify build system files.
pub fn check_build_system(
    report: &mut ComplianceReport,
    repo_path: &str,
    snapshot: &RepositorySnapshot,
)
    ensures
        final(report)@ == build_system_checked(old(report)@, snapshot@, repo_path@),
{
    proof {
        reveal(build_system_checked);
    }
    let names = vec!["justfile", "flake.nix", ".gitlab-ci.yml"];
    assert(name_texts(names@) == build_files());
    check_files(report, repo_path, "Build System", &names, snapshot);
}

/// Verify source code structure.
pub fn check_source_structure(
    report: &mut ComplianceReport,
    repo_path: &str,
    snapshot: &RepositorySnapshot,
)
    ensures
        final(report)@ == source_structure_checked(old(report)@, snapshot@, repo_path@),
{
    proof {
        reveal(source_structure_checked);
    }
    let has_src = check_dir(repo_path, "src", report, snapshot);
    let has_tests = check_dir(repo_path, "tests", report, snapshot) || check_dir(
        repo_path,
        "test",
        report,
        snapshot,
    );
    report.add_check("Source Structure", "src/ directory", has_src, ComplianceLevel::Bronze);
    report.add_check("Source Structure", "tests/ directory", has_tests, ComplianceLevel::Bronze);
}

/// Every path that a run over the repository at `repo_path` may look at.
/// A snapshot that records what is at each of them holds all that a run
/// reads.
pub fn candidate_paths(repo_path: &str) -> (paths: Vec<String>)
    ensures
        paths@.map_values(|path: String| path@) == candidates(repo_path@),
{
    let well_known = join(repo_path, ".well-known");
    let mut paths: Vec<String> = Vec::new();
    paths.push(join(repo_path, "README.md"));
    paths.push(join(repo_path, "README.adoc"));
    paths.push(join(repo_path, "LICENSE.txt"));
    paths.push(join(repo_path, "SECURITY.md"));
    paths.push(join(repo_path, "CONTRIBUTING.md"));
    paths.push(join(repo_path, "CODE_OF_CONDUCT.md"));
    paths.push(join(repo_path, "MAINTAINERS.md"));
    paths.push(join(repo_path, "CHANGELOG.md"));
    paths.push(join(repo_path, ".well-known"));
    paths.push(join(well_known.as_str(), "security.txt"));
    paths.push(join(well_known.as_str(), "ai.txt"));
    paths.push(join(well_known.as_str(), "humans.txt"));
    paths.push(join(repo_path, "justfile"));
    paths.push(join(repo_path, "flake.nix"));
    paths.push(join(repo_path, ".gitlab-ci.yml"));
    paths.push(join(repo_path, "src"));
    paths.push(join(repo_path, "tests"));
    paths.push(join(repo_path, "test"));
    paths
}

/// Run all compliance checks on a repository, of which `snapshot` holds
/// what was read.
pub fn verify_repository(
    repo_path: &str,
    verified_at: Option<u64>,
    snapshot: &RepositorySnapshot,
) -> (report: ComplianceReport)
    ensures
        report@ == verified(snapshot@, repo_path@, verified_at),
        report@.total_count() == 16,
        report@.repository_path == repo_path@,
        report@.verified_at == verified_at,
{
    proof {
        law_sixteen_results(snapshot@, repo_path@, verified_at);
    }
    let mut report = ComplianceReport::new(repo_path.to_owned(), verified_at);
    check_documentation(&mut report, repo_path, snapshot);
    check_well_known(&mut report, repo_path, snapshot);
    check_build_system(&mut report, repo_path, snapshot);
    check_source_structure(&mut report, repo_path, snapshot);
    report
}

} // verus!
