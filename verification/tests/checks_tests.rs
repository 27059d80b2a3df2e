use rhodibot::candidate_paths;
use rhodibot::check_build_system;
use rhodibot::check_dir;
use rhodibot::check_documentation;
use rhodibot::check_file;
use rhodibot::check_path_security;
use rhodibot::check_source_structure;
use rhodibot::check_well_known;
use rhodibot::generate_badge;
use rhodibot::generate_conformity_doc;
use rhodibot::resolve_link_target;
use rhodibot::verify_repository;
use rhodibot::ComplianceLevel;
use rhodibot::ComplianceReport;
use rhodibot::LinkStatus;
use rhodibot::PathFacts;
use rhodibot::RepositorySnapshot;
use rhodibot::TargetKind;
use rhodibot::WarningLevel;

const REPO: &str = "/work/repo";

const FILES: [&str; 13] = [
    "README.md",
    "LICENSE.txt",
    "SECURITY.md",
    "CONTRIBUTING.md",
    "CODE_OF_CONDUCT.md",
    "MAINTAINERS.md",
    "CHANGELOG.md",
    ".well-known/security.txt",
    ".well-known/ai.txt",
    ".well-known/humans.txt",
    "justfile",
    "flake.nix",
    ".gitlab-ci.yml",
];

const DIRS: [&str; 3] = [".well-known", "src", "tests"];

const ITEMS: [(&str, &str); 16] = [
    ("Documentation", "README.md"),
    ("Documentation", "LICENSE.txt"),
    ("Documentation", "SECURITY.md"),
    ("Documentation", "CONTRIBUTING.md"),
    ("Documentation", "CODE_OF_CONDUCT.md"),
    ("Documentation", "MAINTAINERS.md"),
    ("Documentation", "CHANGELOG.md"),
    ("Well-Known", ".well-known/ directory"),
    ("Well-Known", "security.txt"),
    ("Well-Known", "ai.txt"),
    ("Well-Known", "humans.txt"),
    ("Build System", "justfile"),
    ("Build System", "flake.nix"),
    ("Build System", ".gitlab-ci.yml"),
    ("Source Structure", "src/ directory"),
    ("Source Structure", "tests/ directory"),
];

fn at(name: &str) -> String {
    format!("{}/{}", REPO, name)
}

fn full_snapshot() -> RepositorySnapshot {
    let mut snapshot = RepositorySnapshot::new();
    for name in FILES {
        snapshot.record(at(name), PathFacts::file());
    }
    for name in DIRS {
        snapshot.record(at(name), PathFacts::directory());
    }
    snapshot
}

fn link(target: &str, canonical: Option<&str>, leads_to: TargetKind) -> PathFacts {
    PathFacts {
        status: LinkStatus::Symlink,
        link_target: Some(String::from(target)),
        canonical_root: Some(String::from(REPO)),
        canonical_target: canonical.map(String::from),
        leads_to,
    }
}

fn passed_of(report: &ComplianceReport, item: &str) -> bool {
    let found: Vec<bool> =
        report.checks.iter().filter(|c| c.item == item).map(|c| c.passed).collect();
    assert_eq!(found.len(), 1);
    found[0]
}

fn assert_the_sixteen(report: &ComplianceReport) {
    assert_eq!(report.total_count(), 16);
    assert_eq!(report.checks.len(), 16);
    for (i, (category, item)) in ITEMS.iter().enumerate() {
        assert_eq!(report.checks[i].category, *category);
        assert_eq!(report.checks[i].item, *item);
        assert_eq!(report.checks[i].required_for, ComplianceLevel::Bronze);
        assert_eq!(report.checks[i].description, None);
    }
}

#[test]
fn empty_repository_passes_nothing() {
    let snapshot = RepositorySnapshot::new();
    let report = verify_repository(REPO, Some(7), &snapshot);
    assert_the_sixteen(&report);
    assert_eq!(report.passed_count(), 0);
    assert!(!report.bronze_compliance());
    assert_eq!(report.warnings.len(), 0);
    assert!(!report.has_critical_warnings());
    assert_eq!(report.highest_level(), None);
    assert_eq!(report.percentage_tenths(), 0);
    assert_eq!(report.repository_path, REPO);
    assert_eq!(report.verified_at, Some(7));
}

#[test]
fn fully_present_repository_is_compliant() {
    let snapshot = full_snapshot();
    let report = verify_repository(REPO, None, &snapshot);
    assert_the_sixteen(&report);
    assert_eq!(report.passed_count(), 16);
    assert!(report.bronze_compliance());
    assert_eq!(report.warnings.len(), 0);
    assert_eq!(report.percentage_tenths(), 1000);
}

#[test]
fn fully_present_repository_reaches_the_base_tier() {
    let report = verify_repository(REPO, Some(0), &full_snapshot());
    assert!(!report.silver_compliance());
    assert_eq!(report.highest_level(), Some(ComplianceLevel::Bronze));
    assert_eq!(
        generate_badge(report.highest_level().unwrap()),
        generate_badge(ComplianceLevel::Bronze)
    );
    let statement = generate_conformity_doc(&report);
    assert!(statement.contains("**RSR Level**: Bronze\n"));
    assert!(statement.contains("## Bronze Requirements Met\n\n| Requirement | Status |\n"));
    for (_, item) in ITEMS {
        assert!(statement.contains(&format!("| {} | Yes |\n", item)));
    }
    assert!(statement.contains("`16/16 checks passed (100.0%)`"));
}

#[test]
fn each_missing_entry_fails_the_tier() {
    for missing in FILES.iter().chain(DIRS.iter()) {
        let mut snapshot = full_snapshot();
        snapshot.record(at(missing), PathFacts::missing());
        let report = verify_repository(REPO, None, &snapshot);
        assert_the_sixteen(&report);
        assert!(!report.bronze_compliance());
        let expected = if *missing == ".well-known" { 12 } else { 15 };
        assert_eq!(report.passed_count(), expected);
        assert_eq!(report.warnings.len(), 0);
    }
}

#[test]
fn partially_present_repository() {
    let mut snapshot = RepositorySnapshot::new();
    snapshot.record(at("README.md"), PathFacts::file());
    snapshot.record(at("LICENSE.txt"), PathFacts::file());
    snapshot.record(at("src"), PathFacts::directory());
    let report = verify_repository(REPO, None, &snapshot);
    assert_the_sixteen(&report);
    assert_eq!(report.passed_count(), 3);
    assert!(!report.bronze_compliance());
    assert_eq!(report.percentage_tenths(), 188);
}

#[test]
fn file_where_a_directory_is_asked_fails() {
    let mut snapshot = full_snapshot();
    snapshot.record(at("src"), PathFacts::file());
    snapshot.record(at("justfile"), PathFacts::directory());
    let report = verify_repository(REPO, None, &snapshot);
    assert!(!passed_of(&report, "src/ directory"));
    assert!(!passed_of(&report, "justfile"));
    assert_eq!(report.passed_count(), 14);
}

#[test]
fn readme_in_either_form() {
    let mut only_md = RepositorySnapshot::new();
    only_md.record(at("README.md"), PathFacts::file());
    assert!(passed_of(&verify_repository(REPO, None, &only_md), "README.md"));

    let mut only_adoc = RepositorySnapshot::new();
    only_adoc.record(at("README.adoc"), PathFacts::file());
    let report = verify_repository(REPO, None, &only_adoc);
    assert!(passed_of(&report, "README.md"));
    assert_eq!(report.passed_count(), 1);
    assert_the_sixteen(&report);

    let neither = RepositorySnapshot::new();
    assert!(!passed_of(&verify_repository(REPO, None, &neither), "README.md"));

    let mut both = RepositorySnapshot::new();
    both.record(at("README.md"), PathFacts::file());
    both.record(at("README.adoc"), PathFacts::file());
    let report = verify_repository(REPO, None, &both);
    assert!(passed_of(&report, "README.md"));
    assert_eq!(report.passed_count(), 1);
}

#[test]
fn second_readme_is_probed_only_without_the_first() {
    let mut snapshot = RepositorySnapshot::new();
    snapshot.record(at("README.md"), PathFacts::file());
    snapshot.record(at("README.adoc"), link("/etc/motd", Some("/etc/motd"), TargetKind::File));
    let report = verify_repository(REPO, None, &snapshot);
    assert_eq!(report.warnings.len(), 0);

    let mut snapshot = RepositorySnapshot::new();
    snapshot.record(at("README.adoc"), link("/etc/motd", Some("/etc/motd"), TargetKind::File));
    let report = verify_repository(REPO, None, &snapshot);
    assert_eq!(report.warnings.len(), 1);
    assert_eq!(report.warnings[0].level, WarningLevel::Critical);
    assert!(passed_of(&report, "README.md"));
}

#[test]
fn tests_directory_under_either_name() {
    let mut plural = RepositorySnapshot::new();
    plural.record(at("tests"), PathFacts::directory());
    assert!(passed_of(&verify_repository(REPO, None, &plural), "tests/ directory"));

    let mut singular = RepositorySnapshot::new();
    singular.record(at("test"), PathFacts::directory());
    assert!(passed_of(&verify_repository(REPO, None, &singular), "tests/ directory"));

    let neither = RepositorySnapshot::new();
    assert!(!passed_of(&verify_repository(REPO, None, &neither), "tests/ directory"));

    let mut a_file = RepositorySnapshot::new();
    a_file.record(at("test"), PathFacts::file());
    assert!(!passed_of(&verify_repository(REPO, None, &a_file), "tests/ directory"));
}

#[test]
fn well_known_files_fail_without_the_directory() {
    let mut snapshot = full_snapshot();
    snapshot.record(at(".well-known"), PathFacts::missing());
    snapshot.record(
        at(".well-known/ai.txt"),
        link("/etc/passwd", Some("/etc/passwd"), TargetKind::File),
    );
    let report = verify_repository(REPO, None, &snapshot);
    assert_the_sixteen(&report);
    assert!(!passed_of(&report, ".well-known/ directory"));
    assert!(!passed_of(&report, "security.txt"));
    assert!(!passed_of(&report, "ai.txt"));
    assert!(!passed_of(&report, "humans.txt"));
    assert_eq!(report.warnings.len(), 0);
    assert_eq!(report.passed_count(), 12);
}

#[test]
fn link_within_the_repository_counts_and_is_noted() {
    let mut snapshot = full_snapshot();
    snapshot.record(
        at("LICENSE.txt"),
        link("docs/LICENSE", Some("/work/repo/docs/LICENSE"), TargetKind::File),
    );
    let report = verify_repository(REPO, None, &snapshot);
    assert_eq!(report.passed_count(), 16);
    assert!(report.bronze_compliance());
    assert_eq!(report.warnings.len(), 1);
    assert_eq!(report.warnings[0].level, WarningLevel::Info);
    assert_eq!(report.warnings[0].message, "'LICENSE.txt' is a symlink (within repository bounds)");
    assert_eq!(report.warnings[0].path, Some(at("LICENSE.txt")));
    assert!(!report.has_critical_warnings());
}

#[test]
fn link_within_the_repository_to_the_wrong_kind_fails() {
    let mut snapshot = full_snapshot();
    snapshot.record(
        at("LICENSE.txt"),
        link("src", Some("/work/repo/src"), TargetKind::Directory),
    );
    let report = verify_repository(REPO, None, &snapshot);
    assert!(!passed_of(&report, "LICENSE.txt"));
    assert_eq!(report.warnings.len(), 1);
    assert_eq!(report.warnings[0].level, WarningLevel::Info);
}

#[test]
fn license_linked_to_an_outside_file() {
    let mut snapshot = full_snapshot();
    snapshot.record(
        at("LICENSE.txt"),
        link("/etc/passwd", Some("/etc/passwd"), TargetKind::File),
    );
    let report = verify_repository(REPO, None, &snapshot);
    assert_the_sixteen(&report);
    assert_eq!(report.warnings.len(), 1);
    assert_eq!(report.warnings[0].level, WarningLevel::Critical);
    assert_eq!(
        report.warnings[0].message,
        "Symlink 'LICENSE.txt' points outside repository to '/etc/passwd'"
    );
    assert_eq!(report.warnings[0].path, Some(at("LICENSE.txt")));
    assert!(report.has_critical_warnings());
    assert!(passed_of(&report, "LICENSE.txt"));
    assert!(report.bronze_compliance());
    assert_eq!(report.highest_level(), None);
}

#[test]
fn license_linked_to_nothing_outside() {
    let mut snapshot = full_snapshot();
    snapshot.record(at("LICENSE.txt"), link("/nowhere/at/all", None, TargetKind::Nothing));
    let report = verify_repository(REPO, None, &snapshot);
    assert_eq!(report.warnings.len(), 1);
    assert_eq!(report.warnings[0].level, WarningLevel::Critical);
    assert!(!passed_of(&report, "LICENSE.txt"));
    assert!(!report.bronze_compliance());
}

#[test]
fn relative_link_that_climbs_out() {
    let mut snapshot = full_snapshot();
    snapshot.record(
        at("src"),
        link("../other/src", Some("/work/other/src"), TargetKind::Directory),
    );
    let report = verify_repository(REPO, None, &snapshot);
    assert_eq!(report.warnings.len(), 1);
    assert_eq!(report.warnings[0].level, WarningLevel::Critical);
    assert_eq!(
        report.warnings[0].message,
        "Symlink directory 'src' points outside repository to '/work/repo/../other/src'"
    );
    assert!(passed_of(&report, "src/ directory"));
}

#[test]
fn link_directory_within_bounds() {
    let mut snapshot = full_snapshot();
    snapshot.record(at("tests"), link("spec", Some("/work/repo/spec"), TargetKind::Directory));
    let report = verify_repository(REPO, None, &snapshot);
    assert_eq!(report.warnings.len(), 1);
    assert_eq!(
        report.warnings[0].message,
        "'tests' is a symlink directory (within repository bounds)"
    );
    assert_eq!(report.passed_count(), 16);
}

#[test]
fn sibling_with_the_same_prefix_is_outside() {
    let mut snapshot = full_snapshot();
    snapshot.record(
        at("justfile"),
        link("/work/repo-evil/justfile", Some("/work/repo-evil/justfile"), TargetKind::File),
    );
    let report = verify_repository(REPO, None, &snapshot);
    assert_eq!(report.warnings.len(), 1);
    assert_eq!(report.warnings[0].level, WarningLevel::Critical);
}

#[test]
fn unreadable_link_is_not_flagged() {
    let mut snapshot = full_snapshot();
    snapshot.record(
        at("flake.nix"),
        PathFacts {
            status: LinkStatus::Symlink,
            link_target: None,
            canonical_root: None,
            canonical_target: None,
            leads_to: TargetKind::File,
        },
    );
    let report = verify_repository(REPO, None, &snapshot);
    assert_eq!(report.warnings.len(), 1);
    assert_eq!(report.warnings[0].level, WarningLevel::Info);
    assert!(passed_of(&report, "flake.nix"));
}

#[test]
fn later_record_replaces_the_earlier() {
    let mut snapshot = RepositorySnapshot::new();
    snapshot.record(at("README.md"), PathFacts::missing());
    snapshot.record(at("README.md"), PathFacts::file());
    assert_eq!(snapshot.facts_for(&at("README.md")).leads_to, TargetKind::File);
    assert_eq!(snapshot.facts_for(&at("OTHER")).status, LinkStatus::Missing);
    snapshot.record(at("README.md"), PathFacts::missing());
    assert_eq!(snapshot.facts_for(&at("README.md")).status, LinkStatus::Missing);
}

#[test]
fn inspection_of_each_kind_of_entry() {
    let missing = check_path_security("/r/x", "/r", &PathFacts::missing());
    assert!(!missing.exists && !missing.is_symlink && !missing.escapes_repo);
    assert_eq!(missing.target, None);

    let plain = check_path_security("/r/x", "/r", &PathFacts::file());
    assert!(plain.exists && !plain.is_symlink && !plain.escapes_repo);
    assert_eq!(plain.target, None);

    let inside = PathFacts {
        status: LinkStatus::Symlink,
        link_target: Some(String::from("y")),
        canonical_root: Some(String::from("/real/r")),
        canonical_target: Some(String::from("/real/r/y")),
        leads_to: TargetKind::File,
    };
    let found = check_path_security("/r/x", "/r", &inside);
    assert!(found.exists && found.is_symlink && !found.escapes_repo);
    assert_eq!(found.target, Some(String::from("/r/y")));

    let outside = PathFacts {
        status: LinkStatus::Symlink,
        link_target: Some(String::from("../y")),
        canonical_root: Some(String::from("/real/r")),
        canonical_target: Some(String::from("/real/y")),
        leads_to: TargetKind::File,
    };
    let found = check_path_security("/r/x", "/r", &outside);
    assert!(found.exists && found.is_symlink && found.escapes_repo);
    assert_eq!(found.target, Some(String::from("/r/../y")));

    let the_root_itself = PathFacts {
        status: LinkStatus::Symlink,
        link_target: Some(String::from(".")),
        canonical_root: Some(String::from("/real/r")),
        canonical_target: Some(String::from("/real/r")),
        leads_to: TargetKind::Directory,
    };
    assert!(!check_path_security("/r/x", "/r", &the_root_itself).escapes_repo);
}

#[test]
fn inspection_falls_back_to_what_is_not_canonical() {
    let dangling_inside = PathFacts {
        status: LinkStatus::Symlink,
        link_target: Some(String::from("gone")),
        canonical_root: None,
        canonical_target: None,
        leads_to: TargetKind::Nothing,
    };
    let found = check_path_security("/r/x", "/r", &dangling_inside);
    assert!(found.is_symlink && !found.escapes_repo);
    assert_eq!(found.target, Some(String::from("/r/gone")));

    let dangling_outside = PathFacts {
        status: LinkStatus::Symlink,
        link_target: Some(String::from("/elsewhere/gone")),
        canonical_root: None,
        canonical_target: None,
        leads_to: TargetKind::Nothing,
    };
    assert!(check_path_security("/r/x", "/r", &dangling_outside).escapes_repo);

    let relative_root = PathFacts {
        status: LinkStatus::Symlink,
        link_target: Some(String::from("gone")),
        canonical_root: Some(String::from("/abs/r")),
        canonical_target: None,
        leads_to: TargetKind::Nothing,
    };
    assert!(check_path_security("./x", ".", &relative_root).escapes_repo);
}

#[test]
fn link_targets_resolve_from_the_link_directory() {
    assert_eq!(resolve_link_target("/r/a/link", "t"), "/r/a/t");
    assert_eq!(resolve_link_target("/r/a/link", "../t"), "/r/a/../t");
    assert_eq!(resolve_link_target("/r/a/link", "/abs/t"), "/abs/t");
    assert_eq!(resolve_link_target("link", "t"), "t");
    assert_eq!(resolve_link_target("/link", "t"), "/t");
    assert_eq!(resolve_link_target("/", "t"), "t");
    assert_eq!(resolve_link_target("r//link", "t"), "r/t");
}

#[test]
fn single_checks_report_and_return() {
    let mut snapshot = RepositorySnapshot::new();
    snapshot.record(String::from("/r/a"), PathFacts::file());
    snapshot.record(String::from("/r/d"), PathFacts::directory());
    let mut report = ComplianceReport::new(String::from("/r"), None);
    assert!(check_file("/r", "a", &mut report, &snapshot));
    assert!(!check_file("/r", "d", &mut report, &snapshot));
    assert!(!check_file("/r", "none", &mut report, &snapshot));
    assert!(check_dir("/r", "d", &mut report, &snapshot));
    assert!(!check_dir("/r", "a", &mut report, &snapshot));
    assert!(check_file("/r/", "a", &mut report, &snapshot));
    assert_eq!(report.checks.len(), 0);
    assert_eq!(report.warnings.len(), 0);
}

#[test]
fn stages_add_their_checks() {
    let snapshot = full_snapshot();
    let mut report = ComplianceReport::new(String::from(REPO), None);
    check_documentation(&mut report, REPO, &snapshot);
    assert_eq!(report.checks.len(), 7);
    check_well_known(&mut report, REPO, &snapshot);
    assert_eq!(report.checks.len(), 11);
    check_build_system(&mut report, REPO, &snapshot);
    assert_eq!(report.checks.len(), 14);
    check_source_structure(&mut report, REPO, &snapshot);
    assert_eq!(report.checks.len(), 16);
    assert_eq!(report.passed_count(), 16);
    assert_the_sixteen(&report);
}

#[test]
fn candidates_are_the_eighteen_paths() {
    let paths = candidate_paths(REPO);
    assert_eq!(paths.len(), 18);
    assert_eq!(paths[0], "/work/repo/README.md");
    assert_eq!(paths[1], "/work/repo/README.adoc");
    assert_eq!(paths[8], "/work/repo/.well-known");
    assert_eq!(paths[9], "/work/repo/.well-known/security.txt");
    assert_eq!(paths[17], "/work/repo/test");
    for name in FILES.iter().chain(DIRS.iter()) {
        assert!(paths.contains(&at(name)));
    }
}

#[test]
fn only_candidates_are_read() {
    let mut snapshot = full_snapshot();
    let plain = verify_repository(REPO, None, &snapshot);
    snapshot.record(at("Cargo.toml"), link("/etc/passwd", Some("/etc/passwd"), TargetKind::File));
    snapshot.record(at("src/main.rs"), PathFacts::file());
    let more = verify_repository(REPO, None, &snapshot);
    assert_eq!(plain.warnings.len(), more.warnings.len());
    assert_eq!(plain.passed_count(), more.passed_count());
}
