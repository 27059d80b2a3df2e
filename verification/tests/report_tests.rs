use rhodibot::format_timestamp;
use rhodibot::ComplianceLevel;
use rhodibot::ComplianceReport;
use rhodibot::WarningLevel;
use std::time::SystemTime;

fn seconds_now() -> u64 {
    SystemTime::now().duration_since(SystemTime::UNIX_EPOCH).map(|d| d.as_secs()).unwrap_or(0)
}

#[test]
fn lib_test_compliance_report_creation() {
    let path = String::from("/tmp/test");
    let report = ComplianceReport::new(path.clone(), Some(seconds_now()));
    assert_eq!(report.repository_path, path);
    assert_eq!(report.checks.len(), 0);
}

#[test]
fn lib_test_add_check() {
    let mut report = ComplianceReport::new(String::from("/tmp/test"), Some(seconds_now()));
    report.add_check("Test", "Item", true, ComplianceLevel::Bronze);
    assert_eq!(report.checks.len(), 1);
    assert!(report.checks[0].passed);
}

#[test]
fn lib_test_bronze_compliance_all_passing() {
    let mut report = ComplianceReport::new(String::from("/tmp/test"), Some(seconds_now()));
    report.add_check("Test", "Item1", true, ComplianceLevel::Bronze);
    report.add_check("Test", "Item2", true, ComplianceLevel::Bronze);
    assert!(report.bronze_compliance());
}

#[test]
fn lib_test_bronze_compliance_one_failing() {
    let mut report = ComplianceReport::new(String::from("/tmp/test"), Some(seconds_now()));
    report.add_check("Test", "Item1", true, ComplianceLevel::Bronze);
    report.add_check("Test", "Item2", false, ComplianceLevel::Bronze);
    assert!(!report.bronze_compliance());
}

#[test]
fn test_compliance_level_badge_colors() {
    assert_eq!(ComplianceLevel::Bronze.badge_color(), "cd7f32");
    assert_eq!(ComplianceLevel::Silver.badge_color(), "c0c0c0");
    assert_eq!(ComplianceLevel::Gold.badge_color(), "ffd700");
}

#[test]
fn lib_test_add_warning() {
    let mut report = ComplianceReport::new(String::from("/tmp/test"), Some(seconds_now()));
    report.add_warning(WarningLevel::Info, "Test warning", None);
    assert_eq!(report.warnings.len(), 1);
    assert_eq!(report.warnings[0].level, WarningLevel::Info);
}

#[test]
fn lib_test_critical_warnings_detection() {
    let mut report = ComplianceReport::new(String::from("/tmp/test"), Some(seconds_now()));
    report.add_warning(WarningLevel::Info, "Info warning", None);
    assert!(!report.has_critical_warnings());

    report.add_warning(WarningLevel::Critical, "Critical warning", None);
    assert!(report.has_critical_warnings());
}

#[test]
fn lib_test_format_timestamp() {
    let formatted = format_timestamp(Some(1705322445));
    assert!(formatted.contains("2024"));
    assert!(formatted.ends_with("Z"));
}

#[test]
fn main_test_compliance_report_creation() {
    let path = String::from("/tmp/test");
    let report = ComplianceReport::new(path.clone(), None);
    assert_eq!(report.repository_path, path);
    assert_eq!(report.checks.len(), 0);
    assert_eq!(report.warnings.len(), 0);
    assert_eq!(report.verified_at, None);
}

#[test]
fn main_test_add_check() {
    let mut report = ComplianceReport::new(String::from("/tmp/test"), None);
    report.add_check("Test", "Item", true, ComplianceLevel::Bronze);
    assert_eq!(report.checks.len(), 1);
    assert_eq!(report.checks[0].passed, true);
    assert_eq!(report.checks[0].category, "Test");
    assert_eq!(report.checks[0].item, "Item");
    assert_eq!(report.checks[0].required_for, ComplianceLevel::Bronze);
    assert_eq!(report.checks[0].description, None);
}

#[test]
fn main_test_bronze_compliance_all_passing() {
    let mut report = ComplianceReport::new(String::from("/tmp/test"), None);
    report.add_check("Test", "Item1", true, ComplianceLevel::Bronze);
    report.add_check("Test", "Item2", true, ComplianceLevel::Bronze);
    assert!(report.bronze_compliance());
}

#[test]
fn main_test_bronze_compliance_one_failing() {
    let mut report = ComplianceReport::new(String::from("/tmp/test"), None);
    report.add_check("Test", "Item1", true, ComplianceLevel::Bronze);
    report.add_check("Test", "Item2", false, ComplianceLevel::Bronze);
    assert!(!report.bronze_compliance());
}

#[test]
fn test_compliance_level_equality() {
    assert_eq!(ComplianceLevel::Bronze, ComplianceLevel::Bronze);
    assert_ne!(ComplianceLevel::Bronze, ComplianceLevel::Silver);
}

#[test]
fn main_test_add_warning() {
    let mut report = ComplianceReport::new(String::from("/tmp/test"), None);
    report.add_warning(WarningLevel::Info, "Test warning", None);
    assert_eq!(report.warnings.len(), 1);
    assert_eq!(report.warnings[0].level, WarningLevel::Info);
    assert_eq!(report.warnings[0].message, "Test warning");
    assert_eq!(report.warnings[0].path, None);
}

#[test]
fn main_test_critical_warnings_detection() {
    let mut report = ComplianceReport::new(String::from("/tmp/test"), None);
    report.add_warning(WarningLevel::Info, "Info warning", None);
    assert!(!report.has_critical_warnings());

    report.add_warning(WarningLevel::Critical, "Critical warning", None);
    assert!(report.has_critical_warnings());
}

#[test]
fn test_warning_levels() {
    assert_eq!(WarningLevel::Info, WarningLevel::Info);
    assert_ne!(WarningLevel::Info, WarningLevel::Warning);
    assert_ne!(WarningLevel::Warning, WarningLevel::Critical);
}

#[test]
fn test_report_has_timestamp() {
    let report = ComplianceReport::new(String::from("/tmp/test"), Some(seconds_now()));
    let now = seconds_now();
    let taken = report.verified_at.unwrap();
    assert!(now >= taken);
    assert!(now - taken < 5);
}

#[test]
fn main_test_format_timestamp() {
    let formatted = format_timestamp(Some(1705322445));
    assert!(formatted.contains("2024"));
    assert!(formatted.ends_with("Z"));
    assert_eq!(formatted, "2024-01-15T12:40:45Z");
}

#[test]
fn add_check_with_desc_keeps_the_description() {
    let mut report = ComplianceReport::new(String::from("/r"), None);
    report.add_check_with_desc("Docs", "README.md", false, ComplianceLevel::Silver, "why");
    assert_eq!(report.checks.len(), 1);
    assert_eq!(report.checks[0].description, Some(String::from("why")));
    assert_eq!(report.checks[0].required_for, ComplianceLevel::Silver);
    assert!(!report.checks[0].passed);
}

#[test]
fn counts_and_tiers() {
    let mut report = ComplianceReport::new(String::from("/r"), None);
    assert_eq!(report.passed_count(), 0);
    assert_eq!(report.total_count(), 0);
    assert!(report.bronze_compliance());
    report.add_check("A", "one", true, ComplianceLevel::Bronze);
    report.add_check("A", "two", false, ComplianceLevel::Silver);
    report.add_check("B", "three", true, ComplianceLevel::Gold);
    assert_eq!(report.passed_count(), 2);
    assert_eq!(report.total_count(), 3);
    assert!(report.bronze_compliance());
    assert!(!report.silver_compliance());
    assert_eq!(report.highest_level(), Some(ComplianceLevel::Bronze));
    report.add_warning(WarningLevel::Critical, "out", Some(String::from("/r/x")));
    assert_eq!(report.highest_level(), None);
}

#[test]
fn highest_level_without_silver_checks_is_bronze() {
    let mut report = ComplianceReport::new(String::from("/tmp/test"), None);
    report.add_check("Test", "Item1", true, ComplianceLevel::Bronze);
    assert!(report.bronze_compliance());
    assert!(!report.silver_compliance());
    assert_eq!(report.highest_level(), Some(ComplianceLevel::Bronze));
    report.add_check("Test", "Item2", true, ComplianceLevel::Gold);
    assert_eq!(report.highest_level(), Some(ComplianceLevel::Bronze));
    report.add_check("A", "two", false, ComplianceLevel::Bronze);
    assert!(!report.silver_compliance());
    assert_eq!(report.highest_level(), None);
}

#[test]
fn highest_level_is_silver_only_with_passed_silver_checks() {
    let mut report = ComplianceReport::new(String::from("/r"), None);
    assert!(!report.silver_compliance());
    report.add_check("A", "one", true, ComplianceLevel::Bronze);
    report.add_check("B", "two", true, ComplianceLevel::Silver);
    assert!(report.silver_compliance());
    assert_eq!(report.highest_level(), Some(ComplianceLevel::Silver));
    report.add_warning(WarningLevel::Info, "note", None);
    assert_eq!(report.highest_level(), Some(ComplianceLevel::Silver));
    report.add_check("B", "three", false, ComplianceLevel::Silver);
    assert!(!report.silver_compliance());
    assert_eq!(report.highest_level(), Some(ComplianceLevel::Bronze));

    let mut only_silver = ComplianceReport::new(String::from("/r"), None);
    only_silver.add_check("B", "two", true, ComplianceLevel::Silver);
    assert_eq!(only_silver.highest_level(), Some(ComplianceLevel::Silver));

    let mut failed_base = ComplianceReport::new(String::from("/r"), None);
    failed_base.add_check("A", "one", false, ComplianceLevel::Bronze);
    failed_base.add_check("B", "two", true, ComplianceLevel::Silver);
    assert!(!failed_base.silver_compliance());
    assert_eq!(failed_base.highest_level(), None);

    let mut flagged = ComplianceReport::new(String::from("/r"), None);
    flagged.add_check("B", "two", true, ComplianceLevel::Silver);
    flagged.add_warning(WarningLevel::Critical, "out", None);
    assert!(flagged.silver_compliance());
    assert_eq!(flagged.highest_level(), None);
}

#[test]
fn percentage_in_tenths() {
    let mut report = ComplianceReport::new(String::from("/r"), None);
    assert_eq!(report.percentage_tenths(), 0);
    report.add_check("A", "1", true, ComplianceLevel::Bronze);
    assert_eq!(report.percentage_tenths(), 1000);
    report.add_check("A", "2", false, ComplianceLevel::Bronze);
    assert_eq!(report.percentage_tenths(), 500);
    report.add_check("A", "3", false, ComplianceLevel::Bronze);
    assert_eq!(report.percentage_tenths(), 333);
    report.add_check("A", "4", true, ComplianceLevel::Bronze);
    report.add_check("A", "5", true, ComplianceLevel::Bronze);
    report.add_check("A", "6", true, ComplianceLevel::Bronze);
    assert_eq!(report.percentage_tenths(), 667);
}

#[test]
fn percentage_agrees_with_floating_point_out_of_sixteen() {
    for passed in 0..=16usize {
        let mut report = ComplianceReport::new(String::from("/r"), None);
        for i in 0..16usize {
            report.add_check("A", "x", i < passed, ComplianceLevel::Bronze);
        }
        let tenths = report.percentage_tenths();
        let text = format!("{}.{}", tenths / 10, tenths % 10);
        let float = (passed as f64 / 16.0) * 100.0;
        assert_eq!(text, format!("{:.1}", float));
    }
}

#[test]
fn percentage_agrees_with_floating_point_off_the_ties() {
    for total in 1..=120usize {
        for passed in 0..=total {
            let mut report = ComplianceReport::new(String::from("/r"), None);
            for i in 0..total {
                report.add_check("A", "x", i < passed, ComplianceLevel::Bronze);
            }
            let tenths = report.percentage_tenths();
            assert!(tenths <= 1000);
            let tie = (passed * 1000 % total) * 2 == total;
            if !tie {
                let text = format!("{}.{}", tenths / 10, tenths % 10);
                let float = (passed as f64 / total as f64) * 100.0;
                assert_eq!(text, format!("{:.1}", float), "{} of {}", passed, total);
            } else {
                assert_eq!(tenths % 2, 0, "{} of {}", passed, total);
            }
        }
    }
}
