//! The compliance report: check results, security warnings and the
//! queries derived from them.

use vstd::prelude::*;
use crate::level::ComplianceLevel;
use crate::level::WarningLevel;

verus! {

/// One evaluated requirement.
#[derive(Debug, Clone)]
pub struct CheckResult {
    pub category: String,
    pub item: String,
    pub passed: bool,
    pub required_for: ComplianceLevel,
    pub description: Option<String>,
}

/// What a [`CheckResult`] says.
#[verifier::ext_equal]
pub struct CheckView {
    pub category: Seq<char>,
    pub item: Seq<char>,
    pub passed: bool,
    pub required_for: ComplianceLevel,
    pub description: Option<Seq<char>>,
}

impl View for CheckResult {
    type V = CheckView;

    open spec fn view(&self) -> CheckView {
        CheckView {
            category: self.category@,
            item: self.item@,
            passed: self.passed,
            required_for: self.required_for,
            description: match self.description {
                Some(text) => Some(text@),
                None => None,
            },
        }
    }
}

/// One anomaly found while a path was inspected.
#[derive(Debug, Clone)]
pub struct SecurityWarning {
    pub level: WarningLevel,
    pub message: String,
    pub path: Option<String>,
}

/// What a [`SecurityWarning`] says.
#[verifier::ext_equal]
pub struct WarningView {
    pub level: WarningLevel,
    pub message: Seq<char>,
    pub path: Option<Seq<char>>,
}

impl View for SecurityWarning {
    type V = WarningView;

    open spec fn view(&self) -> WarningView {
        WarningView {
            level: self.level,
            message: self.message@,
            path: match self.path {
                Some(text) => Some(text@),
                None => None,
            },
        }
    }
}

/// The aggregate result of one verification run.
///
/// `verified_at` counts the seconds from the Unix epoch to the run; it is
/// `None` for a clock that reads a time before the epoch.
#[derive(Debug)]
pub struct ComplianceReport {
    pub checks: Vec<CheckResult>,
    pub warnings: Vec<SecurityWarning>,
    pub repository_path: String,
    pub verified_at: Option<u64>,
}

/// What a [`ComplianceReport`] says: its checks and warnings in the order
/// in which they were added.
#[verifier::ext_equal]
pub struct ReportView {
    pub checks: Seq<CheckView>,
    pub warnings: Seq<WarningView>,
    pub repository_path: Seq<char>,
    pub verified_at: Option<u64>,
}

/// The checks of `checks`, each by its view.
pub open spec fn check_views(checks: Seq<CheckResult>) -> Seq<CheckView> {
    checks.map_values(|c: CheckResult| c@)
}

/// The warnings of `warnings`, each by its view.
pub open spec fn warning_views(warnings: Seq<SecurityWarning>) -> Seq<WarningView> {
    warnings.map_values(|w: SecurityWarning| w@)
}

impl View for ComplianceReport {
    type V = ReportView;

    open spec fn view(&self) -> ReportView {
        ReportView {
            checks: check_views(self.checks@),
            warnings: warning_views(self.warnings@),
            repository_path: self.repository_path@,
            verified_at: self.verified_at,
        }
    }
}

/// Tenths of a percent that `passed` is of `total`, rounded to the nearest
/// tenth, a tie going to the even one; 0 where `total` is 0.
pub open spec fn tenths_of_percent(passed: nat, total: nat) -> nat {
    if total == 0 {
        0
    } else {
        let quotient = (passed * 1000) / total;
        let rest = (passed * 1000) % total;
        if 2 * rest > total || (2 * rest == total && quotient % 2 == 1) {
            quotient + 1
        } else {
            quotient
        }
    }
}

/// The percentage of passed checks lies between 0 and 100, it is 0 where
/// there are no checks, and it is the tenth nearest to the exact value:
/// no further from it than half a tenth.
pub proof fn law_percentage(passed: nat, total: nat)
    requires
        passed <= total,
    ensures
        0 <= tenths_of_percent(passed, total) <= 1000,
        total == 0 ==> tenths_of_percent(passed, total) == 0,
        passed == total && total > 0 ==> tenths_of_percent(passed, total) == 1000,
        total > 0 ==> 2 * (tenths_of_percent(passed, total) * total - passed * 1000) <= total,
        total > 0 ==> 2 * (passed * 1000 - tenths_of_percent(passed, total) * total) <= total,
{
    if total > 0 {
        let quotient = (passed * 1000) / total;
        let rest = (passed * 1000) % total;
        assert(passed * 1000 == quotient * total + rest && 0 <= rest < total && quotient <= 1000
            && (quotient == 1000 ==> rest == 0) && (passed == total ==> quotient == 1000))
            by (nonlinear_arith)
            requires
                0 < total,
                passed <= total,
                quotient == (passed * 1000) / total,
                rest == (passed * 1000) % total,
        ;
        assert((quotient + 1) * total == quotient * total + total) by (nonlinear_arith);
    }
}

impl ReportView {
    /// The report with no checks and no warnings.
    pub open spec fn empty(repository_path: Seq<char>, verified_at: Option<u64>) -> ReportView {
        ReportView { checks: Seq::empty(), warnings: Seq::empty(), repository_path, verified_at }
    }

    /// This report with `check` added behind its checks.
    pub open spec fn with_check(self, check: CheckView) -> ReportView {
        ReportView { checks: self.checks.push(check), ..self }
    }

    /// This report with `warning` added behind its warnings.
    pub open spec fn with_warning(self, warning: WarningView) -> ReportView {
        ReportView { warnings: self.warnings.push(warning), ..self }
    }

    /// This report with `warnings` added behind its warnings.
    pub open spec fn with_warnings(self, warnings: Seq<WarningView>) -> ReportView {
        ReportView { warnings: self.warnings + warnings, ..self }
    }

    /// Every check that `level` requires has passed.
    pub open spec fn tier_met(self, level: ComplianceLevel) -> bool {
        forall|i: int|
            0 <= i < self.checks.len() && self.checks[i].required_for == level
                ==> self.checks[i].passed
    }

    /// The base tier is met.
    pub open spec fn bronze_compliance(self) -> bool {
        self.tier_met(ComplianceLevel::Bronze)
    }

    /// The report holds a check that `level` requires.
    pub open spec fn has_checks_for(self, level: ComplianceLevel) -> bool {
        exists|i: int|
            0 <= i < self.checks.len() && (#[trigger] self.checks[i]).required_for == level
    }

    /// The silver tier is met: the base tier is, the report holds checks of
    /// the silver tier, and all of them have passed. A report without
    /// checks of the silver tier does not meet it: a tier that asks for
    /// nothing cannot be reached.
    pub open spec fn silver_compliance(self) -> bool {
        self.bronze_compliance() && self.has_checks_for(ComplianceLevel::Silver) && self.tier_met(
            ComplianceLevel::Silver,
        )
    }

    /// One of the warnings is critical.
    pub open spec fn has_critical_warnings(self) -> bool {
        exists|i: int|
            0 <= i < self.warnings.len() && (#[trigger] self.warnings[i]).level
                == WarningLevel::Critical
    }

    /// The highest tier reached: none without the base tier or with a
    /// critical warning; else the silver tier where the report holds
    /// checks of it and all of them have passed, and the base tier where
    /// it does not. No tier above the silver one is reported.
    pub open spec fn highest_level(self) -> Option<ComplianceLevel> {
        if !self.bronze_compliance() || self.has_critical_warnings() {
            None
        } else if self.silver_compliance() {
            Some(ComplianceLevel::Silver)
        } else {
            Some(ComplianceLevel::Bronze)
        }
    }

    /// The checks that passed, in order.
    pub open spec fn passed_checks(self) -> Seq<CheckView> {
        self.checks.filter(|c: CheckView| c.passed)
    }

    /// How many checks passed.
    pub open spec fn passed_count(self) -> nat {
        self.passed_checks().len()
    }

    /// How many checks there are.
    pub open spec fn total_count(self) -> nat {
        self.checks.len()
    }

    /// The passed checks as a percentage of all, in tenths of a percent.
    pub open spec fn percentage_tenths(self) -> nat {
        tenths_of_percent(self.passed_count(), self.total_count())
    }
}

/// The passed checks of a report are no more than its checks, and their
/// percentage lies between 0 and 100.
pub proof fn law_score(report: ReportView)
    ensures
        report.passed_count() <= report.total_count(),
        report.percentage_tenths() <= 1000,
        report.total_count() == 0 ==> report.percentage_tenths() == 0,
{
    report.checks.lemma_filter_len(|c: CheckView| c.passed);
    law_percentage(report.passed_count(), report.total_count());
}

/// A report without checks of the silver tier reaches the base tier at
/// most: where the base tier is met and no warning is critical, the base
/// tier is the tier reached, and otherwise none is.
pub proof fn law_base_tier_without_silver_checks(report: ReportView)
    requires
        !report.has_checks_for(ComplianceLevel::Silver),
    ensures
        !report.silver_compliance(),
        report.highest_level() == if report.bronze_compliance()
            && !report.has_critical_warnings() {
            Some(ComplianceLevel::Bronze)
        } else {
            None
        },
{
}

/// The tier reached is the silver tier exactly where the base tier is
/// met, no warning is critical, and the report holds checks of the silver
/// tier that have all passed.
pub proof fn law_silver_needs_silver_checks(report: ReportView)
    ensures
        report.highest_level() == Some(ComplianceLevel::Silver) <==> (report.bronze_compliance()
            && !report.has_critical_warnings() && report.has_checks_for(ComplianceLevel::Silver)
            && report.tier_met(ComplianceLevel::Silver)),
        report.highest_level() is Some <==> (report.bronze_compliance()
            && !report.has_critical_warnings()),
{
}

impl ComplianceReport {
    /// Create a new empty compliance report for the repository at `path`,
    /// taken at `verified_at`.
    pub fn new(path: String, verified_at: Option<u64>) -> (report: Self)
        ensures
            report@ == ReportView::empty(path@, verified_at),
    {
        Self { checks: Vec::new(), warnings: Vec::new(), repository_path: path, verified_at }
    }

    /// Add a compliance check result.
    pub fn add_check(&mut self, category: &str, item: &str, passed: bool, level: ComplianceLevel)
        ensures
            final(self)@ == old(self)@.with_check(
                CheckView {
                    category: category@,
                    item: item@,
                    passed,
                    required_for: level,
                    description: None,
                },
            ),
    {
        self.checks.push(
            CheckResult {
                category: category.to_owned(),
                item: item.to_owned(),
                passed,
                required_for: level,
                description: None,
            },
        );
    }

    /// Add a compliance check with description.
    pub fn add_check_with_desc(
        &mut self,
        category: &str,
        item: &str,
        passed: bool,
        level: ComplianceLevel,
        description: &str,
    )
        ensures
            final(self)@ == old(self)@.with_check(
                CheckView {
                    category: category@,
                    item: item@,
                    passed,
                    required_for: level,
                    description: Some(description@),
                },
            ),
    {
        self.checks.push(
            CheckResult {
                category: category.to_owned(),
                item: item.to_owned(),
                passed,
                required_for: level,
                description: Some(description.to_owned()),
            },
        );
    }

    /// Add a security warning.
    pub fn add_warning(&mut self, level: WarningLevel, message: &str, path: Option<String>)
        ensures
            final(self)@ == old(self)@.with_warning(
                WarningView {
                    level,
                    message: message@,
                    path: match path {
                        Some(text) => Some(text@),
                        None => None,
                    },
                },
            ),
    {
        self.warnings.push(SecurityWarning { level, message: message.to_owned(), path });
    }

    /// Whether every check that `level` requires has passed.
    fn tier_met(&self, level: ComplianceLevel) -> (met: bool)
        ensures
            met == self@.tier_met(level),
    {
        let mut i: usize = 0;
        while i < self.checks.len()
            invariant
                i <= self.checks.len(),
                forall|j: int|
                    0 <= j < i && self@.checks[j].required_for == level ==> self@.checks[j].passed,
            decreases self.checks.len() - i,
        {
            if self.checks[i].required_for == level && !self.checks[i].passed {
                assert(self@.checks[i as int].required_for == level);
                return false;
            }
            i += 1;
        }
        true
    }

    /// Whether the report holds a check that `level` requires.
    fn has_checks_for(&self, level: ComplianceLevel) -> (found: bool)
        ensures
            found == self@.has_checks_for(level),
    {
        let mut i: usize = 0;
        while i < self.checks.len()
            invariant
                i <= self.checks.len(),
                forall|j: int| 0 <= j < i ==> self@.checks[j].required_for != level,
            decreases self.checks.len() - i,
        {
            if self.checks[i].required_for == level {
                assert(self@.checks[i as int].required_for == level);
                return true;
            }
            i += 1;
        }
        false
    }

    /// Check if Bronze-level compliance is met.
    pub fn bronze_compliance(&self) -> (met: bool)
        ensures
            met == self@.bronze_compliance(),
    {
        self.tier_met(ComplianceLevel::Bronze)
    }

    /// Check if Silver-level compliance is met: the report holds checks of
    /// the silver tier, they have all passed, and the base tier is met.
    pub fn silver_compliance(&self) -> (met: bool)
        ensures
            met == self@.silver_compliance(),
    {
        self.bronze_compliance() && self.has_checks_for(ComplianceLevel::Silver) && self.tier_met(
            ComplianceLevel::Silver,
        )
    }

    /// Get the highest compliance level achieved.
    pub fn highest_level(&self) -> (level: Option<ComplianceLevel>)
        ensures
            level == self@.highest_level(),
    {
        if !self.bronze_compliance() || self.has_critical_warnings() {
            return None;
        }
        if self.silver_compliance() {
            Some(ComplianceLevel::Silver)
        } else {
            Some(ComplianceLevel::Bronze)
        }
    }

    /// Count of passed checks.
    pub fn passed_count(&self) -> (count: usize)
        ensures
            count == self@.passed_count(),
    {
        let ghost passed = |c: CheckView| c.passed;
        let mut count: usize = 0;
        let mut i: usize = 0;
        while i < self.checks.len()
            invariant
                i <= self.checks.len(),
                count <= i,
                passed == |c: CheckView| c.passed,
                count == self@.checks.take(i as int).filter(passed).len(),
            decreases self.checks.len() - i,
        {
            proof {
                let head = self@.checks.take(i as int);
                assert(self@.checks.take(i + 1) == head.push(self@.checks[i as int]));
                head.lemma_filter_push(self@.checks[i as int], passed);
            }
            if self.checks[i].passed {
                count += 1;
            }
            i += 1;
        }
        assert(self@.checks.take(i as int) == self@.checks);
        count
    }

    /// Total number of checks.
    pub fn total_count(&self) -> (count: usize)
        ensures
            count == self@.total_count(),
    {
        self.checks.len()
    }

    /// Get pass percentage, in tenths of a percent: the percentage to one
    /// decimal place, a tie going to the even tenth. It is 0 for a report
    /// without checks.
    pub fn percentage_tenths(&self) -> (tenths: u64)
        ensures
            tenths == self@.percentage_tenths(),
            tenths <= 1000,
    {
        let total = self.total_count();
        let passed = self.passed_count();
        proof {
            self@.checks.lemma_filter_len(|c: CheckView| c.passed);
            law_percentage(passed as nat, total as nat);
        }
        if total == 0 {
            return 0;
        }
        let scaled: u128 = (passed as u128) * 1000;
        let quotient: u128 = scaled / (total as u128);
        let rest: u128 = scaled % (total as u128);
        assert(quotient <= 1000 && (quotient == 1000 ==> rest == 0)) by (nonlinear_arith)
            requires
                0 < total,
                passed <= total,
                scaled == passed * 1000,
                quotient == scaled / (total as u128),
                rest == scaled % (total as u128),
        ;
        if 2 * rest > total as u128 || (2 * rest == total as u128 && quotient % 2 == 1) {
            (quotient + 1) as u64
        } else {
            quotient as u64
        }
    }

    /// Check if there are any critical warnings.
    pub fn has_critical_warnings(&self) -> (found: bool)
        ensures
            found == self@.has_critical_warnings(),
    {
        let mut i: usize = 0;
        while i < self.warnings.len()
            invariant
                i <= self.warnings.len(),
                forall|j: int| 0 <= j < i ==> self@.warnings[j].level != WarningLevel::Critical,
            decreases self.warnings.len() - i,
        {
            if self.warnings[i].level == WarningLevel::Critical {
                assert(self@.warnings[i as int].level == WarningLevel::Critical);
                return true;
            }
            i += 1;
        }
        false
    }
}

} // verus!
