//! Exit codes for the different ways in which a run ends.

use vstd::prelude::*;
use crate::report::ComplianceReport;
use crate::report::ReportView;

verus! {

/// The base tier is met and nothing critical was found.
pub const SUCCESS: i32 = 0;

/// The base tier is not met.
pub const COMPLIANCE_FAILED: i32 = 1;

/// A critical security warning was raised.
pub const SECURITY_WARNING: i32 = 2;

/// The path given is no directory.
pub const INVALID_PATH: i32 = 3;

/// The arguments given cannot be understood.
pub const INVALID_ARGS: i32 = 4;

/// The exit code that `report` calls for: a critical warning goes before a
/// failed tier.
pub open spec fn report_code(report: ReportView) -> i32 {
    if report.has_critical_warnings() {
        SECURITY_WARNING
    } else if !report.bronze_compliance() {
        COMPLIANCE_FAILED
    } else {
        SUCCESS
    }
}

/// The exit code with which a run that gave `report` ends.
pub fn exit_code(report: &ComplianceReport) -> (code: i32)
    ensures
        code == report_code(report@),
{
    if report.has_critical_warnings() {
        SECURITY_WARNING
    } else if !report.bronze_compliance() {
        COMPLIANCE_FAILED
    } else {
        SUCCESS
    }
}

} // verus!
