//! What a caller can ask of a run: the action, the output format and how
//! much to say.

use vstd::prelude::*;
use crate::level::ComplianceLevel;

verus! {

/// Output format options.
#[derive(Debug, Clone, Copy, PartialEq, Eq, Structural)]
pub enum OutputFormat {
    Human,
    Json,
    /// Static Analysis Results Interchange Format; not yet produced.
    Sarif,
}

/// Verbosity level.
#[derive(Debug, Clone, Copy, PartialEq, Eq, PartialOrd, Ord, Structural)]
pub enum Verbosity {
    /// Only pass/fail.
    Quiet,
    /// Standard output.
    Normal,
    /// Include all details.
    Verbose,
}

/// Bot action types for CI/CD integration.
#[derive(Debug, Clone, Copy, PartialEq, Eq, Structural)]
pub enum BotAction {
    /// Check compliance and report.
    Check,
    /// Check compliance and create the missing files; not yet done.
    Fix,
    /// Generate badge for README.
    Badge,
    /// Generate conformity document.
    Conformity,
}

/// Bot configuration.
#[derive(Debug, Clone)]
pub struct BotConfig {
    pub action: BotAction,
    pub create_pr: bool,
    pub fail_on_warning: bool,
    pub target_level: ComplianceLevel,
}

impl Default for BotConfig {
    fn default() -> (config: Self)
        ensures
            config.action == BotAction::Check,
            !config.create_pr,
            !config.fail_on_warning,
            config.target_level == ComplianceLevel::Bronze,
    {
        Self {
            action: BotAction::Check,
            create_pr: false,
            fail_on_warning: false,
            target_level: ComplianceLevel::Bronze,
        }
    }
}

} // verus!
