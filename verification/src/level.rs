//! Compliance tiers and warning severities.

use vstd::prelude::*;

verus! {

/// A named bar of repository hygiene requirements. Only `Bronze` has checks.
#[derive(Debug, Clone, Copy, PartialEq, Eq, Structural)]
pub enum ComplianceLevel {
    Bronze,
    Silver,
    Gold,
    Platinum,
}

impl ComplianceLevel {
    /// The six hexadecimal digits of the badge colour of this tier.
    pub open spec fn badge_color_text(self) -> Seq<char> {
        match self {
            ComplianceLevel::Bronze => "cd7f32"@,
            ComplianceLevel::Silver => "c0c0c0"@,
            ComplianceLevel::Gold => "ffd700"@,
            ComplianceLevel::Platinum => "e5e4e2"@,
        }
    }

    /// The tier's name as shown to people.
    pub open spec fn display_text(self) -> Seq<char> {
        match self {
            ComplianceLevel::Bronze => "Bronze"@,
            ComplianceLevel::Silver => "Silver"@,
            ComplianceLevel::Gold => "Gold"@,
            ComplianceLevel::Platinum => "Platinum"@,
        }
    }

    /// Get the badge color for this compliance level.
    pub fn badge_color(&self) -> (color: &'static str)
        ensures
            color@ == self.badge_color_text(),
    {
        match self {
            ComplianceLevel::Bronze => "cd7f32",
            ComplianceLevel::Silver => "c0c0c0",
            ComplianceLevel::Gold => "ffd700",
            ComplianceLevel::Platinum => "e5e4e2",
        }
    }

    /// Get the display name for this compliance level.
    pub fn display_name(&self) -> (name: &'static str)
        ensures
            name@ == self.display_text(),
    {
        match self {
            ComplianceLevel::Bronze => "Bronze",
            ComplianceLevel::Silver => "Silver",
            ComplianceLevel::Gold => "Gold",
            ComplianceLevel::Platinum => "Platinum",
        }
    }
}

/// Severity of a security warning.
#[derive(Debug, Clone, Copy, PartialEq, Eq, Structural)]
pub enum WarningLevel {
    /// A symlink that stays within the repository.
    Info,
    /// Reserved.
    Warning,
    /// A symlink that leaves the repository.
    Critical,
}

} // verus!
