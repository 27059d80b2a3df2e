//! Repository compliance verification: a fixed battery of presence checks
//! over a snapshot of a repository, with symlink-escape detection, gathered
//! into a report with a score.
//!
//! The library reads no file system. Its caller records what it found at
//! each of the [`candidate_paths`] in a [`RepositorySnapshot`], and
//! [`verify_repository`] judges the snapshot: sixteen checks in a fixed
//! order, and a warning for every symbolic link it comes across, critical
//! where the link leaves the repository.
//!
//! - [`path`]: paths as text, their components, and the prefix test on them
//! - [`inspect`]: the symlink-aware judgement of one path
//! - [`snapshot`]: the facts read about the paths of one repository
//! - [`checks`]: the battery of checks and the report of a run
//! - [`report`]: the report, its score and its tiers
//! - [`laws`]: what holds of every run
//! - [`category`]: the checks of a report by category
//! - [`render`], [`conformity`], [`bot`]: a report as text
//! - [`cli`], [`options`], [`exit_codes`]: the command line
//! - [`text`], [`timestamp`]: numerals, escapes and calendar time

pub mod bot;
pub mod category;
pub mod checks;
pub mod cli;
pub mod conformity;
pub mod exit_codes;
pub mod inspect;
pub mod laws;
pub mod level;
pub mod options;
pub mod path;
pub mod render;
pub mod report;
pub mod snapshot;
pub mod text;
pub mod timestamp;

pub use crate::category::CategoryChecks;
pub use crate::checks::candidate_paths;
pub use crate::checks::check_build_system;
pub use crate::checks::check_dir;
pub use crate::checks::check_documentation;
pub use crate::checks::check_file;
pub use crate::checks::check_source_structure;
pub use crate::checks::check_well_known;
pub use crate::checks::verify_repository;
pub use crate::cli::parse_args;
pub use crate::cli::respond;
pub use crate::cli::CliOptions;
pub use crate::cli::Invocation;
pub use crate::cli::Response;
pub use crate::conformity::generate_badge;
pub use crate::conformity::generate_conformity_doc;
pub use crate::inspect::check_path_security;
pub use crate::inspect::resolve_link_target;
pub use crate::inspect::LinkStatus;
pub use crate::inspect::PathCheckResult;
pub use crate::inspect::PathFacts;
pub use crate::inspect::TargetKind;
pub use crate::level::ComplianceLevel;
pub use crate::level::WarningLevel;
pub use crate::options::BotAction;
pub use crate::options::BotConfig;
pub use crate::options::OutputFormat;
pub use crate::options::Verbosity;
pub use crate::render::VERSION;
pub use crate::report::CheckResult;
pub use crate::report::ComplianceReport;
pub use crate::report::SecurityWarning;
pub use crate::snapshot::PathRecord;
pub use crate::snapshot::RepositorySnapshot;
pub use crate::text::json_escape;
pub use crate::timestamp::format_timestamp;
