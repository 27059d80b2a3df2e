//! Integration with CI/CD platforms: which platform a run is on, the
//! pipeline definitions that run the checks there, and the output that
//! each platform understands.

use vstd::prelude::*;

pub mod github_actions;
pub mod gitlab_ci;

verus! {

/// Detected CI/CD platform.
#[derive(Debug, Clone, Copy, PartialEq, Eq, Structural)]
pub enum CIPlatform {
    GitHubActions,
    GitLabCI,
    CircleCI,
    Travis,
    Jenkins,
    Unknown,
}

/// Which of the variables that the CI/CD platforms set are set.
#[derive(Debug, Clone, Copy, PartialEq, Eq, Structural)]
pub struct CIEnvironment {
    /// `GITHUB_ACTIONS` is set.
    pub github_actions: bool,
    /// `GITLAB_CI` is set.
    pub gitlab_ci: bool,
    /// `CIRCLECI` is set.
    pub circleci: bool,
    /// `TRAVIS` is set.
    pub travis: bool,
    /// `JENKINS_URL` is set.
    pub jenkins_url: bool,
}

impl CIPlatform {
    /// The platform that `environment` shows: the first, in the order of
    /// the variants, whose variable is set.
    pub open spec fn detected(environment: CIEnvironment) -> CIPlatform {
        if environment.github_actions {
            CIPlatform::GitHubActions
        } else if environment.gitlab_ci {
            CIPlatform::GitLabCI
        } else if environment.circleci {
            CIPlatform::CircleCI
        } else if environment.travis {
            CIPlatform::Travis
        } else if environment.jenkins_url {
            CIPlatform::Jenkins
        } else {
            CIPlatform::Unknown
        }
    }

    /// The platform's name as shown to people.
    pub open spec fn name_text(self) -> Seq<char> {
        match self {
            CIPlatform::GitHubActions => "GitHub Actions"@,
            CIPlatform::GitLabCI => "GitLab CI"@,
            CIPlatform::CircleCI => "CircleCI"@,
            CIPlatform::Travis => "Travis CI"@,
            CIPlatform::Jenkins => "Jenkins"@,
            CIPlatform::Unknown => "Unknown"@,
        }
    }

    /// Detect the current CI/CD platform from the variables of the
    /// environment that are set.
    pub fn detect(environment: CIEnvironment) -> (platform: Self)
        ensures
            platform == CIPlatform::detected(environment),
    {
        if environment.github_actions {
            CIPlatform::GitHubActions
        } else if environment.gitlab_ci {
            CIPlatform::GitLabCI
        } else if environment.circleci {
            CIPlatform::CircleCI
        } else if environment.travis {
            CIPlatform::Travis
        } else if environment.jenkins_url {
            CIPlatform::Jenkins
        } else {
            CIPlatform::Unknown
        }
    }

    /// Get a human-readable name for the platform.
    pub fn name(&self) -> (name: &'static str)
        ensures
            name@ == self.name_text(),
    {
        match self {
            CIPlatform::GitHubActions => "GitHub Actions",
            CIPlatform::GitLabCI => "GitLab CI",
            CIPlatform::CircleCI => "CircleCI",
            CIPlatform::Travis => "Travis CI",
            CIPlatform::Jenkins => "Jenkins",
            CIPlatform::Unknown => "Unknown",
        }
    }
}

/// The GitHub Actions workflow that runs the compliance check.
pub const GITHUB_ACTIONS_WORKFLOW: &'static str = r#"# Rhodibot RSR Compliance Check
# This workflow checks your repository for Rhodium Standard Repository compliance

name: RSR Compliance

on:
  push:
    branches: [main, master]
  pull_request:
    branches: [main, master]
  schedule:
    # Run weekly on Mondays at 00:00 UTC
    - cron: '0 0 * * 1'

jobs:
  rhodibot:
    name: RSR Compliance Check
    runs-on: ubuntu-latest
    steps:
      - name: Checkout repository
        uses: actions/checkout@v4

      - name: Install Rust
        uses: dtolnay/rust-action@stable

      - name: Install Rhodibot
        run: cargo install rhodibot

      - name: Run RSR compliance check
        id: check
        run: |
          rhodibot check . --format json > rhodibot-report.json
          rhodibot check .
        continue-on-error: true

      - name: Generate badge
        run: rhodibot badge > RSR_BADGE.md

      - name: Upload report
        uses: actions/upload-artifact@v4
        with:
          name: rhodibot-report
          path: rhodibot-report.json

      - name: Check result
        if: steps.check.outcome == 'failure'
        run: |
          echo "RSR compliance check failed!"
          exit 1
"#;

/// The GitLab CI job that runs the compliance check.
pub const GITLAB_CI_CONFIG: &'static str = r#"# Rhodibot RSR Compliance Check
# Add this to your .gitlab-ci.yml

rhodibot:
  stage: test
  image: rust:latest
  before_script:
    - cargo install rhodibot
  script:
    - rhodibot check . --format json > rhodibot-report.json
    - rhodibot check .
  artifacts:
    reports:
      dotenv: rhodibot.env
    paths:
      - rhodibot-report.json
    when: always
  allow_failure: false
  rules:
    - if: $CI_PIPELINE_SOURCE == "merge_request_event"
    - if: $CI_COMMIT_BRANCH == $CI_DEFAULT_BRANCH
    - if: $CI_PIPELINE_SOURCE == "schedule"
"#;

/// Generate GitHub Actions workflow file.
pub fn generate_github_actions_workflow() -> (workflow: String)
    ensures
        workflow@ == GITHUB_ACTIONS_WORKFLOW@,
{
    GITHUB_ACTIONS_WORKFLOW.to_owned()
}

/// Generate GitLab CI configuration.
pub fn generate_gitlab_ci_config() -> (config: String)
    ensures
        config@ == GITLAB_CI_CONFIG@,
{
    GITLAB_CI_CONFIG.to_owned()
}

} // verus!
