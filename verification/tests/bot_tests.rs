use rhodibot::bot::generate_github_actions_workflow;
use rhodibot::bot::generate_gitlab_ci_config;
use rhodibot::bot::CIEnvironment;
use rhodibot::bot::CIPlatform;

#[test]
fn test_generate_github_workflow() {
    let workflow = generate_github_actions_workflow();
    assert!(workflow.contains("rhodibot"));
    assert!(workflow.contains("actions/checkout"));
}

#[test]
fn test_generate_gitlab_config() {
    let config = generate_gitlab_ci_config();
    assert!(config.contains("rhodibot"));
    assert!(config.contains("stage: test"));
}

#[test]
fn workflow_texts_keep_their_layout() {
    let workflow = generate_github_actions_workflow();
    assert!(workflow.starts_with("# Rhodibot RSR Compliance Check\n# This workflow"));
    assert!(workflow.contains("\n  push:\n    branches: [main, master]\n"));
    assert!(workflow.ends_with("          exit 1\n"));
    let config = generate_gitlab_ci_config();
    assert!(config.starts_with("# Rhodibot RSR Compliance Check\n# Add this to your .gitlab-ci.yml\n\nrhodibot:\n  stage: test\n"));
    assert!(config.ends_with("    - if: $CI_PIPELINE_SOURCE == \"schedule\"\n"));
}

#[test]
fn test_ci_platform_detection() {
    let none = CIEnvironment {
        github_actions: false,
        gitlab_ci: false,
        circleci: false,
        travis: false,
        jenkins_url: false,
    };
    assert_eq!(CIPlatform::detect(none), CIPlatform::Unknown);
    assert_eq!(CIPlatform::detect(none).name(), "Unknown");
    let all = CIEnvironment {
        github_actions: true,
        gitlab_ci: true,
        circleci: true,
        travis: true,
        jenkins_url: true,
    };
    assert_eq!(CIPlatform::detect(all), CIPlatform::GitHubActions);
    assert_eq!(CIPlatform::detect(CIEnvironment { github_actions: false, ..all }), CIPlatform::GitLabCI);
    assert_eq!(
        CIPlatform::detect(CIEnvironment { github_actions: false, gitlab_ci: false, ..all }),
        CIPlatform::CircleCI
    );
    assert_eq!(CIPlatform::detect(CIEnvironment { travis: true, ..none }), CIPlatform::Travis);
    assert_eq!(CIPlatform::detect(CIEnvironment { jenkins_url: true, ..none }), CIPlatform::Jenkins);
}

#[test]
fn platform_names() {
    assert_eq!(CIPlatform::GitHubActions.name(), "GitHub Actions");
    assert_eq!(CIPlatform::GitLabCI.name(), "GitLab CI");
    assert_eq!(CIPlatform::CircleCI.name(), "CircleCI");
    assert_eq!(CIPlatform::Travis.name(), "Travis CI");
    assert_eq!(CIPlatform::Jenkins.name(), "Jenkins");
    assert_eq!(CIPlatform::Unknown.name(), "Unknown");
}
