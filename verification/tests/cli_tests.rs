use rhodibot::cli::respond_help;
use rhodibot::cli::respond_invalid;
use rhodibot::cli::respond_version;
use rhodibot::cli::HELP;
use rhodibot::generate_badge;
use rhodibot::generate_conformity_doc;
use rhodibot::parse_args;
use rhodibot::render::render_json_report;
use rhodibot::render::render_quiet_report;
use rhodibot::render::render_report;
use rhodibot::render::render_verbose_report;
use rhodibot::respond;
use rhodibot::BotAction;
use rhodibot::BotConfig;
use rhodibot::CliOptions;
use rhodibot::ComplianceLevel;
use rhodibot::ComplianceReport;
use rhodibot::Invocation;
use rhodibot::OutputFormat;
use rhodibot::Verbosity;
use rhodibot::WarningLevel;
use rhodibot::VERSION;

fn args(list: &[&str]) -> Vec<String> {
    let mut all = vec![String::from("rhodibot")];
    all.extend(list.iter().map(|s| s.to_string()));
    all
}

fn run(list: &[&str]) -> CliOptions {
    match parse_args(&args(list)) {
        Ok(Invocation::Run(options)) => options,
        other => panic!("{:?}", other),
    }
}

fn error(list: &[&str]) -> String {
    match parse_args(&args(list)) {
        Err(message) => message,
        other => panic!("{:?}", other),
    }
}

fn options(action: BotAction, format: OutputFormat, verbosity: Verbosity) -> CliOptions {
    CliOptions { repo_path: None, format, verbosity, action }
}

fn failing() -> ComplianceReport {
    let mut report = ComplianceReport::new(String::from("/work/repo"), Some(0));
    report.add_check("Documentation", "README.md", false, ComplianceLevel::Bronze);
    report
}

fn passing() -> ComplianceReport {
    let mut report = ComplianceReport::new(String::from("/work/repo"), Some(0));
    report.add_check("Documentation", "README.md", true, ComplianceLevel::Bronze);
    report
}

#[test]
fn no_arguments_give_the_defaults() {
    let parsed = run(&[]);
    assert_eq!(parsed.repo_path, None);
    assert_eq!(parsed.format, OutputFormat::Human);
    assert_eq!(parsed.verbosity, Verbosity::Normal);
    assert_eq!(parsed.action, BotAction::Check);
    let none: Vec<String> = Vec::new();
    assert!(matches!(parse_args(&none), Ok(Invocation::Run(_))));
}

#[test]
fn commands_options_and_a_path() {
    let parsed = run(&["check", "/path/to/repo"]);
    assert_eq!(parsed.action, BotAction::Check);
    assert_eq!(parsed.repo_path, Some(String::from("/path/to/repo")));
    assert_eq!(run(&["badge"]).action, BotAction::Badge);
    assert_eq!(run(&["conformity"]).action, BotAction::Conformity);
    assert_eq!(run(&["fix"]).action, BotAction::Fix);
    assert_eq!(run(&["badge", "check"]).action, BotAction::Check);
    assert_eq!(run(&["-q"]).verbosity, Verbosity::Quiet);
    assert_eq!(run(&["--quiet"]).verbosity, Verbosity::Quiet);
    assert_eq!(run(&["-v"]).verbosity, Verbosity::Verbose);
    assert_eq!(run(&["--verbose"]).verbosity, Verbosity::Verbose);
    assert_eq!(run(&["-q", "-v"]).verbosity, Verbosity::Verbose);
    assert_eq!(run(&["-f", "json"]).format, OutputFormat::Json);
    assert_eq!(run(&["--format", "json"]).format, OutputFormat::Json);
    assert_eq!(run(&["--format", "human"]).format, OutputFormat::Human);
    assert_eq!(run(&["--format=json"]).format, OutputFormat::Json);
    assert_eq!(run(&["--format=json", "--format=human"]).format, OutputFormat::Human);
    let parsed = run(&["repo", "--format", "json", "-q", "conformity"]);
    assert_eq!(parsed.repo_path, Some(String::from("repo")));
    assert_eq!(parsed.format, OutputFormat::Json);
    assert_eq!(parsed.verbosity, Verbosity::Quiet);
    assert_eq!(parsed.action, BotAction::Conformity);
    assert_eq!(run(&[""]).repo_path, Some(String::new()));
    assert_eq!(run(&["-f", "json", "json"]).repo_path, Some(String::from("json")));
}

#[test]
fn help_and_version_end_the_reading() {
    assert!(matches!(parse_args(&args(&["-h"])), Ok(Invocation::Help)));
    assert!(matches!(parse_args(&args(&["--help"])), Ok(Invocation::Help)));
    assert!(matches!(parse_args(&args(&["-V"])), Ok(Invocation::Version)));
    assert!(matches!(parse_args(&args(&["--version"])), Ok(Invocation::Version)));
    assert!(matches!(parse_args(&args(&["--help", "--bogus"])), Ok(Invocation::Help)));
    assert!(matches!(parse_args(&args(&["-V", "-h"])), Ok(Invocation::Version)));
    assert!(matches!(parse_args(&args(&["a", "--help", "b"])), Ok(Invocation::Help)));
    assert_eq!(error(&["--bogus", "--help"]), "Unknown option: --bogus");
}

#[test]
fn arguments_that_cannot_be_understood() {
    assert_eq!(error(&["--format"]), "--format requires an argument");
    assert_eq!(error(&["check", "-f"]), "--format requires an argument");
    assert_eq!(
        error(&["--format", "invalid"]),
        "Unknown format: invalid. Use 'human' or 'json'"
    );
    assert_eq!(error(&["--format=xml"]), "Unknown format: xml. Use 'human' or 'json'");
    assert_eq!(error(&["--format="]), "Unknown format: . Use 'human' or 'json'");
    assert_eq!(error(&["--format", "sarif"]), "Unknown format: sarif. Use 'human' or 'json'");
    assert_eq!(error(&["--invalid-option"]), "Unknown option: --invalid-option");
    assert_eq!(error(&["-x"]), "Unknown option: -x");
    assert_eq!(error(&["-"]), "Unknown option: -");
    assert_eq!(error(&["--forma=json"]), "Unknown option: --forma=json");
    assert_eq!(error(&["a", "b"]), "Multiple paths provided. Only one path is allowed.");
    assert_eq!(error(&["a", "-q", "b", "--bogus"]), "Multiple paths provided. Only one path is allowed.");
}

#[test]
fn answers_of_a_check() {
    let report = failing();
    let answer = respond(&options(BotAction::Check, OutputFormat::Human, Verbosity::Normal), &report);
    assert_eq!(answer.output, render_report(&report));
    assert_eq!(answer.error, "");
    assert_eq!(answer.exit_code, 1);
    let answer = respond(&options(BotAction::Check, OutputFormat::Human, Verbosity::Quiet), &report);
    assert_eq!(answer.output, render_quiet_report(&report));
    assert_eq!(answer.output, "FAIL\n");
    let answer = respond(&options(BotAction::Check, OutputFormat::Human, Verbosity::Verbose), &report);
    assert_eq!(answer.output, render_verbose_report(&report));
    let answer = respond(&options(BotAction::Check, OutputFormat::Json, Verbosity::Quiet), &report);
    assert_eq!(answer.output, render_json_report(&report));
    assert_eq!(answer.exit_code, 1);
    let answer = respond(&options(BotAction::Check, OutputFormat::Sarif, Verbosity::Normal), &report);
    assert_eq!(answer.output, "");
    assert_eq!(answer.error, "Error: SARIF output not yet implemented\n");
    assert_eq!(answer.exit_code, 4);

    let answer = respond(&options(BotAction::Check, OutputFormat::Human, Verbosity::Quiet), &passing());
    assert_eq!(answer.output, "PASS\n");
    assert_eq!(answer.exit_code, 0);
    let mut flagged = passing();
    flagged.add_warning(WarningLevel::Critical, "out", None);
    let answer = respond(&options(BotAction::Check, OutputFormat::Json, Verbosity::Normal), &flagged);
    assert_eq!(answer.exit_code, 2);
}

#[test]
fn answers_of_the_other_actions() {
    let quiet_json = |action| options(action, OutputFormat::Json, Verbosity::Quiet);
    let answer = respond(&quiet_json(BotAction::Badge), &failing());
    assert_eq!(answer.output, format!("{}\n", generate_badge(ComplianceLevel::Bronze)));
    assert_eq!(answer.exit_code, 0);
    let answer = respond(&quiet_json(BotAction::Badge), &passing());
    assert_eq!(answer.output, format!("{}\n", generate_badge(ComplianceLevel::Bronze)));
    assert!(answer.output.contains("RSR-Bronze-cd7f32"));
    let mut silver = passing();
    silver.add_check("Extra", "fuzzing", true, ComplianceLevel::Silver);
    let answer = respond(&quiet_json(BotAction::Badge), &silver);
    assert_eq!(answer.output, format!("{}\n", generate_badge(ComplianceLevel::Silver)));
    let answer = respond(&quiet_json(BotAction::Conformity), &failing());
    assert_eq!(answer.output, format!("{}\n", generate_conformity_doc(&failing())));
    assert_eq!(answer.exit_code, 0);
    let answer = respond(&quiet_json(BotAction::Fix), &passing());
    assert_eq!(answer.output, "");
    assert_eq!(
        answer.error,
        "Error: 'fix' action not yet implemented\nThis will automatically create missing RSR files in a future version.\n"
    );
    assert_eq!(answer.exit_code, 4);
}

#[test]
fn answers_without_a_run() {
    let help = respond_help();
    assert!(help.output.starts_with("Rhodibot - RSR Compliance Bot\n\nLike Dependabot"));
    assert!(help.output.contains("USAGE:\n    rhodibot [COMMAND] [OPTIONS] [PATH]\n"));
    assert!(help.output.contains("OPTIONS:"));
    assert!(help.output.contains("EXIT CODES:"));
    assert!(help.output.contains("EXAMPLES:"));
    assert!(help.output.ends_with("        - rhodibot check .\n\n"));
    assert_eq!(help.output, format!("{}\n", HELP));
    assert_eq!(help.exit_code, 0);
    let version = respond_version();
    assert_eq!(version.output, format!("rhodibot {}\n", VERSION));
    assert_eq!(version.output, "rhodibot 0.1.0\n");
    assert_eq!(version.exit_code, 0);
    let invalid = respond_invalid("Unknown option: -x");
    assert_eq!(invalid.output, "");
    assert_eq!(invalid.error, "Error: Unknown option: -x\nUse --help for usage information.\n");
    assert_eq!(invalid.exit_code, 4);
}

#[test]
fn default_configuration() {
    let config = BotConfig::default();
    assert_eq!(config.action, BotAction::Check);
    assert!(!config.create_pr);
    assert!(!config.fail_on_warning);
    assert_eq!(config.target_level, ComplianceLevel::Bronze);
    assert!(Verbosity::Quiet < Verbosity::Normal && Verbosity::Normal < Verbosity::Verbose);
}

#[test]
fn checks_gathered_by_category() {
    let mut report = ComplianceReport::new(String::from("r"), None);
    assert_eq!(report.checks_by_category().len(), 0);
    report.add_check("Docs", "a", true, ComplianceLevel::Bronze);
    report.add_check("Build", "b", false, ComplianceLevel::Bronze);
    report.add_check("Docs", "c", false, ComplianceLevel::Silver);
    report.add_check("Docs", "d", true, ComplianceLevel::Bronze);
    report.add_check("Source", "e", true, ComplianceLevel::Bronze);
    report.add_check("Build", "f", true, ComplianceLevel::Bronze);
    let groups = report.checks_by_category();
    let shape: Vec<(String, Vec<String>)> = groups
        .iter()
        .map(|g| (g.category.clone(), g.checks.iter().map(|c| c.item.clone()).collect()))
        .collect();
    assert_eq!(
        shape,
        vec![
            (String::from("Docs"), vec![String::from("a"), String::from("c"), String::from("d")]),
            (String::from("Build"), vec![String::from("b"), String::from("f")]),
            (String::from("Source"), vec![String::from("e")]),
        ]
    );
    assert!(!groups[0].checks[1].passed);
    assert_eq!(groups[0].checks[1].required_for, ComplianceLevel::Silver);
}
