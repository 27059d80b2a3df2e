//! The command line: what the arguments ask for, and what a run answers
//! with.

use vstd::prelude::*;
use vstd::string::StringExecFns;
use crate::conformity::badge_text;
use crate::conformity::conformity_text;
use crate::conformity::generate_badge;
use crate::conformity::generate_conformity_doc;
use crate::exit_codes::exit_code;
use crate::exit_codes::report_code;
use crate::exit_codes::INVALID_ARGS;
use crate::exit_codes::INVALID_PATH;
use crate::exit_codes::SUCCESS;
use crate::level::ComplianceLevel;
use crate::options::BotAction;
use crate::options::OutputFormat;
use crate::options::Verbosity;
use crate::render::json_text;
use crate::render::quiet_text;
use crate::render::render_json_report;
use crate::render::render_quiet_report;
use crate::render::render_report;
use crate::render::render_verbose_report;
use crate::render::report_text;
use crate::render::verbose_text;
use crate::render::VERSION;
use crate::report::ComplianceReport;
use crate::report::ReportView;
use crate::text::after_prefix;
use crate::text::optional_text;
use crate::text::same_str;
use crate::text::string_views;
use crate::text::strip_prefix;
use crate::text::to_chars;

verus! {

/// The help message.
pub const HELP: &'static str = r#"Rhodibot - RSR Compliance Bot

Like Dependabot but for Rhodium Standard Repository compliance.

USAGE:
    rhodibot [COMMAND] [OPTIONS] [PATH]

COMMANDS:
    check       Check RSR compliance (default)
    badge       Generate RSR badge markdown
    conformity  Generate RSR conformity document

ARGS:
    [PATH]    Repository path to verify (default: current directory)

OPTIONS:
    -f, --format <FORMAT>    Output format: human, json (default: human)
    -q, --quiet              Quiet mode: only show pass/fail result
    -v, --verbose            Verbose mode: show all details
    -h, --help               Print help information
    -V, --version            Print version information

EXIT CODES:
    0    Success - Bronze compliance achieved
    1    Failure - Bronze compliance not met
    2    Security - Critical security warnings detected
    3    Error - Invalid path provided
    4    Error - Invalid arguments

EXAMPLES:
    rhodibot                         # Check current directory
    rhodibot check /path/to/repo     # Check specific repository
    rhodibot badge                   # Generate badge for current directory
    rhodibot conformity              # Generate conformity document
    rhodibot --format json           # Output as JSON

CI/CD INTEGRATION:
    # GitHub Actions
    - uses: hyperpolymath/rhodibot@v1
      with:
        path: '.'
        fail-on-warning: true

    # GitLab CI
    rhodibot:
      image: hyperpolymath/rhodibot:latest
      script:
        - rhodibot check .
"#;

/// CLI options. The repository path is none where no path was given: the
/// current directory is meant.
#[derive(Debug, Clone)]
pub struct CliOptions {
    pub repo_path: Option<String>,
    pub format: OutputFormat,
    pub verbosity: Verbosity,
    pub action: BotAction,
}

/// What [`CliOptions`] say.
#[verifier::ext_equal]
pub struct OptionsView {
    pub repo_path: Option<Seq<char>>,
    pub format: OutputFormat,
    pub verbosity: Verbosity,
    pub action: BotAction,
}

impl View for CliOptions {
    type V = OptionsView;

    open spec fn view(&self) -> OptionsView {
        OptionsView {
            repo_path: optional_text(self.repo_path),
            format: self.format,
            verbosity: self.verbosity,
            action: self.action,
        }
    }
}

impl OptionsView {
    /// The options of a command line without arguments.
    pub open spec fn initial() -> OptionsView {
        OptionsView {
            repo_path: None,
            format: OutputFormat::Human,
            verbosity: Verbosity::Normal,
            action: BotAction::Check,
        }
    }
}

/// What a command line asks for.
#[derive(Debug, Clone)]
pub enum Invocation {
    /// The help message.
    Help,
    /// The version.
    Version,
    /// A run with these options.
    Run(CliOptions),
}

/// What a command line comes to.
#[verifier::ext_equal]
pub enum Parsed {
    Help,
    Version,
    Run(OptionsView),
    /// The arguments cannot be understood; the message says why.
    Invalid(Seq<char>),
}

/// The format that `name` names.
pub open spec fn format_named(name: Seq<char>) -> Option<OutputFormat> {
    if name == "human"@ {
        Some(OutputFormat::Human)
    } else if name == "json"@ {
        Some(OutputFormat::Json)
    } else {
        None
    }
}

/// The message about a format that is not known.
pub open spec fn unknown_format(name: Seq<char>) -> Seq<char> {
    "Unknown format: "@ + name + ". Use 'human' or 'json'"@
}

/// The action that `name` names.
pub open spec fn action_named(name: Seq<char>) -> Option<BotAction> {
    if name == "check"@ {
        Some(BotAction::Check)
    } else if name == "badge"@ {
        Some(BotAction::Badge)
    } else if name == "conformity"@ {
        Some(BotAction::Conformity)
    } else if name == "fix"@ {
        Some(BotAction::Fix)
    } else {
        None
    }
}

/// What the arguments from position `from` on come to, given the options
/// gathered before it.
///
/// The arguments are read in order. A request for help or for the version
/// ends the reading at once; so does the first argument that cannot be
/// understood. A format follows `-f` or `--format` as the next argument, or
/// `--format=` in the same one. Any other argument that begins with `-` is
/// an unknown option. What is neither option nor command is the path, and
/// there may be one only.
pub open spec fn parsed_from(args: Seq<Seq<char>>, from: int, options: OptionsView) -> Parsed
    decreases args.len() - from,
{
    if from < 0 || from >= args.len() {
        Parsed::Run(options)
    } else {
        let arg = args[from];
        if arg == "-h"@ || arg == "--help"@ {
            Parsed::Help
        } else if arg == "-V"@ || arg == "--version"@ {
            Parsed::Version
        } else if arg == "-q"@ || arg == "--quiet"@ {
            parsed_from(args, from + 1, OptionsView { verbosity: Verbosity::Quiet, ..options })
        } else if arg == "-v"@ || arg == "--verbose"@ {
            parsed_from(args, from + 1, OptionsView { verbosity: Verbosity::Verbose, ..options })
        } else if arg == "-f"@ || arg == "--format"@ {
            if from + 1 >= args.len() {
                Parsed::Invalid("--format requires an argument"@)
            } else {
                match format_named(args[from + 1]) {
                    Some(format) => parsed_from(
                        args,
                        from + 2,
                        OptionsView { format, ..options },
                    ),
                    None => Parsed::Invalid(unknown_format(args[from + 1])),
                }
            }
        } else if action_named(arg) is Some {
            parsed_from(args, from + 1, OptionsView { action: action_named(arg)->0, ..options })
        } else if arg.len() > 0 && arg[0] == '-' {
            match after_prefix(arg, "--format="@) {
                Some(value) => match format_named(value) {
                    Some(format) => parsed_from(
                        args,
                        from + 1,
                        OptionsView { format, ..options },
                    ),
                    None => Parsed::Invalid(unknown_format(value)),
                },
                None => Parsed::Invalid("Unknown option: "@ + arg),
            }
        } else if options.repo_path is Some {
            Parsed::Invalid("Multiple paths provided. Only one path is allowed."@)
        } else {
            parsed_from(args, from + 1, OptionsView { repo_path: Some(arg), ..options })
        }
    }
}

/// What the command line `args` comes to; its first argument is the name
/// of the program and is passed over.
pub open spec fn parsed(args: Seq<Seq<char>>) -> Parsed {
    parsed_from(args, 1, OptionsView::initial())
}

/// What the result of parsing says.
pub open spec fn parsed_view(result: Result<Invocation, String>) -> Parsed {
    match result {
        Ok(Invocation::Help) => Parsed::Help,
        Ok(Invocation::Version) => Parsed::Version,
        Ok(Invocation::Run(options)) => Parsed::Run(options@),
        Err(message) => Parsed::Invalid(message@),
    }
}

fn parse_format(name: &str) -> (format: Result<OutputFormat, String>)
    ensures
        match format {
            Ok(format) => format_named(name@) == Some(format),
            Err(message) => format_named(name@) is None && message@ == unknown_format(name@),
        },
{
    if same_str(name, "human") {
        Ok(OutputFormat::Human)
    } else if same_str(name, "json") {
        Ok(OutputFormat::Json)
    } else {
        let mut message = String::new();
        message.append("Unknown format: ");
        message.append(name);
        message.append(". Use 'human' or 'json'");
        Err(message)
    }
}

fn parse_action(name: &str) -> (action: Option<BotAction>)
    ensures
        action == action_named(name@),
{
    if same_str(name, "check") {
        Some(BotAction::Check)
    } else if same_str(name, "badge") {
        Some(BotAction::Badge)
    } else if same_str(name, "conformity") {
        Some(BotAction::Conformity)
    } else if same_str(name, "fix") {
        Some(BotAction::Fix)
    } else {
        None
    }
}

fn begins_with_dash(arg: &str) -> (dash: bool)
    ensures
        dash == (arg@.len() > 0 && arg@[0] == '-'),
{
    let chars = to_chars(arg);
    chars.len() > 0 && chars[0] == '-'
}

/// Parse command line arguments.
pub fn parse_args(args: &Vec<String>) -> (result: Result<Invocation, String>)
    ensures
        parsed_view(result) == parsed(string_views(args@)),
{
    let mut format = OutputFormat::Human;
    let mut verbosity = Verbosity::Normal;
    let mut repo_path: Option<String> = None;
    let mut action = BotAction::Check;
    let ghost texts = string_views(args@);

    let mut i: usize = 1;
    while i < args.len()
        invariant
            1 <= i,
            texts == string_views(args@),
            parsed_from(
                texts,
                i as int,
                OptionsView { repo_path: optional_text(repo_path), format, verbosity, action },
            ) == parsed(texts),
        decreases args.len() - i,
    {
        let arg = args[i].as_str();
        assert(texts[i as int] == arg@);
        if same_str(arg, "-h") || same_str(arg, "--help") {
            return Ok(Invocation::Help);
        } else if same_str(arg, "-V") || same_str(arg, "--version") {
            return Ok(Invocation::Version);
        } else if same_str(arg, "-q") || same_str(arg, "--quiet") {
            verbosity = Verbosity::Quiet;
        } else if same_str(arg, "-v") || same_str(arg, "--verbose") {
            verbosity = Verbosity::Verbose;
        } else if same_str(arg, "-f") || same_str(arg, "--format") {
            if i + 1 >= args.len() {
                return Err("--format requires an argument".to_owned());
            }
            i += 1;
            assert(texts[i as int] == args@[i as int]@);
            match parse_format(args[i].as_str()) {
                Ok(chosen) => {
                    format = chosen;
                },
                Err(message) => {
                    return Err(message);
                },
            }
        } else if let Some(chosen) = parse_action(arg) {
            action = chosen;
        } else if begins_with_dash(arg) {
            match strip_prefix(arg, "--format=") {
                Some(value) => match parse_format(value.as_str()) {
                    Ok(chosen) => {
                        format = chosen;
                    },
                    Err(message) => {
                        return Err(message);
                    },
                },
                None => {
                    let mut message = String::new();
                    message.append("Unknown option: ");
                    message.append(arg);
                    return Err(message);
                },
            }
        } else {
            if repo_path.is_some() {
                return Err("Multiple paths provided. Only one path is allowed.".to_owned());
            }
            repo_path = Some(arg.to_owned());
        }
        i += 1;
    }
    Ok(Invocation::Run(CliOptions { repo_path, format, verbosity, action }))
}

/// What a run answers with: what it prints, what it complains of, and the
/// code with which it ends.
#[derive(Debug, Clone)]
pub struct Response {
    pub output: String,
    pub error: String,
    pub exit_code: i32,
}

/// What a [`Response`] says.
#[verifier::ext_equal]
pub struct ResponseView {
    pub output: Seq<char>,
    pub error: Seq<char>,
    pub exit_code: i32,
}

impl View for Response {
    type V = ResponseView;

    open spec fn view(&self) -> ResponseView {
        ResponseView { output: self.output@, error: self.error@, exit_code: self.exit_code }
    }
}

/// The answer to a request for help.
pub open spec fn help_response() -> ResponseView {
    ResponseView { output: HELP@ + "\n"@, error: Seq::empty(), exit_code: SUCCESS }
}

/// The answer to a request for the version.
pub open spec fn version_response() -> ResponseView {
    ResponseView {
        output: "rhodibot "@ + VERSION@ + "\n"@,
        error: Seq::empty(),
        exit_code: SUCCESS,
    }
}

/// The answer to arguments that could not be understood.
pub open spec fn invalid_response(message: Seq<char>) -> ResponseView {
    ResponseView {
        output: Seq::empty(),
        error: "Error: "@ + message + "\n"@ + "Use --help for usage information.\n"@,
        exit_code: INVALID_ARGS,
    }
}

/// What keeps a path from being checked as a repository.
#[derive(Debug, Clone, Copy, PartialEq, Eq, Structural)]
pub enum PathProblem {
    /// Nothing is at the path.
    Missing,
    /// What is at the path is no directory.
    NotADirectory,
}

/// The answer to a path that cannot be checked.
pub open spec fn invalid_path_response(path: Seq<char>, problem: PathProblem) -> ResponseView {
    ResponseView {
        output: Seq::empty(),
        error: (match problem {
            PathProblem::Missing => "Error: Path does not exist: "@,
            PathProblem::NotADirectory => "Error: Path is not a directory: "@,
        }) + path + "\n"@,
        exit_code: INVALID_PATH,
    }
}

/// The answer of a run with `options` that gave `report`.
///
/// The badge is that of the tier reached, of the base tier where none was
/// (so a run, which reaches the base tier at most, always gets the badge
/// of the base tier), and like the conformity statement it ends in success
/// whatever the report says. A check prints the report in the format and at the length
/// asked for, and ends with the code that the report calls for. What is
/// not yet done ends as invalid arguments do.
pub open spec fn response(options: OptionsView, report: ReportView) -> ResponseView {
    match options.action {
        BotAction::Badge => ResponseView {
            output: badge_text(
                match report.highest_level() {
                    Some(level) => level,
                    None => ComplianceLevel::Bronze,
                },
            ) + "\n"@,
            error: Seq::empty(),
            exit_code: SUCCESS,
        },
        BotAction::Conformity => ResponseView {
            output: conformity_text(report) + "\n"@,
            error: Seq::empty(),
            exit_code: SUCCESS,
        },
        BotAction::Fix => ResponseView {
            output: Seq::empty(),
            error: "Error: 'fix' action not yet implemented\n"@
                + "This will automatically create missing RSR files in a future version.\n"@,
            exit_code: INVALID_ARGS,
        },
        BotAction::Check => match options.format {
            OutputFormat::Json => ResponseView {
                output: json_text(report),
                error: Seq::empty(),
                exit_code: report_code(report),
            },
            OutputFormat::Human => ResponseView {
                output: match options.verbosity {
                    Verbosity::Quiet => quiet_text(report),
                    Verbosity::Normal => report_text(report),
                    Verbosity::Verbose => verbose_text(report),
                },
                error: Seq::empty(),
                exit_code: report_code(report),
            },
            OutputFormat::Sarif => ResponseView {
                output: Seq::empty(),
                error: "Error: SARIF output not yet implemented\n"@,
                exit_code: INVALID_ARGS,
            },
        },
    }
}

/// The answer to a request for help.
pub fn respond_help() -> (answer: Response)
    ensures
        answer@ == help_response(),
{
    let mut output = HELP.to_owned();
    output.append("\n");
    Response { output, error: String::new(), exit_code: SUCCESS }
}

/// The answer to a request for the version.
pub fn respond_version() -> (answer: Response)
    ensures
        answer@ == version_response(),
{
    let mut output = "rhodibot ".to_owned();
    output.append(VERSION);
    output.append("\n");
    Response { output, error: String::new(), exit_code: SUCCESS }
}

/// The answer to arguments that could not be understood.
pub fn respond_invalid(message: &str) -> (answer: Response)
    ensures
        answer@ == invalid_response(message@),
{
    let mut error = "Error: ".to_owned();
    error.append(message);
    error.append("\n");
    error.append("Use --help for usage information.\n");
    Response { output: String::new(), error, exit_code: INVALID_ARGS }
}

/// The answer to a path that cannot be checked.
pub fn respond_invalid_path(path: &str, problem: PathProblem) -> (answer: Response)
    ensures
        answer@ == invalid_path_response(path@, problem),
{
    let mut error = match problem {
        PathProblem::Missing => "Error: Path does not exist: ".to_owned(),
        PathProblem::NotADirectory => "Error: Path is not a directory: ".to_owned(),
    };
    error.append(path);
    error.append("\n");
    Response { output: String::new(), error, exit_code: INVALID_PATH }
}

/// The answer of a run with `options` that gave `report`.
pub fn respond(options: &CliOptions, report: &ComplianceReport) -> (answer: Response)
    ensures
        answer@ == response(options@, report@),
{
    match options.action {
        BotAction::Badge => {
            let level = match report.highest_level() {
                Some(level) => level,
                None => ComplianceLevel::Bronze,
            };
            let mut output = generate_badge(level);
            output.append("\n");
            Response { output, error: String::new(), exit_code: SUCCESS }
        },
        BotAction::Conformity => {
            let mut output = generate_conformity_doc(report);
            output.append("\n");
            Response { output, error: String::new(), exit_code: SUCCESS }
        },
        BotAction::Fix => {
            let mut error = "Error: 'fix' action not yet implemented\n".to_owned();
            error.append("This will automatically create missing RSR files in a future version.\n");
            Response { output: String::new(), error, exit_code: INVALID_ARGS }
        },
        BotAction::Check => match options.format {
            OutputFormat::Json => Response {
                output: render_json_report(report),
                error: String::new(),
                exit_code: exit_code(report),
            },
            OutputFormat::Human => {
                let output = match options.verbosity {
                    Verbosity::Quiet => render_quiet_report(report),
                    Verbosity::Normal => render_report(report),
                    Verbosity::Verbose => render_verbose_report(report),
                };
                Response { output, error: String::new(), exit_code: exit_code(report) }
            },
            OutputFormat::Sarif => Response {
                output: String::new(),
                error: "Error: SARIF output not yet implemented\n".to_owned(),
                exit_code: INVALID_ARGS,
            },
        },
    }
}

} // verus!
