use quickstart_lib::doctor::checks::dependencies::ToolOutcome;
use quickstart_lib::doctor::checks::files::{file_diagnostic, ProjectFiles};
use quickstart_lib::doctor::checks::lints::LintOutcome;
use quickstart_lib::doctor::checks::rust::ToolProbe;
use quickstart_lib::doctor::checks::{
    DependenciesCheck, FilesCheck, LintsCheck, RustToolchainCheck, TemplatesCheck,
};
use quickstart_lib::doctor::diagnosis::{ERROR_WEIGHT, WARNING_WEIGHT};
use quickstart_lib::doctor::summary::{
    diagnostic_lines, recommendation_lines, result_lines, summary_lines, LineKind, ReportLine,
};
use quickstart_lib::doctor::types::{assess, HealthLevel};
use quickstart_lib::text::decimal;
use quickstart_lib::doctor::{
    health_thresholds, run_checks, Check, CheckResult, Diagnostic, DiagnosticReport, Severity,
};

struct MockCheck {
    name: String,
    description: String,
    category: String,
    diagnostics: Vec<Diagnostic>,
}

impl MockCheck {
    fn new(name: &str, description: &str, category: &str, diagnostics: Vec<Diagnostic>) -> Self {
        Self {
            name: name.to_string(),
            description: description.to_string(),
            category: category.to_string(),
            diagnostics,
        }
    }
}

impl Check for MockCheck {
    fn run(&self) -> Vec<Diagnostic> {
        self.diagnostics.clone()
    }

    fn name(&self) -> &str {
        &self.name
    }

    fn description(&self) -> &str {
        &self.description
    }

    fn category(&self) -> &str {
        &self.category
    }
}

fn ran() -> ToolProbe {
    ToolProbe::Ran { stdout: "version 1.0".to_string() }
}

fn failed() -> ToolOutcome {
    ToolOutcome::Failed { stderr: "errors found".to_string() }
}

#[test]
fn test_health_thresholds_constants() {
    let thresholds = health_thresholds();
    assert_eq!(thresholds.excellent.start, 90);
    assert_eq!(thresholds.excellent.end, 100);

    assert_eq!(thresholds.good.start, 70);
    assert_eq!(thresholds.good.end, 89);

    assert_eq!(thresholds.moderate.start, 50);
    assert_eq!(thresholds.moderate.end, 69);

    assert_eq!(thresholds.needs_attention.start, 30);
    assert_eq!(thresholds.needs_attention.end, 49);
}

#[test]
fn test_severity_display() {
    assert_eq!(Severity::Info.label(), "Info");
    assert_eq!(Severity::Suggestion.label(), "Suggestion");
    assert_eq!(Severity::Warning.label(), "Warning");
    assert_eq!(Severity::Error.label(), "Error");
}

#[test]
fn test_severity_ordering() {
    assert!(Severity::Info < Severity::Suggestion);
    assert!(Severity::Suggestion < Severity::Warning);
    assert!(Severity::Warning < Severity::Error);

    assert_eq!(Severity::Info, Severity::Info);
    assert_eq!(Severity::Suggestion, Severity::Suggestion);
    assert_eq!(Severity::Warning, Severity::Warning);
    assert_eq!(Severity::Error, Severity::Error);
}

#[test]
fn test_diagnostic_creation_basic() {
    let diagnostic = Diagnostic::new(
        "test-check",
        Severity::Warning,
        "A test warning",
        "test-category",
    );

    assert_eq!(diagnostic.check_name, "test-check");
    assert_eq!(diagnostic.severity, Severity::Warning);
    assert_eq!(diagnostic.message, "A test warning");
    assert_eq!(diagnostic.category, "test-category");
    assert_eq!(diagnostic.details, None);
    assert_eq!(diagnostic.suggestion, None);
}

#[test]
fn test_diagnostic_with_details() {
    let diagnostic = Diagnostic::new(
        "test-check",
        Severity::Warning,
        "A test warning",
        "test-category",
    )
    .with_details("Detailed explanation");

    assert_eq!(diagnostic.details, Some("Detailed explanation".to_string()));
}

#[test]
fn test_diagnostic_with_suggestion() {
    let diagnostic = Diagnostic::new(
        "test-check",
        Severity::Warning,
        "A test warning",
        "test-category",
    )
    .with_suggestion("Fix the issue");

    assert_eq!(diagnostic.suggestion, Some("Fix the issue".to_string()));
}

#[test]
fn test_diagnostic_full_chain() {
    let diagnostic = Diagnostic::new(
        "test-check",
        Severity::Warning,
        "A test warning",
        "test-category",
    )
    .with_details("Detailed explanation")
    .with_suggestion("Fix the issue");

    assert_eq!(diagnostic.check_name, "test-check");
    assert_eq!(diagnostic.severity, Severity::Warning);
    assert_eq!(diagnostic.message, "A test warning");
    assert_eq!(diagnostic.details, Some("Detailed explanation".to_string()));
    assert_eq!(diagnostic.suggestion, Some("Fix the issue".to_string()));
    assert_eq!(diagnostic.category, "test-category");
}

#[test]
fn test_diagnostic_creation() {
    let diagnostic = Diagnostic::new(
        "test-check",
        Severity::Warning,
        "A test warning",
        "test-category",
    )
    .with_details("Detailed explanation")
    .with_suggestion("Fix the issue");

    assert_eq!(diagnostic.check_name, "test-check");
    assert_eq!(diagnostic.severity, Severity::Warning);
    assert_eq!(diagnostic.message, "A test warning");
    assert_eq!(diagnostic.details, Some("Detailed explanation".to_string()));
    assert_eq!(diagnostic.suggestion, Some("Fix the issue".to_string()));
    assert_eq!(diagnostic.category, "test-category");
}

#[test]
fn test_report_generation() {
    let error_diag = Diagnostic::new(
        "error-check",
        Severity::Error,
        "An error was found",
        "errors",
    );

    let warning_diag = Diagnostic::new(
        "warning-check",
        Severity::Warning,
        "A warning was found",
        "warnings",
    );

    let checks: Vec<Box<dyn Check>> = vec![
        Box::new(MockCheck::new(
            "error-check",
            "Checks for errors",
            "errors",
            vec![error_diag],
        )),
        Box::new(MockCheck::new(
            "warning-check",
            "Checks for warnings",
            "warnings",
            vec![warning_diag],
        )),
    ];

    let report = run_checks(checks);

    assert_eq!(report.results.len(), 2);
    assert_eq!(report.diagnostics_by_severity(Severity::Error).len(), 1);
    assert_eq!(report.diagnostics_by_severity(Severity::Warning).len(), 1);

    let stats = report.statistics();
    assert_eq!(stats.total_checks, 2);
    assert_eq!(stats.total_diagnostics, 2);
    assert_eq!(stats.errors, 1);
    assert_eq!(stats.warnings, 1);
    assert_eq!(stats.health_score, 100 - (ERROR_WEIGHT + WARNING_WEIGHT));
}

#[test]
fn templates_test_name_method() {
    let check = TemplatesCheck::new();
    assert_eq!(check.name(), "Templates");
}

#[test]
fn templates_test_description_method() {
    let check = TemplatesCheck::new();
    assert_eq!(
        check.description(),
        "Check for template consistency and documentation"
    );
}

#[test]
fn templates_test_category_method() {
    let check = TemplatesCheck::new();
    assert_eq!(check.category(), "templates");
}

#[test]
fn templates_test_run_returns_diagnostics() {
    let check = TemplatesCheck::new();
    let diagnostics = check.run();
    assert!(!diagnostics.is_empty());
}

#[test]
fn dependencies_test_name_method() {
    let check = DependenciesCheck::new();
    assert_eq!(check.name(), "Dependencies");
}

#[test]
fn dependencies_test_description_method() {
    let check = DependenciesCheck::new();
    assert_eq!(
        check.description(),
        "Check for dependency issues (outdated, unused)"
    );
}

#[test]
fn dependencies_test_category_method() {
    let check = DependenciesCheck::new();
    assert_eq!(check.category(), "dependencies");
}

#[test]
fn test_outdated_command_not_available() {
    let check = DependenciesCheck::new();
    let diagnostics = check.findings(&ToolOutcome::NotInstalled, &ToolOutcome::Succeeded);

    assert_eq!(diagnostics[0].severity, Severity::Suggestion);
    assert!(diagnostics[0].message.contains("not installed"));
}

#[test]
fn test_udeps_command_not_available() {
    let check = DependenciesCheck::new();
    let diagnostics = check.findings(&ToolOutcome::Succeeded, &ToolOutcome::NotInstalled);

    assert_eq!(diagnostics[1].severity, Severity::Suggestion);
    assert!(diagnostics[1].message.contains("not installed"));
}

#[test]
fn test_outdated_command_success() {
    let check = DependenciesCheck::new();
    let diagnostics = check.findings(&ToolOutcome::Succeeded, &ToolOutcome::Succeeded);

    assert_eq!(diagnostics[0].severity, Severity::Info);
    assert!(diagnostics[0].message.contains("up to date"));
}

#[test]
fn test_outdated_command_failure() {
    let check = DependenciesCheck::new();
    let diagnostics = check.findings(&failed(), &ToolOutcome::Succeeded);

    assert_eq!(diagnostics[0].severity, Severity::Warning);
    assert!(diagnostics[0]
        .message
        .contains("Outdated dependencies found"));
}

#[test]
fn test_udeps_command_success() {
    let check = DependenciesCheck::new();
    let diagnostics = check.findings(&ToolOutcome::Succeeded, &ToolOutcome::Succeeded);

    assert_eq!(diagnostics[1].severity, Severity::Info);
    assert!(diagnostics[1].message.contains("No unused dependencies"));
}

#[test]
fn test_udeps_command_failure() {
    let check = DependenciesCheck::new();
    let diagnostics = check.findings(&ToolOutcome::Succeeded, &failed());

    assert_eq!(diagnostics[1].severity, Severity::Warning);
    assert!(diagnostics[1].message.contains("Unused dependencies found"));
    assert_eq!(diagnostics[1].details, Some("errors found".to_string()));
}

#[test]
fn test_outdated_command_error() {
    let check = DependenciesCheck::new();
    let diagnostics = check.findings(&ToolOutcome::Unavailable, &ToolOutcome::Succeeded);

    assert_eq!(diagnostics[0].severity, Severity::Suggestion);
    assert!(diagnostics[0]
        .message
        .contains("Could not check for outdated dependencies"));
}

#[test]
fn test_udeps_command_error() {
    let check = DependenciesCheck::new();
    let diagnostics = check.findings(&ToolOutcome::Succeeded, &ToolOutcome::Unavailable);

    assert_eq!(diagnostics[1].severity, Severity::Suggestion);
    assert!(diagnostics[1]
        .message
        .contains("Could not check for unused dependencies"));
}

#[test]
fn dependencies_test_run_returns_diagnostics() {
    let check = DependenciesCheck::new();
    let diagnostics = check.findings(&ToolOutcome::Succeeded, &ToolOutcome::Succeeded);
    assert_eq!(diagnostics.len(), 3);
}

#[test]
fn test_all_files_present() {
    let check = FilesCheck::new("/project");
    let diagnostics = check.findings(ProjectFiles {
        cargo_toml: true,
        readme: true,
        gitignore: true,
        license: true,
    });

    assert_eq!(diagnostics.len(), 4);
    assert!(diagnostics.iter().all(|d| d.severity == Severity::Info));
}

#[test]
fn test_all_files_missing() {
    let check = FilesCheck::new("/project");
    let diagnostics = check.findings(ProjectFiles {
        cargo_toml: false,
        readme: false,
        gitignore: false,
        license: false,
    });

    assert_eq!(diagnostics.len(), 4);
    assert_eq!(diagnostics[0].severity, Severity::Error);
    assert!(diagnostics[1..]
        .iter()
        .all(|d| d.severity == Severity::Warning));
}

#[test]
fn test_some_files_missing() {
    let check = FilesCheck::new("/project");
    let diagnostics = check.findings(ProjectFiles {
        cargo_toml: true,
        readme: true,
        gitignore: false,
        license: false,
    });

    assert_eq!(diagnostics.len(), 4);

    let cargo_toml = diagnostics
        .iter()
        .find(|d| d.message.contains("Cargo.toml"))
        .unwrap();
    let readme = diagnostics
        .iter()
        .find(|d| d.message.contains("README.md"))
        .unwrap();
    let gitignore = diagnostics
        .iter()
        .find(|d| d.message.contains(".gitignore"))
        .unwrap();
    let license = diagnostics
        .iter()
        .find(|d| d.message.contains("LICENSE"))
        .unwrap();

    assert_eq!(cargo_toml.severity, Severity::Info);
    assert_eq!(readme.severity, Severity::Info);
    assert_eq!(gitignore.severity, Severity::Warning);
    assert_eq!(license.severity, Severity::Warning);
}

#[test]
fn test_lints_check_success() {
    let check = LintsCheck::new();
    let diagnostics = check.findings(LintOutcome::Clean);

    assert_eq!(diagnostics.len(), 1);
    assert_eq!(diagnostics[0].severity, Severity::Info);
    assert!(diagnostics[0].message.contains("No linting issues found"));
}

#[test]
fn test_lints_check_warning() {
    let check = LintsCheck::new();
    let diagnostics = check.findings(LintOutcome::Issues);

    assert_eq!(diagnostics.len(), 1);
    assert_eq!(diagnostics[0].severity, Severity::Warning);
    assert!(diagnostics[0]
        .message
        .contains("Clippy found linting issues"));
    assert!(diagnostics[0]
        .suggestion
        .as_ref()
        .unwrap()
        .contains("Run 'cargo clippy'"));
}

#[test]
fn test_lints_check_error() {
    let check = LintsCheck::new();
    let diagnostics = check.findings(LintOutcome::Unavailable);

    assert_eq!(diagnostics.len(), 1);
    assert_eq!(diagnostics[0].severity, Severity::Warning);
    assert!(diagnostics[0]
        .message
        .contains("Failed to run cargo clippy"));
    assert!(diagnostics[0]
        .suggestion
        .as_ref()
        .unwrap()
        .contains("Make sure clippy is installed"));
}

#[test]
fn lints_test_name_method() {
    let check = LintsCheck::new();
    assert_eq!(check.name(), "Linting");
}

#[test]
fn lints_test_description_method() {
    let check = LintsCheck::new();
    assert_eq!(check.description(), "Check for linting issues with clippy");
}

#[test]
fn lints_test_category_method() {
    let check = LintsCheck::new();
    assert_eq!(check.category(), "lints");
}

#[test]
fn test_both_tools_ok() {
    let check = RustToolchainCheck::new();
    let diagnostics = check.findings(&ran(), &ran());

    assert_eq!(diagnostics.len(), 2);
    assert_eq!(diagnostics[0].severity, Severity::Info);
    assert_eq!(diagnostics[1].severity, Severity::Info);
}

#[test]
fn test_cargo_missing() {
    let check = RustToolchainCheck::new();
    let diagnostics = check.findings(&ToolProbe::Missing, &ran());

    assert_eq!(diagnostics[0].severity, Severity::Error);
    assert_eq!(diagnostics[1].severity, Severity::Info);
}

#[test]
fn test_rustc_missing() {
    let check = RustToolchainCheck::new();
    let diagnostics = check.findings(&ran(), &ToolProbe::Missing);

    assert_eq!(diagnostics[0].severity, Severity::Info);
    assert_eq!(diagnostics[1].severity, Severity::Error);
}

#[test]
fn test_cargo_version_fails() {
    let check = RustToolchainCheck::new();
    let diagnostics = check.findings(&ToolProbe::Failed, &ran());

    assert_eq!(diagnostics[0].severity, Severity::Warning);
    assert_eq!(diagnostics[1].severity, Severity::Info);
}

#[test]
fn tool_findings_quote_the_tool() {
    let check = RustToolchainCheck::new();
    let found = check.check_tool("cargo", &ToolProbe::Ran { stdout: "  cargo 1.80.0\n".to_string() });
    assert_eq!(found.message, "cargo: cargo 1.80.0");
    assert_eq!(found.suggestion, None);

    let found = check.check_tool("rustc", &ToolProbe::Failed);
    assert_eq!(found.message, "rustc found, but failed to run 'rustc --version'");
    assert_eq!(found.suggestion, Some("Check your rustc installation.".to_string()));

    let found = check.check_tool("rustc", &ToolProbe::Unrunnable);
    assert_eq!(found.message, "rustc found, but could not execute 'rustc --version'");
    assert_eq!(found.severity, Severity::Warning);

    let found = check.check_tool("cargo", &ToolProbe::Missing);
    assert_eq!(found.message, "cargo not found in $PATH");
    assert_eq!(
        found.suggestion,
        Some("Install Rust and cargo from https://rustup.rs/".to_string())
    );
    assert_eq!(found.check_name, "Rust Toolchain");
    assert_eq!(found.category, "rust");
}

#[test]
fn file_findings_name_the_file() {
    let found = file_diagnostic("README.md", "hint", true);
    assert_eq!(found.message, "README.md found.");
    assert_eq!(found.suggestion, None);
    let found = file_diagnostic("README.md", "hint", false);
    assert_eq!(found.message, "README.md is missing.");
    assert_eq!(found.severity, Severity::Warning);
    assert_eq!(found.suggestion, Some("hint".to_string()));
    let found = file_diagnostic("Cargo.toml", "hint", false);
    assert_eq!(found.severity, Severity::Error);
    assert_eq!(found.check_name, "Required Files");
    assert_eq!(found.category, "files");
    let check = FilesCheck::new("/project");
    assert_eq!(check.path_of("Cargo.toml"), "/project/Cargo.toml");
    assert_eq!(check.name(), "Required Files");
    assert_eq!(check.category(), "files");
}

fn report_with(errors: usize, warnings: usize, suggestions: usize, infos: usize) -> DiagnosticReport {
    let mut diagnostics = Vec::new();
    for _ in 0..errors {
        diagnostics.push(Diagnostic::new("c", Severity::Error, "e", "cat"));
    }
    for _ in 0..warnings {
        diagnostics.push(Diagnostic::new("c", Severity::Warning, "w", "cat"));
    }
    for _ in 0..suggestions {
        diagnostics.push(Diagnostic::new("c", Severity::Suggestion, "s", "cat"));
    }
    for _ in 0..infos {
        diagnostics.push(Diagnostic::new("c", Severity::Info, "i", "cat"));
    }
    let mut report = DiagnosticReport::new();
    report.add_result(CheckResult {
        name: "c".to_string(),
        description: "d".to_string(),
        category: "cat".to_string(),
        duration: 5,
        diagnostics,
    });
    report
}

#[test]
fn health_score_takes_penalties_off_one_hundred() {
    assert_eq!(DiagnosticReport::new().health_score(), 100);
    assert_eq!(report_with(0, 0, 0, 3).health_score(), 100);
    assert_eq!(report_with(1, 0, 0, 0).health_score(), 80);
    assert_eq!(report_with(0, 1, 0, 0).health_score(), 95);
    assert_eq!(report_with(0, 0, 1, 0).health_score(), 99);
    assert_eq!(report_with(2, 3, 4, 5).health_score(), 100 - (40 + 15 + 4));
    assert_eq!(report_with(5, 0, 0, 0).health_score(), 0);
    assert_eq!(report_with(4, 3, 4, 0).health_score(), 1);
    assert_eq!(report_with(200, 200, 200, 0).health_score(), 0);
}

#[test]
fn statistics_count_by_severity() {
    let stats = report_with(2, 3, 4, 5).statistics();
    assert_eq!(stats.total_checks, 1);
    assert_eq!(stats.total_diagnostics, 14);
    assert_eq!(stats.errors, 2);
    assert_eq!(stats.warnings, 3);
    assert_eq!(stats.suggestions, 4);
    assert_eq!(stats.info, 5);
    assert_eq!(stats.health_score, 41);
}

#[test]
fn diagnostics_by_severity_keeps_report_order() {
    let mut report = DiagnosticReport::new();
    report.add_result(CheckResult {
        name: "a".to_string(),
        description: String::new(),
        category: "x".to_string(),
        duration: 7,
        diagnostics: vec![
            Diagnostic::new("a", Severity::Warning, "first", "x"),
            Diagnostic::new("a", Severity::Info, "skip", "x"),
            Diagnostic::new("a", Severity::Warning, "second", "x"),
        ],
    });
    report.add_result(CheckResult {
        name: "b".to_string(),
        description: String::new(),
        category: "y".to_string(),
        duration: 8,
        diagnostics: vec![Diagnostic::new("b", Severity::Warning, "third", "y")],
    });
    assert_eq!(report.total_duration, 15);
    let messages: Vec<&str> = report
        .diagnostics_by_severity(Severity::Warning)
        .iter()
        .map(|d| d.message.as_str())
        .collect();
    assert_eq!(messages, vec!["first", "second", "third"]);
    assert!(report.diagnostics_by_severity(Severity::Error).is_empty());
}

#[test]
fn scores_are_assessed_by_the_thresholds() {
    assert_eq!(assess(100), HealthLevel::Excellent);
    assert_eq!(assess(90), HealthLevel::Excellent);
    assert_eq!(assess(89), HealthLevel::Good);
    assert_eq!(assess(70), HealthLevel::Good);
    assert_eq!(assess(69), HealthLevel::Moderate);
    assert_eq!(assess(50), HealthLevel::Moderate);
    assert_eq!(assess(49), HealthLevel::NeedsAttention);
    assert_eq!(assess(30), HealthLevel::NeedsAttention);
    assert_eq!(assess(29), HealthLevel::Critical);
    assert_eq!(assess(0), HealthLevel::Critical);
}

#[test]
fn templates_check_reports_three_informational_findings() {
    let check = TemplatesCheck::new();
    assert_eq!(check.template_dir(), "templates");
    let found = check.findings();
    assert_eq!(found.len(), 3);
    assert!(found.iter().all(|d| d.severity == Severity::Info));
    assert_eq!(found[0].message, "Templates follow consistent naming conventions");
    assert_eq!(found[1].message, "All templates have documentation");
    assert_eq!(found[2].message, "All templates have valid syntax");
    assert!(found.iter().all(|d| d.check_name == "Templates" && d.category == "templates"));
}

fn line(kind: LineKind, text: &str) -> ReportLine {
    ReportLine { kind, text: text.to_string() }
}

#[test]
fn diagnostics_are_shown_with_details_and_suggestion() {
    let plain = Diagnostic::new("c", Severity::Info, "fine", "cat");
    assert_eq!(diagnostic_lines(&plain), vec![line(LineKind::Info, "ℹ️ fine")]);
    let full = Diagnostic::new("c", Severity::Error, "broken", "cat")
        .with_details("it broke")
        .with_suggestion("mend it");
    assert_eq!(
        diagnostic_lines(&full),
        vec![
            line(LineKind::Error, "❌ broken"),
            line(LineKind::Info, "  Details: it broke"),
            line(LineKind::Info, "  Suggestion: mend it"),
        ]
    );
    let hint = Diagnostic::new("c", Severity::Suggestion, "try", "cat").with_suggestion("this");
    assert_eq!(
        diagnostic_lines(&hint),
        vec![line(LineKind::Info, "💡 try"), line(LineKind::Info, "  Suggestion: this")]
    );
    let warn = Diagnostic::new("c", Severity::Warning, "careful", "cat");
    assert_eq!(diagnostic_lines(&warn), vec![line(LineKind::Warning, "⚠️ careful")]);
}

#[test]
fn results_are_shown_with_their_findings() {
    let empty = CheckResult {
        name: "Files".to_string(),
        description: "Looks for files".to_string(),
        category: "files".to_string(),
        duration: 1,
        diagnostics: Vec::new(),
    };
    assert_eq!(
        result_lines(&empty, "1ns"),
        vec![
            line(LineKind::Section, "Check: Files"),
            line(LineKind::Info, "Description: Looks for files"),
            line(LineKind::Info, "Duration: 1ns"),
            line(LineKind::Success, "✅ No issues found"),
        ]
    );
    let found = CheckResult {
        name: "Files".to_string(),
        description: "Looks for files".to_string(),
        category: "files".to_string(),
        duration: 1,
        diagnostics: vec![
            Diagnostic::new("c", Severity::Warning, "one", "files").with_suggestion("fix"),
            Diagnostic::new("c", Severity::Info, "two", "files"),
        ],
    };
    assert_eq!(
        result_lines(&found, "2ms"),
        vec![
            line(LineKind::Section, "Check: Files"),
            line(LineKind::Info, "Description: Looks for files"),
            line(LineKind::Info, "Duration: 2ms"),
            line(LineKind::Warning, "⚠️ one"),
            line(LineKind::Info, "  Suggestion: fix"),
            line(LineKind::Info, "ℹ️ two"),
        ]
    );
}

#[test]
fn summary_shows_counts_and_assessment() {
    let stats = report_with(1, 2, 3, 4).statistics();
    assert_eq!(
        summary_lines(&stats),
        vec![
            line(LineKind::Section, "Project Health Summary"),
            line(LineKind::Info, "Total checks: 1"),
            line(LineKind::Info, "Health score: 67%"),
            line(LineKind::Success, "Info: 4"),
            line(LineKind::Success, "Suggestions: 3"),
            line(LineKind::Warning, "Warnings: 2"),
            line(LineKind::Error, "Errors: 1"),
            line(LineKind::Section, "Project Health Assessment"),
            line(LineKind::Warning, "Moderate (67%)"),
        ]
    );
    let last = |report: DiagnosticReport| summary_lines(&report.statistics()).pop().unwrap();
    assert_eq!(last(report_with(0, 0, 0, 1)), line(LineKind::Success, "Excellent (100%)"));
    assert_eq!(last(report_with(1, 0, 0, 0)), line(LineKind::Success, "Good (80%)"));
    assert_eq!(last(report_with(3, 0, 0, 0)), line(LineKind::Warning, "Needs attention (40%)"));
    assert_eq!(last(report_with(5, 0, 0, 0)), line(LineKind::Error, "Critical (0%)"));
}

#[test]
fn recommendations_name_the_categories_with_issues() {
    let mut report = DiagnosticReport::new();
    report.add_result(CheckResult {
        name: "a".to_string(),
        description: String::new(),
        category: "files".to_string(),
        duration: 0,
        diagnostics: vec![
            Diagnostic::new("a", Severity::Warning, "w1", "files"),
            Diagnostic::new("a", Severity::Info, "i", "notes"),
            Diagnostic::new("a", Severity::Error, "e", "rust"),
            Diagnostic::new("a", Severity::Warning, "w2", "files"),
            Diagnostic::new("a", Severity::Suggestion, "s", "notes"),
        ],
    });
    let groups = report.diagnostics_by_category();
    let names: Vec<&str> = groups.iter().map(|g| g.category).collect();
    assert_eq!(names, vec!["files", "notes", "rust"]);
    let sizes: Vec<usize> = groups.iter().map(|g| g.diagnostics.len()).collect();
    assert_eq!(sizes, vec![2, 2, 1]);
    assert_eq!(groups[0].diagnostics[1].message, "w2");
    let stats = report.statistics();
    assert_eq!(
        recommendation_lines(&stats, &groups),
        vec![
            line(LineKind::Section, "Recommendations"),
            line(LineKind::Error, "Fix all errors to ensure project functionality."),
            line(LineKind::Warning, "Address warnings to improve project quality."),
            line(LineKind::Info, "• Check files category (2 issues)"),
            line(LineKind::Info, "• Check rust category (1 issues)"),
        ]
    );
    let calm = report_with(0, 0, 2, 2);
    assert!(recommendation_lines(&calm.statistics(), &calm.diagnostics_by_category()).is_empty());
    let warned = report_with(0, 1, 0, 0);
    assert_eq!(
        recommendation_lines(&warned.statistics(), &warned.diagnostics_by_category()),
        vec![
            line(LineKind::Section, "Recommendations"),
            line(LineKind::Warning, "Address warnings to improve project quality."),
            line(LineKind::Info, "• Check cat category (1 issues)"),
        ]
    );
}

#[test]
fn numbers_are_written_in_decimal() {
    for n in [0usize, 1, 9, 10, 11, 99, 100, 101, 1234567890, usize::MAX] {
        assert_eq!(decimal(n), n.to_string());
    }
}
