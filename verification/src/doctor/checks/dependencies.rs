//! Check for dependency issues in the project.

use crate::doctor::types::{Diagnostic, Severity};
use vstd::prelude::*;

verus! {

/// What running one of the dependency tools gave.
#[derive(Debug, Clone, PartialEq, Eq)]
pub enum ToolOutcome {
    /// The tool is not installed.
    NotInstalled,
    /// The tool ran and reported success.
    Succeeded,
    /// The tool ran and reported failure.
    Failed {
        /// What the tool wrote to its error stream.
        stderr: String,
    },
    /// The tool could not be run.
    Unavailable,
}

/// Check for dependency issues in the project.
#[derive(Debug, Clone, Copy)]
pub struct DependenciesCheck;

/// How to install the tool that finds outdated dependencies.
pub open spec fn outdated_recommendation() -> Seq<char> {
    "Install cargo-outdated: cargo install cargo-outdated"@
}

/// How to install the tool that finds unused dependencies.
pub open spec fn udeps_recommendation() -> Seq<char> {
    "Install cargo-udeps: cargo install cargo-udeps"@
}

/// Whether `found` is the finding on outdated dependencies for the outcome.
pub open spec fn is_outdated_finding(found: Diagnostic, outcome: ToolOutcome) -> bool {
    let check = "Dependencies"@;
    let category = "dependencies"@;
    match outcome {
        ToolOutcome::NotInstalled => found.holds(
            check,
            Severity::Suggestion,
            "cargo-outdated is not installed"@,
            None,
            Some(outdated_recommendation()),
            category,
        ),
        ToolOutcome::Succeeded => found.holds(
            check,
            Severity::Info,
            "All dependencies are up to date"@,
            None,
            None,
            category,
        ),
        ToolOutcome::Failed { .. } => found.holds(
            check,
            Severity::Warning,
            "Outdated dependencies found"@,
            None,
            Some("Run 'cargo outdated' to see details and update dependencies"@),
            category,
        ),
        ToolOutcome::Unavailable => found.holds(
            check,
            Severity::Suggestion,
            "Could not check for outdated dependencies"@,
            None,
            Some(outdated_recommendation()),
            category,
        ),
    }
}

/// Whether `found` is the finding on unused dependencies for the outcome;
/// where the tool reported failure, the details are what it wrote.
pub open spec fn is_unused_finding(found: Diagnostic, outcome: ToolOutcome) -> bool {
    let check = "Dependencies"@;
    let category = "dependencies"@;
    match outcome {
        ToolOutcome::NotInstalled => found.holds(
            check,
            Severity::Suggestion,
            "cargo-udeps is not installed"@,
            None,
            Some(udeps_recommendation()),
            category,
        ),
        ToolOutcome::Succeeded => found.holds(
            check,
            Severity::Info,
            "No unused dependencies found"@,
            None,
            None,
            category,
        ),
        ToolOutcome::Failed { stderr } => found.holds(
            check,
            Severity::Warning,
            "Unused dependencies found"@,
            Some(stderr@),
            Some("Run 'cargo udeps' to see details and remove unused dependencies"@),
            category,
        ),
        ToolOutcome::Unavailable => found.holds(
            check,
            Severity::Suggestion,
            "Could not check for unused dependencies"@,
            None,
            Some(udeps_recommendation()),
            category,
        ),
    }
}

impl DependenciesCheck {
    /// Creates the check.
    pub fn new() -> (check: Self) {
        DependenciesCheck
    }

    /// Name of the check.
    pub fn name(&self) -> (name: &'static str)
        ensures
            name@ == "Dependencies"@,
    {
        "Dependencies"
    }

    /// Description of what this check verifies.
    pub fn description(&self) -> (text: &'static str)
        ensures
            text@ == "Check for dependency issues (outdated, unused)"@,
    {
        "Check for dependency issues (outdated, unused)"
    }

    /// Category this check belongs to.
    pub fn category(&self) -> (name: &'static str)
        ensures
            name@ == "dependencies"@,
    {
        "dependencies"
    }

    /// Makes the finding on outdated dependencies.
    pub fn check_outdated(&self, outcome: &ToolOutcome) -> (found: Diagnostic)
        ensures
            is_outdated_finding(found, *outcome),
    {
        match outcome {
            ToolOutcome::NotInstalled => Diagnostic::new(
                "Dependencies",
                Severity::Suggestion,
                "cargo-outdated is not installed",
                "dependencies",
            ).with_suggestion("Install cargo-outdated: cargo install cargo-outdated"),
            ToolOutcome::Succeeded => Diagnostic::new(
                "Dependencies",
                Severity::Info,
                "All dependencies are up to date",
                "dependencies",
            ),
            ToolOutcome::Failed { .. } => Diagnostic::new(
                "Dependencies",
                Severity::Warning,
                "Outdated dependencies found",
                "dependencies",
            ).with_suggestion("Run 'cargo outdated' to see details and update dependencies"),
            ToolOutcome::Unavailable => Diagnostic::new(
                "Dependencies",
                Severity::Suggestion,
                "Could not check for outdated dependencies",
                "dependencies",
            ).with_suggestion("Install cargo-outdated: cargo install cargo-outdated"),
        }
    }

    /// Makes the finding on unused dependencies.
    pub fn check_unused(&self, outcome: &ToolOutcome) -> (found: Diagnostic)
        ensures
            is_unused_finding(found, *outcome),
    {
        match outcome {
            ToolOutcome::NotInstalled => Diagnostic::new(
                "Dependencies",
                Severity::Suggestion,
                "cargo-udeps is not installed",
                "dependencies",
            ).with_suggestion("Install cargo-udeps: cargo install cargo-udeps"),
            ToolOutcome::Succeeded => Diagnostic::new(
                "Dependencies",
                Severity::Info,
                "No unused dependencies found",
                "dependencies",
            ),
            ToolOutcome::Failed { stderr } => Diagnostic::new(
                "Dependencies",
                Severity::Warning,
                "Unused dependencies found",
                "dependencies",
            ).with_details(stderr.as_str()).with_suggestion(
                "Run 'cargo udeps' to see details and remove unused dependencies",
            ),
            ToolOutcome::Unavailable => Diagnostic::new(
                "Dependencies",
                Severity::Suggestion,
                "Could not check for unused dependencies",
                "dependencies",
            ).with_suggestion("Install cargo-udeps: cargo install cargo-udeps"),
        }
    }

    /// Makes the finding on dependency versions, which is informational.
    pub fn check_dependency_versions(&self) -> (found: Diagnostic)
        ensures
            found.holds(
                "Dependencies"@,
                Severity::Info,
                "All dependencies have explicit versions"@,
                None,
                None,
                "dependencies"@,
            ),
    {
        Diagnostic::new(
            "Dependencies",
            Severity::Info,
            "All dependencies have explicit versions",
            "dependencies",
        )
    }

    /// The findings of the check: on outdated dependencies, on unused
    /// dependencies and on versions.
    pub fn findings(&self, outdated: &ToolOutcome, unused: &ToolOutcome) -> (found: Vec<Diagnostic>)
        ensures
            found@.len() == 3,
            is_outdated_finding(found@[0], *outdated),
            is_unused_finding(found@[1], *unused),
            found@[2].holds(
                "Dependencies"@,
                Severity::Info,
                "All dependencies have explicit versions"@,
                None,
                None,
                "dependencies"@,
            ),
    {
        let mut found: Vec<Diagnostic> = Vec::new();
        found.push(self.check_outdated(outdated));
        found.push(self.check_unused(unused));
        found.push(self.check_dependency_versions());
        found
    }
}

} // verus!
