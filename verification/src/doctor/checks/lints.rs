//! Check for linting issues in the project.

use crate::doctor::types::{Diagnostic, Severity};
use vstd::prelude::*;

verus! {

/// What running the linter gave.
#[derive(Debug, Clone, Copy, PartialEq, Eq, Structural)]
pub enum LintOutcome {
    /// The linter ran and found nothing.
    Clean,
    /// The linter ran and found issues.
    Issues,
    /// The linter could not be run.
    Unavailable,
}

/// Check for linting issues in the project.
#[derive(Debug, Clone, Copy)]
pub struct LintsCheck;

/// Whether `found` is the finding for the outcome of the linter.
pub open spec fn is_lint_finding(found: Diagnostic, outcome: LintOutcome) -> bool {
    match outcome {
        LintOutcome::Clean => found.holds(
            "Linting"@,
            Severity::Info,
            "No linting issues found with clippy"@,
            None,
            None,
            "lints"@,
        ),
        LintOutcome::Issues => found.holds(
            "Linting"@,
            Severity::Warning,
            "Clippy found linting issues"@,
            None,
            Some("Run 'cargo clippy' to see and fix the issues"@),
            "lints"@,
        ),
        LintOutcome::Unavailable => found.holds(
            "Linting"@,
            Severity::Warning,
            "Failed to run cargo clippy"@,
            None,
            Some("Make sure clippy is installed: 'rustup component add clippy'"@),
            "lints"@,
        ),
    }
}

impl LintsCheck {
    /// Creates the check.
    pub fn new() -> (check: Self) {
        LintsCheck
    }

    /// Name of the check.
    pub fn name(&self) -> (name: &'static str)
        ensures
            name@ == "Linting"@,
    {
        "Linting"
    }

    /// Description of what this check verifies.
    pub fn description(&self) -> (text: &'static str)
        ensures
            text@ == "Check for linting issues with clippy"@,
    {
        "Check for linting issues with clippy"
    }

    /// Category this check belongs to.
    pub fn category(&self) -> (name: &'static str)
        ensures
            name@ == "lints"@,
    {
        "lints"
    }

    /// The findings of the check for the outcome of the linter: always one.
    pub fn findings(&self, outcome: LintOutcome) -> (found: Vec<Diagnostic>)
        ensures
            found@.len() == 1,
            is_lint_finding(found@[0], outcome),
    {
        let mut found: Vec<Diagnostic> = Vec::new();
        match outcome {
            LintOutcome::Clean => {
                found.push(
                    Diagnostic::new(
                        "Linting",
                        Severity::Info,
                        "No linting issues found with clippy",
                        "lints",
                    ),
                );
            },
            LintOutcome::Issues => {
                found.push(
                    Diagnostic::new(
                        "Linting",
                        Severity::Warning,
                        "Clippy found linting issues",
                        "lints",
                    ).with_suggestion("Run 'cargo clippy' to see and fix the issues"),
                );
            },
            LintOutcome::Unavailable => {
                found.push(
                    Diagnostic::new(
                        "Linting",
                        Severity::Warning,
                        "Failed to run cargo clippy",
                        "lints",
                    ).with_suggestion(
                        "Make sure clippy is installed: 'rustup component add clippy'",
                    ),
                );
            },
        }
        found
    }
}

} // verus!
