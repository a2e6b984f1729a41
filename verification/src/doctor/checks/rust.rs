//! Check for the Rust toolchain.

use crate::doctor::types::{Diagnostic, Severity};
use crate::text::{concat, trimmed};
use vstd::prelude::*;

verus! {

/// What looking for a tool and asking it for its version gave.
#[derive(Debug, Clone, PartialEq, Eq)]
pub enum ToolProbe {
    /// The tool is not on the search path.
    Missing,
    /// The tool was found and could not be started.
    Unrunnable,
    /// The tool ran and reported failure.
    Failed,
    /// The tool ran and printed its version.
    Ran {
        /// What the tool printed.
        stdout: String,
    },
}

/// Check for the Rust toolchain.
#[derive(Debug, Clone, Copy)]
pub struct RustToolchainCheck;

/// Whether `found` is the finding on `tool` for what the probe gave: its
/// version where it ran, a warning where it was found and did not run or
/// failed, and an error where it is missing.
pub open spec fn is_tool_finding(found: Diagnostic, tool: Seq<char>, probe: ToolProbe) -> bool {
    let check = "Rust Toolchain"@;
    let category = "rust"@;
    let repair = Some("Check your "@ + tool + " installation."@);
    match probe {
        ToolProbe::Ran { stdout } => found.holds(
            check,
            Severity::Info,
            tool + ": "@ + trimmed(stdout@),
            None,
            None,
            category,
        ),
        ToolProbe::Failed => found.holds(
            check,
            Severity::Warning,
            tool + " found, but failed to run '"@ + tool + " --version'"@,
            None,
            repair,
            category,
        ),
        ToolProbe::Unrunnable => found.holds(
            check,
            Severity::Warning,
            tool + " found, but could not execute '"@ + tool + " --version'"@,
            None,
            repair,
            category,
        ),
        ToolProbe::Missing => found.holds(
            check,
            Severity::Error,
            tool + " not found in $PATH"@,
            None,
            Some("Install Rust and "@ + tool + " from https://rustup.rs/"@),
            category,
        ),
    }
}

impl RustToolchainCheck {
    /// Creates the check.
    pub fn new() -> (check: Self) {
        RustToolchainCheck
    }

    /// Name of the check.
    pub fn name(&self) -> (name: &'static str)
        ensures
            name@ == "Rust Toolchain"@,
    {
        "Rust Toolchain"
    }

    /// Description of what this check verifies.
    pub fn description(&self) -> (text: &'static str)
        ensures
            text@ == "Check for presence and basic functionality of Rust toolchain (cargo, rustc)"@,
    {
        "Check for presence and basic functionality of Rust toolchain (cargo, rustc)"
    }

    /// Category this check belongs to.
    pub fn category(&self) -> (name: &'static str)
        ensures
            name@ == "rust"@,
    {
        "rust"
    }

    /// Makes the finding on one tool from what the probe gave.
    pub fn check_tool(&self, tool: &str, probe: &ToolProbe) -> (found: Diagnostic)
        ensures
            is_tool_finding(found, tool@, *probe),
    {
        match probe {
            ToolProbe::Ran { stdout } => {
                let message = concat(concat(tool, ": ").as_str(), stdout.as_str().trim());
                Diagnostic::new("Rust Toolchain", Severity::Info, message.as_str(), "rust")
            },
            ToolProbe::Failed => {
                let message = concat(
                    concat(concat(tool, " found, but failed to run '").as_str(), tool).as_str(),
                    " --version'",
                );
                let repair = concat(concat("Check your ", tool).as_str(), " installation.");
                Diagnostic::new(
                    "Rust Toolchain",
                    Severity::Warning,
                    message.as_str(),
                    "rust",
                ).with_suggestion(repair.as_str())
            },
            ToolProbe::Unrunnable => {
                let message = concat(
                    concat(concat(tool, " found, but could not execute '").as_str(), tool).as_str(),
                    " --version'",
                );
                let repair = concat(concat("Check your ", tool).as_str(), " installation.");
                Diagnostic::new(
                    "Rust Toolchain",
                    Severity::Warning,
                    message.as_str(),
                    "rust",
                ).with_suggestion(repair.as_str())
            },
            ToolProbe::Missing => {
                let message = concat(tool, " not found in $PATH");
                let install = concat(
                    concat("Install Rust and ", tool).as_str(),
                    " from https://rustup.rs/",
                );
                Diagnostic::new(
                    "Rust Toolchain",
                    Severity::Error,
                    message.as_str(),
                    "rust",
                ).with_suggestion(install.as_str())
            },
        }
    }

    /// The findings of the check: one on `cargo` and one on `rustc`.
    pub fn findings(&self, cargo: &ToolProbe, rustc: &ToolProbe) -> (found: Vec<Diagnostic>)
        ensures
            found@.len() == 2,
            is_tool_finding(found@[0], "cargo"@, *cargo),
            is_tool_finding(found@[1], "rustc"@, *rustc),
    {
        let mut found: Vec<Diagnostic> = Vec::new();
        found.push(self.check_tool("cargo", cargo));
        found.push(self.check_tool("rustc", rustc));
        found
    }
}

} // verus!
