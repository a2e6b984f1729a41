//! Check for required project files.

use crate::doctor::types::{Diagnostic, Severity};
use crate::paths::{join, join_path};
use crate::text::concat;
use vstd::prelude::*;

verus! {

/// A check for required project files.
#[derive(Debug, Clone)]
pub struct FilesCheck {
    dir: String,
}

/// Which of the project files exist.
#[derive(Debug, Clone, Copy, PartialEq, Eq, Structural)]
pub struct ProjectFiles {
    /// Whether `Cargo.toml` exists.
    pub cargo_toml: bool,
    /// Whether `README.md` exists.
    pub readme: bool,
    /// Whether `.gitignore` exists.
    pub gitignore: bool,
    /// Whether `LICENSE` exists.
    pub license: bool,
}

/// Whether `found` is the finding on the file called `file`: informational
/// where the file exists; where it is missing, an error for the manifest and a
/// warning for any other file, with `hint` as the suggestion.
pub open spec fn is_file_finding(
    found: Diagnostic,
    file: Seq<char>,
    hint: Seq<char>,
    exists: bool,
) -> bool {
    &&& found.check_name@ == "Required Files"@
    &&& found.category@ == "files"@
    &&& found.details is None
    &&& if exists {
        &&& found.severity == Severity::Info
        &&& found.message@ == file + " found."@
        &&& found.suggestion is None
    } else {
        &&& found.severity == if file == "Cargo.toml"@ {
            Severity::Error
        } else {
            Severity::Warning
        }
        &&& found.message@ == file + " is missing."@
        &&& found.suggestion matches Some(text) && text@ == hint
    }
}

/// Makes the finding on one file.
pub fn file_diagnostic(file: &str, hint: &str, exists: bool) -> (found: Diagnostic)
    ensures
        is_file_finding(found, file@, hint@, exists),
{
    if exists {
        Diagnostic::new("Required Files", Severity::Info, concat(file, " found.").as_str(), "files")
    } else {
        let severity = if crate::text::same(file, "Cargo.toml") {
            Severity::Error
        } else {
            Severity::Warning
        };
        Diagnostic::new(
            "Required Files",
            severity,
            concat(file, " is missing.").as_str(),
            "files",
        ).with_suggestion(hint)
    }
}

impl FilesCheck {
    /// The directory that the check looks into.
    pub closed spec fn directory(&self) -> Seq<char> {
        self.dir@
    }

    /// Creates a check for the given directory.
    pub fn new(dir: &str) -> (check: Self)
        ensures
            check.directory() == dir@,
    {
        FilesCheck { dir: dir.to_owned() }
    }

    /// Name of the check.
    pub fn name(&self) -> (name: &'static str)
        ensures
            name@ == "Required Files"@,
    {
        "Required Files"
    }

    /// Description of what this check verifies.
    pub fn description(&self) -> (text: &'static str)
        ensures
            text@ == "Check for required and recommended project files"@,
    {
        "Check for required and recommended project files"
    }

    /// Category this check belongs to.
    pub fn category(&self) -> (name: &'static str)
        ensures
            name@ == "files"@,
    {
        "files"
    }

    /// The path of the file called `file` in the directory of the check.
    pub fn path_of(&self, file: &str) -> (path: String)
        ensures
            path@ == join_path(self.directory(), file@),
    {
        join(self.dir.as_str(), file)
    }

    /// The findings of the check, given which of the files exist: one finding
    /// for each of `Cargo.toml`, `README.md`, `.gitignore` and `LICENSE`, in
    /// this order.
    pub fn findings(&self, present: ProjectFiles) -> (found: Vec<Diagnostic>)
        ensures
            found@.len() == 4,
            is_file_finding(
                found@[0],
                "Cargo.toml"@,
                "Project manifest (Cargo.toml) is required."@,
                present.cargo_toml,
            ),
            is_file_finding(
                found@[1],
                "README.md"@,
                "README.md is recommended for documentation."@,
                present.readme,
            ),
            is_file_finding(
                found@[2],
                ".gitignore"@,
                ".gitignore is recommended to avoid committing build artifacts."@,
                present.gitignore,
            ),
            is_file_finding(
                found@[3],
                "LICENSE"@,
                "A LICENSE file is recommended for open source projects."@,
                present.license,
            ),
    {
        let mut found: Vec<Diagnostic> = Vec::new();
        found.push(
            file_diagnostic(
                "Cargo.toml",
                "Project manifest (Cargo.toml) is required.",
                present.cargo_toml,
            ),
        );
        found.push(
            file_diagnostic(
                "README.md",
                "README.md is recommended for documentation.",
                present.readme,
            ),
        );
        found.push(
            file_diagnostic(
                ".gitignore",
                ".gitignore is recommended to avoid committing build artifacts.",
                present.gitignore,
            ),
        );
        found.push(
            file_diagnostic(
                "LICENSE",
                "A LICENSE file is recommended for open source projects.",
                present.license,
            ),
        );
        found
    }
}

} // verus!
