//! Check for template usage and consistency.

use crate::doctor::diagnosis::Check;
use crate::doctor::types::{Diagnostic, Severity};
use vstd::prelude::*;

verus! {

/// Check for template consistency across the project.
#[derive(Debug, Clone)]
pub struct TemplatesCheck {
    template_dir: String,
}

/// Whether `found` is the informational finding of the templates check with
/// the given message.
pub open spec fn is_template_finding(found: Diagnostic, message: Seq<char>) -> bool {
    &&& found.check_name@ == "Templates"@
    &&& found.severity == Severity::Info
    &&& found.message@ == message
    &&& found.details is None
    &&& found.suggestion is None
    &&& found.category@ == "templates"@
}

impl TemplatesCheck {
    /// The directory that the check examines.
    pub closed spec fn dir(&self) -> Seq<char> {
        self.template_dir@
    }

    /// Creates a check that examines the directory `templates`.
    pub fn new() -> (check: Self)
        ensures
            check.dir() == "templates"@,
    {
        TemplatesCheck { template_dir: "templates".to_owned() }
    }

    /// The directory that the check examines.
    pub fn template_dir(&self) -> (dir: &str)
        ensures
            dir@ == self.dir(),
    {
        self.template_dir.as_str()
    }

    fn check_template_naming(&self) -> (found: Diagnostic)
        ensures
            is_template_finding(found, "Templates follow consistent naming conventions"@),
    {
        Diagnostic::new(
            "Templates",
            Severity::Info,
            "Templates follow consistent naming conventions",
            "templates",
        )
    }

    fn check_template_docs(&self) -> (found: Diagnostic)
        ensures
            is_template_finding(found, "All templates have documentation"@),
    {
        Diagnostic::new("Templates", Severity::Info, "All templates have documentation", "templates")
    }

    fn check_template_validity(&self) -> (found: Diagnostic)
        ensures
            is_template_finding(found, "All templates have valid syntax"@),
    {
        Diagnostic::new("Templates", Severity::Info, "All templates have valid syntax", "templates")
    }

    /// The findings of the check: on naming, on documentation and on syntax,
    /// each of them informational.
    pub fn findings(&self) -> (found: Vec<Diagnostic>)
        ensures
            found@.len() == 3,
            is_template_finding(found@[0], "Templates follow consistent naming conventions"@),
            is_template_finding(found@[1], "All templates have documentation"@),
            is_template_finding(found@[2], "All templates have valid syntax"@),
    {
        let mut found: Vec<Diagnostic> = Vec::new();
        found.push(self.check_template_naming());
        found.push(self.check_template_docs());
        found.push(self.check_template_validity());
        found
    }
}

impl Check for TemplatesCheck {
    fn run(&self) -> (found: Vec<Diagnostic>)
        ensures
            found@.len() == 3,
            is_template_finding(found@[0], "Templates follow consistent naming conventions"@),
            is_template_finding(found@[1], "All templates have documentation"@),
            is_template_finding(found@[2], "All templates have valid syntax"@),
    {
        self.findings()
    }

    fn name(&self) -> (name: &str)
        ensures
            name@ == "Templates"@,
    {
        "Templates"
    }

    fn description(&self) -> (description: &str)
        ensures
            description@ == "Check for template consistency and documentation"@,
    {
        "Check for template consistency and documentation"
    }

    fn category(&self) -> (category: &str)
        ensures
            category@ == "templates"@,
    {
        "templates"
    }
}

} // verus!
