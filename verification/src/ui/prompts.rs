//! Prompts for a project name, and the rules that a project name obeys.

use crate::errors::ErrorReport;
use crate::init::inquire_api::InquireApi;
use crate::text::{chars_of, is_alphabetic_char, is_alphanumeric_char};
use vstd::prelude::*;

verus! {

/// Whether a character may stand in a project name: a letter, a number, a
/// dash or an underscore.
pub open spec fn is_name_char(c: char) -> bool {
    is_alphanumeric_char(c) || c == '_' || c == '-'
}

/// What is wrong with a project name, if anything: it is empty, it holds a
/// character that may not stand in a name, or it does not start with a letter.
pub open spec fn name_problem(name: Seq<char>) -> Option<Seq<char>> {
    if name.len() == 0 {
        Some("Project name cannot be empty"@)
    } else if exists|i: int| 0 <= i < name.len() && !is_name_char(#[trigger] name[i]) {
        Some("Project name must contain only alphanumeric characters, '-', or '_'"@)
    } else if !is_alphabetic_char(name[0]) {
        Some("Project name must start with a letter"@)
    } else {
        None
    }
}

/// Checks a project name against the rules and says what is wrong with it.
pub fn check_project_name(name: &str) -> (checked: Result<(), ErrorReport>)
    ensures
        match checked {
            Ok(()) => name_problem(name@) is None,
            Err(report) => name_problem(name@) == Some(report.text()),
        },
{
    let chars = chars_of(name);
    if chars.len() == 0 {
        return Err(ErrorReport::msg("Project name cannot be empty"));
    }
    let mut i: usize = 0;
    while i < chars.len()
        invariant
            i <= chars.len(),
            chars@ == name@,
            forall|j: int| 0 <= j < i ==> is_name_char(#[trigger] chars@[j]),
        decreases chars.len() - i,
    {
        let c = chars[i];
        if !c.is_alphanumeric() && c != '_' && c != '-' {
            return Err(
                ErrorReport::msg(
                    "Project name must contain only alphanumeric characters, '-', or '_'",
                ),
            );
        }
        i += 1;
    }
    if !chars[0].is_alphabetic() {
        return Err(ErrorReport::msg("Project name must start with a letter"));
    }
    Ok(())
}

/// Prompts the user for a project name that obeys the rules: nothing is
/// wrong with a name that comes back.
pub fn project_name<T: InquireApi>(inquire_api: &mut T, prompt: &str) -> (name: Result<
    String,
    ErrorReport,
>)
    ensures
        name matches Ok(text) ==> name_problem(text@) is None,
{
    let validator = |input: &str| -> (verdict: Result<bool, String>)
        ensures
            verdict == Ok::<bool, String>(name_problem(input@) is None),
        {
            match check_project_name(input) {
                Ok(()) => Ok(true),
                Err(_) => Ok(false),
            }
        };
    inquire_api.text_with_validation(
        prompt,
        Some("Must start with a letter and contain only alphanumeric characters, '-', or '_'"),
        validator,
        "Must start with a letter and contain only alphanumeric characters, '-', or '_'",
    )
}

} // verus!
