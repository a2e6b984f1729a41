//! Errors of the command line: what failed, and notes on where it failed.

use crate::text::concat;
use vstd::prelude::*;

verus! {

/// A failure with a message and with notes that were attached on its way up:
/// the path or the command that was being worked on, and suggestions.
#[derive(Debug, Clone, PartialEq, Eq)]
pub struct ErrorReport {
    message: String,
    sections: Vec<String>,
}

/// The texts of a list of strings.
pub open spec fn texts_of(strings: Seq<String>) -> Seq<Seq<char>> {
    Seq::new(strings.len(), |i: int| strings[i]@)
}

/// The notes that a list of suggestions adds to a failure: none for an empty
/// list, and otherwise a heading followed by one line for each suggestion.
pub open spec fn suggestion_notes(suggestions: Seq<&str>) -> Seq<Seq<char>> {
    if suggestions.len() == 0 {
        Seq::empty()
    } else {
        seq!["Suggestions:"@] + Seq::new(suggestions.len(), |i: int| "- "@ + suggestions[i]@)
    }
}

impl ErrorReport {
    /// The message of the failure.
    pub closed spec fn text(&self) -> Seq<char> {
        self.message@
    }

    /// The notes attached to the failure, oldest first.
    pub closed spec fn notes(&self) -> Seq<Seq<char>> {
        texts_of(self.sections@)
    }

    /// Whether the failure has the message `text` and no notes, as a failure
    /// that was just created has.
    pub open spec fn says(&self, text: Seq<char>) -> bool {
        self.text() == text && self.notes() == Seq::<Seq<char>>::empty()
    }

    /// Creates a failure with a message and no notes.
    pub fn msg(message: &str) -> (report: Self)
        ensures
            report.text() == message@,
            report.notes() == Seq::<Seq<char>>::empty(),
    {
        let report = ErrorReport { message: message.to_owned(), sections: Vec::new() };
        assert(report.notes() =~= Seq::<Seq<char>>::empty());
        report
    }

    /// The message of the failure.
    pub fn message(&self) -> (text: &str)
        ensures
            text@ == self.text(),
    {
        self.message.as_str()
    }

    /// The notes attached to the failure, oldest first.
    pub fn sections(&self) -> (notes: &Vec<String>)
        ensures
            texts_of(notes@) == self.notes(),
    {
        &self.sections
    }

    /// Attaches a note to the failure.
    pub fn section(self, note: String) -> (report: Self)
        ensures
            report.text() == self.text(),
            report.notes() == self.notes().push(note@),
    {
        let mut report = self;
        report.sections.push(note);
        assert(report.notes() =~= self.notes().push(note@));
        report
    }
}

/// CLI-specific error types.
#[derive(Debug, Clone, PartialEq, Eq)]
pub enum CliError {
    /// Error occurred during command execution.
    CommandError(String),
    /// Error occurred with file system operations.
    FileSystemError(String),
    /// Error occurred with project configuration.
    ConfigError(String),
    /// Error occurred with template processing.
    TemplateError(String),
    /// Error from interactive prompts.
    InquireError(String),
    /// Error from the core of the generator.
    LibraryError(ErrorReport),
    /// Other errors that don't fit specific categories.
    Other(String),
}

impl CliError {
    /// The message of the error: what kind of error it is, and its text.
    pub open spec fn message_text(self) -> Seq<char> {
        match self {
            CliError::CommandError(text) => "Command failed: "@ + text@,
            CliError::FileSystemError(text) => "File system error: "@ + text@,
            CliError::ConfigError(text) => "Configuration error: "@ + text@,
            CliError::TemplateError(text) => "Template error: "@ + text@,
            CliError::InquireError(text) => "Interactive prompt error: "@ + text@,
            CliError::LibraryError(report) => "Library error: "@ + report.text(),
            CliError::Other(text) => "Error: "@ + text@,
        }
    }

    /// The message of the error.
    pub fn message(&self) -> (text: String)
        ensures
            text@ == self.message_text(),
    {
        match self {
            CliError::CommandError(text) => concat("Command failed: ", text.as_str()),
            CliError::FileSystemError(text) => concat("File system error: ", text.as_str()),
            CliError::ConfigError(text) => concat("Configuration error: ", text.as_str()),
            CliError::TemplateError(text) => concat("Template error: ", text.as_str()),
            CliError::InquireError(text) => concat("Interactive prompt error: ", text.as_str()),
            CliError::LibraryError(report) => concat("Library error: ", report.message()),
            CliError::Other(text) => concat("Error: ", text.as_str()),
        }
    }
}

/// Attaches the path that was being worked on to a failure.
pub fn with_path_context(err: ErrorReport, path: &str) -> (report: ErrorReport)
    ensures
        report.text() == err.text(),
        report.notes() == err.notes().push("Path: "@ + path@),
{
    err.section(concat("Path: ", path))
}

/// Creates a failure of the command line with a message.
pub fn cli_error(message: &str) -> (report: ErrorReport)
    ensures
        report.text() == message@,
        report.notes() == Seq::<Seq<char>>::empty(),
{
    ErrorReport::msg(message)
}

/// Attaches the command that was running to the failure of a result; a
/// success passes through.
pub fn command_context<T>(result: Result<T, ErrorReport>, command: &str) -> (annotated: Result<
    T,
    ErrorReport,
>)
    ensures
        match result {
            Ok(value) => annotated == Ok::<T, ErrorReport>(value),
            Err(err) => annotated matches Err(report) && report.text() == err.text()
                && report.notes() == err.notes().push("Command: "@ + command@),
        },
{
    match result {
        Ok(value) => Ok(value),
        Err(err) => Err(err.section(concat("Command: ", command))),
    }
}

/// Attaches suggestions to the failure of a result; a success passes through,
/// and so does a failure where there is nothing to suggest.
pub fn suggest<T>(result: Result<T, ErrorReport>, suggestions: &[&str]) -> (annotated: Result<
    T,
    ErrorReport,
>)
    ensures
        match result {
            Ok(value) => annotated == Ok::<T, ErrorReport>(value),
            Err(err) => annotated matches Err(report) && report.text() == err.text()
                && report.notes() == err.notes() + suggestion_notes(suggestions@),
        },
{
    match result {
        Ok(value) => Ok(value),
        Err(err) => {
            let mut report = err;
            if suggestions.len() > 0 {
                report = report.section("Suggestions:".to_owned());
                let mut i: usize = 0;
                while i < suggestions.len()
                    invariant
                        i <= suggestions@.len(),
                        suggestions@.len() > 0,
                        report.text() == err.text(),
                        report.notes() == err.notes() + suggestion_notes(suggestions@).take(i + 1),
                    decreases suggestions.len() - i,
                {
                    report = report.section(concat("- ", suggestions[i]));
                    i += 1;
                    assert(report.notes() =~= err.notes() + suggestion_notes(suggestions@).take(
                        i + 1,
                    ));
                }
                assert(suggestion_notes(suggestions@).take(i + 1) =~= suggestion_notes(
                    suggestions@,
                ));
            } else {
                assert(err.notes() + suggestion_notes(suggestions@) =~= err.notes());
            }
            Err(report)
        },
    }
}

/// Add command context to an error.
pub trait CommandErrorExt<T> {
    /// Attaches the command that was running to a failure.
    fn command_context(self, command: &str) -> Result<T, ErrorReport>;
}

impl<T> CommandErrorExt<T> for Result<T, ErrorReport> {
    fn command_context(self, command: &str) -> (annotated: Result<T, ErrorReport>)
        ensures
            match self {
                Ok(value) => annotated == Ok::<T, ErrorReport>(value),
                Err(err) => annotated matches Err(report) && report.text() == err.text()
                    && report.notes() == err.notes().push("Command: "@ + command@),
            },
    {
        self::command_context(self, command)
    }
}

/// Add actionable suggestions to an error.
pub trait SuggestionsExt<T> {
    /// Attaches suggestions to a failure.
    fn suggest(self, suggestions: &[&str]) -> Result<T, ErrorReport>;
}

impl<T> SuggestionsExt<T> for Result<T, ErrorReport> {
    fn suggest(self, suggestions: &[&str]) -> (annotated: Result<T, ErrorReport>)
        ensures
            match self {
                Ok(value) => annotated == Ok::<T, ErrorReport>(value),
                Err(err) => annotated matches Err(report) && report.text() == err.text()
                    && report.notes() == err.notes() + suggestion_notes(suggestions@),
            },
    {
        self::suggest(self, suggestions)
    }
}

} // verus!
