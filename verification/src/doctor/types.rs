//! Core diagnostic types for the doctor command.

use vstd::prelude::*;

verus! {

/// A range of health scores, both ends included.
#[derive(Debug, Clone, Copy, PartialEq, Eq, Structural)]
pub struct ScoreRange {
    /// The lowest score of the range.
    pub start: u8,
    /// The highest score of the range.
    pub end: u8,
}

impl ScoreRange {
    /// Whether `score` lies in the range.
    pub fn contains(&self, score: u8) -> (inside: bool)
        ensures
            inside == (self.start <= score <= self.end),
    {
        self.start <= score && score <= self.end
    }
}

/// Health score thresholds for project assessment.
#[derive(Debug, Clone, Copy, PartialEq, Eq, Structural)]
pub struct HealthScoreThresholds {
    /// Scores that count as excellent.
    pub excellent: ScoreRange,
    /// Scores that count as good.
    pub good: ScoreRange,
    /// Scores that count as moderate.
    pub moderate: ScoreRange,
    /// Scores that need attention.
    pub needs_attention: ScoreRange,
}

/// The default health score thresholds.
pub open spec fn default_thresholds() -> HealthScoreThresholds {
    HealthScoreThresholds {
        excellent: ScoreRange { start: 90, end: 100 },
        good: ScoreRange { start: 70, end: 89 },
        moderate: ScoreRange { start: 50, end: 69 },
        needs_attention: ScoreRange { start: 30, end: 49 },
    }
}

/// The default health score thresholds.
pub fn health_thresholds() -> (thresholds: HealthScoreThresholds)
    ensures
        thresholds == default_thresholds(),
{
    HealthScoreThresholds {
        excellent: ScoreRange { start: 90, end: 100 },
        good: ScoreRange { start: 70, end: 89 },
        moderate: ScoreRange { start: 50, end: 69 },
        needs_attention: ScoreRange { start: 30, end: 49 },
    }
}

/// How a health score is assessed.
#[derive(Debug, Clone, Copy, PartialEq, Eq, Structural)]
pub enum HealthLevel {
    /// 90 and above.
    Excellent,
    /// 70 to 89.
    Good,
    /// 50 to 69.
    Moderate,
    /// 30 to 49.
    NeedsAttention,
    /// Below 30, or above 100.
    Critical,
}

/// The level of a score under the default thresholds.
pub open spec fn level_of(score: u8) -> HealthLevel {
    if 90 <= score <= 100 {
        HealthLevel::Excellent
    } else if 70 <= score <= 89 {
        HealthLevel::Good
    } else if 50 <= score <= 69 {
        HealthLevel::Moderate
    } else if 30 <= score <= 49 {
        HealthLevel::NeedsAttention
    } else {
        HealthLevel::Critical
    }
}

/// Assesses a health score under the default thresholds.
pub fn assess(score: u8) -> (level: HealthLevel)
    ensures
        level == level_of(score),
{
    let thresholds = health_thresholds();
    if thresholds.excellent.contains(score) {
        HealthLevel::Excellent
    } else if thresholds.good.contains(score) {
        HealthLevel::Good
    } else if thresholds.moderate.contains(score) {
        HealthLevel::Moderate
    } else if thresholds.needs_attention.contains(score) {
        HealthLevel::NeedsAttention
    } else {
        HealthLevel::Critical
    }
}

/// Represents the severity level of a diagnostic.
#[derive(Debug, Clone, Copy, PartialEq, Eq, Structural, PartialOrd, Ord)]
pub enum Severity {
    /// Informational message, no action needed.
    Info,
    /// Suggestion that may improve the project.
    Suggestion,
    /// Warning that should be addressed.
    Warning,
    /// Error that needs to be fixed.
    Error,
}

impl Severity {
    /// The name of the severity.
    pub open spec fn label_text(self) -> Seq<char> {
        match self {
            Severity::Info => "Info"@,
            Severity::Suggestion => "Suggestion"@,
            Severity::Warning => "Warning"@,
            Severity::Error => "Error"@,
        }
    }

    /// The name of the severity.
    pub fn label(&self) -> (text: &'static str)
        ensures
            text@ == self.label_text(),
    {
        match self {
            Severity::Info => "Info",
            Severity::Suggestion => "Suggestion",
            Severity::Warning => "Warning",
            Severity::Error => "Error",
        }
    }
}

/// A diagnostic finding from a check.
#[derive(Debug, Clone)]
pub struct Diagnostic {
    /// Name of the check that produced this diagnostic.
    pub check_name: String,
    /// Severity of the diagnostic.
    pub severity: Severity,
    /// Short message describing the issue.
    pub message: String,
    /// Optional detailed description.
    pub details: Option<String>,
    /// Suggested fix or mitigation.
    pub suggestion: Option<String>,
    /// Category this diagnostic belongs to.
    pub category: String,
}

/// The text of an optional string.
pub open spec fn text_of(value: Option<String>) -> Option<Seq<char>> {
    match value {
        Some(text) => Some(text@),
        None => None,
    }
}

impl Diagnostic {
    /// Whether the diagnostic holds exactly the given texts and severity.
    pub open spec fn holds(
        self,
        check_name: Seq<char>,
        severity: Severity,
        message: Seq<char>,
        details: Option<Seq<char>>,
        suggestion: Option<Seq<char>>,
        category: Seq<char>,
    ) -> bool {
        &&& self.check_name@ == check_name
        &&& self.severity == severity
        &&& self.message@ == message
        &&& text_of(self.details) == details
        &&& text_of(self.suggestion) == suggestion
        &&& self.category@ == category
    }

    /// Creates a diagnostic without details and without a suggestion.
    pub fn new(check_name: &str, severity: Severity, message: &str, category: &str) -> (made: Self)
        ensures
            made.check_name@ == check_name@,
            made.severity == severity,
            made.message@ == message@,
            made.details is None,
            made.suggestion is None,
            made.category@ == category@,
    {
        Diagnostic {
            check_name: check_name.to_owned(),
            severity,
            message: message.to_owned(),
            details: None,
            suggestion: None,
            category: category.to_owned(),
        }
    }

    /// Sets the detailed description and leaves the rest as it is.
    pub fn with_details(self, details: &str) -> (made: Self)
        ensures
            made.details matches Some(text) && text@ == details@,
            made.check_name == self.check_name,
            made.severity == self.severity,
            made.message == self.message,
            made.suggestion == self.suggestion,
            made.category == self.category,
    {
        let mut made = self;
        made.details = Some(details.to_owned());
        made
    }

    /// Sets the suggestion and leaves the rest as it is.
    pub fn with_suggestion(self, suggestion: &str) -> (made: Self)
        ensures
            made.suggestion matches Some(text) && text@ == suggestion@,
            made.check_name == self.check_name,
            made.severity == self.severity,
            made.message == self.message,
            made.details == self.details,
            made.category == self.category,
    {
        let mut made = self;
        made.suggestion = Some(suggestion.to_owned());
        made
    }
}

} // verus!
