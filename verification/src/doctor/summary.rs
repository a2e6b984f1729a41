//! What the doctor command shows of a report, line by line.

use crate::doctor::reporting::{CategoryGroup, CheckResult, DiagnosticStatistics};
use crate::doctor::types::{assess, level_of, Diagnostic, HealthLevel, Severity};
use crate::text::{concat, decimal, decimal_text};
use vstd::prelude::*;

verus! {

/// How a line is shown.
#[derive(Debug, Clone, Copy, PartialEq, Eq, Structural)]
pub enum LineKind {
    /// The title of the report.
    Header,
    /// The title of a section.
    Section,
    /// A piece of information.
    Info,
    /// Good news.
    Success,
    /// A warning.
    Warning,
    /// An error.
    Error,
}

/// One line of the report.
#[derive(Debug, Clone, PartialEq, Eq)]
pub struct ReportLine {
    /// How the line is shown.
    pub kind: LineKind,
    /// The words of the line.
    pub text: String,
}

/// A line as contracts speak of it.
pub ghost struct LineModel {
    /// How the line is shown.
    pub kind: LineKind,
    /// The words of the line.
    pub text: Seq<char>,
}

/// The lines of a list as contracts speak of them.
pub open spec fn line_models(lines: Seq<ReportLine>) -> Seq<LineModel> {
    Seq::new(lines.len(), |i: int| LineModel { kind: lines[i].kind, text: lines[i].text@ })
}

/// A line as contracts speak of it.
pub open spec fn line_of(kind: LineKind, text: Seq<char>) -> LineModel {
    LineModel { kind, text }
}

/// The line that shows the message of a diagnostic: the kind of line and the
/// sign in front of the message go by the severity.
pub open spec fn message_line(diagnostic: Diagnostic) -> LineModel {
    match diagnostic.severity {
        Severity::Info => line_of(LineKind::Info, "ℹ️ "@ + diagnostic.message@),
        Severity::Suggestion => line_of(LineKind::Info, "💡 "@ + diagnostic.message@),
        Severity::Warning => line_of(LineKind::Warning, "⚠️ "@ + diagnostic.message@),
        Severity::Error => line_of(LineKind::Error, "❌ "@ + diagnostic.message@),
    }
}

/// The lines that show a diagnostic: its message, then its details and its
/// suggestion where it has them.
pub open spec fn diagnostic_model(diagnostic: Diagnostic) -> Seq<LineModel> {
    seq![message_line(diagnostic)] + match diagnostic.details {
        Some(details) => seq![line_of(LineKind::Info, "  Details: "@ + details@)],
        None => Seq::empty(),
    } + match diagnostic.suggestion {
        Some(suggestion) => seq![line_of(LineKind::Info, "  Suggestion: "@ + suggestion@)],
        None => Seq::empty(),
    }
}

/// The lines that show the first `n` of the diagnostics.
pub open spec fn diagnostics_model(diagnostics: Seq<Diagnostic>, n: nat) -> Seq<LineModel>
    decreases n,
{
    if n == 0 {
        Seq::empty()
    } else {
        diagnostics_model(diagnostics, (n - 1) as nat) + diagnostic_model(diagnostics[n - 1])
    }
}

/// The lines that show the result of a check: its name, its description and
/// how long it ran, and then either that nothing was found or what was found.
pub open spec fn result_model(result: CheckResult, duration: Seq<char>) -> Seq<LineModel> {
    seq![
        line_of(LineKind::Section, "Check: "@ + result.name@),
        line_of(LineKind::Info, "Description: "@ + result.description@),
        line_of(LineKind::Info, "Duration: "@ + duration),
    ] + if result.diagnostics@.len() == 0 {
        seq![line_of(LineKind::Success, "✅ No issues found"@)]
    } else {
        diagnostics_model(result.diagnostics@, result.diagnostics@.len())
    }
}

/// The words for a level of health.
pub open spec fn level_name(level: HealthLevel) -> Seq<char> {
    match level {
        HealthLevel::Excellent => "Excellent"@,
        HealthLevel::Good => "Good"@,
        HealthLevel::Moderate => "Moderate"@,
        HealthLevel::NeedsAttention => "Needs attention"@,
        HealthLevel::Critical => "Critical"@,
    }
}

/// How the line for a level of health is shown.
pub open spec fn level_kind(level: HealthLevel) -> LineKind {
    match level {
        HealthLevel::Excellent | HealthLevel::Good => LineKind::Success,
        HealthLevel::Moderate | HealthLevel::NeedsAttention => LineKind::Warning,
        HealthLevel::Critical => LineKind::Error,
    }
}

/// The lines that sum up a report: the counts, and the assessment of the
/// health score.
pub open spec fn summary_model(stats: DiagnosticStatistics) -> Seq<LineModel> {
    let score = decimal_text(stats.health_score as nat);
    seq![
        line_of(LineKind::Section, "Project Health Summary"@),
        line_of(LineKind::Info, "Total checks: "@ + decimal_text(stats.total_checks as nat)),
        line_of(LineKind::Info, "Health score: "@ + score + "%"@),
        line_of(LineKind::Success, "Info: "@ + decimal_text(stats.info as nat)),
        line_of(LineKind::Success, "Suggestions: "@ + decimal_text(stats.suggestions as nat)),
        line_of(LineKind::Warning, "Warnings: "@ + decimal_text(stats.warnings as nat)),
        line_of(LineKind::Error, "Errors: "@ + decimal_text(stats.errors as nat)),
        line_of(LineKind::Section, "Project Health Assessment"@),
        line_of(
            level_kind(level_of(stats.health_score)),
            level_name(level_of(stats.health_score)) + " ("@ + score + "%)"@,
        ),
    ]
}

/// How many of the first `n` diagnostics are warnings or errors.
pub open spec fn issues(diagnostics: Seq<&Diagnostic>, n: nat) -> nat
    decreases n,
{
    if n == 0 {
        0
    } else {
        issues(diagnostics, (n - 1) as nat) + if diagnostics[n - 1].severity == Severity::Warning
            || diagnostics[n - 1].severity == Severity::Error {
            1nat
        } else {
            0nat
        }
    }
}

/// The lines that point to the categories with issues among the first `n`
/// groups: one line for each group that holds a warning or an error.
pub open spec fn category_model(groups: Seq<CategoryGroup>, n: nat) -> Seq<LineModel>
    decreases n,
{
    if n == 0 {
        Seq::empty()
    } else {
        let group = groups[n - 1];
        let count = issues(group.diagnostics@, group.diagnostics@.len());
        category_model(groups, (n - 1) as nat) + if count > 0 {
            seq![
                line_of(
                    LineKind::Info,
                    "• Check "@ + group.category@ + " category ("@ + decimal_text(count)
                        + " issues)"@,
                ),
            ]
        } else {
            Seq::empty()
        }
    }
}

/// The lines that recommend what to do: nothing where there are neither
/// warnings nor errors, and otherwise a heading, a line on errors and a line
/// on warnings where there are any, and the categories with issues.
pub open spec fn recommendation_model(
    stats: DiagnosticStatistics,
    groups: Seq<CategoryGroup>,
) -> Seq<LineModel> {
    if stats.warnings > 0 || stats.errors > 0 {
        seq![line_of(LineKind::Section, "Recommendations"@)] + (if stats.errors > 0 {
            seq![line_of(LineKind::Error, "Fix all errors to ensure project functionality."@)]
        } else {
            Seq::empty()
        }) + (if stats.warnings > 0 {
            seq![line_of(LineKind::Warning, "Address warnings to improve project quality."@)]
        } else {
            Seq::empty()
        }) + category_model(groups, groups.len())
    } else {
        Seq::empty()
    }
}

fn line(kind: LineKind, text: String) -> (made: ReportLine)
    ensures
        made.kind == kind,
        made.text == text,
{
    ReportLine { kind, text }
}

fn push_line(lines: &mut Vec<ReportLine>, kind: LineKind, text: String)
    ensures
        line_models(final(lines)@) == line_models(old(lines)@).push(line_of(kind, text@)),
{
    lines.push(line(kind, text));
    assert(line_models(lines@) =~= line_models(old(lines)@).push(line_of(kind, text@)));
}

/// Lays out the lines that show a diagnostic.
pub fn diagnostic_lines(diagnostic: &Diagnostic) -> (lines: Vec<ReportLine>)
    ensures
        line_models(lines@) == diagnostic_model(*diagnostic),
{
    let mut lines: Vec<ReportLine> = Vec::new();
    assert(line_models(lines@) =~= Seq::<LineModel>::empty());
    match diagnostic.severity {
        Severity::Info => push_line(
            &mut lines,
            LineKind::Info,
            concat("ℹ️ ", diagnostic.message.as_str()),
        ),
        Severity::Suggestion => push_line(
            &mut lines,
            LineKind::Info,
            concat("💡 ", diagnostic.message.as_str()),
        ),
        Severity::Warning => push_line(
            &mut lines,
            LineKind::Warning,
            concat("⚠️ ", diagnostic.message.as_str()),
        ),
        Severity::Error => push_line(
            &mut lines,
            LineKind::Error,
            concat("❌ ", diagnostic.message.as_str()),
        ),
    }
    match &diagnostic.details {
        Some(details) => push_line(
            &mut lines,
            LineKind::Info,
            concat("  Details: ", details.as_str()),
        ),
        None => {},
    }
    match &diagnostic.suggestion {
        Some(suggestion) => push_line(
            &mut lines,
            LineKind::Info,
            concat("  Suggestion: ", suggestion.as_str()),
        ),
        None => {},
    }
    assert(line_models(lines@) =~= diagnostic_model(*diagnostic));
    lines
}

fn append_lines(lines: &mut Vec<ReportLine>, more: Vec<ReportLine>)
    ensures
        line_models(final(lines)@) == line_models(old(lines)@) + line_models(more@),
{
    let ghost added = more@;
    let mut more = more;
    lines.append(&mut more);
    assert(line_models(lines@) =~= line_models(old(lines)@) + line_models(added));
}

/// Lays out the lines that show the result of a check; `duration` says how
/// long the check ran.
pub fn result_lines(result: &CheckResult, duration: &str) -> (lines: Vec<ReportLine>)
    ensures
        line_models(lines@) == result_model(*result, duration@),
{
    let mut lines: Vec<ReportLine> = Vec::new();
    assert(line_models(lines@) =~= Seq::<LineModel>::empty());
    push_line(&mut lines, LineKind::Section, concat("Check: ", result.name.as_str()));
    push_line(&mut lines, LineKind::Info, concat("Description: ", result.description.as_str()));
    push_line(&mut lines, LineKind::Info, concat("Duration: ", duration));
    let ghost head = line_models(lines@);
    if result.diagnostics.len() == 0 {
        push_line(&mut lines, LineKind::Success, "✅ No issues found".to_owned());
    } else {
        let mut d: usize = 0;
        assert(head + diagnostics_model(result.diagnostics@, 0) =~= head);
        while d < result.diagnostics.len()
            invariant
                d <= result.diagnostics@.len(),
                line_models(lines@) == head + diagnostics_model(result.diagnostics@, d as nat),
            decreases result.diagnostics.len() - d,
        {
            append_lines(&mut lines, diagnostic_lines(&result.diagnostics[d]));
            d += 1;
            assert(line_models(lines@) =~= head + diagnostics_model(
                result.diagnostics@,
                d as nat,
            ));
        }
    }
    assert(line_models(lines@) =~= result_model(*result, duration@));
    lines
}

fn percent(prefix: &str, score: u8, suffix: &str) -> (text: String)
    ensures
        text@ == prefix@ + decimal_text(score as nat) + suffix@,
{
    concat(concat(prefix, decimal(score as usize).as_str()).as_str(), suffix)
}

fn level_words(level: HealthLevel) -> (words: &'static str)
    ensures
        words@ == level_name(level),
{
    match level {
        HealthLevel::Excellent => "Excellent",
        HealthLevel::Good => "Good",
        HealthLevel::Moderate => "Moderate",
        HealthLevel::NeedsAttention => "Needs attention",
        HealthLevel::Critical => "Critical",
    }
}

fn kind_of_level(level: HealthLevel) -> (kind: LineKind)
    ensures
        kind == level_kind(level),
{
    match level {
        HealthLevel::Excellent => LineKind::Success,
        HealthLevel::Good => LineKind::Success,
        HealthLevel::Moderate => LineKind::Warning,
        HealthLevel::NeedsAttention => LineKind::Warning,
        HealthLevel::Critical => LineKind::Error,
    }
}

/// Lays out the lines that sum up a report.
pub fn summary_lines(stats: &DiagnosticStatistics) -> (lines: Vec<ReportLine>)
    ensures
        line_models(lines@) == summary_model(*stats),
{
    let mut lines: Vec<ReportLine> = Vec::new();
    assert(line_models(lines@) =~= Seq::<LineModel>::empty());
    push_line(&mut lines, LineKind::Section, "Project Health Summary".to_owned());
    push_line(
        &mut lines,
        LineKind::Info,
        concat("Total checks: ", decimal(stats.total_checks).as_str()),
    );
    push_line(&mut lines, LineKind::Info, percent("Health score: ", stats.health_score, "%"));
    push_line(&mut lines, LineKind::Success, concat("Info: ", decimal(stats.info).as_str()));
    push_line(
        &mut lines,
        LineKind::Success,
        concat("Suggestions: ", decimal(stats.suggestions).as_str()),
    );
    push_line(
        &mut lines,
        LineKind::Warning,
        concat("Warnings: ", decimal(stats.warnings).as_str()),
    );
    push_line(&mut lines, LineKind::Error, concat("Errors: ", decimal(stats.errors).as_str()));
    push_line(&mut lines, LineKind::Section, "Project Health Assessment".to_owned());
    let level = assess(stats.health_score);
    let mut verdict = concat(level_words(level), " (");
    verdict.push_str(decimal(stats.health_score as usize).as_str());
    verdict.push_str("%)");
    push_line(&mut lines, kind_of_level(level), verdict);
    assert(line_models(lines@) =~= summary_model(*stats));
    lines
}

fn count_issues(diagnostics: &Vec<&Diagnostic>) -> (count: usize)
    ensures
        count == issues(diagnostics@, diagnostics@.len()),
{
    let mut count: usize = 0;
    let mut i: usize = 0;
    while i < diagnostics.len()
        invariant
            i <= diagnostics@.len(),
            count == issues(diagnostics@, i as nat),
            count <= i,
        decreases diagnostics.len() - i,
    {
        match diagnostics[i].severity {
            Severity::Warning => {
                count += 1;
            },
            Severity::Error => {
                count += 1;
            },
            _ => {},
        }
        i += 1;
    }
    count
}

/// Lays out the lines that recommend what to do about a report.
pub fn recommendation_lines(stats: &DiagnosticStatistics, groups: &Vec<CategoryGroup<'_>>) -> (lines:
    Vec<ReportLine>)
    ensures
        line_models(lines@) == recommendation_model(*stats, groups@),
{
    let mut lines: Vec<ReportLine> = Vec::new();
    assert(line_models(lines@) =~= Seq::<LineModel>::empty());
    if stats.warnings > 0 || stats.errors > 0 {
        push_line(&mut lines, LineKind::Section, "Recommendations".to_owned());
        if stats.errors > 0 {
            push_line(
                &mut lines,
                LineKind::Error,
                "Fix all errors to ensure project functionality.".to_owned(),
            );
        }
        if stats.warnings > 0 {
            push_line(
                &mut lines,
                LineKind::Warning,
                "Address warnings to improve project quality.".to_owned(),
            );
        }
        let ghost head = line_models(lines@);
        assert(head + category_model(groups@, 0) =~= head);
        let mut g: usize = 0;
        while g < groups.len()
            invariant
                g <= groups@.len(),
                line_models(lines@) == head + category_model(groups@, g as nat),
            decreases groups.len() - g,
        {
            let count = count_issues(&groups[g].diagnostics);
            if count > 0 {
                let mut text = concat("• Check ", groups[g].category);
                text.push_str(" category (");
                text.push_str(decimal(count).as_str());
                text.push_str(" issues)");
                push_line(&mut lines, LineKind::Info, text);
            }
            g += 1;
            assert(line_models(lines@) =~= head + category_model(groups@, g as nat));
        }
        assert(line_models(lines@) =~= recommendation_model(*stats, groups@));
    }
    lines
}

} // verus!
