//! Diagnostic report generation and statistics.

use crate::doctor::types::{Diagnostic, Severity};
use crate::text::same;
use vstd::prelude::*;

verus! {

/// Points taken off the health score for each error.
pub const ERROR_PENALTY: usize = 20;

/// Points taken off the health score for each warning.
pub const WARNING_PENALTY: usize = 5;

/// Points taken off the health score for each suggestion.
pub const SUGGESTION_PENALTY: usize = 1;

/// The most that is taken off the health score.
pub const MAX_PENALTY: usize = 100;

/// The result of running a diagnostic check.
#[derive(Debug)]
pub struct CheckResult {
    /// Name of the check.
    pub name: String,
    /// Description of the check.
    pub description: String,
    /// Category of the check.
    pub category: String,
    /// How long the check ran, in nanoseconds.
    pub duration: u128,
    /// Diagnostics produced by the check.
    pub diagnostics: Vec<Diagnostic>,
}

/// A complete diagnostic report with all check results.
#[derive(Debug)]
pub struct DiagnosticReport {
    /// Results of all checks that were run.
    pub results: Vec<CheckResult>,
    /// Total duration of all checks, in nanoseconds.
    pub total_duration: u128,
}

/// Statistics about a diagnostic report.
#[derive(Debug, Clone, Copy, PartialEq, Eq, Structural)]
pub struct DiagnosticStatistics {
    /// Total number of checks run.
    pub total_checks: usize,
    /// Total number of diagnostic findings.
    pub total_diagnostics: usize,
    /// Number of errors found.
    pub errors: usize,
    /// Number of warnings found.
    pub warnings: usize,
    /// Number of suggestions found.
    pub suggestions: usize,
    /// Number of informational messages.
    pub info: usize,
    /// Overall health score (0-100).
    pub health_score: u8,
}

/// The diagnostics among the first `n` of `found` that have the severity, in
/// order.
pub open spec fn of_severity(found: Seq<Diagnostic>, n: nat, severity: Severity) -> Seq<
    Diagnostic,
>
    decreases n,
{
    if n == 0 {
        Seq::empty()
    } else {
        let before = of_severity(found, (n - 1) as nat, severity);
        if found[n - 1].severity == severity {
            before.push(found[n - 1])
        } else {
            before
        }
    }
}

/// The diagnostics of the first `n` results that have the severity, in the
/// order of the report.
pub open spec fn reported(results: Seq<CheckResult>, n: nat, severity: Severity) -> Seq<
    Diagnostic,
>
    decreases n,
{
    if n == 0 {
        Seq::empty()
    } else {
        reported(results, (n - 1) as nat, severity) + of_severity(
            results[n - 1].diagnostics@,
            results[n - 1].diagnostics@.len(),
            severity,
        )
    }
}

/// The diagnostics among the first `n` of `found` that belong to the
/// category, in order.
pub open spec fn of_category(found: Seq<Diagnostic>, n: nat, category: Seq<char>) -> Seq<
    Diagnostic,
>
    decreases n,
{
    if n == 0 {
        Seq::empty()
    } else {
        let before = of_category(found, (n - 1) as nat, category);
        if found[n - 1].category@ == category {
            before.push(found[n - 1])
        } else {
            before
        }
    }
}

/// The diagnostics of the first `n` results that belong to the category, in
/// the order of the report.
pub open spec fn categorized(results: Seq<CheckResult>, n: nat, category: Seq<char>) -> Seq<
    Diagnostic,
>
    decreases n,
{
    if n == 0 {
        Seq::empty()
    } else {
        categorized(results, (n - 1) as nat, category) + of_category(
            results[n - 1].diagnostics@,
            results[n - 1].diagnostics@.len(),
            category,
        )
    }
}

/// Whether a diagnostic of the first `n` results belongs to the category.
pub open spec fn occurs(results: Seq<CheckResult>, n: nat, category: Seq<char>) -> bool {
    exists|r: int, d: int|
        0 <= r < n && 0 <= d < results[r].diagnostics@.len()
            && #[trigger] results[r].diagnostics@[d].category@ == category
}

/// Whether one of the names is the category.
pub open spec fn names(categories: Seq<&str>, category: Seq<char>) -> bool {
    exists|i: int| 0 <= i < categories.len() && #[trigger] categories[i]@ == category
}

/// Whether no two of the names are the same.
pub open spec fn distinct(categories: Seq<&str>) -> bool {
    forall|i: int, j: int|
        0 <= i < j < categories.len() ==> #[trigger] categories[i]@ != #[trigger] categories[j]@
}

/// The diagnostics of one category.
#[derive(Debug)]
pub struct CategoryGroup<'a> {
    /// The category.
    pub category: &'a str,
    /// The diagnostics of the category, in the order of the report.
    pub diagnostics: Vec<&'a Diagnostic>,
}

/// The categories of a list of groups, in order.
pub open spec fn group_names(groups: Seq<CategoryGroup>) -> Seq<&str> {
    Seq::new(groups.len(), |i: int| groups[i].category)
}

proof fn lemma_of_category_holds(found: Seq<Diagnostic>, n: nat, d: int, category: Seq<char>)
    requires
        0 <= d < n <= found.len(),
        found[d].category@ == category,
    ensures
        of_category(found, n, category).len() > 0,
    decreases n,
{
    if d < n - 1 {
        lemma_of_category_holds(found, (n - 1) as nat, d, category);
    }
}

proof fn lemma_categorized_holds(
    results: Seq<CheckResult>,
    n: nat,
    r: int,
    d: int,
    category: Seq<char>,
)
    requires
        0 <= r < n <= results.len(),
        0 <= d < results[r].diagnostics@.len(),
        results[r].diagnostics@[d].category@ == category,
    ensures
        categorized(results, n, category).len() > 0,
    decreases n,
{
    if r < n - 1 {
        lemma_categorized_holds(results, (n - 1) as nat, r, d, category);
    } else {
        lemma_of_category_holds(
            results[r].diagnostics@,
            results[r].diagnostics@.len(),
            d,
            category,
        );
    }
}

/// The number of diagnostics of the first `n` results.
pub open spec fn findings(results: Seq<CheckResult>, n: nat) -> nat
    decreases n,
{
    if n == 0 {
        0
    } else {
        findings(results, (n - 1) as nat) + results[n - 1].diagnostics@.len()
    }
}

/// The sum of the durations of the first `n` results.
pub open spec fn durations(results: Seq<CheckResult>, n: nat) -> int
    decreases n,
{
    if n == 0 {
        0
    } else {
        durations(results, (n - 1) as nat) + results[n - 1].duration
    }
}

/// The sum of the durations of results does not change where a result is
/// added behind them.
pub proof fn lemma_durations_of_prefix(results: Seq<CheckResult>, added: CheckResult, n: nat)
    requires
        n <= results.len(),
    ensures
        durations(results.push(added), n) == durations(results, n),
    decreases n,
{
    if n > 0 {
        lemma_durations_of_prefix(results, added, (n - 1) as nat);
    }
}

/// The health score for the given numbers of checks, errors, warnings and
/// suggestions: 100 where no check ran, and otherwise 100 less the penalties,
/// of which no more than 100 are counted.
pub open spec fn score(checks: nat, errors: nat, warnings: nat, suggestions: nat) -> int {
    if checks == 0 {
        100
    } else {
        let penalty = errors * 20 + warnings * 5 + suggestions;
        if penalty >= 100 {
            0
        } else {
            100 - penalty
        }
    }
}

fn capped(count: usize) -> (c: usize)
    ensures
        c == if count >= 100 {
            100
        } else {
            count as int
        },
{
    if count >= 100 {
        100
    } else {
        count
    }
}

impl DiagnosticReport {
    /// The diagnostics of the report that have the severity, in order.
    pub open spec fn with_severity(self, severity: Severity) -> Seq<Diagnostic> {
        reported(self.results@, self.results@.len(), severity)
    }

    /// The health score of the report.
    pub open spec fn health(self) -> int {
        score(
            self.results@.len(),
            self.with_severity(Severity::Error).len(),
            self.with_severity(Severity::Warning).len(),
            self.with_severity(Severity::Suggestion).len(),
        )
    }

    /// Creates a new empty diagnostic report.
    pub fn new() -> (report: Self)
        ensures
            report.results@.len() == 0,
            report.total_duration == 0,
    {
        DiagnosticReport { results: Vec::new(), total_duration: 0 }
    }

    /// Adds a check result to the end of the report and its duration to the
    /// total.
    pub fn add_result(&mut self, result: CheckResult)
        requires
            old(self).total_duration + result.duration <= u128::MAX,
        ensures
            final(self).results@ == old(self).results@.push(result),
            final(self).total_duration == old(self).total_duration + result.duration,
    {
        self.total_duration = self.total_duration + result.duration;
        self.results.push(result);
    }

    /// The diagnostics that have the severity, in the order of the report.
    pub fn diagnostics_by_severity(&self, severity: Severity) -> (found: Vec<&Diagnostic>)
        ensures
            found@.unref() == self.with_severity(severity),
    {
        let mut found: Vec<&Diagnostic> = Vec::new();
        let mut r: usize = 0;
        while r < self.results.len()
            invariant
                r <= self.results@.len(),
                found@.unref() == reported(self.results@, r as nat, severity),
            decreases self.results.len() - r,
        {
            let diagnostics = &self.results[r].diagnostics;
            let ghost before = found@.unref();
            let mut d: usize = 0;
            while d < diagnostics.len()
                invariant
                    d <= diagnostics@.len(),
                    found@.unref() == before + of_severity(diagnostics@, d as nat, severity),
                decreases diagnostics.len() - d,
            {
                let ghost prior = found@.unref();
                if diagnostics[d].severity == severity {
                    found.push(&diagnostics[d]);
                    assert(found@.unref() =~= prior.push(diagnostics@[d as int]));
                }
                d += 1;
                assert(found@.unref() =~= before + of_severity(diagnostics@, d as nat, severity));
            }
            r += 1;
        }
        found
    }

    /// The diagnostics of the report that belong to the category, in order.
    pub open spec fn in_category(self, category: Seq<char>) -> Seq<Diagnostic> {
        categorized(self.results@, self.results@.len(), category)
    }

    fn categories(&self) -> (found: Vec<&str>)
        ensures
            distinct(found@),
            forall|i: int|
                0 <= i < found@.len() ==> occurs(
                    self.results@,
                    self.results@.len(),
                    #[trigger] found@[i]@,
                ),
            forall|r: int, d: int|
                0 <= r < self.results@.len() && 0 <= d < self.results@[r].diagnostics@.len()
                    ==> names(found@, #[trigger] self.results@[r].diagnostics@[d].category@),
    {
        let mut found: Vec<&str> = Vec::new();
        let mut r: usize = 0;
        while r < self.results.len()
            invariant
                r <= self.results@.len(),
                distinct(found@),
                forall|i: int|
                    0 <= i < found@.len() ==> occurs(
                        self.results@,
                        self.results@.len(),
                        #[trigger] found@[i]@,
                    ),
                forall|q: int, d: int|
                    0 <= q < r && 0 <= d < self.results@[q].diagnostics@.len() ==> names(
                        found@,
                        #[trigger] self.results@[q].diagnostics@[d].category@,
                    ),
            decreases self.results.len() - r,
        {
            let diagnostics = &self.results[r].diagnostics;
            let mut d: usize = 0;
            while d < diagnostics.len()
                invariant
                    r < self.results@.len(),
                    diagnostics@ == self.results@[r as int].diagnostics@,
                    d <= diagnostics@.len(),
                    distinct(found@),
                    forall|i: int|
                        0 <= i < found@.len() ==> occurs(
                            self.results@,
                            self.results@.len(),
                            #[trigger] found@[i]@,
                        ),
                    forall|q: int, e: int|
                        0 <= q < r && 0 <= e < self.results@[q].diagnostics@.len() ==> names(
                            found@,
                            #[trigger] self.results@[q].diagnostics@[e].category@,
                        ),
                    forall|e: int|
                        0 <= e < d ==> names(found@, #[trigger] diagnostics@[e].category@),
                decreases diagnostics.len() - d,
            {
                let category = diagnostics[d].category.as_str();
                let ghost before = found@;
                let mut known = false;
                let mut i: usize = 0;
                while i < found.len() && !known
                    invariant
                        i <= found@.len(),
                        found@ == before,
                        known ==> names(found@, category@),
                        !known ==> forall|j: int| 0 <= j < i ==> #[trigger] found@[j]@ != category@,
                    decreases found.len() - i + if known { 0int } else { 1int },
                {
                    if same(found[i], category) {
                        known = true;
                    } else {
                        i += 1;
                    }
                }
                if !known {
                    found.push(category);
                    assert(found@[found@.len() - 1]@ == category@);
                    assert(self.results@[r as int].diagnostics@[d as int].category@ == category@);
                }
                assert forall|q: int, e: int|
                    0 <= q < r && 0 <= e < self.results@[q].diagnostics@.len() implies names(
                    found@,
                    #[trigger] self.results@[q].diagnostics@[e].category@,
                ) by {
                    let c = self.results@[q].diagnostics@[e].category@;
                    assert(names(before, c));
                    let w = choose|w: int| 0 <= w < before.len() && #[trigger] before[w]@ == c;
                    assert(found@[w]@ == c);
                }
                assert forall|e: int| 0 <= e < d + 1 implies names(
                    found@,
                    #[trigger] diagnostics@[e].category@,
                ) by {
                    let c = diagnostics@[e].category@;
                    if e < d {
                        assert(names(before, c));
                        let w = choose|w: int| 0 <= w < before.len() && #[trigger] before[w]@ == c;
                        assert(found@[w]@ == c);
                    } else if known {
                        assert(names(found@, category@));
                    } else {
                        assert(found@[found@.len() - 1]@ == c);
                    }
                }
                assert forall|k: int| 0 <= k < found@.len() implies occurs(
                    self.results@,
                    self.results@.len(),
                    #[trigger] found@[k]@,
                ) by {
                    if k < before.len() {
                        assert(found@[k] == before[k]);
                    }
                }
                d += 1;
            }
            r += 1;
        }
        found
    }

    fn diagnostics_of_category(&self, category: &str) -> (found: Vec<&Diagnostic>)
        ensures
            found@.unref() == self.in_category(category@),
    {
        let mut found: Vec<&Diagnostic> = Vec::new();
        let mut r: usize = 0;
        while r < self.results.len()
            invariant
                r <= self.results@.len(),
                found@.unref() == categorized(self.results@, r as nat, category@),
            decreases self.results.len() - r,
        {
            let diagnostics = &self.results[r].diagnostics;
            let ghost before = found@.unref();
            let mut d: usize = 0;
            while d < diagnostics.len()
                invariant
                    d <= diagnostics@.len(),
                    found@.unref() == before + of_category(diagnostics@, d as nat, category@),
                decreases diagnostics.len() - d,
            {
                let ghost prior = found@.unref();
                if same(diagnostics[d].category.as_str(), category) {
                    found.push(&diagnostics[d]);
                    assert(found@.unref() =~= prior.push(diagnostics@[d as int]));
                }
                d += 1;
                assert(found@.unref() =~= before + of_category(diagnostics@, d as nat, category@));
            }
            r += 1;
        }
        found
    }

    /// The diagnostics grouped by category. Each category of the report has
    /// one group, no category has two, and a group holds the diagnostics of
    /// its category, none of them missing, in the order of the report.
    pub fn diagnostics_by_category(&self) -> (groups: Vec<CategoryGroup<'_>>)
        ensures
            distinct(group_names(groups@)),
            forall|i: int|
                0 <= i < groups@.len() ==> {
                    &&& (#[trigger] groups@[i]).diagnostics@.unref() == self.in_category(
                        groups@[i].category@,
                    )
                    &&& groups@[i].diagnostics@.len() > 0
                },
            forall|r: int, d: int|
                0 <= r < self.results@.len() && 0 <= d < self.results@[r].diagnostics@.len()
                    ==> names(
                    group_names(groups@),
                    #[trigger] self.results@[r].diagnostics@[d].category@,
                ),
    {
        let categories = self.categories();
        let mut groups: Vec<CategoryGroup<'_>> = Vec::new();
        let mut i: usize = 0;
        while i < categories.len()
            invariant
                i <= categories@.len(),
                groups@.len() == i,
                forall|k: int| 0 <= k < i ==> (#[trigger] groups@[k]).category == categories@[k],
                forall|k: int|
                    0 <= k < i ==> {
                        &&& (#[trigger] groups@[k]).diagnostics@.unref() == self.in_category(
                            groups@[k].category@,
                        )
                        &&& groups@[k].diagnostics@.len() > 0
                    },
                forall|k: int|
                    0 <= k < categories@.len() ==> occurs(
                        self.results@,
                        self.results@.len(),
                        #[trigger] categories@[k]@,
                    ),
            decreases categories.len() - i,
        {
            let category = categories[i];
            let diagnostics = self.diagnostics_of_category(category);
            proof {
                assert(occurs(self.results@, self.results@.len(), categories@[i as int]@));
                let (r, d) = choose|r: int, d: int|
                    0 <= r < self.results@.len() && 0 <= d < self.results@[r].diagnostics@.len()
                        && #[trigger] self.results@[r].diagnostics@[d].category@ == category@;
                lemma_categorized_holds(self.results@, self.results@.len(), r, d, category@);
                assert(diagnostics@.unref().len() == diagnostics@.len());
            }
            groups.push(CategoryGroup { category, diagnostics });
            i += 1;
        }
        assert(group_names(groups@) =~= categories@);
        groups
    }

    /// Calculates the health score (0-100) based on the diagnostics.
    pub fn health_score(&self) -> (health: u8)
        ensures
            health == self.health(),
            health <= 100,
    {
        let error_count = self.diagnostics_by_severity(Severity::Error).len();
        let warning_count = self.diagnostics_by_severity(Severity::Warning).len();
        let suggestion_count = self.diagnostics_by_severity(Severity::Suggestion).len();
        if self.results.len() == 0 {
            return 100;
        }
        let total = capped(error_count) * ERROR_PENALTY + capped(warning_count) * WARNING_PENALTY
            + capped(suggestion_count) * SUGGESTION_PENALTY;
        let penalty = if total >= MAX_PENALTY {
            MAX_PENALTY
        } else {
            total
        };
        (100 - penalty) as u8
    }

    /// Gets statistics about the diagnostic results.
    pub fn statistics(&self) -> (stats: DiagnosticStatistics)
        requires
            findings(self.results@, self.results@.len()) <= usize::MAX,
        ensures
            stats.total_checks == self.results@.len(),
            stats.total_diagnostics == findings(self.results@, self.results@.len()),
            stats.errors == self.with_severity(Severity::Error).len(),
            stats.warnings == self.with_severity(Severity::Warning).len(),
            stats.suggestions == self.with_severity(Severity::Suggestion).len(),
            stats.info == self.with_severity(Severity::Info).len(),
            stats.health_score == self.health(),
    {
        let mut total: usize = 0;
        let mut r: usize = 0;
        while r < self.results.len()
            invariant
                r <= self.results@.len(),
                total == findings(self.results@, r as nat),
                findings(self.results@, self.results@.len()) <= usize::MAX,
            decreases self.results.len() - r,
        {
            proof {
                lemma_findings_grow(self.results@, (r + 1) as nat, self.results@.len());
            }
            total = total + self.results[r].diagnostics.len();
            r += 1;
        }
        DiagnosticStatistics {
            total_checks: self.results.len(),
            total_diagnostics: total,
            errors: self.diagnostics_by_severity(Severity::Error).len(),
            warnings: self.diagnostics_by_severity(Severity::Warning).len(),
            suggestions: self.diagnostics_by_severity(Severity::Suggestion).len(),
            info: self.diagnostics_by_severity(Severity::Info).len(),
            health_score: self.health_score(),
        }
    }
}

proof fn lemma_findings_grow(results: Seq<CheckResult>, n: nat, m: nat)
    requires
        n <= m,
    ensures
        findings(results, n) <= findings(results, m),
    decreases m,
{
    if n < m {
        lemma_findings_grow(results, n, (m - 1) as nat);
    }
}

} // verus!
