//! Running checks and gathering their findings in a report.

use crate::doctor::reporting::{
    durations, lemma_durations_of_prefix, CheckResult, DiagnosticReport,
};
use crate::doctor::types::Diagnostic;
use vstd::prelude::*;

verus! {

/// Weight applied to error diagnostics when calculating health score.
pub const ERROR_WEIGHT: u8 = 20;

/// Weight applied to warning diagnostics when calculating health score.
pub const WARNING_WEIGHT: u8 = 5;

/// A reading of the monotonic clock.
#[verifier::external_type_specification]
#[verifier::external_body]
pub struct ExInstant(std::time::Instant);

/// `Instant::now` reads the monotonic clock.
pub assume_specification[ std::time::Instant::now ]() -> (now: std::time::Instant)
;

/// `Instant::elapsed` gives the time that has passed since the reading.
pub assume_specification[ std::time::Instant::elapsed ](start: &std::time::Instant) -> (span:
    std::time::Duration)
;

/// `Duration::as_nanos` gives a duration in nanoseconds.
pub assume_specification[ std::time::Duration::as_nanos ](span: &std::time::Duration) -> (nanos:
    u128)
;

/// A check of one aspect of a project.
pub trait Check {
    /// Runs the check and returns its findings.
    fn run(&self) -> Vec<Diagnostic>;

    /// Name of the check.
    fn name(&self) -> &str;

    /// Description of what this check verifies.
    fn description(&self) -> &str;

    /// Category this check belongs to.
    fn category(&self) -> &str;
}

/// Whether `text` is a name that the check gives itself.
pub open spec fn is_name_of<C: Check + ?Sized>(check: &C, text: Seq<char>) -> bool {
    exists|name: &str| name@ == text && #[trigger] call_ensures(C::name, (check,), name)
}

/// Whether `text` is a description that the check gives of itself.
pub open spec fn is_description_of<C: Check + ?Sized>(check: &C, text: Seq<char>) -> bool {
    exists|description: &str|
        description@ == text && #[trigger] call_ensures(C::description, (check,), description)
}

/// Whether `text` is a category that the check gives itself.
pub open spec fn is_category_of<C: Check + ?Sized>(check: &C, text: Seq<char>) -> bool {
    exists|category: &str|
        category@ == text && #[trigger] call_ensures(C::category, (check,), category)
}

/// Whether `result` is a result of the check: it carries the name, the
/// description and the category that the check gives itself, and the
/// findings of a run of the check.
pub open spec fn is_result_of<C: Check + ?Sized>(check: &C, result: CheckResult) -> bool {
    &&& is_name_of(check, result.name@)
    &&& is_description_of(check, result.description@)
    &&& is_category_of(check, result.category@)
    &&& call_ensures(C::run, (check,), result.diagnostics)
}

/// Runs one check and makes its result. The duration is the time that the
/// run took, and no more than `limit`.
pub fn run_check<C: Check + ?Sized>(check: &C, limit: u128) -> (result: CheckResult)
    ensures
        is_result_of(check, result),
        result.duration <= limit,
{
    let start = std::time::Instant::now();
    let diagnostics = check.run();
    let elapsed = start.elapsed().as_nanos();
    let duration = if elapsed <= limit {
        elapsed
    } else {
        limit
    };
    let name = check.name();
    let description = check.description();
    let category = check.category();
    CheckResult {
        name: name.to_owned(),
        description: description.to_owned(),
        category: category.to_owned(),
        duration,
        diagnostics,
    }
}

/// Runs the checks in order and gathers their findings in a report: one
/// result for each check, in the order of the checks, each carrying the name,
/// description and category of its check and the findings of its run. The
/// total duration is the sum of the durations of the results; durations that
/// would carry the total past its range are counted as far as the range goes.
pub fn run_checks(checks: Vec<Box<dyn Check>>) -> (report: DiagnosticReport)
    ensures
        report.results@.len() == checks@.len(),
        forall|i: int|
            0 <= i < checks@.len() ==> is_result_of::<dyn Check>(
                &*checks@[i],
                #[trigger] report.results@[i],
            ),
        report.total_duration == durations(report.results@, report.results@.len()),
{
    let mut report = DiagnosticReport::new();
    let mut i: usize = 0;
    while i < checks.len()
        invariant
            i <= checks@.len(),
            report.results@.len() == i,
            forall|k: int|
                0 <= k < i ==> is_result_of::<dyn Check>(
                    &*checks@[k],
                    #[trigger] report.results@[k],
                ),
            report.total_duration == durations(report.results@, i as nat),
        decreases checks.len() - i,
    {
        let ghost before = report.results@;
        let result = run_check::<dyn Check>(&*checks[i], u128::MAX - report.total_duration);
        proof {
            lemma_durations_of_prefix(before, result, i as nat);
        }
        report.add_result(result);
        i += 1;
    }
    report
}

} // verus!
