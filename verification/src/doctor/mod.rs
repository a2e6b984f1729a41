//! Diagnosis of a project: checks, their findings, and the report on them.

pub mod checks;
pub mod diagnosis;
pub mod reporting;
pub mod summary;
pub mod types;

pub use diagnosis::{run_checks, Check};
pub use reporting::{CheckResult, DiagnosticReport, DiagnosticStatistics};
pub use types::{health_thresholds, Diagnostic, HealthScoreThresholds, Severity};
