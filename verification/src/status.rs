//! Severity of a lint outcome.

use vstd::prelude::*;

verus! {

/// Lint check status.
///
/// The three statuses are totally ordered: `Pass < Warn < Error`. `Pass`
/// means the check found nothing to report; `Warn` and `Error` always carry
/// an implicit finding.
#[derive(Debug, Copy, Clone, PartialEq, Eq, PartialOrd, Ord, Hash, Structural)]
pub enum LintStatus {
    /// Lint verification success
    Pass,
    /// Lint warning
    Warn,
    /// Lint error
    Error,
}

impl LintStatus {
    /// Position of the status in the severity order: `Pass` is lowest,
    /// `Error` is highest.
    pub open spec fn severity(self) -> int {
        match self {
            LintStatus::Pass => 0,
            LintStatus::Warn => 1,
            LintStatus::Error => 2,
        }
    }

    /// Severity level as a number, usable by callers to sort or compare
    /// findings.
    pub fn severity_level(&self) -> (level: u8)
        ensures
            level == self.severity(),
    {
        match self {
            LintStatus::Pass => 0,
            LintStatus::Warn => 1,
            LintStatus::Error => 2,
        }
    }

    /// Short lower-case text for the status.
    pub fn as_text(&self) -> (text: &'static str)
        ensures
            self is Pass ==> text@ == "pass"@,
            self is Warn ==> text@ == "warn"@,
            self is Error ==> text@ == "error"@,
    {
        match self {
            LintStatus::Pass => "pass",
            LintStatus::Warn => "warn",
            LintStatus::Error => "error",
        }
    }
}

} // verus!
