//! The capability every lint offers: a pure check of one subject.

use vstd::prelude::*;

use crate::result::LintResult;
use crate::result::LintResultView;

verus! {

/// A lint: a pure function from a subject to a [`LintResult`].
///
/// Evaluation is deterministic — the result is fixed by the lint and the
/// subject alone, as stated by `spec_result` — and a result whose status is
/// `Pass` reports no finding.
pub trait Lint: Sized + Copy {
    /// The kind of subject this lint inspects.
    type Subject;

    /// The result of evaluating the lint against `subject`, as an abstract
    /// value.
    spec fn spec_result(self, subject: Self::Subject) -> LintResultView;

    /// Evaluate the lint against `subject`.
    fn evaluate(&self, subject: &Self::Subject) -> (result: LintResult)
        ensures
            result@ == self.spec_result(*subject),
    ;
}

} // verus!
