//! Outcome of evaluating one lint against one subject.

use vstd::prelude::*;

use crate::status::LintStatus;

verus! {

/// Abstract value of a [`LintResult`]: a status together with the text of the
/// optional details.
pub ghost struct LintResultView {
    /// Status of the evaluation.
    pub status: LintStatus,
    /// Text of the details, when the result carries any.
    pub details: Option<Seq<char>>,
}

/// Lint result details (free-text additional information, e.g. which field
/// failed or an offending identifier).
#[derive(Debug)]
pub struct LintDetails {
    value: String,
}

impl View for LintDetails {
    type V = Seq<char>;

    closed spec fn view(&self) -> Seq<char> {
        self.value@
    }
}

impl LintDetails {
    /// Build details from a string.
    pub fn new(value: String) -> (details: Self)
        ensures
            details@ == value@,
    {
        Self { value }
    }

    /// Build details from borrowed text.
    pub fn from_text(text: &str) -> (details: Self)
        ensures
            details@ == text@,
    {
        Self { value: text.to_owned() }
    }

    /// The text of the details.
    pub fn as_text(&self) -> (text: &str)
        ensures
            text@ == self@,
    {
        self.value.as_str()
    }
}

/// Lint check result: a [`LintStatus`] and optional [`LintDetails`].
///
/// A result with status `Pass` reports no finding; by convention it carries
/// no details.
#[derive(Debug)]
pub struct LintResult {
    /// Lint status: pass, warn or error.
    pub status: LintStatus,
    /// Lint details (optional).
    pub details: Option<LintDetails>,
}

impl View for LintResult {
    type V = LintResultView;

    open spec fn view(&self) -> LintResultView {
        LintResultView {
            status: self.status,
            details: match self.details {
                Some(details) => Some(details@),
                None => None,
            },
        }
    }
}

impl LintResult {
    /// Build a new lint result (without details).
    pub fn new(status: LintStatus) -> (result: Self)
        ensures
            result@.status == status,
            result@.details is None,
    {
        Self { status, details: None }
    }

    /// Build a new lint result (with details).
    pub fn new_details(status: LintStatus, details: LintDetails) -> (result: Self)
        ensures
            result@.status == status,
            result@.details == Some(details@),
    {
        Self { status, details: Some(details) }
    }

    /// Build a new passing lint result (without details).
    pub fn pass() -> (result: Self)
        ensures
            result@.status is Pass,
            result@.details is None,
    {
        Self { status: LintStatus::Pass, details: None }
    }

    /// Update the lint result and add details.
    pub fn with_details(self, details: LintDetails) -> (result: Self)
        ensures
            result@.status == self.status,
            result@.details == Some(details@),
    {
        Self { status: self.status, details: Some(details) }
    }
}

} // verus!
