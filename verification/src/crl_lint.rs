//! The built-in lints for X.509 certificate revocation lists.

use vstd::prelude::*;

use crate::lint::Lint;
use crate::result::LintResult;
use crate::result::LintResultView;
use crate::status::LintStatus;
use crate::subject::CertificateRevocationList;
use crate::subject::X509_VERSION_2;

verus! {

/// One of the built-in CRL lints.
///
/// Every value is a pure check of a [`CertificateRevocationList`]; the
/// condition it reports, its severity and its details are given by the
/// `fires`, `severity` and `detail` specification functions.
#[derive(Debug, Clone, Copy, PartialEq, Eq, Structural)]
pub enum CRLLint {
    /// Warn: extensions are present although the version is not v2.
    ExtensionsNotV2,
}

impl CRLLint {
    /// Severity the lint reports when it fires.
    pub open spec fn severity(self) -> LintStatus {
        match self {
            CRLLint::ExtensionsNotV2 => LintStatus::Warn,
        }
    }

    /// Condition under which the lint reports a finding.
    pub open spec fn fires(self, crl: CertificateRevocationList) -> bool {
        match self {
            CRLLint::ExtensionsNotV2 => crl.extensions@.len() > 0 && crl.version != Some(
                X509_VERSION_2,
            ),
        }
    }

    /// Details the lint reports when it fires: the built-in CRL lint
    /// reports none.
    pub open spec fn detail(self, crl: CertificateRevocationList) -> Option<Seq<char>> {
        None
    }
}

impl Lint for CRLLint {
    type Subject = CertificateRevocationList;

    /// A firing lint reports its severity and details; every other
    /// evaluation passes, with no details.
    open spec fn spec_result(self, subject: CertificateRevocationList) -> LintResultView {
        if self.fires(subject) {
            LintResultView { status: self.severity(), details: self.detail(subject) }
        } else {
            LintResultView { status: LintStatus::Pass, details: None }
        }
    }

    fn evaluate(&self, subject: &CertificateRevocationList) -> (result: LintResult) {
        match self {
            CRLLint::ExtensionsNotV2 => crl_extensions_notv2(subject),
        }
    }
}

fn crl_extensions_notv2(crl: &CertificateRevocationList) -> (result: LintResult)
    ensures
        result@ == CRLLint::ExtensionsNotV2.spec_result(*crl),
{
    let version_is_v2 = match crl.version {
        Some(version) => version == X509_VERSION_2,
        None => false,
    };
    if !crl.extensions.is_empty() && !version_is_v2 {
        LintResult::new(LintStatus::Warn)
    } else {
        LintResult::pass()
    }
}

} // verus!
