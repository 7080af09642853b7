//! X.509 Certificate and CRL linter.
//!
//! A lint is a named conformance check evaluated against an already-parsed
//! certificate or certificate revocation list. Lints are grouped in
//! registries; running a registry against a subject returns, in registration
//! order, a finding for every lint that did not pass.

mod certificate_lint;
mod crl_lint;
mod definition;
mod lint;
mod registry;
mod result;
mod rfc;
mod status;
mod subject;

pub use certificate_lint::CertificateLint;
pub use certificate_lint::first_name_not_ascii;
pub use certificate_lint::first_parse_error;
pub use certificate_lint::first_san_violation;
pub use certificate_lint::first_unsupported;
pub use certificate_lint::is_parse_error;
pub use certificate_lint::is_san_violation;
pub use certificate_lint::is_unsupported;
pub use certificate_lint::lemma_first_name_not_ascii;
pub use certificate_lint::lemma_first_parse_error;
pub use certificate_lint::lemma_first_san_violation;
pub use certificate_lint::lemma_first_unsupported;
pub use certificate_lint::name_not_ascii;
pub use certificate_lint::name_text;
pub use certificate_lint::parse_error_detail;
pub use certificate_lint::san_detail;
pub use crl_lint::CRLLint;
pub use definition::LintDefinition;
pub use definition::LintDefinitionView;
pub use definition::definition_is;
pub use lint::Lint;
pub use registry::CRLLintRegistry;
pub use registry::CertificateLintRegistry;
pub use registry::LintRegistry;
pub use registry::count_findings_named;
pub use registry::count_pairs_named;
pub use registry::finding_comes_from_pair;
pub use registry::findings_match;
pub use registry::lemma_at_most_one_finding_each;
pub use registry::lemma_filter_correct;
pub use registry::lemma_filter_names;
pub use registry::lemma_filter_of_concat;
pub use registry::lemma_filter_of_singleton;
pub use registry::lemma_findings_are_of_pairs;
pub use registry::lemma_findings_of_concat;
pub use registry::lemma_findings_of_singleton;
pub use registry::lemma_order_preserved;
pub use registry::lemma_pass_is_silent;
pub use registry::lemma_run_lints_deterministic;
pub use registry::spec_filter;
pub use registry::spec_findings;
pub use result::LintDetails;
pub use result::LintResult;
pub use result::LintResultView;
pub use rfc::crl_rfc_lints;
pub use rfc::rfc_lints;
pub use status::LintStatus;
pub use subject::Certificate;
pub use subject::CertificateRevocationList;
pub use subject::DistinguishedName;
pub use subject::Extension;
pub use subject::GeneralName;
pub use subject::PRINTABLE_STRING_TAG;
pub use subject::ParsedExtension;
pub use subject::ValidityTime;
pub use subject::X509_VERSION_1;
pub use subject::X509_VERSION_2;
pub use subject::X509_VERSION_3;
