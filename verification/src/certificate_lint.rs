//! The built-in lints for X.509 certificates.

use vstd::prelude::*;

use crate::lint::Lint;
use crate::result::LintDetails;
use crate::result::LintResult;
use crate::result::LintResultView;
use crate::status::LintStatus;
use crate::subject::Certificate;
use crate::subject::Extension;
use crate::subject::GeneralName;
use crate::subject::ParsedExtension;
use crate::subject::PRINTABLE_STRING_TAG;
use crate::subject::X509_VERSION_1;
use crate::subject::X509_VERSION_3;

verus! {

/// Holds when the extension's parsed form is the unsupported variant.
pub open spec fn is_unsupported(extension: Extension) -> bool {
    extension.parsed is Unsupported
}

/// Holds when the extension failed structural parsing.
pub open spec fn is_parse_error(extension: Extension) -> bool {
    extension.parsed is ParseError
}

/// Holds when the entry is a DNS or email name whose text is not pure ASCII.
pub open spec fn name_not_ascii(name: GeneralName) -> bool {
    match name {
        GeneralName::Dns(text) => !vstd::utf8::is_ascii_chars(text@),
        GeneralName::Rfc822(text) => !vstd::utf8::is_ascii_chars(text@),
        GeneralName::Other => false,
    }
}

/// Text of a DNS or email name entry.
pub open spec fn name_text(name: GeneralName) -> Seq<char> {
    match name {
        GeneralName::Dns(text) => text@,
        GeneralName::Rfc822(text) => text@,
        GeneralName::Other => Seq::empty(),
    }
}

/// Index of the first entry that is a DNS or email name with non-ASCII text,
/// or `names.len()` when there is none.
pub open spec fn first_name_not_ascii(names: Seq<GeneralName>) -> int
    decreases names.len(),
{
    if names.len() == 0 {
        0
    } else if name_not_ascii(names[0]) {
        0
    } else {
        1 + first_name_not_ascii(names.drop_first())
    }
}

/// Holds when the extension is a Subject Alternative Name extension with at
/// least one DNS or email entry whose text is not pure ASCII.
pub open spec fn is_san_violation(extension: Extension) -> bool {
    match extension.parsed {
        ParsedExtension::SubjectAlternativeName { general_names } => first_name_not_ascii(
            general_names@,
        ) < general_names@.len(),
        _ => false,
    }
}

/// Index of the first unsupported extension, or `extensions.len()` when
/// there is none.
pub open spec fn first_unsupported(extensions: Seq<Extension>) -> int
    decreases extensions.len(),
{
    if extensions.len() == 0 {
        0
    } else if is_unsupported(extensions[0]) {
        0
    } else {
        1 + first_unsupported(extensions.drop_first())
    }
}

/// Index of the first extension that failed parsing, or `extensions.len()`
/// when there is none.
pub open spec fn first_parse_error(extensions: Seq<Extension>) -> int
    decreases extensions.len(),
{
    if extensions.len() == 0 {
        0
    } else if is_parse_error(extensions[0]) {
        0
    } else {
        1 + first_parse_error(extensions.drop_first())
    }
}

/// Index of the first extension with a Subject Alternative Name charset
/// violation, or `extensions.len()` when there is none.
pub open spec fn first_san_violation(extensions: Seq<Extension>) -> int
    decreases extensions.len(),
{
    if extensions.len() == 0 {
        0
    } else if is_san_violation(extensions[0]) {
        0
    } else {
        1 + first_san_violation(extensions.drop_first())
    }
}

/// `first_unsupported` points at the first unsupported extension: everything
/// before it is supported, and it matches unless it is the whole length.
pub proof fn lemma_first_unsupported(extensions: Seq<Extension>)
    ensures
        0 <= first_unsupported(extensions) <= extensions.len(),
        forall|j: int|
            0 <= j < first_unsupported(extensions) ==> !is_unsupported(#[trigger] extensions[j]),
        first_unsupported(extensions) < extensions.len() ==> is_unsupported(
            extensions[first_unsupported(extensions)],
        ),
    decreases extensions.len(),
{
    if extensions.len() > 0 && !is_unsupported(extensions[0]) {
        lemma_first_unsupported(extensions.drop_first());
        assert forall|j: int| 0 <= j < first_unsupported(extensions) implies !is_unsupported(
            #[trigger] extensions[j],
        ) by {
            if j > 0 {
                assert(!is_unsupported(extensions.drop_first()[j - 1]));
            }
        }
    }
}

/// `first_parse_error` points at the first extension that failed parsing.
pub proof fn lemma_first_parse_error(extensions: Seq<Extension>)
    ensures
        0 <= first_parse_error(extensions) <= extensions.len(),
        forall|j: int|
            0 <= j < first_parse_error(extensions) ==> !is_parse_error(#[trigger] extensions[j]),
        first_parse_error(extensions) < extensions.len() ==> is_parse_error(
            extensions[first_parse_error(extensions)],
        ),
    decreases extensions.len(),
{
    if extensions.len() > 0 && !is_parse_error(extensions[0]) {
        lemma_first_parse_error(extensions.drop_first());
        assert forall|j: int| 0 <= j < first_parse_error(extensions) implies !is_parse_error(
            #[trigger] extensions[j],
        ) by {
            if j > 0 {
                assert(!is_parse_error(extensions.drop_first()[j - 1]));
            }
        }
    }
}

/// `first_san_violation` points at the first extension with a Subject
/// Alternative Name charset violation.
pub proof fn lemma_first_san_violation(extensions: Seq<Extension>)
    ensures
        0 <= first_san_violation(extensions) <= extensions.len(),
        forall|j: int|
            0 <= j < first_san_violation(extensions) ==> !is_san_violation(
                #[trigger] extensions[j],
            ),
        first_san_violation(extensions) < extensions.len() ==> is_san_violation(
            extensions[first_san_violation(extensions)],
        ),
    decreases extensions.len(),
{
    if extensions.len() > 0 && !is_san_violation(extensions[0]) {
        lemma_first_san_violation(extensions.drop_first());
        assert forall|j: int| 0 <= j < first_san_violation(extensions) implies !is_san_violation(
            #[trigger] extensions[j],
        ) by {
            if j > 0 {
                assert(!is_san_violation(extensions.drop_first()[j - 1]));
            }
        }
    }
}

/// `first_name_not_ascii` points at the first DNS or email entry with
/// non-ASCII text.
pub proof fn lemma_first_name_not_ascii(names: Seq<GeneralName>)
    ensures
        0 <= first_name_not_ascii(names) <= names.len(),
        forall|j: int|
            0 <= j < first_name_not_ascii(names) ==> !name_not_ascii(#[trigger] names[j]),
        first_name_not_ascii(names) < names.len() ==> name_not_ascii(
            names[first_name_not_ascii(names)],
        ),
    decreases names.len(),
{
    if names.len() > 0 && !name_not_ascii(names[0]) {
        lemma_first_name_not_ascii(names.drop_first());
        assert forall|j: int| 0 <= j < first_name_not_ascii(names) implies !name_not_ascii(
            #[trigger] names[j],
        ) by {
            if j > 0 {
                assert(!name_not_ascii(names.drop_first()[j - 1]));
            }
        }
    }
}

/// Details text of the parse-error lint: it names the offending extension
/// and repeats the parser's error text.
pub open spec fn parse_error_detail(certificate: Certificate) -> Seq<char> {
    let extension = certificate.extensions@[first_parse_error(certificate.extensions@)];
    "Parse error in extension "@ + extension.oid@ + ": "@ + extension.parsed->error@
}

/// Details text of the Subject Alternative Name charset lint: it repeats the
/// first offending entry.
pub open spec fn san_detail(certificate: Certificate) -> Seq<char> {
    let extension = certificate.extensions@[first_san_violation(certificate.extensions@)];
    let names = extension.parsed->general_names@;
    "Invalid charset in SAN entry '"@ + name_text(names[first_name_not_ascii(names)]) + "'"@
}

/// One of the built-in X.509 certificate lints.
///
/// Every value is a pure check of a [`Certificate`]; the condition it
/// reports, its severity and its details are given by the `fires`,
/// `severity` and `detail` specification functions.
#[derive(Debug, Clone, Copy, PartialEq, Eq, Structural)]
pub enum CertificateLint {
    /// Error: the declared version ordinal is 3 or more, which no revision
    /// of the specification defines.
    CheckVersion,
    /// Error: the raw serial number has zero length.
    SerialEmpty,
    /// Warn: the serial number is negative (high bit of the first byte set).
    SerialMsb,
    /// Warn: the serial number starts with an unnecessary zero byte.
    SerialLeadingZeroes,
    /// Warn: notBefore lies in 2049 or earlier but does not use the legacy
    /// time encoding.
    NotBeforeUtcTime2049,
    /// Warn: notAfter lies in 2049 or earlier but does not use the legacy
    /// time encoding.
    NotAfterUtcTime2049,
    /// Warn: notBefore lies after 2049 but uses the legacy time encoding.
    NotBeforeGeneralizedTime2049,
    /// Warn: notAfter lies after 2049 but uses the legacy time encoding.
    NotAfterGeneralizedTime2049,
    /// Warn: issuerUniqueID is present although the version is v1.
    IssuerUniqueIdV1,
    /// Warn: subjectUniqueID is present although the version is v1.
    SubjectUniqueIdV1,
    /// Error: the outer signature algorithm differs from the one declared in
    /// the to-be-signed structure.
    SignatureAlgorithmsMatch,
    /// Error: a country-name attribute of the subject is not encoded as
    /// PrintableString.
    SubjectCountryNotPrintableString,
    /// Error: the issuer distinguished name has no components.
    IssuerEmpty,
    /// Warn: extensions are present although the version is not v3.
    ExtensionsNotV3,
    /// Warn: an extension's type is unsupported.
    ExtensionsUnsupported,
    /// Error: an extension failed structural parsing.
    ExtensionsParseError,
    /// Warn: a Subject Alternative Name entry contains non-ASCII text.
    SanInvalidCharset,
}

impl CertificateLint {
    /// Severity the lint reports when it fires.
    pub open spec fn severity(self) -> LintStatus {
        match self {
            CertificateLint::CheckVersion => LintStatus::Error,
            CertificateLint::SerialEmpty => LintStatus::Error,
            CertificateLint::SerialMsb => LintStatus::Warn,
            CertificateLint::SerialLeadingZeroes => LintStatus::Warn,
            CertificateLint::NotBeforeUtcTime2049 => LintStatus::Warn,
            CertificateLint::NotAfterUtcTime2049 => LintStatus::Warn,
            CertificateLint::NotBeforeGeneralizedTime2049 => LintStatus::Warn,
            CertificateLint::NotAfterGeneralizedTime2049 => LintStatus::Warn,
            CertificateLint::IssuerUniqueIdV1 => LintStatus::Warn,
            CertificateLint::SubjectUniqueIdV1 => LintStatus::Warn,
            CertificateLint::SignatureAlgorithmsMatch => LintStatus::Error,
            CertificateLint::SubjectCountryNotPrintableString => LintStatus::Error,
            CertificateLint::IssuerEmpty => LintStatus::Error,
            CertificateLint::ExtensionsNotV3 => LintStatus::Warn,
            CertificateLint::ExtensionsUnsupported => LintStatus::Warn,
            CertificateLint::ExtensionsParseError => LintStatus::Error,
            CertificateLint::SanInvalidCharset => LintStatus::Warn,
        }
    }

    /// Condition under which the lint reports a finding.
    pub open spec fn fires(self, c: Certificate) -> bool {
        match self {
            CertificateLint::CheckVersion => c.version >= 3,
            CertificateLint::SerialEmpty => c.serial@.len() == 0,
            CertificateLint::SerialMsb => c.serial@.len() > 0 && c.serial@[0] & 0x80 != 0,
            CertificateLint::SerialLeadingZeroes => c.serial@.len() > 1 && c.serial@[0] == 0
                && c.serial@[1] & 0x80 == 0,
            CertificateLint::NotBeforeUtcTime2049 => c.not_before.year <= 2049
                && !c.not_before.utc_tag,
            CertificateLint::NotAfterUtcTime2049 => c.not_after.year <= 2049
                && !c.not_after.utc_tag,
            CertificateLint::NotBeforeGeneralizedTime2049 => c.not_before.year > 2049
                && c.not_before.utc_tag,
            CertificateLint::NotAfterGeneralizedTime2049 => c.not_after.year > 2049
                && c.not_after.utc_tag,
            CertificateLint::IssuerUniqueIdV1 => c.version == X509_VERSION_1
                && c.issuer_uid_present,
            CertificateLint::SubjectUniqueIdV1 => c.version == X509_VERSION_1
                && c.subject_uid_present,
            CertificateLint::SignatureAlgorithmsMatch => c.signature_algorithm@
                != c.tbs_signature_algorithm@,
            CertificateLint::SubjectCountryNotPrintableString => exists|i: int|
                0 <= i < c.subject.country_tags@.len() && c.subject.country_tags@[i]
                    != PRINTABLE_STRING_TAG,
            CertificateLint::IssuerEmpty => c.issuer.rdn_count == 0,
            CertificateLint::ExtensionsNotV3 => c.extensions@.len() > 0 && c.version
                != X509_VERSION_3,
            CertificateLint::ExtensionsUnsupported => first_unsupported(c.extensions@)
                < c.extensions@.len(),
            CertificateLint::ExtensionsParseError => first_parse_error(c.extensions@)
                < c.extensions@.len(),
            CertificateLint::SanInvalidCharset => first_san_violation(c.extensions@)
                < c.extensions@.len(),
        }
    }

    /// Details the lint reports when it fires.
    pub open spec fn detail(self, c: Certificate) -> Option<Seq<char>> {
        match self {
            CertificateLint::NotBeforeUtcTime2049 => Some("notBefore"@),
            CertificateLint::NotBeforeGeneralizedTime2049 => Some("notBefore"@),
            CertificateLint::NotAfterUtcTime2049 => Some("notAfter"@),
            CertificateLint::NotAfterGeneralizedTime2049 => Some("notAfter"@),
            CertificateLint::SignatureAlgorithmsMatch => Some("OID"@),
            CertificateLint::ExtensionsUnsupported => Some(
                c.extensions@[first_unsupported(c.extensions@)].oid@,
            ),
            CertificateLint::ExtensionsParseError => Some(parse_error_detail(c)),
            CertificateLint::SanInvalidCharset => Some(san_detail(c)),
            _ => None,
        }
    }
}

impl Lint for CertificateLint {
    type Subject = Certificate;

    /// A firing lint reports its severity and details; every other
    /// evaluation passes, with no details.
    open spec fn spec_result(self, subject: Certificate) -> LintResultView {
        if self.fires(subject) {
            LintResultView { status: self.severity(), details: self.detail(subject) }
        } else {
            LintResultView { status: LintStatus::Pass, details: None }
        }
    }

    fn evaluate(&self, subject: &Certificate) -> (result: LintResult) {
        match self {
            CertificateLint::CheckVersion => check_version(subject),
            CertificateLint::SerialEmpty => check_serial_empty(subject),
            CertificateLint::SerialMsb => check_serial_msb(subject),
            CertificateLint::SerialLeadingZeroes => check_serial_leading_zeroes(subject),
            CertificateLint::NotBeforeUtcTime2049 => check_notbefore_utctime_2049(subject),
            CertificateLint::NotAfterUtcTime2049 => check_notafter_utctime_2049(subject),
            CertificateLint::NotBeforeGeneralizedTime2049 => check_notbefore_generalizedtime_2049(
                subject,
            ),
            CertificateLint::NotAfterGeneralizedTime2049 => check_notafter_generalizedtime_2049(
                subject,
            ),
            CertificateLint::IssuerUniqueIdV1 => check_issuer_uniqueid_v1(subject),
            CertificateLint::SubjectUniqueIdV1 => check_subject_uniqueid_v1(subject),
            CertificateLint::SignatureAlgorithmsMatch => signature_algorithms_must_match_oid(
                subject,
            ),
            CertificateLint::SubjectCountryNotPrintableString => subject_cn_not_printablestring(
                subject,
            ),
            CertificateLint::IssuerEmpty => issuer_empty(subject),
            CertificateLint::ExtensionsNotV3 => cert_extensions_notv3(subject),
            CertificateLint::ExtensionsUnsupported => cert_extensions_unsupported(subject),
            CertificateLint::ExtensionsParseError => cert_extensions_parse_error(subject),
            CertificateLint::SanInvalidCharset => cert_ext_san_invalid_charset(subject),
        }
    }
}

fn check_version(x509: &Certificate) -> (result: LintResult)
    ensures
        result@ == CertificateLint::CheckVersion.spec_result(*x509),
{
    if x509.version >= 3 {
        LintResult::new(LintStatus::Error)
    } else {
        LintResult::pass()
    }
}

fn check_serial_empty(x509: &Certificate) -> (result: LintResult)
    ensures
        result@ == CertificateLint::SerialEmpty.spec_result(*x509),
{
    if x509.serial.is_empty() {
        LintResult::new(LintStatus::Error)
    } else {
        LintResult::pass()
    }
}

fn check_serial_msb(x509: &Certificate) -> (result: LintResult)
    ensures
        result@ == CertificateLint::SerialMsb.spec_result(*x509),
{
    if !x509.serial.is_empty() && x509.serial[0] & 0x80 != 0 {
        LintResult::new(LintStatus::Warn)
    } else {
        LintResult::pass()
    }
}

fn check_serial_leading_zeroes(x509: &Certificate) -> (result: LintResult)
    ensures
        result@ == CertificateLint::SerialLeadingZeroes.spec_result(*x509),
{
    if x509.serial.len() > 1 && x509.serial[0] == 0 && x509.serial[1] & 0x80 == 0 {
        LintResult::new(LintStatus::Warn)
    } else {
        LintResult::pass()
    }
}

fn check_notbefore_utctime_2049(x509: &Certificate) -> (result: LintResult)
    ensures
        result@ == CertificateLint::NotBeforeUtcTime2049.spec_result(*x509),
{
    if x509.not_before.year <= 2049 && !x509.not_before.utc_tag {
        LintResult::new_details(LintStatus::Warn, LintDetails::from_text("notBefore"))
    } else {
        LintResult::pass()
    }
}

fn check_notafter_utctime_2049(x509: &Certificate) -> (result: LintResult)
    ensures
        result@ == CertificateLint::NotAfterUtcTime2049.spec_result(*x509),
{
    if x509.not_after.year <= 2049 && !x509.not_after.utc_tag {
        LintResult::new_details(LintStatus::Warn, LintDetails::from_text("notAfter"))
    } else {
        LintResult::pass()
    }
}

fn check_notbefore_generalizedtime_2049(x509: &Certificate) -> (result: LintResult)
    ensures
        result@ == CertificateLint::NotBeforeGeneralizedTime2049.spec_result(*x509),
{
    if x509.not_before.year > 2049 && x509.not_before.utc_tag {
        LintResult::new_details(LintStatus::Warn, LintDetails::from_text("notBefore"))
    } else {
        LintResult::pass()
    }
}

fn check_notafter_generalizedtime_2049(x509: &Certificate) -> (result: LintResult)
    ensures
        result@ == CertificateLint::NotAfterGeneralizedTime2049.spec_result(*x509),
{
    if x509.not_after.year > 2049 && x509.not_after.utc_tag {
        LintResult::new_details(LintStatus::Warn, LintDetails::from_text("notAfter"))
    } else {
        LintResult::pass()
    }
}

fn check_issuer_uniqueid_v1(x509: &Certificate) -> (result: LintResult)
    ensures
        result@ == CertificateLint::IssuerUniqueIdV1.spec_result(*x509),
{
    if x509.version == X509_VERSION_1 && x509.issuer_uid_present {
        LintResult::new(LintStatus::Warn)
    } else {
        LintResult::pass()
    }
}

fn check_subject_uniqueid_v1(x509: &Certificate) -> (result: LintResult)
    ensures
        result@ == CertificateLint::SubjectUniqueIdV1.spec_result(*x509),
{
    if x509.version == X509_VERSION_1 && x509.subject_uid_present {
        LintResult::new(LintStatus::Warn)
    } else {
        LintResult::pass()
    }
}

fn signature_algorithms_must_match_oid(x509: &Certificate) -> (result: LintResult)
    ensures
        result@ == CertificateLint::SignatureAlgorithmsMatch.spec_result(*x509),
{
    if x509.signature_algorithm == x509.tbs_signature_algorithm {
        LintResult::pass()
    } else {
        LintResult::new_details(LintStatus::Error, LintDetails::from_text("OID"))
    }
}

fn subject_cn_not_printablestring(x509: &Certificate) -> (result: LintResult)
    ensures
        result@ == CertificateLint::SubjectCountryNotPrintableString.spec_result(*x509),
{
    let mut i: usize = 0;
    while i < x509.subject.country_tags.len()
        invariant
            i <= x509.subject.country_tags@.len(),
            forall|j: int| 0 <= j < i ==> x509.subject.country_tags@[j] == PRINTABLE_STRING_TAG,
        decreases x509.subject.country_tags@.len() - i,
    {
        if x509.subject.country_tags[i] != PRINTABLE_STRING_TAG {
            return LintResult::new(LintStatus::Error);
        }
        i += 1;
    }
    LintResult::pass()
}

fn issuer_empty(x509: &Certificate) -> (result: LintResult)
    ensures
        result@ == CertificateLint::IssuerEmpty.spec_result(*x509),
{
    if x509.issuer.rdn_count == 0 {
        LintResult::new(LintStatus::Error)
    } else {
        LintResult::pass()
    }
}

fn cert_extensions_notv3(x509: &Certificate) -> (result: LintResult)
    ensures
        result@ == CertificateLint::ExtensionsNotV3.spec_result(*x509),
{
    if !x509.extensions.is_empty() && x509.version != X509_VERSION_3 {
        LintResult::new(LintStatus::Warn)
    } else {
        LintResult::pass()
    }
}

fn cert_extensions_unsupported(x509: &Certificate) -> (result: LintResult)
    ensures
        result@ == CertificateLint::ExtensionsUnsupported.spec_result(*x509),
{
    let mut i: usize = 0;
    while i < x509.extensions.len()
        invariant
            i <= x509.extensions@.len(),
            forall|j: int| 0 <= j < i ==> !is_unsupported(#[trigger] x509.extensions@[j]),
        decreases x509.extensions@.len() - i,
    {
        let extension = &x509.extensions[i];
        if let ParsedExtension::Unsupported = &extension.parsed {
            proof {
                lemma_first_unsupported(x509.extensions@);
                assert(is_unsupported(x509.extensions@[i as int]));
                assert(first_unsupported(x509.extensions@) == i);
            }
            let details = LintDetails::new(extension.oid.clone());
            return LintResult::new_details(LintStatus::Warn, details);
        }
        i += 1;
    }
    proof {
        lemma_first_unsupported(x509.extensions@);
    }
    LintResult::pass()
}

fn cert_extensions_parse_error(x509: &Certificate) -> (result: LintResult)
    ensures
        result@ == CertificateLint::ExtensionsParseError.spec_result(*x509),
{
    let mut i: usize = 0;
    while i < x509.extensions.len()
        invariant
            i <= x509.extensions@.len(),
            forall|j: int| 0 <= j < i ==> !is_parse_error(#[trigger] x509.extensions@[j]),
        decreases x509.extensions@.len() - i,
    {
        let extension = &x509.extensions[i];
        if let ParsedExtension::ParseError { error } = &extension.parsed {
            proof {
                lemma_first_parse_error(x509.extensions@);
                assert(is_parse_error(x509.extensions@[i as int]));
                assert(first_parse_error(x509.extensions@) == i);
            }
            let mut message = "Parse error in extension ".to_owned();
            message.append(extension.oid.as_str());
            message.append(": ");
            message.append(error.as_str());
            return LintResult::new_details(LintStatus::Error, LintDetails::new(message));
        }
        i += 1;
    }
    proof {
        lemma_first_parse_error(x509.extensions@);
    }
    LintResult::pass()
}

#[verifier::loop_isolation(false)]
fn cert_ext_san_invalid_charset(x509: &Certificate) -> (result: LintResult)
    ensures
        result@ == CertificateLint::SanInvalidCharset.spec_result(*x509),
{
    let mut i: usize = 0;
    while i < x509.extensions.len()
        invariant
            i <= x509.extensions@.len(),
            forall|j: int| 0 <= j < i ==> !is_san_violation(#[trigger] x509.extensions@[j]),
        decreases x509.extensions@.len() - i,
    {
        let extension = &x509.extensions[i];
        if let ParsedExtension::SubjectAlternativeName { general_names } = &extension.parsed {
            let mut k: usize = 0;
            while k < general_names.len()
                invariant
                    k <= general_names@.len(),
                    forall|j: int| 0 <= j < k ==> !name_not_ascii(#[trigger] general_names@[j]),
                decreases general_names@.len() - k,
            {
                match &general_names[k] {
                    GeneralName::Dns(text) | GeneralName::Rfc822(text) => {
                        if !text.is_ascii() {
                            proof {
                                lemma_first_name_not_ascii(general_names@);
                                assert(name_not_ascii(general_names@[k as int]));
                                assert(first_name_not_ascii(general_names@) == k);
                                assert(is_san_violation(x509.extensions@[i as int]));
                                lemma_first_san_violation(x509.extensions@);
                                assert(first_san_violation(x509.extensions@) == i);
                            }
                            let mut message = "Invalid charset in SAN entry '".to_owned();
                            message.append(text.as_str());
                            message.append("'");
                            return LintResult::new_details(
                                LintStatus::Warn,
                                LintDetails::new(message),
                            );
                        }
                    },
                    GeneralName::Other => {},
                }
                k += 1;
            }
            proof {
                lemma_first_name_not_ascii(general_names@);
                assert(!is_san_violation(x509.extensions@[i as int]));
            }
        }
        i += 1;
    }
    proof {
        lemma_first_san_violation(x509.extensions@);
    }
    LintResult::pass()
}

} // verus!
