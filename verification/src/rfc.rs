//! The built-in RFC 5280 lint catalogs.

use vstd::prelude::*;

use crate::certificate_lint::CertificateLint;
use crate::crl_lint::CRLLint;
use crate::definition::LintDefinition;
use crate::definition::definition_is;
use crate::registry::CRLLintRegistry;
use crate::registry::CertificateLintRegistry;

verus! {

/// Return a [`CertificateLintRegistry`] containing all RFC lints included
/// in this crate for X.509 certificates.
///
/// The catalog lists the version, serial and time rules first, then the
/// name rules, then the extension rules; the two time definitions are each
/// registered twice, once per validity date.
pub fn rfc_lints() -> (registry: CertificateLintRegistry)
    ensures
        registry@.len() == 17,
        definition_is(registry@[0].0, "rfc:check_version"@, "Invalid X.509 version"@, None),
        registry@[0].1 == CertificateLint::CheckVersion,
        definition_is(registry@[1].0, "rfc:serial_empty"@, "Serial Number is empty"@, None),
        registry@[1].1 == CertificateLint::SerialEmpty,
        definition_is(
            registry@[2].0,
            "rfc:serial_msb"@,
            "Serial Number is negative"@,
            Some("RFC5280: 4.1.2.2"@),
        ),
        registry@[2].1 == CertificateLint::SerialMsb,
        definition_is(
            registry@[3].0,
            "rfc:serial_leadint_zeroes"@,
            "Serial Number has leading zeroes"@,
            None,
        ),
        registry@[3].1 == CertificateLint::SerialLeadingZeroes,
        definition_is(
            registry@[4].0,
            "rfc:year_pre2049_utc"@,
            "certificate validity dates through 2049 MUST be encoded as UTCTime"@,
            None,
        ),
        registry@[4].1 == CertificateLint::NotBeforeUtcTime2049,
        definition_is(
            registry@[5].0,
            "rfc:year_pre2049_utc"@,
            "certificate validity dates through 2049 MUST be encoded as UTCTime"@,
            None,
        ),
        registry@[5].1 == CertificateLint::NotAfterUtcTime2049,
        definition_is(
            registry@[6].0,
            "rfc:year_post2049_utc"@,
            "certificate validity dates in 2050 or later MUST be encoded as GeneralizedTime"@,
            None,
        ),
        registry@[6].1 == CertificateLint::NotBeforeGeneralizedTime2049,
        definition_is(
            registry@[7].0,
            "rfc:year_post2049_utc"@,
            "certificate validity dates in 2050 or later MUST be encoded as GeneralizedTime"@,
            None,
        ),
        registry@[7].1 == CertificateLint::NotAfterGeneralizedTime2049,
        definition_is(
            registry@[8].0,
            "rfc:issuer_uniqueid_v1"@,
            "issuerUniqueID present but version 1"@,
            None,
        ),
        registry@[8].1 == CertificateLint::IssuerUniqueIdV1,
        definition_is(
            registry@[9].0,
            "rfc:subject_uniqueid_v1"@,
            "subjectUniqueID present but version 1"@,
            None,
        ),
        registry@[9].1 == CertificateLint::SubjectUniqueIdV1,
        definition_is(
            registry@[10].0,
            "rfc:signature_algorithms_must_match"@,
            "The signatureAlgorithm field MUST contain the same algorithm identifier as the signature field\n    in the sequence tbsCertificate"@,
            Some("RFC5280: 4.1.1.2"@),
        ),
        registry@[10].1 == CertificateLint::SignatureAlgorithmsMatch,
        definition_is(
            registry@[11].0,
            "rfc:subject_countryname_not_printablestring"@,
            "Subject DN: CountryName MUST be encoded as PrintableString"@,
            Some("RFC5280: Appendix A"@),
        ),
        registry@[11].1 == CertificateLint::SubjectCountryNotPrintableString,
        definition_is(
            registry@[12].0,
            "rfc:issuer_empty"@,
            "The issuer field MUST contain a non-empty distinguished name (DN)"@,
            Some("RFC5280: 4.1.2.4"@),
        ),
        registry@[12].1 == CertificateLint::IssuerEmpty,
        definition_is(
            registry@[13].0,
            "rfc:cert_extensions_notv3"@,
            "Version is not V3 but extensions are present"@,
            None,
        ),
        registry@[13].1 == CertificateLint::ExtensionsNotV3,
        definition_is(
            registry@[14].0,
            "rfc:cert_extensions_unsupported"@,
            "Unsupported extensions"@,
            None,
        ),
        registry@[14].1 == CertificateLint::ExtensionsUnsupported,
        definition_is(
            registry@[15].0,
            "rfc:cert_extensions_parse_error"@,
            "Parse error in extension"@,
            None,
        ),
        registry@[15].1 == CertificateLint::ExtensionsParseError,
        definition_is(
            registry@[16].0,
            "rfc:cert_ext_san_invalid_charset"@,
            "Invalid charset in 'SubjectAltName' entry"@,
            None,
        ),
        registry@[16].1 == CertificateLint::SanInvalidCharset,
{
    let mut lints: Vec<(LintDefinition, CertificateLint)> = Vec::new();
    lints.push(
        (
            LintDefinition::new("rfc:check_version", "Invalid X.509 version"),
            CertificateLint::CheckVersion,
        ),
    );
    lints.push(
        (
            LintDefinition::new("rfc:serial_empty", "Serial Number is empty"),
            CertificateLint::SerialEmpty,
        ),
    );
    lints.push(
        (
            LintDefinition::new("rfc:serial_msb", "Serial Number is negative").with_citation(
                "RFC5280: 4.1.2.2",
            ),
            CertificateLint::SerialMsb,
        ),
    );
    lints.push(
        (
            LintDefinition::new("rfc:serial_leadint_zeroes", "Serial Number has leading zeroes"),
            CertificateLint::SerialLeadingZeroes,
        ),
    );
    let pre2049 = LintDefinition::new(
        "rfc:year_pre2049_utc",
        "certificate validity dates through 2049 MUST be encoded as UTCTime",
    );
    lints.push((pre2049.clone(), CertificateLint::NotBeforeUtcTime2049));
    lints.push((pre2049, CertificateLint::NotAfterUtcTime2049));
    let post2049 = LintDefinition::new(
        "rfc:year_post2049_utc",
        "certificate validity dates in 2050 or later MUST be encoded as GeneralizedTime",
    );
    lints.push((post2049.clone(), CertificateLint::NotBeforeGeneralizedTime2049));
    lints.push((post2049, CertificateLint::NotAfterGeneralizedTime2049));
    lints.push(
        (
            LintDefinition::new("rfc:issuer_uniqueid_v1", "issuerUniqueID present but version 1"),
            CertificateLint::IssuerUniqueIdV1,
        ),
    );
    lints.push(
        (
            LintDefinition::new("rfc:subject_uniqueid_v1", "subjectUniqueID present but version 1"),
            CertificateLint::SubjectUniqueIdV1,
        ),
    );
    lints.push(
        (
            LintDefinition::new(
                "rfc:signature_algorithms_must_match",
                "The signatureAlgorithm field MUST contain the same algorithm identifier as the signature field\n    in the sequence tbsCertificate",
            ).with_citation("RFC5280: 4.1.1.2"),
            CertificateLint::SignatureAlgorithmsMatch,
        ),
    );
    lints.push(
        (
            LintDefinition::new(
                "rfc:subject_countryname_not_printablestring",
                "Subject DN: CountryName MUST be encoded as PrintableString",
            ).with_citation("RFC5280: Appendix A"),
            CertificateLint::SubjectCountryNotPrintableString,
        ),
    );
    lints.push(
        (
            LintDefinition::new(
                "rfc:issuer_empty",
                "The issuer field MUST contain a non-empty distinguished name (DN)",
            ).with_citation("RFC5280: 4.1.2.4"),
            CertificateLint::IssuerEmpty,
        ),
    );
    lints.push(
        (
            LintDefinition::new(
                "rfc:cert_extensions_notv3",
                "Version is not V3 but extensions are present",
            ),
            CertificateLint::ExtensionsNotV3,
        ),
    );
    lints.push(
        (
            LintDefinition::new("rfc:cert_extensions_unsupported", "Unsupported extensions"),
            CertificateLint::ExtensionsUnsupported,
        ),
    );
    lints.push(
        (
            LintDefinition::new("rfc:cert_extensions_parse_error", "Parse error in extension"),
            CertificateLint::ExtensionsParseError,
        ),
    );
    lints.push(
        (
            LintDefinition::new(
                "rfc:cert_ext_san_invalid_charset",
                "Invalid charset in 'SubjectAltName' entry",
            ),
            CertificateLint::SanInvalidCharset,
        ),
    );
    CertificateLintRegistry::new(lints)
}

/// Return a [`CRLLintRegistry`] containing all RFC lints included in this
/// crate for X.509 certificate revocation lists.
pub fn crl_rfc_lints() -> (registry: CRLLintRegistry)
    ensures
        registry@.len() == 1,
        definition_is(
            registry@[0].0,
            "rfc:crl_extensions_notv2"@,
            "Version is not V2 but extensions are present"@,
            Some("RFC5280: 5.1.2.1"@),
        ),
        registry@[0].1 == CRLLint::ExtensionsNotV2,
{
    let mut lints: Vec<(LintDefinition, CRLLint)> = Vec::new();
    lints.push(
        (
            LintDefinition::new(
                "rfc:crl_extensions_notv2",
                "Version is not V2 but extensions are present",
            ).with_citation("RFC5280: 5.1.2.1"),
            CRLLint::ExtensionsNotV2,
        ),
    );
    CRLLintRegistry::new(lints)
}

} // verus!
