use x509_lint::Certificate;
use x509_lint::CertificateLint;
use x509_lint::CertificateLintRegistry;
use x509_lint::DistinguishedName;
use x509_lint::Extension;
use x509_lint::LintDefinition;
use x509_lint::LintDetails;
use x509_lint::LintResult;
use x509_lint::LintStatus;
use x509_lint::ParsedExtension;
use x509_lint::ValidityTime;
use x509_lint::crl_rfc_lints;
use x509_lint::rfc_lints;

fn clean_certificate() -> Certificate {
    Certificate {
        version: 2,
        serial: vec![0x01],
        not_before: ValidityTime { year: 2020, utc_tag: true },
        not_after: ValidityTime { year: 2030, utc_tag: true },
        issuer: DistinguishedName { rdn_count: 1, country_tags: vec![] },
        subject: DistinguishedName { rdn_count: 1, country_tags: vec![] },
        issuer_uid_present: false,
        subject_uid_present: false,
        extensions: vec![],
        signature_algorithm: "1.2.840.113549.1.1.11".to_string(),
        tbs_signature_algorithm: "1.2.840.113549.1.1.11".to_string(),
    }
}

#[test]
fn definition_accessors() {
    let definition = LintDefinition::new("rfc:check_version", "Invalid X.509 version");
    assert_eq!(definition.name(), "rfc:check_version");
    assert_eq!(definition.description(), "Invalid X.509 version");
    assert!(definition.citation().is_none());

    let cited = definition.with_citation("RFC5280: 4.1.2.1");
    assert_eq!(cited.name(), "rfc:check_version");
    assert_eq!(cited.citation(), Some("RFC5280: 4.1.2.1"));

    let cloned = cited.clone();
    assert_eq!(cloned.name(), "rfc:check_version");
    assert_eq!(cloned.description(), "Invalid X.509 version");
    assert_eq!(cloned.citation(), Some("RFC5280: 4.1.2.1"));
}

#[test]
fn result_constructors() {
    let result = LintResult::new(LintStatus::Warn);
    assert_eq!(result.status, LintStatus::Warn);
    assert!(result.details.is_none());

    let result = LintResult::new_details(LintStatus::Error, LintDetails::new("oops".to_string()));
    assert_eq!(result.status, LintStatus::Error);
    assert_eq!(result.details.unwrap().as_text(), "oops");

    let result = LintResult::pass();
    assert_eq!(result.status, LintStatus::Pass);
    assert!(result.details.is_none());

    let result = LintResult::new(LintStatus::Warn).with_details(LintDetails::from_text("why"));
    assert_eq!(result.status, LintStatus::Warn);
    assert_eq!(result.details.unwrap().as_text(), "why");
}

#[test]
fn status_order_and_text() {
    assert!(LintStatus::Pass < LintStatus::Warn);
    assert!(LintStatus::Warn < LintStatus::Error);
    assert!(LintStatus::Pass.severity_level() < LintStatus::Warn.severity_level());
    assert!(LintStatus::Warn.severity_level() < LintStatus::Error.severity_level());
    assert_eq!(LintStatus::Pass.as_text(), "pass");
    assert_eq!(LintStatus::Warn.as_text(), "warn");
    assert_eq!(LintStatus::Error.as_text(), "error");
}

#[test]
fn catalog_lists_certificate_lints_in_order() {
    let registry = rfc_lints();
    let names: Vec<&str> = registry.lints().iter().map(|(d, _)| d.name()).collect();
    assert_eq!(
        names,
        vec![
            "rfc:check_version",
            "rfc:serial_empty",
            "rfc:serial_msb",
            "rfc:serial_leadint_zeroes",
            "rfc:year_pre2049_utc",
            "rfc:year_pre2049_utc",
            "rfc:year_post2049_utc",
            "rfc:year_post2049_utc",
            "rfc:issuer_uniqueid_v1",
            "rfc:subject_uniqueid_v1",
            "rfc:signature_algorithms_must_match",
            "rfc:subject_countryname_not_printablestring",
            "rfc:issuer_empty",
            "rfc:cert_extensions_notv3",
            "rfc:cert_extensions_unsupported",
            "rfc:cert_extensions_parse_error",
            "rfc:cert_ext_san_invalid_charset",
        ]
    );
}

#[test]
fn crl_catalog_lists_crl_lints() {
    let registry = crl_rfc_lints();
    let names: Vec<&str> = registry.lints().iter().map(|(d, _)| d.name()).collect();
    assert_eq!(names, vec!["rfc:crl_extensions_notv2"]);
    assert_eq!(
        registry.lints()[0].0.citation(),
        Some("RFC5280: 5.1.2.1")
    );
}

#[test]
fn pass_is_silent() {
    // The version lint passes on a clean v3 certificate, so no finding may
    // name it, whatever the other lints report.
    let mut cert = clean_certificate();
    cert.serial = vec![];
    let registry = rfc_lints();
    let results = registry.run_lints(&cert);
    assert!(results.iter().all(|(d, _)| d.name() != "rfc:check_version"));
    assert!(!results.is_empty());
}

#[test]
fn order_preserved_in_findings() {
    // L1 and L3 fire, L2 passes: L1's finding must come before L3's.
    let mut registry = CertificateLintRegistry::default();
    registry.insert(
        LintDefinition::new("first", "fires"),
        CertificateLint::SerialEmpty,
    );
    registry.insert(
        LintDefinition::new("second", "passes"),
        CertificateLint::CheckVersion,
    );
    registry.insert(
        LintDefinition::new("third", "fires"),
        CertificateLint::IssuerEmpty,
    );
    let mut cert = clean_certificate();
    cert.serial = vec![];
    cert.issuer.rdn_count = 0;
    let results = registry.run_lints(&cert);
    let names: Vec<&str> = results.iter().map(|(d, _)| d.name()).collect();
    assert_eq!(names, vec!["first", "third"]);
}

#[test]
fn merge_keeps_both_orders() {
    let mut left = CertificateLintRegistry::default();
    left.insert(LintDefinition::new("a1", "left"), CertificateLint::CheckVersion);
    left.insert(LintDefinition::new("a2", "left"), CertificateLint::SerialEmpty);
    let mut right = CertificateLintRegistry::default();
    right.insert(LintDefinition::new("b1", "right"), CertificateLint::IssuerEmpty);
    right.insert(LintDefinition::new("b2", "right"), CertificateLint::SerialMsb);
    left.merge(right);
    let names: Vec<&str> = left.lints().iter().map(|(d, _)| d.name()).collect();
    assert_eq!(names, vec!["a1", "a2", "b1", "b2"]);
}

#[test]
fn filter_keeps_only_matching_names() {
    let mut registry = rfc_lints();
    registry.filter("rfc:serial");
    let names: Vec<&str> = registry.lints().iter().map(|(d, _)| d.name()).collect();
    assert_eq!(
        names,
        vec!["rfc:serial_empty", "rfc:serial_msb", "rfc:serial_leadint_zeroes"]
    );
}

#[test]
fn filtered_out_lints_never_report() {
    // The certificate would trigger the issuer-empty lint, but that lint is
    // filtered out, so no finding may carry its name.
    let mut registry = rfc_lints();
    registry.filter("rfc:serial");
    let mut cert = clean_certificate();
    cert.issuer.rdn_count = 0;
    cert.serial = vec![];
    let results = registry.run_lints(&cert);
    let names: Vec<&str> = results.iter().map(|(d, _)| d.name()).collect();
    assert_eq!(names, vec!["rfc:serial_empty"]);
}

#[test]
fn run_lints_is_deterministic() {
    let mut cert = clean_certificate();
    cert.serial = vec![];
    cert.version = 3;
    cert.extensions = vec![Extension {
        oid: "1.2.3.4".to_string(),
        parsed: ParsedExtension::Unsupported,
    }];
    let registry = rfc_lints();
    let first = registry.run_lints(&cert);
    let second = registry.run_lints(&cert);
    assert_eq!(first.len(), second.len());
    for (a, b) in first.iter().zip(second.iter()) {
        assert_eq!(a.0.name(), b.0.name());
        assert_eq!(a.0.description(), b.0.description());
        assert_eq!(a.0.citation(), b.0.citation());
        assert_eq!(a.1.status, b.1.status);
        let left = a.1.details.as_ref().map(|d| d.as_text());
        let right = b.1.details.as_ref().map(|d| d.as_text());
        assert_eq!(left, right);
    }
}

#[test]
fn short_circuit_reports_at_most_one_finding() {
    // Two unsupported extensions: exactly one unsupported-extension finding,
    // naming the first one encountered.
    let mut cert = clean_certificate();
    cert.extensions = vec![
        Extension { oid: "1.2.3.4".to_string(), parsed: ParsedExtension::Unsupported },
        Extension { oid: "1.2.3.5".to_string(), parsed: ParsedExtension::Unsupported },
    ];
    let registry = rfc_lints();
    let results = registry.run_lints(&cert);
    let unsupported: Vec<_> = results
        .iter()
        .filter(|(d, _)| d.name() == "rfc:cert_extensions_unsupported")
        .collect();
    assert_eq!(unsupported.len(), 1);
    assert_eq!(
        unsupported[0].1.details.as_ref().unwrap().as_text(),
        "1.2.3.4"
    );
}

#[test]
fn duplicate_names_all_run() {
    // The registry does not enforce name uniqueness: both entries report.
    let mut registry = CertificateLintRegistry::default();
    registry.insert(LintDefinition::new("dup", "one"), CertificateLint::SerialEmpty);
    registry.insert(LintDefinition::new("dup", "two"), CertificateLint::SerialEmpty);
    let mut cert = clean_certificate();
    cert.serial = vec![];
    let results = registry.run_lints(&cert);
    assert_eq!(results.len(), 2);
    assert!(results.iter().all(|(d, _)| d.name() == "dup"));
}

#[test]
fn new_from_pairs_keeps_order() {
    let pairs = vec![
        (LintDefinition::new("one", "first"), CertificateLint::CheckVersion),
        (LintDefinition::new("two", "second"), CertificateLint::SerialEmpty),
    ];
    let registry = CertificateLintRegistry::new(pairs);
    let names: Vec<&str> = registry.lints().iter().map(|(d, _)| d.name()).collect();
    assert_eq!(names, vec!["one", "two"]);
}
