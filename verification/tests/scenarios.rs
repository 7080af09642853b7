use x509_lint::Certificate;
use x509_lint::DistinguishedName;
use x509_lint::Extension;
use x509_lint::LintStatus;
use x509_lint::ParsedExtension;
use x509_lint::ValidityTime;
use x509_lint::rfc_lints;

fn clean_certificate() -> Certificate {
    Certificate {
        version: 2,
        serial: vec![0x01],
        not_before: ValidityTime { year: 2020, utc_tag: true },
        not_after: ValidityTime { year: 2030, utc_tag: true },
        issuer: DistinguishedName { rdn_count: 1, country_tags: vec![] },
        subject: DistinguishedName { rdn_count: 1, country_tags: vec![] },
        issuer_uid_present: false,
        subject_uid_present: false,
        extensions: vec![],
        signature_algorithm: "1.2.840.113549.1.1.11".to_string(),
        tbs_signature_algorithm: "1.2.840.113549.1.1.11".to_string(),
    }
}

#[test]
fn clean_v3_certificate_yields_no_findings() {
    let cert = clean_certificate();
    let results = rfc_lints().run_lints(&cert);
    assert!(results.is_empty());
}

#[test]
fn v1_with_issuer_unique_id_yields_one_warning() {
    let mut cert = clean_certificate();
    cert.version = 0;
    cert.issuer_uid_present = true;
    let results = rfc_lints().run_lints(&cert);
    assert_eq!(results.len(), 1);
    assert_eq!(results[0].0.name(), "rfc:issuer_uniqueid_v1");
    assert_eq!(results[0].1.status, LintStatus::Warn);
}

#[test]
fn empty_serial_yields_only_the_empty_finding() {
    let mut cert = clean_certificate();
    cert.serial = vec![];
    let results = rfc_lints().run_lints(&cert);
    assert_eq!(results.len(), 1);
    assert_eq!(results[0].0.name(), "rfc:serial_empty");
    assert_eq!(results[0].1.status, LintStatus::Error);
}

#[test]
fn leading_zero_serial_warns_without_msb_finding() {
    let mut cert = clean_certificate();
    cert.serial = vec![0x00, 0x7F];
    let results = rfc_lints().run_lints(&cert);
    let names: Vec<&str> = results.iter().map(|(d, _)| d.name()).collect();
    assert!(names.contains(&"rfc:serial_leadint_zeroes"));
    assert!(!names.contains(&"rfc:serial_msb"));
    let leading = results
        .iter()
        .find(|(d, _)| d.name() == "rfc:serial_leadint_zeroes")
        .unwrap();
    assert_eq!(leading.1.status, LintStatus::Warn);
    assert_eq!(results.len(), 1);
}

#[test]
fn post2049_not_after_with_legacy_tag_yields_one_warning() {
    let mut cert = clean_certificate();
    cert.not_after = ValidityTime { year: 2050, utc_tag: true };
    let results = rfc_lints().run_lints(&cert);
    assert_eq!(results.len(), 1);
    assert_eq!(results[0].0.name(), "rfc:year_post2049_utc");
    assert_eq!(results[0].1.status, LintStatus::Warn);
    assert_eq!(results[0].1.details.as_ref().unwrap().as_text(), "notAfter");
}

#[test]
fn each_extension_rule_scans_independently() {
    // First extension unsupported, second a parse error: each rule scans the
    // whole list from the start, so the unsupported rule reports the first
    // extension and the parse-error rule reports the second, one finding
    // each.
    let mut cert = clean_certificate();
    cert.extensions = vec![
        Extension { oid: "1.2.3.4".to_string(), parsed: ParsedExtension::Unsupported },
        Extension {
            oid: "2.5.29.15".to_string(),
            parsed: ParsedExtension::ParseError { error: "bad".to_string() },
        },
    ];
    let results = rfc_lints().run_lints(&cert);
    let unsupported: Vec<_> = results
        .iter()
        .filter(|(d, _)| d.name() == "rfc:cert_extensions_unsupported")
        .collect();
    assert_eq!(unsupported.len(), 1);
    assert_eq!(unsupported[0].1.details.as_ref().unwrap().as_text(), "1.2.3.4");
    let parse_errors: Vec<_> = results
        .iter()
        .filter(|(d, _)| d.name() == "rfc:cert_extensions_parse_error")
        .collect();
    assert_eq!(parse_errors.len(), 1);
    assert_eq!(results.len(), 2);
}
