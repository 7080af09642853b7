//! Plain-value model of the subjects that lints inspect.
//!
//! A lint never parses DER itself: it reads an already-parsed, immutable
//! subject. The types here hold, as plain values, exactly the fields that the
//! built-in lints read from such a subject; a driver fills them from whatever
//! parser it uses.

use vstd::prelude::*;

verus! {

/// Version ordinal of X.509 v1 (versions are zero-indexed).
pub const X509_VERSION_1: u32 = 0;

/// Version ordinal of X.509 v2.
pub const X509_VERSION_2: u32 = 1;

/// Version ordinal of X.509 v3.
pub const X509_VERSION_3: u32 = 2;

/// ASN.1 tag of the PrintableString encoding, the restricted character set
/// required for country-name attributes.
pub const PRINTABLE_STRING_TAG: u32 = 19;

/// One validity date of a certificate: the decoded calendar year together
/// with the time encoding it was read from.
#[derive(Debug, Clone, Copy, PartialEq, Eq, Structural)]
pub struct ValidityTime {
    /// Decoded calendar year.
    pub year: i32,
    /// True when the date was encoded with the legacy two-digit-year tag
    /// (UTCTime); false when it was encoded with the four-digit-year tag
    /// (GeneralizedTime).
    pub utc_tag: bool,
}

/// A distinguished name, reduced to the parts the built-in lints read.
#[derive(Debug)]
pub struct DistinguishedName {
    /// Number of relative distinguished name components.
    pub rdn_count: usize,
    /// ASN.1 tag of the value of each country-name attribute, in order of
    /// appearance.
    pub country_tags: Vec<u32>,
}

/// One entry of a Subject Alternative Name extension.
#[derive(Debug)]
pub enum GeneralName {
    /// A DNS name entry with its text.
    Dns(String),
    /// An email (RFC 822) name entry with its text.
    Rfc822(String),
    /// Any other kind of entry.
    Other,
}

/// Parsed form of an extension's value.
#[derive(Debug)]
pub enum ParsedExtension {
    /// The extension's type is not supported by the parser.
    Unsupported,
    /// The extension failed structural parsing; carries the parser's error
    /// text.
    ParseError {
        /// The parser's error text.
        error: String,
    },
    /// A Subject Alternative Name extension with its entries.
    SubjectAlternativeName {
        /// The general names listed by the extension, in order.
        general_names: Vec<GeneralName>,
    },
    /// Any other extension that parsed successfully.
    Supported,
}

/// One extension of a certificate or CRL.
#[derive(Debug)]
pub struct Extension {
    /// Dotted-decimal object identifier of the extension.
    pub oid: String,
    /// Parsed form of the extension's value.
    pub parsed: ParsedExtension,
}

/// An already-parsed X.509 certificate, reduced to the fields the built-in
/// lints read.
#[derive(Debug)]
pub struct Certificate {
    /// Declared version ordinal, zero-indexed (v1 is 0, v3 is 2).
    pub version: u32,
    /// Raw bytes of the serial number.
    pub serial: Vec<u8>,
    /// Start of the validity period.
    pub not_before: ValidityTime,
    /// End of the validity period.
    pub not_after: ValidityTime,
    /// Issuer distinguished name.
    pub issuer: DistinguishedName,
    /// Subject distinguished name.
    pub subject: DistinguishedName,
    /// Whether the issuerUniqueID field is present.
    pub issuer_uid_present: bool,
    /// Whether the subjectUniqueID field is present.
    pub subject_uid_present: bool,
    /// Extension list, in order of appearance.
    pub extensions: Vec<Extension>,
    /// Dotted-decimal identifier of the outer signature algorithm.
    pub signature_algorithm: String,
    /// Dotted-decimal identifier of the signature algorithm declared inside
    /// the to-be-signed structure.
    pub tbs_signature_algorithm: String,
}

/// An already-parsed X.509 certificate revocation list, reduced to the
/// fields the built-in lints read.
#[derive(Debug)]
pub struct CertificateRevocationList {
    /// Declared version ordinal, zero-indexed, when the field is present
    /// (v2 is 1).
    pub version: Option<u32>,
    /// Extension list, in order of appearance.
    pub extensions: Vec<Extension>,
}

} // verus!
