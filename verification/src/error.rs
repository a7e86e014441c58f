//! The kinds of failure that the engine reports.

use vstd::prelude::*;
use vstd::string::StringExecFns;

verus! {

/// A piece of certificate metadata that an accessor may fail to read. The
/// names of subject and issuer are not among them: a name that cannot be read
/// is an empty name.
#[derive(Clone, Copy, Debug, PartialEq, Eq, Structural)]
pub enum Property {
    FriendlyName,
    ValidFrom,
    ValidTo,
}

/// Why an operation on a store or on a certificate failed.
#[derive(Clone, Copy, Debug, PartialEq, Eq, Structural)]
pub enum CertError {
    /// The platform has no native certificate store.
    UnsupportedPlatform,
    /// The store could not be opened: bad name, bad principal, access denied.
    StoreOpen,
    /// The validity primitive could not judge the certificate.
    TimeValidityCheck,
    /// The extension is present but could not be rendered as text.
    ExtensionDecode,
    /// The named piece of metadata could not be read.
    PropertyUnavailable(Property),
    /// No private key is associated with the certificate, or it is not accessible.
    PrivateKeyUnavailable,
    /// The key is there, but an export call on it failed.
    KeyExport,
    /// The key is there, and its policy forbids export.
    CertNotExportable,
    /// No certificate passed the time and extension filter.
    CertNotFound,
    /// Certificates passed the filter, but none yielded a record.
    NoExportableCertFound,
}

impl CertError {
    /// The text of the message for each kind of failure.
    pub open spec fn message_text(self) -> Seq<char> {
        match self {
            CertError::UnsupportedPlatform => "The certificate store is only available on Windows."@,
            CertError::StoreOpen => "Could not open the certificate store."@,
            CertError::TimeValidityCheck => "Unable to check the time validity of the certificate."@,
            CertError::ExtensionDecode => "Unable to decode the certificate extension."@,
            CertError::PropertyUnavailable(Property::FriendlyName) =>
                "Unable to read the friendly name of the certificate."@,
            CertError::PropertyUnavailable(Property::ValidFrom) =>
                "Unable to read the effective date of the certificate."@,
            CertError::PropertyUnavailable(Property::ValidTo) =>
                "Unable to read the expiration date of the certificate."@,
            CertError::PrivateKeyUnavailable => "The certificate has no accessible private key."@,
            CertError::KeyExport => "Could not get the private key."@,
            CertError::CertNotExportable => "The certificate is not exportable."@,
            CertError::CertNotFound => "No valid certificates found."@,
            CertError::NoExportableCertFound => "No Exportable certificates found."@,
        }
    }

    /// A human-readable message that tells the kinds of failure apart.
    pub fn message(&self) -> (text: String)
        ensures
            text@ == self.message_text(),
    {
        match self {
            CertError::UnsupportedPlatform => String::from_str("The certificate store is only available on Windows."),
            CertError::StoreOpen => String::from_str("Could not open the certificate store."),
            CertError::TimeValidityCheck => String::from_str("Unable to check the time validity of the certificate."),
            CertError::ExtensionDecode => String::from_str("Unable to decode the certificate extension."),
            CertError::PropertyUnavailable(Property::FriendlyName) => String::from_str(
                "Unable to read the friendly name of the certificate.",
            ),
            CertError::PropertyUnavailable(Property::ValidFrom) => String::from_str(
                "Unable to read the effective date of the certificate.",
            ),
            CertError::PropertyUnavailable(Property::ValidTo) => String::from_str(
                "Unable to read the expiration date of the certificate.",
            ),
            CertError::PrivateKeyUnavailable => String::from_str("The certificate has no accessible private key."),
            CertError::KeyExport => String::from_str("Could not get the private key."),
            CertError::CertNotExportable => String::from_str("The certificate is not exportable."),
            CertError::CertNotFound => String::from_str("No valid certificates found."),
            CertError::NoExportableCertFound => String::from_str("No Exportable certificates found."),
        }
    }
}

} // verus!
