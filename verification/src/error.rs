//! The errors with which a presented certificate is refused.

use vstd::prelude::*;

verus! {

/// Why a certificate, taken by itself, is refused.
///
/// The classes are coarse on purpose: a malformed binding and a forged one are reported
/// alike, so that a peer learns nothing from the answer.
#[derive(Clone, Copy, Debug, PartialEq, Eq, Structural)]
pub enum CertificateError {
    /// The certificate, or its list of extensions, is not well-formed DER, or the binding
    /// extension occurs more than once.
    BadDER,
    /// A time in the certificate is not well-formed.
    BadDERTime,
    /// The certificate is no longer valid at the time of the check.
    CertExpired,
    /// The certificate is not yet valid at the time of the check.
    CertNotValidYet,
    /// The certificate's validity ends before it begins.
    InvalidCertValidity,
    /// The payload of the binding extension does not have the expected form, or the
    /// identity key in it cannot be decoded.
    ExtensionValueInvalid,
    /// The certificate's own signature does not verify under its own key.
    InvalidSignatureForPublicKey,
    /// The two signature algorithms named in the certificate differ.
    SignatureAlgorithmMismatch,
    /// The certificate carries no binding, is not issued by its own subject, or the identity
    /// key rejects the binding's signature.
    UnknownIssuer,
    /// The certificate is not an X.509 version 3 certificate.
    UnsupportedCertVersion,
    /// An extension other than the binding is marked critical.
    UnsupportedCriticalExtension,
    /// The signature algorithm is not supported.
    UnsupportedSignatureAlgorithm,
    /// The signature algorithm does not fit the public key.
    UnsupportedSignatureAlgorithmForPublicKey,
}

/// Why a presented certificate chain is refused.
#[derive(Clone, Copy, Debug, PartialEq, Eq, Structural)]
pub enum VerificationError {
    /// Not exactly one certificate was presented.
    NoCertificatesPresented,
    /// The one certificate presented is refused.
    WebPKIError(CertificateError),
    /// The time of the check could not be read.
    FailedToGetCurrentTime,
}

} // verus!
