//! The rules by which a presented certificate chain is accepted.
//!
//! A chain is accepted when it is exactly one certificate, that certificate is valid at the
//! time of the check and signed by its own key, it carries exactly one binding and no other
//! critical extension, and the identity key of the binding accepts the binding's signature
//! over the certificate's own key. Whether the recovered identity is the expected one is
//! for the caller to decide.
//!
//! The verifier keeps no state: every function here is a function of its arguments.

use vstd::prelude::*;
use vstd::pervasive::unreached;
use crate::binding::{signed_message, signing_message};
use crate::certificate::{
    certificate_binding,
    certificate_error,
    check_self_issued,
    duplicated_before,
    is_binding,
    parse_certificate,
    read_certificate,
    unknown_critical_before,
    x509_certificate,
    x509_self_issued,
    CertificateModel,
};
use crate::error::{CertificateError, VerificationError};
use crate::identity::{
    canonical_public_key,
    derive_peer_id,
    peer_id_of,
    signature_accepted,
    verify_signature,
};

verus! {

/// A peer identity as mathematical values.
pub struct IdentityModel {
    /// The canonical encoding of the peer's long-term public key.
    pub public_key: Seq<u8>,
    /// The bytes of the peer identifier derived from the key.
    pub peer_id: Seq<u8>,
}

/// The identity of a peer whose certificate was accepted. Only verification makes one:
/// its parts can be read, not set.
#[derive(Clone, Debug)]
pub struct VerifiedPeerIdentity {
    public_key: Vec<u8>,
    peer_id: Vec<u8>,
}

impl View for VerifiedPeerIdentity {
    type V = IdentityModel;

    closed spec fn view(&self) -> IdentityModel {
        IdentityModel { public_key: self.public_key@, peer_id: self.peer_id@ }
    }
}

impl VerifiedPeerIdentity {
    /// The canonical encoding of the peer's long-term public key.
    pub fn public_key(&self) -> (key: &[u8])
        ensures
            key@ == self@.public_key,
    {
        self.public_key.as_slice()
    }

    /// The bytes of the peer identifier derived from the key.
    pub fn peer_id(&self) -> (id: &[u8])
        ensures
            id@ == self@.peer_id,
    {
        self.peer_id.as_slice()
    }
}

/// A version of the TLS protocol.
#[derive(Clone, Copy, Debug, PartialEq, Eq, Structural)]
pub enum ProtocolVersion {
    SSLv2,
    SSLv3,
    TLSv1_0,
    TLSv1_1,
    TLSv1_2,
    TLSv1_3,
    Unknown(u16),
}

/// A signature scheme of the TLS handshake.
#[derive(Clone, Copy, Debug, PartialEq, Eq, Structural)]
pub enum TlsSignatureScheme {
    RsaPkcs1Sha256,
    RsaPkcs1Sha384,
    RsaPkcs1Sha512,
    EcdsaNistp256Sha256,
    EcdsaNistp384Sha384,
    Ed25519,
    RsaPssSha256,
    RsaPssSha384,
    RsaPssSha512,
    Ed448,
    /// A scheme that the verifier does not know.
    Other,
}

/// What `X509Certificate::check_tls13_signature` answers for the certificate parsed from
/// `certificate`: whether `signature` is a signature over `message` in `scheme` by the
/// certificate's key, within what TLS 1.3 admits.
pub uninterp spec fn x509_tls13_signature(
    certificate: Seq<u8>,
    scheme: TlsSignatureScheme,
    message: Seq<u8>,
    signature: Seq<u8>,
) -> Result<(), CertificateError>;

/// A signature scheme as the X.509 reader names it.
#[verifier::external_type_specification]
#[verifier::external_body]
pub struct ExX509SignatureScheme(x509_signature::SignatureScheme);

/// Names a scheme as the X.509 reader does. `Other` has no such name.
#[verifier::external_body]
fn x509_scheme(scheme: TlsSignatureScheme) -> (named: Option<x509_signature::SignatureScheme>) {
    Some(
        match scheme {
            TlsSignatureScheme::RsaPkcs1Sha256 => x509_signature::SignatureScheme::RSA_PKCS1_SHA256,
            TlsSignatureScheme::RsaPkcs1Sha384 => x509_signature::SignatureScheme::RSA_PKCS1_SHA384,
            TlsSignatureScheme::RsaPkcs1Sha512 => x509_signature::SignatureScheme::RSA_PKCS1_SHA512,
            TlsSignatureScheme::EcdsaNistp256Sha256 => x509_signature::SignatureScheme::ECDSA_NISTP256_SHA256,
            TlsSignatureScheme::EcdsaNistp384Sha384 => x509_signature::SignatureScheme::ECDSA_NISTP384_SHA384,
            TlsSignatureScheme::Ed25519 => x509_signature::SignatureScheme::ED25519,
            TlsSignatureScheme::RsaPssSha256 => x509_signature::SignatureScheme::RSA_PSS_SHA256,
            TlsSignatureScheme::RsaPssSha384 => x509_signature::SignatureScheme::RSA_PSS_SHA384,
            TlsSignatureScheme::RsaPssSha512 => x509_signature::SignatureScheme::RSA_PSS_SHA512,
            TlsSignatureScheme::Ed448 => x509_signature::SignatureScheme::ED448,
            TlsSignatureScheme::Other => return None,
        },
    )
}

/// Parses `certificate` with `x509_signature::parse_certificate` and asks
/// `X509Certificate::check_tls13_signature`.
///
/// Trusted: the answer is a function of the arguments alone, named `x509_tls13_signature`.
/// The scheme `Other` is left out.
#[verifier::external_body]
fn check_tls13_signature(
    certificate: &[u8],
    scheme: TlsSignatureScheme,
    message: &[u8],
    signature: &[u8],
) -> (r: Result<(), CertificateError>)
    requires
        scheme != TlsSignatureScheme::Other,
    ensures
        r == x509_tls13_signature(certificate@, scheme, message@, signature@),
{
    let parsed = x509_signature::parse_certificate(certificate).map_err(certificate_error)?;
    let named = x509_scheme(scheme).ok_or(CertificateError::UnsupportedSignatureAlgorithm)?;
    parsed.check_tls13_signature(named, message, signature).map_err(certificate_error)
}

/// The bytes of each presented certificate.
pub open spec fn certificate_bytes(presented: Seq<Vec<u8>>) -> Seq<Seq<u8>> {
    presented.map_values(|c: Vec<u8>| c@)
}

/// Whether `now`, in seconds since the Unix epoch, lies in the certificate's validity window.
pub open spec fn validity_at(certificate: CertificateModel, now: u64) -> Result<
    (),
    CertificateError,
> {
    if now < certificate.not_before {
        Err(CertificateError::CertNotValidYet)
    } else if now > certificate.not_after {
        Err(CertificateError::CertExpired)
    } else {
        Ok(())
    }
}

/// The identity that a peer proves by presenting `presented` at the time `now`, or the
/// reason why the chain is refused. `now` is `None` where the time could not be read.
pub open spec fn verified_identity(presented: Seq<Seq<u8>>, now: Option<u64>) -> Result<
    IdentityModel,
    VerificationError,
> {
    if presented.len() != 1 {
        Err(VerificationError::NoCertificatesPresented)
    } else {
        match certificate_binding(presented[0]) {
            Err(e) => Err(VerificationError::WebPKIError(e)),
            Ok((certificate, binding)) => match now {
                None => Err(VerificationError::FailedToGetCurrentTime),
                Some(time) => match validity_at(certificate, time) {
                    Err(e) => Err(VerificationError::WebPKIError(e)),
                    Ok(_) => match x509_self_issued(presented[0]) {
                        Err(e) => Err(VerificationError::WebPKIError(e)),
                        Ok(_) => if signature_accepted(
                            binding.peer_key,
                            signed_message(certificate.subject_public_key),
                            binding.signature,
                        ) {
                            Ok(
                                IdentityModel {
                                    public_key: canonical_public_key(binding.peer_key).unwrap(),
                                    peer_id: peer_id_of(binding.peer_key),
                                },
                            )
                        } else {
                            Err(VerificationError::WebPKIError(CertificateError::UnknownIssuer))
                        },
                    },
                },
            },
        }
    }
}

/// Whether the handshake signature `signature` over `message` verifies under the key of
/// `certificate` at the time `now`, or the reason why it does not.
pub open spec fn verified_handshake_signature(
    scheme: TlsSignatureScheme,
    certificate: Seq<u8>,
    message: Seq<u8>,
    signature: Seq<u8>,
    now: Option<u64>,
) -> Result<(), VerificationError> {
    match x509_certificate(certificate) {
        Err(e) => Err(VerificationError::WebPKIError(e)),
        Ok(parsed) => match now {
            None => Err(VerificationError::FailedToGetCurrentTime),
            Some(time) => match validity_at(parsed, time) {
                Err(e) => Err(VerificationError::WebPKIError(e)),
                Ok(_) => if scheme == TlsSignatureScheme::Other {
                    Err(
                        VerificationError::WebPKIError(
                            CertificateError::UnsupportedSignatureAlgorithm,
                        ),
                    )
                } else {
                    match x509_tls13_signature(certificate, scheme, message, signature) {
                        Err(e) => Err(VerificationError::WebPKIError(e)),
                        Ok(_) => Ok(()),
                    }
                },
            },
        },
    }
}

/// Checks that `now` lies in the validity window that runs from `not_before` to
/// `not_after`, both included.
pub fn check_validity(not_before: i64, not_after: i64, now: u64) -> (r: Result<
    (),
    CertificateError,
>)
    ensures
        r == (if now < not_before {
            Err::<(), CertificateError>(CertificateError::CertNotValidYet)
        } else if now > not_after {
            Err::<(), CertificateError>(CertificateError::CertExpired)
        } else {
            Ok::<(), CertificateError>(())
        }),
{
    if not_before > 0 && now < not_before as u64 {
        Err(CertificateError::CertNotValidYet)
    } else if not_after < 0 || now > not_after as u64 {
        Err(CertificateError::CertExpired)
    } else {
        Ok(())
    }
}

/// Decides whether the certificate chain that a peer presented proves an identity.
///
/// `now` is the time of the check in seconds since the Unix epoch, or `None` where the
/// clock could not be read. The same rules hold for a client that checks a server and for
/// a server that checks a client.
pub fn verify_presented_certs(presented_certs: &[Vec<u8>], now: Option<u64>) -> (r: Result<
    VerifiedPeerIdentity,
    VerificationError,
>)
    ensures
        match r {
            Ok(identity) => verified_identity(certificate_bytes(presented_certs@), now) == Ok::<
                IdentityModel,
                VerificationError,
            >(identity@),
            Err(e) => verified_identity(certificate_bytes(presented_certs@), now) == Err::<
                IdentityModel,
                VerificationError,
            >(e),
        },
{
    if presented_certs.len() != 1 {
        return Err(VerificationError::NoCertificatesPresented);
    }
    let certificate: &[u8] = presented_certs[0].as_slice();
    assert(certificate_bytes(presented_certs@)[0] == certificate@);
    let bound = match parse_certificate(certificate) {
        Ok(bound) => bound,
        Err(e) => { return Err(VerificationError::WebPKIError(e)); },
    };
    let time: u64 = match now {
        Some(time) => time,
        None => { return Err(VerificationError::FailedToGetCurrentTime); },
    };
    match check_validity(bound.certificate.not_before, bound.certificate.not_after, time) {
        Ok(_) => {},
        Err(e) => { return Err(VerificationError::WebPKIError(e)); },
    }
    match check_self_issued(certificate) {
        Ok(_) => {},
        Err(e) => { return Err(VerificationError::WebPKIError(e)); },
    }
    if verify_libp2p_signature(
        bound.peer_key.as_slice(),
        bound.signature.as_slice(),
        bound.certificate.subject_public_key.as_slice(),
    ) {
        let peer_id: Vec<u8> = derive_peer_id(bound.peer_key.as_slice());
        Ok(VerifiedPeerIdentity { public_key: bound.canonical_key, peer_id })
    } else {
        Err(VerificationError::WebPKIError(CertificateError::UnknownIssuer))
    }
}

/// Asks the identity key `peer_key` whether `signature` is its signature over the signed
/// message of the session key `x509_pkey_bytes`.
pub fn verify_libp2p_signature(peer_key: &[u8], signature: &[u8], x509_pkey_bytes: &[u8]) -> (accepted:
    bool)
    requires
        canonical_public_key(peer_key@).is_some(),
    ensures
        accepted == signature_accepted(peer_key@, signed_message(x509_pkey_bytes@), signature@),
{
    let message: Vec<u8> = signing_message(x509_pkey_bytes);
    verify_signature(peer_key, message.as_slice(), signature)
}

/// Decides whether the signature that a peer made in the handshake verifies under the key
/// of its certificate.
///
/// The protocol version must be the one that the configuration pins.
pub fn verify_certificate_signature(
    scheme: TlsSignatureScheme,
    version: ProtocolVersion,
    certificate: &[u8],
    msg: &[u8],
    signature: &[u8],
    now: Option<u64>,
) -> (r: Result<(), VerificationError>)
    requires
        version == ProtocolVersion::TLSv1_3,
    ensures
        r == verified_handshake_signature(scheme, certificate@, msg@, signature@, now),
{
    let parsed = match read_certificate(certificate) {
        Ok(parsed) => parsed,
        Err(e) => { return Err(VerificationError::WebPKIError(e)); },
    };
    let time: u64 = match now {
        Some(time) => time,
        None => { return Err(VerificationError::FailedToGetCurrentTime); },
    };
    match check_validity(parsed.not_before, parsed.not_after, time) {
        Ok(_) => {},
        Err(e) => { return Err(VerificationError::WebPKIError(e)); },
    }
    if scheme == TlsSignatureScheme::Other {
        return Err(
            VerificationError::WebPKIError(CertificateError::UnsupportedSignatureAlgorithm),
        );
    }
    match check_tls13_signature(certificate, scheme, msg, signature) {
        Ok(_) => Ok(()),
        Err(e) => Err(VerificationError::WebPKIError(e)),
    }
}

/// Libp2p client and server certificate verifier.
///
/// The verifier has no state, and it holds one set of rules for both roles: a server's
/// certificate and a client's certificate are checked alike.
#[derive(Clone, Copy, Debug, PartialEq, Eq, Structural)]
pub struct Libp2pCertificateVerifier;

impl Libp2pCertificateVerifier {
    /// Decides whether the chain that a server presented proves an identity.
    pub fn verify_server_cert(&self, presented_certs: &[Vec<u8>], now: Option<u64>) -> (r: Result<
        VerifiedPeerIdentity,
        VerificationError,
    >)
        ensures
            match r {
                Ok(identity) => verified_identity(certificate_bytes(presented_certs@), now)
                    == Ok::<IdentityModel, VerificationError>(identity@),
                Err(e) => verified_identity(certificate_bytes(presented_certs@), now) == Err::<
                    IdentityModel,
                    VerificationError,
                >(e),
            },
    {
        verify_presented_certs(presented_certs, now)
    }

    /// Decides whether the chain that a client presented proves an identity.
    pub fn verify_client_cert(&self, presented_certs: &[Vec<u8>], now: Option<u64>) -> (r: Result<
        VerifiedPeerIdentity,
        VerificationError,
    >)
        ensures
            match r {
                Ok(identity) => verified_identity(certificate_bytes(presented_certs@), now)
                    == Ok::<IdentityModel, VerificationError>(identity@),
                Err(e) => verified_identity(certificate_bytes(presented_certs@), now) == Err::<
                    IdentityModel,
                    VerificationError,
                >(e),
            },
    {
        verify_presented_certs(presented_certs, now)
    }

    /// Decides whether a handshake signature verifies under the key of the peer's
    /// certificate. The protocol version must be the one that the configuration pins.
    pub fn verify_certificate_signature(
        &self,
        scheme: TlsSignatureScheme,
        version: ProtocolVersion,
        certificate: &[u8],
        msg: &[u8],
        signature: &[u8],
        now: Option<u64>,
    ) -> (r: Result<(), VerificationError>)
        requires
            version == ProtocolVersion::TLSv1_3,
        ensures
            r == verified_handshake_signature(scheme, certificate@, msg@, signature@, now),
    {
        verify_certificate_signature(scheme, version, certificate, msg, signature, now)
    }

    /// Whether clients are asked for a certificate: always.
    pub fn offer_client_auth(&self) -> (offered: bool)
        ensures
            offered,
    {
        true
    }

    /// The subject names of the certificate authorities that are announced to clients:
    /// none, as there is no authority.
    pub fn client_auth_root_subjects(&self) -> (subjects: Option<Vec<Vec<u8>>>)
        ensures
            subjects.is_some(),
            subjects.unwrap()@.len() == 0,
    {
        Some(Vec::new())
    }
}

/// The peer identifier of the identity key in the binding of `certificate`.
///
/// For certificates that a handshake has already accepted: the certificate must hold a
/// well-formed binding.
pub fn extract_peerid_or_panic(certificate: &[u8]) -> (peer_id: Vec<u8>)
    requires
        certificate_binding(certificate@).is_ok(),
    ensures
        peer_id@ == peer_id_of(certificate_binding(certificate@).unwrap().1.peer_key),
{
    match parse_certificate(certificate) {
        Ok(bound) => derive_peer_id(bound.peer_key.as_slice()),
        Err(_) => unreached(),
    }
}

/// The peer identifier of the identity key in the binding of `certificate`, or `None` where
/// the certificate holds no well-formed binding.
pub fn extract_peerid(certificate: &[u8]) -> (peer_id: Option<Vec<u8>>)
    ensures
        peer_id.is_some() == certificate_binding(certificate@).is_ok(),
        peer_id.is_some() ==> peer_id.unwrap()@ == peer_id_of(
            certificate_binding(certificate@).unwrap().1.peer_key,
        ),
{
    match parse_certificate(certificate) {
        Ok(_) => Some(extract_peerid_or_panic(certificate)),
        Err(_) => None,
    }
}

/// The peer identifier that a completed handshake stands for. `presented` are the
/// certificates that the peer presented in it, `None` where the connection tells none.
///
/// The handshake has verified the certificate; here only the identity is read from it.
/// Any number of certificates other than one counts as none presented, and a certificate
/// without a well-formed binding as one of an unknown issuer.
pub open spec fn handshake_peer(presented: Option<Seq<Seq<u8>>>) -> Result<
    Seq<u8>,
    VerificationError,
> {
    match presented {
        None => Err(VerificationError::NoCertificatesPresented),
        Some(certificates) => if certificates.len() != 1 {
            Err(VerificationError::NoCertificatesPresented)
        } else {
            match certificate_binding(certificates[0]) {
                Ok((_, binding)) => Ok(peer_id_of(binding.peer_key)),
                Err(_) => Err(VerificationError::WebPKIError(CertificateError::UnknownIssuer)),
            }
        },
    }
}

/// Reads the peer's identifier from the certificates of a completed handshake, so that no
/// connection is handed on without the identity of its peer.
pub fn peer_of_handshake(presented: Option<&[Vec<u8>]>) -> (r: Result<Vec<u8>, VerificationError>)
    ensures
        match r {
            Ok(peer_id) => handshake_peer(
                match presented {
                    Some(certificates) => Some(certificate_bytes(certificates@)),
                    None => None,
                },
            ) == Ok::<Seq<u8>, VerificationError>(peer_id@),
            Err(e) => handshake_peer(
                match presented {
                    Some(certificates) => Some(certificate_bytes(certificates@)),
                    None => None,
                },
            ) == Err::<Seq<u8>, VerificationError>(e),
        },
{
    let certificates: &[Vec<u8>] = match presented {
        Some(certificates) => certificates,
        None => { return Err(VerificationError::NoCertificatesPresented); },
    };
    if certificates.len() != 1 {
        return Err(VerificationError::NoCertificatesPresented);
    }
    assert(certificate_bytes(certificates@)[0] == certificates@[0]@);
    match extract_peerid(certificates[0].as_slice()) {
        Some(peer_id) => Ok(peer_id),
        None => Err(VerificationError::WebPKIError(CertificateError::UnknownIssuer)),
    }
}

/// Any number of certificates other than one is refused for its number, before anything is
/// decoded and whatever the certificates hold.
pub proof fn lemma_cardinality(presented: Seq<Seq<u8>>, now: Option<u64>)
    requires
        presented.len() != 1,
    ensures
        verified_identity(presented, now) == Err::<IdentityModel, VerificationError>(
            VerificationError::NoCertificatesPresented,
        ),
{
}

/// A certificate that holds the binding twice is refused as badly encoded, whatever the
/// two payloads are and whatever else the certificate holds.
pub proof fn lemma_duplicate_binding_refused(
    certificate: Seq<u8>,
    first: int,
    second: int,
    now: Option<u64>,
)
    requires
        x509_certificate(certificate).is_ok(),
        0 <= first < second < x509_certificate(certificate).unwrap().extensions.len(),
        is_binding(x509_certificate(certificate).unwrap().extensions[first]),
        is_binding(x509_certificate(certificate).unwrap().extensions[second]),
    ensures
        verified_identity(seq![certificate], now) == Err::<IdentityModel, VerificationError>(
            VerificationError::WebPKIError(CertificateError::BadDER),
        ),
{
    let parsed = x509_certificate(certificate).unwrap();
    assert(duplicated_before(parsed.extensions, parsed.extensions.len() as int));
    assert(seq![certificate][0] == certificate);
}

/// A certificate with an extension that is marked critical and is not the binding is
/// refused, however valid its binding is: as badly encoded where the list of extensions is
/// malformed or holds the binding twice, and for the unsupported extension otherwise.
pub proof fn lemma_unknown_critical_refused(certificate: Seq<u8>, index: int, now: Option<u64>)
    requires
        x509_certificate(certificate).is_ok(),
        0 <= index < x509_certificate(certificate).unwrap().extensions.len(),
        !is_binding(x509_certificate(certificate).unwrap().extensions[index]),
        x509_certificate(certificate).unwrap().extensions[index].critical,
    ensures
        verified_identity(seq![certificate], now) == Err::<IdentityModel, VerificationError>(
            VerificationError::WebPKIError(
                if !x509_certificate(certificate).unwrap().extensions_complete
                    || duplicated_before(
                    x509_certificate(certificate).unwrap().extensions,
                    x509_certificate(certificate).unwrap().extensions.len() as int,
                ) {
                    CertificateError::BadDER
                } else {
                    CertificateError::UnsupportedCriticalExtension
                },
            ),
        ),
{
    let parsed = x509_certificate(certificate).unwrap();
    assert(unknown_critical_before(parsed.extensions, parsed.extensions.len() as int));
    assert(seq![certificate][0] == certificate);
}

/// Where everything but the binding's signature is in order, a signature that the identity
/// key does not accept has the certificate refused for want of an issuer, the same answer
/// as for a certificate without a binding.
pub proof fn lemma_rejected_signature_refused(certificate: Seq<u8>, now: u64)
    requires
        certificate_binding(certificate).is_ok(),
        validity_at(certificate_binding(certificate).unwrap().0, now).is_ok(),
        x509_self_issued(certificate).is_ok(),
        !signature_accepted(
            certificate_binding(certificate).unwrap().1.peer_key,
            signed_message(certificate_binding(certificate).unwrap().0.subject_public_key),
            certificate_binding(certificate).unwrap().1.signature,
        ),
    ensures
        verified_identity(seq![certificate], Some(now)) == Err::<IdentityModel, VerificationError>(
            VerificationError::WebPKIError(CertificateError::UnknownIssuer),
        ),
{
    assert(seq![certificate][0] == certificate);
}

/// An accepted chain is one certificate with a binding whose signature its identity key
/// accepts over the certificate's own key, and the identity returned is the canonical
/// encoding of that key.
pub proof fn lemma_accepted_identity(presented: Seq<Seq<u8>>, now: Option<u64>)
    requires
        verified_identity(presented, now).is_ok(),
    ensures
        presented.len() == 1,
        now.is_some(),
        certificate_binding(presented[0]).is_ok(),
        signature_accepted(
            certificate_binding(presented[0]).unwrap().1.peer_key,
            signed_message(certificate_binding(presented[0]).unwrap().0.subject_public_key),
            certificate_binding(presented[0]).unwrap().1.signature,
        ),
        Some(verified_identity(presented, now).unwrap().public_key) == canonical_public_key(
            certificate_binding(presented[0]).unwrap().1.peer_key,
        ),
{
}

} // verus!
