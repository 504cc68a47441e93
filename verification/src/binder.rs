//! Making the session certificate of a local identity.
//!
//! A fresh session key is generated, the identity key signs the session key behind the
//! domain-separation prefix, and the signed binding is embedded as an extension of a
//! certificate that the session key signs itself. Keys, signatures and the certificate are
//! made by `rcgen` and `libp2p_identity`; the signed message and the payload of the
//! extension are made here.
//!
//! Nothing that those crates make is handed out unchecked: the signature is verified
//! before it is written into the binding, and the finished certificate is read back and
//! checked by the rules by which a peer will check it.

use vstd::prelude::*;
use crate::binding::{
    binding_encodable,
    binding_encoding,
    binding_fields,
    bytes_equal,
    encode_libp2p_extension,
    lemma_binding_round_trip,
    signed_message,
    signing_message,
    BindingModel,
    LIBP2P_OID_BYTES,
};
use crate::certificate::{
    binding_extension,
    certificate_binding,
    check_self_issued,
    locate_binding,
    parse_certificate,
    read_certificate,
    x509_self_issued,
    CertificateExtension,
    ExtensionModel,
};
use crate::error::VerificationError;
use crate::identity::{
    canonical_public_key,
    decode_public_key,
    peer_id_of,
    public_key_encoding,
    public_key_of,
    sign,
    signature_accepted,
};
use crate::verification::{
    validity_at,
    verified_identity,
    verify_libp2p_signature,
    IdentityModel,
};

verus! {

/// The arcs of the object identifier that marks the binding, 1.3.6.1.4.1.53594.1.1.
pub const LIBP2P_OID: [u64; 9] = [1, 3, 6, 1, 4, 1, 53594, 1, 1];

/// A session key pair.
#[verifier::external_type_specification]
#[verifier::external_body]
pub struct ExSessionKeyPair(rcgen::KeyPair);

/// The error with which a certificate cannot be generated.
#[verifier::external_type_specification]
#[verifier::external_body]
pub struct ExRcgenError(rcgen::Error);

/// Why the TLS configuration of a local identity cannot be made.
#[derive(Debug)]
pub enum ConfigError {
    /// The identity key refused to sign.
    SigningError(libp2p_identity::SigningError),
    /// The session key or the certificate could not be generated.
    RcgenError(rcgen::Error),
    /// The binding of the identity is too long for its extension.
    BindingTooLong,
    /// The identity key does not vouch for the session key: its portable encoding does
    /// not read back as itself, or the key does not accept the signature that it made.
    BindingRejected,
    /// The certificate that was generated is not one that a peer would accept for the
    /// identity.
    CertificateRejected,
}

/// A session certificate with all that belongs to it.
#[derive(Clone, Debug)]
pub struct SessionCertificate {
    /// The self-signed certificate, DER-encoded.
    pub certificate: Vec<u8>,
    /// The session's private key, DER-encoded PKCS#8.
    pub private_key: Vec<u8>,
    /// The session's public key, as the identity key signed it.
    pub session_public_key: Vec<u8>,
    /// The portable encoding of the identity's public key.
    pub peer_key: Vec<u8>,
    /// The payload of the binding extension embedded in the certificate.
    pub extension: Vec<u8>,
}

/// Whether a certificate certifies itself: it carries one binding, it is signed by its own
/// key, and the identity key of the binding accepts the binding's signature over the
/// certificate's own key. Such a certificate is accepted from a peer at every time in its
/// validity window.
pub open spec fn self_certifying(certificate: Seq<u8>) -> bool {
    match certificate_binding(certificate) {
        Ok((parsed, binding)) => {
            &&& x509_self_issued(certificate).is_ok()
            &&& signature_accepted(
                binding.peer_key,
                signed_message(parsed.subject_public_key),
                binding.signature,
            )
        },
        Err(_) => false,
    }
}

/// Whether a certificate certifies the identity key `peer_key`: it certifies itself, the
/// key of its binding is `peer_key`, and `peer_key` is the canonical encoding of a key. A
/// peer that accepts such a certificate recovers `peer_key` itself.
pub open spec fn certifies(certificate: Seq<u8>, peer_key: Seq<u8>) -> bool {
    &&& self_certifying(certificate)
    &&& certificate_binding(certificate).unwrap().1.peer_key == peer_key
    &&& canonical_public_key(peer_key) == Some(peer_key)
}

/// Whether a certificate proves the identity that it was made for: it certifies the
/// identity key `peer_key`, and its own key is the session key `session_public_key`.
pub open spec fn proves_identity(
    certificate: Seq<u8>,
    session_public_key: Seq<u8>,
    peer_key: Seq<u8>,
) -> bool {
    &&& certifies(certificate, peer_key)
    &&& certificate_binding(certificate).unwrap().0.subject_public_key == session_public_key
}

impl SessionCertificate {
    /// Whether the session certificate is what it is meant to be: the certificate proves
    /// the identity for the session key, and it carries the payload `extension` under the
    /// object identifier of the binding, in an extension that is not marked critical.
    pub open spec fn well_made(&self) -> bool {
        &&& proves_identity(self.certificate@, self.session_public_key@, self.peer_key@)
        &&& binding_extension(self.certificate@) == Some(
            ExtensionModel {
                oid: LIBP2P_OID_BYTES@,
                critical: false,
                value: self.extension@,
            },
        )
    }

    /// Checks that the session certificate is what it is meant to be.
    pub fn is_well_made(&self) -> (well: bool)
        ensures
            well == self.well_made(),
    {
        if !self.proves_identity() {
            return false;
        }
        let parsed = match read_certificate(self.certificate.as_slice()) {
            Ok(parsed) => parsed,
            Err(_) => { return false; },
        };
        match locate_binding(&parsed.extensions, parsed.extensions_complete) {
            Ok(index) => {
                let found: &CertificateExtension = &parsed.extensions[index];
                assert(parsed@.extensions[index as int] == found@);
                !found.critical && bytes_equal(found.value.as_slice(), self.extension.as_slice())
            },
            Err(_) => false,
        }
    }

    /// Checks that the certificate proves the identity that it was made for, by the rules
    /// by which a peer will check it. The validity window is not looked at.
    pub fn proves_identity(&self) -> (proved: bool)
        ensures
            proved == proves_identity(
                self.certificate@,
                self.session_public_key@,
                self.peer_key@,
            ),
    {
        let bound = match parse_certificate(self.certificate.as_slice()) {
            Ok(bound) => bound,
            Err(_) => { return false; },
        };
        if !bytes_equal(bound.peer_key.as_slice(), self.peer_key.as_slice()) {
            return false;
        }
        if !bytes_equal(bound.canonical_key.as_slice(), self.peer_key.as_slice()) {
            return false;
        }
        if !bytes_equal(
            bound.certificate.subject_public_key.as_slice(),
            self.session_public_key.as_slice(),
        ) {
            return false;
        }
        match check_self_issued(self.certificate.as_slice()) {
            Ok(_) => {},
            Err(_) => { return false; },
        }
        verify_libp2p_signature(
            bound.peer_key.as_slice(),
            bound.signature.as_slice(),
            bound.certificate.subject_public_key.as_slice(),
        )
    }
}

/// A certificate that certifies itself is accepted from a peer at every time in its
/// validity window, and the identity recovered from it is the canonical encoding of the
/// key in its binding.
pub proof fn lemma_self_certifying_is_accepted(certificate: Seq<u8>, now: u64)
    requires
        self_certifying(certificate),
        validity_at(certificate_binding(certificate).unwrap().0, now).is_ok(),
    ensures
        verified_identity(seq![certificate], Some(now)) == Ok::<IdentityModel, VerificationError>(
            IdentityModel {
                public_key: canonical_public_key(
                    certificate_binding(certificate).unwrap().1.peer_key,
                ).unwrap(),
                peer_id: peer_id_of(certificate_binding(certificate).unwrap().1.peer_key),
            },
        ),
{
    assert(seq![certificate][0] == certificate);
}

/// A certificate that certifies an identity key is accepted from a peer at every time in
/// its validity window, and the identity recovered from it is that key, unchanged, with
/// the peer identifier derived from it.
pub proof fn lemma_certified_identity_is_recovered(
    certificate: Seq<u8>,
    peer_key: Seq<u8>,
    now: u64,
)
    requires
        certifies(certificate, peer_key),
        validity_at(certificate_binding(certificate).unwrap().0, now).is_ok(),
    ensures
        verified_identity(seq![certificate], Some(now)) == Ok::<IdentityModel, VerificationError>(
            IdentityModel { public_key: peer_key, peer_id: peer_id_of(peer_key) },
        ),
{
    assert(seq![certificate][0] == certificate);
}

/// The peer identifier that is extracted from a certificate that certifies an identity
/// key is the one derived from that key. Such a certificate holds a binding, so the
/// extraction is defined on it.
pub proof fn lemma_certified_peer_id(certificate: Seq<u8>, peer_key: Seq<u8>)
    requires
        certifies(certificate, peer_key),
    ensures
        certificate_binding(certificate).is_ok(),
        peer_id_of(certificate_binding(certificate).unwrap().1.peer_key) == peer_id_of(peer_key),
{
}

/// The session certificate of an identity is accepted from a peer at every time in its
/// validity window, and the identity that the peer recovers is the public key of the key
/// pair in its portable encoding, unchanged.
pub proof fn lemma_own_identity_is_recovered(
    made: SessionCertificate,
    identity: libp2p_identity::Keypair,
    now: u64,
)
    requires
        made.well_made(),
        made.peer_key@ == public_key_of(identity),
        validity_at(certificate_binding(made.certificate@).unwrap().0, now).is_ok(),
    ensures
        verified_identity(seq![made.certificate@], Some(now)) == Ok::<
            IdentityModel,
            VerificationError,
        >(
            IdentityModel {
                public_key: public_key_of(identity),
                peer_id: peer_id_of(public_key_of(identity)),
            },
        ),
{
    lemma_certified_identity_is_recovered(made.certificate@, made.peer_key@, now);
}

/// Generates a session key pair with `rcgen::KeyPair::generate`. The key is random:
/// nothing is claimed of it.
#[verifier::external_body]
fn generate_session_key() -> (key: Result<rcgen::KeyPair, rcgen::Error>) {
    rcgen::KeyPair::generate()
}

/// The raw public key of a session key pair, from `KeyPair::public_key_raw`.
#[verifier::external_body]
fn session_public_key(key: &rcgen::KeyPair) -> (public: Vec<u8>) {
    key.public_key_raw().to_vec()
}

/// The private key of a session key pair in PKCS#8, from `KeyPair::serialize_der`.
#[verifier::external_body]
fn session_private_key(key: &rcgen::KeyPair) -> (private: Vec<u8>) {
    key.serialize_der()
}

/// Whether an object identifier with these arcs can be written in DER: it has two arcs
/// at least, the first is 0, 1 or 2, and the second is below 40 unless the first is 2.
pub open spec fn oid_writable(arcs: Seq<u64>) -> bool {
    &&& arcs.len() >= 2
    &&& arcs[0] < 3
    &&& arcs[1] < 18446744073709551535
    &&& (arcs[0] >= 2 || arcs[1] < 40)
}

/// Builds default `rcgen::CertificateParams` without alternative names, adds one extension
/// made by `CustomExtension::from_oid_content` with the criticality given, and signs with
/// `CertificateParams::self_signed`. Nothing is claimed of the certificate: its signature
/// is made with fresh randomness.
///
/// The writer of the object identifier stops the program on arcs that have no encoding;
/// those are left out.
#[verifier::external_body]
fn self_signed_certificate(
    key: &rcgen::KeyPair,
    oid: &[u64],
    payload: Vec<u8>,
    critical: bool,
) -> (certificate: Result<Vec<u8>, rcgen::Error>)
    requires
        oid_writable(oid@),
{
    let mut params = rcgen::CertificateParams::new(Vec::<String>::new())?;
    let mut extension = rcgen::CustomExtension::from_oid_content(oid, payload);
    extension.set_criticality(critical);
    params.custom_extensions.push(extension);
    Ok(params.self_signed(key)?.der().to_vec())
}

/// The payload of the binding extension for an identity key and its signature.
pub fn encode_signed_key(peer_key: &[u8], signature: &[u8]) -> (r: Result<Vec<u8>, ConfigError>)
    ensures
        r.is_ok() == binding_encodable(
            BindingModel { peer_key: peer_key@, signature: signature@ },
        ),
        r.is_ok() ==> r.unwrap()@ == binding_encoding(
            BindingModel { peer_key: peer_key@, signature: signature@ },
        ),
        r.is_err() ==> r.unwrap_err() is BindingTooLong,
{
    match encode_libp2p_extension(peer_key, signature) {
        Some(payload) => Ok(payload),
        None => Err(ConfigError::BindingTooLong),
    }
}

/// Whether the identity key `peer_key` vouches for the session key `session_public_key`
/// with `signature`: `peer_key` is the canonical encoding of a key, and that key accepts
/// the signature over the signed message of the session key.
pub open spec fn vouches(
    peer_key: Seq<u8>,
    session_public_key: Seq<u8>,
    signature: Seq<u8>,
) -> bool {
    &&& canonical_public_key(peer_key) == Some(peer_key)
    &&& signature_accepted(peer_key, signed_message(session_public_key), signature)
}

/// Writes the binding of the identity key `peer_key` to a session key, given what the key
/// answered when it was asked to sign the signed message of the session key.
///
/// A refusal to sign is passed on. A signature is checked as a peer will check it: a key
/// that does not vouch for the session key with it is refused with `BindingRejected`; a
/// binding that is vouched for and too long to be written, with `BindingTooLong`.
pub fn bind_signed_key(
    session_public_key: &[u8],
    peer_key: &[u8],
    signed: Result<Vec<u8>, libp2p_identity::SigningError>,
) -> (r: Result<Vec<u8>, ConfigError>)
    ensures
        match r {
            Ok(payload) => {
                &&& signed.is_ok()
                &&& vouches(peer_key@, session_public_key@, signed.unwrap()@)
                &&& binding_encodable(
                    BindingModel { peer_key: peer_key@, signature: signed.unwrap()@ },
                )
                &&& payload@ == binding_encoding(
                    BindingModel { peer_key: peer_key@, signature: signed.unwrap()@ },
                )
            },
            Err(ConfigError::SigningError(e)) => signed == Err::<
                Vec<u8>,
                libp2p_identity::SigningError,
            >(e),
            Err(ConfigError::BindingRejected) => {
                &&& signed.is_ok()
                &&& !vouches(peer_key@, session_public_key@, signed.unwrap()@)
            },
            Err(ConfigError::BindingTooLong) => {
                &&& signed.is_ok()
                &&& vouches(peer_key@, session_public_key@, signed.unwrap()@)
                &&& !binding_encodable(
                    BindingModel { peer_key: peer_key@, signature: signed.unwrap()@ },
                )
            },
            Err(_) => false,
        },
{
    let signature: Vec<u8> = match signed {
        Ok(signature) => signature,
        Err(e) => { return Err(ConfigError::SigningError(e)); },
    };
    match decode_public_key(peer_key) {
        Some(canonical) => {
            if !bytes_equal(canonical.as_slice(), peer_key) {
                return Err(ConfigError::BindingRejected);
            }
        },
        None => { return Err(ConfigError::BindingRejected); },
    }
    if !verify_libp2p_signature(peer_key, signature.as_slice(), session_public_key) {
        return Err(ConfigError::BindingRejected);
    }
    encode_signed_key(peer_key, signature.as_slice())
}

/// Has `identity` sign the session key `session_public_key` and writes the binding.
///
/// Gives the portable encoding of the identity's public key and the payload of the binding
/// extension. The signature is the identity's own affair, so nothing says beforehand
/// whether a binding can be had. One that is handed out reads back as a binding of the
/// identity's public key, and that key vouches for the session key with the signature in
/// it. Which refusal follows from which answer of the identity key is said at
/// `bind_signed_key`.
pub fn gen_signed_keypair(session_public_key: &[u8], identity: &libp2p_identity::Keypair) -> (r:
    Result<(Vec<u8>, Vec<u8>), ConfigError>)
    ensures
        match r {
            Ok((peer_key, payload)) => {
                &&& peer_key@ == public_key_of(*identity)
                &&& binding_fields(payload@).is_some()
                &&& binding_fields(payload@).unwrap().peer_key == peer_key@
                &&& vouches(
                    peer_key@,
                    session_public_key@,
                    binding_fields(payload@).unwrap().signature,
                )
            },
            Err(e) => e is SigningError || e is BindingRejected || e is BindingTooLong,
        },
{
    let message: Vec<u8> = signing_message(session_public_key);
    let signed = sign(identity, message.as_slice());
    let ghost signature = if signed.is_ok() { signed.unwrap()@ } else { Seq::<u8>::empty() };
    let peer_key: Vec<u8> = public_key_encoding(identity);
    match bind_signed_key(session_public_key, peer_key.as_slice(), signed) {
        Ok(payload) => {
            proof {
                lemma_binding_round_trip(BindingModel { peer_key: peer_key@, signature: signature });
            }
            Ok((peer_key, payload))
        },
        Err(e) => Err(e),
    }
}

/// Puts a session certificate together from what the outside gave, and hands it out only
/// where it is what it is meant to be.
///
/// `certificate` is the answer of the certificate's maker. A refusal is passed on. A
/// certificate is read back and checked by the rules by which a peer will check it: one
/// that does not prove the identity key `peer_key` for the session key
/// `session_public_key`, or that does not carry `extension` under the object identifier
/// of the binding, not marked critical, is refused with `CertificateRejected`.
pub fn certified(
    certificate: Result<Vec<u8>, rcgen::Error>,
    private_key: Vec<u8>,
    session_public_key: Vec<u8>,
    peer_key: Vec<u8>,
    extension: Vec<u8>,
) -> (r: Result<SessionCertificate, ConfigError>)
    ensures
        match r {
            Ok(made) => {
                &&& certificate.is_ok()
                &&& made.certificate@ == certificate.unwrap()@
                &&& made.private_key@ == private_key@
                &&& made.session_public_key@ == session_public_key@
                &&& made.peer_key@ == peer_key@
                &&& made.extension@ == extension@
                &&& made.well_made()
            },
            Err(ConfigError::RcgenError(e)) => certificate == Err::<Vec<u8>, rcgen::Error>(e),
            Err(ConfigError::CertificateRejected) => {
                &&& certificate.is_ok()
                &&& !(SessionCertificate {
                    certificate: certificate.unwrap(),
                    private_key: private_key,
                    session_public_key: session_public_key,
                    peer_key: peer_key,
                    extension: extension,
                }).well_made()
            },
            Err(_) => false,
        },
{
    let certificate: Vec<u8> = match certificate {
        Ok(certificate) => certificate,
        Err(e) => { return Err(ConfigError::RcgenError(e)); },
    };
    let made = SessionCertificate {
        certificate,
        private_key,
        session_public_key,
        peer_key,
        extension,
    };
    if made.is_well_made() {
        Ok(made)
    } else {
        Err(ConfigError::CertificateRejected)
    }
}

/// Makes the session certificate of `identity`: a fresh session key, the binding of the
/// identity to that key, and a self-signed certificate that carries the binding in an
/// extension that is not marked critical.
///
/// The session key, the signature and the certificate come from outside and are fresh
/// with every call; whether they can be had is not for this function to say. Which
/// refusal follows from which answer of the outside is said at `bind_signed_key` and at
/// `certified`. What is handed out has passed the check that a peer will make: the certificate is signed by the
/// session key, it carries the payload under the object identifier of the binding, not
/// marked critical, the key in the binding is the public key of `identity` in its
/// canonical encoding, and that key accepts the signature in the binding over the prefix
/// and the session key.
pub fn make_cert(identity: &libp2p_identity::Keypair) -> (r: Result<
    SessionCertificate,
    ConfigError,
>)
    ensures
        r.is_ok() ==> r.unwrap().well_made(),
        r.is_ok() ==> r.unwrap().peer_key@ == public_key_of(*identity),
        r.is_ok() ==> binding_fields(r.unwrap().extension@).is_some(),
        r.is_ok() ==> binding_fields(r.unwrap().extension@).unwrap().peer_key
            == r.unwrap().peer_key@,
{
    let key = match generate_session_key() {
        Ok(key) => key,
        Err(e) => { return Err(ConfigError::RcgenError(e)); },
    };
    let public: Vec<u8> = session_public_key(&key);
    let (peer_key, payload) = match gen_signed_keypair(public.as_slice(), identity) {
        Ok(parts) => parts,
        Err(e) => { return Err(e); },
    };
    let oid: [u64; 9] = LIBP2P_OID;
    let extension: Vec<u8> = payload.clone();
    let certificate = self_signed_certificate(
        &key,
        vstd::array::array_as_slice(&oid),
        payload,
        false,
    );
    certified(certificate, session_private_key(&key), public, peer_key, extension)
}

} // verus!
