//! The TLS settings of a local identity.
//!
//! Both roles use one session certificate and pin the same constraints: TLS 1.3 and nothing
//! else, one application protocol, and no data before the handshake is complete. A server
//! demands a certificate of every client, and names no certificate authority, as there is
//! none: the verifier of this crate decides alone which certificates are accepted.

use vstd::prelude::*;
use vstd::array::array_as_slice;
use vstd::slice::slice_to_vec;
use crate::binder::{certifies, make_cert, ConfigError};
use crate::identity::public_key_of;
use crate::verification::ProtocolVersion;

verus! {

/// The application protocol that both roles announce, the ASCII text `libp2p`.
pub const ALPN_PROTOCOL: [u8; 6] = [108, 105, 98, 112, 50, 112];

/// The settings of the client role.
#[derive(Clone, Debug)]
pub struct ClientSettings {
    /// The protocol versions that are accepted.
    pub versions: Vec<ProtocolVersion>,
    /// The application protocols that are announced.
    pub alpn_protocols: Vec<Vec<u8>>,
    /// Whether data may be sent before the handshake is complete.
    pub enable_early_data: bool,
    /// The session certificate, DER-encoded.
    pub certificate: Vec<u8>,
    /// The session's private key, DER-encoded PKCS#8.
    pub private_key: Vec<u8>,
}

/// The settings of the server role.
#[derive(Clone, Debug)]
pub struct ServerSettings {
    /// The protocol versions that are accepted.
    pub versions: Vec<ProtocolVersion>,
    /// The application protocols that are announced.
    pub alpn_protocols: Vec<Vec<u8>>,
    /// The number of bytes that are accepted before the handshake is complete.
    pub max_early_data_size: u32,
    /// Whether clients are asked for a certificate.
    pub offer_client_auth: bool,
    /// Whether a client without a certificate is turned away.
    pub client_auth_mandatory: bool,
    /// The subject names of the certificate authorities that are announced to clients.
    pub client_auth_root_subjects: Vec<Vec<u8>>,
    /// The session certificate, DER-encoded.
    pub certificate: Vec<u8>,
    /// The session's private key, DER-encoded PKCS#8.
    pub private_key: Vec<u8>,
}

/// Whether the versions and application protocols are the pinned ones.
pub open spec fn pinned(versions: Seq<ProtocolVersion>, alpn_protocols: Seq<Vec<u8>>) -> bool {
    &&& versions == seq![ProtocolVersion::TLSv1_3]
    &&& alpn_protocols.len() == 1
    &&& alpn_protocols[0]@ == ALPN_PROTOCOL@
}

impl ClientSettings {
    /// Whether these are the settings of the client role for this certificate and key.
    pub open spec fn is_for(&self, certificate: Seq<u8>, private_key: Seq<u8>) -> bool {
        &&& pinned(self.versions@, self.alpn_protocols@)
        &&& !self.enable_early_data
        &&& self.certificate@ == certificate
        &&& self.private_key@ == private_key
    }
}

impl ServerSettings {
    /// Whether these are the settings of the server role for this certificate and key.
    pub open spec fn is_for(&self, certificate: Seq<u8>, private_key: Seq<u8>) -> bool {
        &&& pinned(self.versions@, self.alpn_protocols@)
        &&& self.max_early_data_size == 0
        &&& self.offer_client_auth
        &&& self.client_auth_mandatory
        &&& self.client_auth_root_subjects@.len() == 0
        &&& self.certificate@ == certificate
        &&& self.private_key@ == private_key
    }
}

/// The one protocol version that is accepted.
fn pinned_versions() -> (versions: Vec<ProtocolVersion>)
    ensures
        versions@ == seq![ProtocolVersion::TLSv1_3],
{
    let mut versions: Vec<ProtocolVersion> = Vec::new();
    versions.push(ProtocolVersion::TLSv1_3);
    assert(versions@ =~= seq![ProtocolVersion::TLSv1_3]);
    versions
}

/// The one application protocol that is announced.
fn pinned_protocols() -> (protocols: Vec<Vec<u8>>)
    ensures
        protocols@.len() == 1,
        protocols@[0]@ == ALPN_PROTOCOL@,
{
    let mut protocols: Vec<Vec<u8>> = Vec::new();
    protocols.push(slice_to_vec(array_as_slice(&ALPN_PROTOCOL)));
    protocols
}

/// The settings of the client role for a session certificate and its key.
pub fn make_client_config(certificate: Vec<u8>, key: Vec<u8>) -> (settings: ClientSettings)
    ensures
        settings.is_for(certificate@, key@),
{
    ClientSettings {
        versions: pinned_versions(),
        alpn_protocols: pinned_protocols(),
        enable_early_data: false,
        certificate,
        private_key: key,
    }
}

/// The settings of the server role for a session certificate and its key.
pub fn make_server_config(certificate: Vec<u8>, key: Vec<u8>) -> (settings: ServerSettings)
    ensures
        settings.is_for(certificate@, key@),
{
    ServerSettings {
        versions: pinned_versions(),
        alpn_protocols: pinned_protocols(),
        max_early_data_size: 0,
        offer_client_auth: true,
        client_auth_mandatory: true,
        client_auth_root_subjects: Vec::new(),
        certificate,
        private_key: key,
    }
}

/// Makes the session certificate of `keypair` and the settings of both roles for it.
///
/// The certificate and its key are fresh with every call. Whatever they are, both roles get
/// the same certificate and key, with the pinned constraints, and the certificate is one
/// that certifies the public key of `keypair`: a peer accepts it at every time in its
/// validity window and recovers that key.
pub fn make_tls_config(keypair: &libp2p_identity::Keypair) -> (r: Result<
    (ClientSettings, ServerSettings),
    ConfigError,
>)
    ensures
        r.is_ok() ==> r.unwrap().0.is_for(r.unwrap().1.certificate@, r.unwrap().1.private_key@),
        r.is_ok() ==> r.unwrap().1.is_for(r.unwrap().0.certificate@, r.unwrap().0.private_key@),
        r.is_ok() ==> certifies(r.unwrap().0.certificate@, public_key_of(*keypair)),
{
    let made = match make_cert(keypair) {
        Ok(made) => made,
        Err(e) => { return Err(e); },
    };
    let certificate: Vec<u8> = made.certificate;
    let private_key: Vec<u8> = made.private_key;
    let client = make_client_config(certificate.clone(), private_key.clone());
    let server = make_server_config(certificate, private_key);
    Ok((client, server))
}

} // verus!
