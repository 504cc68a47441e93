//! The long-term identity keys of peers, as far as the binding needs them.
//!
//! Keys and signatures are handled by `libp2p_identity`. What that crate computes is not
//! proved here: each of its results that the rules of verification depend on has a name, and
//! the contracts of this crate are stated over those names.

use vstd::prelude::*;

verus! {

/// The canonical encoding of the public key that `bytes` decode to, or `None` where `bytes`
/// are not the portable encoding of a public key of a supported kind.
pub uninterp spec fn canonical_public_key(bytes: Seq<u8>) -> Option<Seq<u8>>;

/// Whether the public key that `peer_key` decodes to accepts `signature` as a signature over
/// `message`. Meaningful only where `canonical_public_key(peer_key)` is `Some`.
pub uninterp spec fn signature_accepted(
    peer_key: Seq<u8>,
    message: Seq<u8>,
    signature: Seq<u8>,
) -> bool;

/// The bytes of the peer identifier derived from the public key that `peer_key` decodes to.
/// Meaningful only where `canonical_public_key(peer_key)` is `Some`.
pub uninterp spec fn peer_id_of(peer_key: Seq<u8>) -> Seq<u8>;

/// An identity key pair.
#[verifier::external_type_specification]
#[verifier::external_body]
pub struct ExKeypair(libp2p_identity::Keypair);

/// What an identity key pair holds as its public half: the portable encoding of its public
/// key, as `Keypair::public` followed by `PublicKey::encode_protobuf` gives it.
pub uninterp spec fn public_key_of(identity: libp2p_identity::Keypair) -> Seq<u8>;

/// The error with which an identity key refuses to sign.
#[verifier::external_type_specification]
#[verifier::external_body]
pub struct ExSigningError(libp2p_identity::SigningError);

/// Decodes `bytes` with `PublicKey::try_decode_protobuf` and encodes the key again with
/// `PublicKey::encode_protobuf`.
///
/// Trusted: the result is a function of `bytes` alone, named `canonical_public_key`.
#[verifier::external_body]
pub(crate) fn decode_public_key(bytes: &[u8]) -> (canonical: Option<Vec<u8>>)
    ensures
        match canonical {
            Some(c) => canonical_public_key(bytes@) == Some(c@),
            None => canonical_public_key(bytes@).is_none(),
        },
{
    match libp2p_identity::PublicKey::try_decode_protobuf(bytes) {
        Ok(key) => Some(key.encode_protobuf()),
        Err(_) => None,
    }
}

/// Calls `PublicKey::verify` on the key decoded from `peer_key`.
///
/// Trusted: the answer is a function of the three byte strings alone, named
/// `signature_accepted`. Keys that do not decode are left out.
#[verifier::external_body]
pub(crate) fn verify_signature(peer_key: &[u8], message: &[u8], signature: &[u8]) -> (accepted:
    bool)
    requires
        canonical_public_key(peer_key@).is_some(),
    ensures
        accepted == signature_accepted(peer_key@, message@, signature@),
{
    match libp2p_identity::PublicKey::try_decode_protobuf(peer_key) {
        Ok(key) => key.verify(message, signature),
        Err(_) => false,
    }
}

/// Calls `PeerId::from_public_key` on the key decoded from `peer_key` and gives the
/// identifier's bytes.
///
/// Trusted: the identifier is a function of `peer_key` alone, named `peer_id_of`. Keys
/// that do not decode are left out.
#[verifier::external_body]
pub(crate) fn derive_peer_id(peer_key: &[u8]) -> (id: Vec<u8>)
    requires
        canonical_public_key(peer_key@).is_some(),
    ensures
        id@ == peer_id_of(peer_key@),
{
    match libp2p_identity::PublicKey::try_decode_protobuf(peer_key) {
        Ok(key) => libp2p_identity::PeerId::from_public_key(&key).to_bytes(),
        Err(_) => Vec::new(),
    }
}

/// Calls `Keypair::sign`. Nothing is claimed of the signature: some kinds of key sign with
/// fresh randomness.
#[verifier::external_body]
pub(crate) fn sign(identity: &libp2p_identity::Keypair, message: &[u8]) -> (signature: Result<
    Vec<u8>,
    libp2p_identity::SigningError,
>) {
    identity.sign(message)
}

/// The portable encoding of the public half of `identity`: `Keypair::public` followed by
/// `PublicKey::encode_protobuf`.
///
/// Trusted: the encoding is a function of the key pair alone, named `public_key_of`.
/// Nothing is claimed of its bytes.
#[verifier::external_body]
pub(crate) fn public_key_encoding(identity: &libp2p_identity::Keypair) -> (encoding: Vec<u8>)
    ensures
        encoding@ == public_key_of(*identity),
{
    identity.public().encode_protobuf()
}

} // verus!
