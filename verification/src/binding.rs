//! The identity binding: the certificate extension in which a peer's long-term key vouches
//! for the session key of its certificate.
//!
//! The extension's payload is the DER encoding of
//! `SEQUENCE { BIT STRING peer_public_key, BIT STRING signature }`, both bit strings without
//! unused bits. The signature is made over a fixed prefix followed by the session key.

use vstd::prelude::*;
use vstd::array::array_as_slice;
use crate::der::{
    element,
    encoding,
    high_tag_form,
    lemma_element_of_encoding,
    lemma_encoding_of_element,
    read_element,
    read_sole_element,
    sole_element,
    write_element,
    MAX_CONTENT_LENGTH,
    TAG_BIT_STRING,
    TAG_SEQUENCE,
};

verus! {

/// Number of bytes of the domain-separation prefix.
pub const LIBP2P_SIGNING_PREFIX_LENGTH: usize = 21;

/// The domain-separation prefix, the ASCII text `libp2p-tls-handshake:`.
pub const LIBP2P_SIGNING_PREFIX: [u8; 21] = [
    108,
    105,
    98,
    112,
    50,
    112,
    45,
    116,
    108,
    115,
    45,
    104,
    97,
    110,
    100,
    115,
    104,
    97,
    107,
    101,
    58,
];

/// The content bytes of the object identifier 1.3.6.1.4.1.53594.1.1 that marks the binding.
pub const LIBP2P_OID_BYTES: [u8; 10] = [43, 6, 1, 4, 1, 131, 162, 90, 1, 1];

/// A binding as mathematical values.
pub struct BindingModel {
    /// The portable encoding of the peer's long-term public key.
    pub peer_key: Seq<u8>,
    /// The long-term key's signature over the signed message.
    pub signature: Seq<u8>,
}

/// A binding read from an extension payload, borrowing from it.
pub struct Libp2pExtension<'a> {
    /// The portable encoding of the peer's long-term public key.
    pub peer_key: &'a [u8],
    /// The long-term key's signature over the signed message.
    pub signature: &'a [u8],
}

impl<'a> View for Libp2pExtension<'a> {
    type V = BindingModel;

    open spec fn view(&self) -> BindingModel {
        BindingModel { peer_key: self.peer_key@, signature: self.signature@ }
    }
}

/// The message that the long-term key signs for a session key.
pub open spec fn signed_message(session_public_key: Seq<u8>) -> Seq<u8> {
    LIBP2P_SIGNING_PREFIX@ + session_public_key
}

/// The encoding of a bit string that holds `bytes` and has no unused bits.
pub open spec fn bit_string_encoding(bytes: Seq<u8>) -> Seq<u8> {
    encoding(TAG_BIT_STRING, seq![0u8] + bytes)
}

/// The bit string without unused bits at the front of `input`: its bytes, and the input
/// that follows it.
pub open spec fn bit_string(input: Seq<u8>) -> Option<(Seq<u8>, Seq<u8>)> {
    match element(input) {
        Some(e) => if e.tag == TAG_BIT_STRING && e.content.len() > 0 && e.content[0] == 0 {
            Some((e.content.subrange(1, e.content.len() as int), e.rest))
        } else {
            None
        },
        None => None,
    }
}

/// The binding that `payload` holds, if it is the encoding of one.
pub open spec fn binding_fields(payload: Seq<u8>) -> Option<BindingModel> {
    match sole_element(payload, TAG_SEQUENCE) {
        Some(inner) => match bit_string(inner) {
            Some((peer_key, after_key)) => match bit_string(after_key) {
                Some((signature, after_signature)) => if after_signature.len() == 0 {
                    Some(BindingModel { peer_key: peer_key, signature: signature })
                } else {
                    None
                },
                None => None,
            },
            None => None,
        },
        None => None,
    }
}

/// Whether a binding is short enough to be written.
pub open spec fn binding_encodable(binding: BindingModel) -> bool {
    &&& binding.peer_key.len() < MAX_CONTENT_LENGTH
    &&& binding.signature.len() < MAX_CONTENT_LENGTH
    &&& bit_string_encoding(binding.peer_key).len() + bit_string_encoding(
        binding.signature,
    ).len() <= MAX_CONTENT_LENGTH
}

/// The payload that holds `binding`.
pub open spec fn binding_encoding(binding: BindingModel) -> Seq<u8> {
    encoding(
        TAG_SEQUENCE,
        bit_string_encoding(binding.peer_key) + bit_string_encoding(binding.signature),
    )
}

/// The two tags of the format are in low-tag-number form.
pub proof fn lemma_tags_low_form()
    ensures
        !high_tag_form(TAG_BIT_STRING),
        !high_tag_form(TAG_SEQUENCE),
{
    assert(0x03u8 & 0x1f != 0x1f) by (bit_vector);
    assert(0x30u8 & 0x1f != 0x1f) by (bit_vector);
}

/// A written bit string reads back as its bytes.
pub proof fn lemma_bit_string_of_encoding(bytes: Seq<u8>, rest: Seq<u8>)
    requires
        bytes.len() < MAX_CONTENT_LENGTH,
    ensures
        bit_string(bit_string_encoding(bytes) + rest) == Some((bytes, rest)),
{
    lemma_tags_low_form();
    let content = seq![0u8] + bytes;
    lemma_element_of_encoding(TAG_BIT_STRING, content, rest);
    assert(content.subrange(1, content.len() as int) =~= bytes);
}

/// An input that reads as a bit string starts with the written form of that bit string.
pub proof fn lemma_encoding_of_bit_string(input: Seq<u8>)
    requires
        bit_string(input).is_some(),
    ensures
        bit_string(input).unwrap().0.len() < MAX_CONTENT_LENGTH,
        input == bit_string_encoding(bit_string(input).unwrap().0) + bit_string(input).unwrap().1,
{
    let e = element(input).unwrap();
    lemma_encoding_of_element(input);
    let bytes = e.content.subrange(1, e.content.len() as int);
    assert(e.content =~= seq![0u8] + bytes);
}

/// Writing a binding and reading the payload gives the binding back.
pub proof fn lemma_binding_round_trip(binding: BindingModel)
    requires
        binding_encodable(binding),
    ensures
        binding_fields(binding_encoding(binding)) == Some(binding),
{
    lemma_tags_low_form();
    let key_part = bit_string_encoding(binding.peer_key);
    let signature_part = bit_string_encoding(binding.signature);
    let inner = key_part + signature_part;
    lemma_element_of_encoding(TAG_SEQUENCE, inner, Seq::<u8>::empty());
    assert(binding_encoding(binding) + Seq::<u8>::empty() =~= binding_encoding(binding));
    lemma_bit_string_of_encoding(binding.peer_key, signature_part);
    lemma_bit_string_of_encoding(binding.signature, Seq::<u8>::empty());
    assert(signature_part + Seq::<u8>::empty() =~= signature_part);
}

/// A payload that reads as a binding is the written form of that binding: a binding has
/// one payload only.
pub proof fn lemma_binding_canonical(payload: Seq<u8>)
    requires
        binding_fields(payload).is_some(),
    ensures
        binding_encodable(binding_fields(payload).unwrap()),
        payload == binding_encoding(binding_fields(payload).unwrap()),
{
    let binding = binding_fields(payload).unwrap();
    let outer = element(payload).unwrap();
    lemma_encoding_of_element(payload);
    assert(outer.rest =~= Seq::<u8>::empty());
    assert(payload =~= encoding(TAG_SEQUENCE, outer.content));
    let inner = outer.content;
    let after_key = bit_string(inner).unwrap().1;
    lemma_encoding_of_bit_string(inner);
    lemma_encoding_of_bit_string(after_key);
    let after_signature = bit_string(after_key).unwrap().1;
    assert(after_signature =~= Seq::<u8>::empty());
    assert(after_key =~= bit_string_encoding(binding.signature));
    assert(inner =~= bit_string_encoding(binding.peer_key) + bit_string_encoding(
        binding.signature,
    ));
}

/// Two bindings with the same payload are the same binding.
pub proof fn lemma_binding_encoding_injective(first: BindingModel, second: BindingModel)
    requires
        binding_encodable(first),
        binding_encodable(second),
        binding_encoding(first) == binding_encoding(second),
    ensures
        first == second,
{
    lemma_binding_round_trip(first);
    lemma_binding_round_trip(second);
}

/// The message that the long-term key signs for `session_public_key`: the prefix followed by
/// the key.
pub fn signing_message(session_public_key: &[u8]) -> (message: Vec<u8>)
    ensures
        message@ == signed_message(session_public_key@),
{
    let mut message: Vec<u8> = Vec::new();
    message.extend_from_slice(array_as_slice(&LIBP2P_SIGNING_PREFIX));
    message.extend_from_slice(session_public_key);
    message
}

/// Whether two byte strings are the same.
pub fn bytes_equal(a: &[u8], b: &[u8]) -> (same: bool)
    ensures
        same == (a@ == b@),
{
    if a.len() != b.len() {
        return false;
    }
    let mut i: usize = 0;
    while i < a.len()
        invariant
            a@.len() == b@.len(),
            i <= a@.len(),
            forall|j: int| 0 <= j < i ==> a@[j] == b@[j],
        decreases a@.len() - i,
    {
        if a[i] != b[i] {
            return false;
        }
        i += 1;
    }
    assert(a@ =~= b@);
    true
}

/// Whether `oid` is the object identifier of the binding.
pub fn is_libp2p_oid(oid: &[u8]) -> (same: bool)
    ensures
        same == (oid@ == LIBP2P_OID_BYTES@),
{
    bytes_equal(oid, array_as_slice(&LIBP2P_OID_BYTES))
}

/// Reads a bit string without unused bits from the front of `input`: its bytes, and the
/// input that follows it.
pub fn read_bit_string<'a>(input: &'a [u8]) -> (r: Option<(&'a [u8], &'a [u8])>)
    ensures
        match r {
            Some((bytes, rest)) => bit_string(input@) == Some((bytes@, rest@)),
            None => bit_string(input@).is_none(),
        },
{
    match read_element(input) {
        Some(e) => {
            if e.tag == TAG_BIT_STRING && e.content.len() > 0 && e.content[0] == 0 {
                let bytes: &[u8] = &e.content[1..e.content.len()];
                Some((bytes, e.rest))
            } else {
                None
            }
        },
        None => None,
    }
}

/// Reads the binding that `payload` holds.
pub fn read_libp2p_extension<'a>(payload: &'a [u8]) -> (r: Option<Libp2pExtension<'a>>)
    ensures
        match r {
            Some(binding) => binding_fields(payload@) == Some(binding@),
            None => binding_fields(payload@).is_none(),
        },
{
    let inner: &[u8] = match read_sole_element(payload, TAG_SEQUENCE) {
        Some(inner) => inner,
        None => { return None; },
    };
    let (peer_key, after_key) = match read_bit_string(inner) {
        Some(parts) => parts,
        None => { return None; },
    };
    let (signature, after_signature) = match read_bit_string(after_key) {
        Some(parts) => parts,
        None => { return None; },
    };
    if after_signature.len() != 0 {
        return None;
    }
    Some(Libp2pExtension { peer_key, signature })
}

/// Appends the encoding of the bit string that holds `bytes` to `out`, or nothing where
/// `bytes` are too long.
fn write_bit_string(out: &mut Vec<u8>, bytes: &[u8]) -> (written: bool)
    ensures
        written == (bytes@.len() < MAX_CONTENT_LENGTH),
        written ==> final(out)@ == old(out)@ + bit_string_encoding(bytes@),
        !written ==> final(out)@ == old(out)@,
{
    if bytes.len() >= MAX_CONTENT_LENGTH {
        return false;
    }
    let mut content: Vec<u8> = Vec::new();
    content.push(0);
    content.extend_from_slice(bytes);
    assert(content@ =~= seq![0u8] + bytes@);
    proof {
        lemma_tags_low_form();
    }
    write_element(out, TAG_BIT_STRING, content.as_slice())
}

/// Writes the payload that holds the binding of `peer_key` and `signature`. `None` where
/// the binding is too long to be written.
pub fn encode_libp2p_extension(peer_key: &[u8], signature: &[u8]) -> (payload: Option<Vec<u8>>)
    ensures
        payload.is_some() == binding_encodable(
            BindingModel { peer_key: peer_key@, signature: signature@ },
        ),
        payload.is_some() ==> payload.unwrap()@ == binding_encoding(
            BindingModel { peer_key: peer_key@, signature: signature@ },
        ),
{
    let mut inner: Vec<u8> = Vec::new();
    if !write_bit_string(&mut inner, peer_key) {
        return None;
    }
    if !write_bit_string(&mut inner, signature) {
        return None;
    }
    assert(inner@ =~= bit_string_encoding(peer_key@) + bit_string_encoding(signature@));
    let mut payload: Vec<u8> = Vec::new();
    proof {
        lemma_tags_low_form();
    }
    if !write_element(&mut payload, TAG_SEQUENCE, inner.as_slice()) {
        return None;
    }
    assert(payload@ =~= encoding(TAG_SEQUENCE, inner@));
    Some(payload)
}

} // verus!
