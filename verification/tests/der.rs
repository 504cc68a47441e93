use std::convert::TryFrom;
use libp2p_quic::binding::{
    bytes_equal, encode_libp2p_extension, is_libp2p_oid, read_bit_string, read_libp2p_extension,
    signing_message, LIBP2P_OID_BYTES, LIBP2P_SIGNING_PREFIX, LIBP2P_SIGNING_PREFIX_LENGTH,
};
use libp2p_quic::der::{
    read_element, read_sole_element, write_element, MAX_CONTENT_LENGTH, TAG_BIT_STRING,
    TAG_SEQUENCE,
};

fn element(tag: u8, content: &[u8]) -> Vec<u8> {
    let mut out = Vec::new();
    assert!(write_element(&mut out, tag, content));
    out
}

/// Wraps a candidate bit string so that the X.509 reader's own DER reader decides on it:
/// `SEQUENCE { SEQUENCE {}, SEQUENCE {}, candidate }` is what it reads as the outer
/// structure of a certificate.
fn accepted_by_x509_reader(candidate: &[u8]) -> Option<Vec<u8>> {
    let mut inner = vec![0x30, 0x00, 0x30, 0x00];
    inner.extend_from_slice(candidate);
    let outer = element(TAG_SEQUENCE, &inner);
    x509_signature::DataAlgorithmSignature::try_from(&outer[..]).ok().map(|d| d.signature().to_vec())
}

#[test]
fn signing_prefix_is_the_handshake_text() {
    assert_eq!(&LIBP2P_SIGNING_PREFIX[..], &b"libp2p-tls-handshake:"[..]);
    assert_eq!(LIBP2P_SIGNING_PREFIX_LENGTH, 21);
    assert_eq!(signing_message(&[1, 2]), b"libp2p-tls-handshake:\x01\x02".to_vec());
    assert_eq!(signing_message(&[]), b"libp2p-tls-handshake:".to_vec());
}

#[test]
fn oid_bytes_are_compared_exactly() {
    assert_eq!(LIBP2P_OID_BYTES, [43, 6, 1, 4, 1, 131, 162, 90, 1, 1]);
    assert!(is_libp2p_oid(&LIBP2P_OID_BYTES));
    assert!(!is_libp2p_oid(&LIBP2P_OID_BYTES[..9]));
    assert!(!is_libp2p_oid(&[43, 6, 1, 4, 1, 131, 162, 90, 1, 2]));
    assert!(!is_libp2p_oid(&[43, 6, 1, 4, 1, 131, 162, 90, 1, 1, 0]));
    assert!(!is_libp2p_oid(&[]));
}

#[test]
fn extension_encoding_exact_bytes() {
    let payload = encode_libp2p_extension(&[7, 8], &[9]).unwrap();
    assert_eq!(payload, vec![0x30, 9, 3, 3, 0, 7, 8, 3, 2, 0, 9]);
    let read = read_libp2p_extension(&payload).unwrap();
    assert_eq!(read.peer_key, &[7, 8][..]);
    assert_eq!(read.signature, &[9][..]);
    assert_eq!(encode_libp2p_extension(&[], &[]).unwrap(), vec![0x30, 6, 3, 1, 0, 3, 1, 0]);
}

#[test]
fn length_forms_exact_bytes() {
    assert_eq!(element(4, &[]), vec![4, 0]);
    assert_eq!(element(4, &[9; 127])[..2], [4, 127]);
    assert_eq!(element(4, &[9; 128])[..3], [4, 0x81, 128]);
    assert_eq!(element(4, &[9; 255])[..3], [4, 0x81, 255]);
    assert_eq!(element(4, &[9; 256])[..4], [4, 0x82, 1, 0]);
    assert_eq!(element(4, &[9; 65535])[..4], [4, 0x82, 255, 255]);
    assert_eq!(element(4, &[9; 65535]).len(), 65539);
    assert_eq!(MAX_CONTENT_LENGTH, 65535);
}

#[test]
fn writer_refuses_what_the_reader_cannot_read() {
    let mut out = vec![1, 2];
    assert!(!write_element(&mut out, 4, &vec![0; 65536]));
    assert_eq!(out, vec![1, 2]);
    assert!(!write_element(&mut out, 0x1f, &[]));
    assert!(!write_element(&mut out, 0xff, &[1]));
    assert_eq!(out, vec![1, 2]);
    assert!(write_element(&mut out, 0x1e, &[5]));
    assert_eq!(out, vec![1, 2, 0x1e, 1, 5]);
}

#[test]
fn every_written_length_reads_back() {
    for n in [0usize, 1, 126, 127, 128, 129, 254, 255, 256, 257, 1000, 65534, 65535] {
        let content: Vec<u8> = (0..n).map(|i| (i % 251) as u8).collect();
        let mut written = element(TAG_SEQUENCE, &content);
        written.extend_from_slice(&[0xaa, 0xbb]);
        let read = read_element(&written).unwrap();
        assert_eq!(read.tag, TAG_SEQUENCE);
        assert_eq!(read.content, &content[..]);
        assert_eq!(read.rest, &[0xaa, 0xbb][..]);
        assert!(read_sole_element(&written, TAG_SEQUENCE).is_none());
        assert_eq!(read_sole_element(&written[..written.len() - 2], TAG_SEQUENCE), Some(&content[..]));
        assert!(read_sole_element(&written[..written.len() - 2], TAG_BIT_STRING).is_none());
    }
}

#[test]
fn reader_refuses_other_spellings() {
    // Cut short.
    assert!(read_element(&[]).is_none());
    assert!(read_element(&[0x30]).is_none());
    assert!(read_element(&[0x30, 1]).is_none());
    assert!(read_element(&[0x30, 0x81]).is_none());
    assert!(read_element(&[0x30, 0x82, 1]).is_none());
    assert!(read_element(&[0x30, 0x82, 1, 0]).is_none());
    // High tag number form.
    assert!(read_element(&[0x1f, 0]).is_none());
    assert!(read_element(&[0x3f, 0]).is_none());
    assert!(read_element(&[0xff, 0]).is_none());
    // Lengths that are longer than needed.
    assert!(read_element(&[0x30, 0x81, 0x7f]).is_none());
    assert!(read_element(&[0x30, 0x81, 0x00]).is_none());
    let mut padded = vec![0x30, 0x82, 0x00, 0xff];
    padded.extend_from_slice(&[0; 255]);
    assert!(read_element(&padded).is_none());
    // The indefinite form and length fields of three bytes and more.
    assert!(read_element(&[0x30, 0x80, 0, 0]).is_none());
    assert!(read_element(&[0x30, 0x83, 0, 0, 1, 7]).is_none());
    assert!(read_element(&[0x30, 0x84, 0, 0, 0, 1, 7]).is_none());
    assert!(read_element(&[0x30, 0xff]).is_none());
    // The shortest accepted inputs.
    assert!(read_element(&[0x30, 0]).is_some());
    assert!(read_element(&[0x00, 0]).is_some());
}

#[test]
fn bit_strings_must_have_no_unused_bits() {
    assert_eq!(read_bit_string(&[3, 2, 0, 9, 7]), Some((&[9][..], &[7][..])));
    assert_eq!(read_bit_string(&[3, 1, 0]), Some((&[][..], &[][..])));
    assert_eq!(read_bit_string(&[3, 0]), None);
    assert_eq!(read_bit_string(&[3, 2, 1, 9]), None);
    assert_eq!(read_bit_string(&[3, 2, 7, 0x80]), None);
    assert_eq!(read_bit_string(&[4, 2, 0, 9]), None);
    assert_eq!(read_bit_string(&[3, 3, 0, 9]), None);
}

#[test]
fn extension_must_be_one_sequence_of_two_bit_strings() {
    let valid = encode_libp2p_extension(&[1], &[2]).unwrap();
    assert!(read_libp2p_extension(&valid).is_some());
    // Something after the sequence.
    let mut trailing = valid.clone();
    trailing.push(0);
    assert!(read_libp2p_extension(&trailing).is_none());
    // A third element in the sequence.
    assert!(read_libp2p_extension(&[0x30, 9, 3, 2, 0, 1, 3, 2, 0, 2, 5]).is_none());
    assert!(read_libp2p_extension(&[0x30, 12, 3, 2, 0, 1, 3, 2, 0, 2, 3, 2, 0, 3]).is_none());
    // One bit string only, or none.
    assert!(read_libp2p_extension(&[0x30, 4, 3, 2, 0, 1]).is_none());
    assert!(read_libp2p_extension(&[0x30, 0]).is_none());
    // Another outer tag.
    assert!(read_libp2p_extension(&[0x31, 8, 3, 2, 0, 1, 3, 2, 0, 2]).is_none());
    // An octet string in place of a bit string.
    assert!(read_libp2p_extension(&[0x30, 8, 4, 2, 0, 1, 3, 2, 0, 2]).is_none());
    assert!(read_libp2p_extension(&[0x30, 8, 3, 2, 0, 1, 4, 2, 0, 2]).is_none());
    // Unused bits.
    assert!(read_libp2p_extension(&[0x30, 8, 3, 2, 1, 1, 3, 2, 0, 2]).is_none());
    // A sequence that is shorter than its content.
    assert!(read_libp2p_extension(&[0x30, 7, 3, 2, 0, 1, 3, 2, 0, 2]).is_none());
    assert!(read_libp2p_extension(&[]).is_none());
}

#[test]
fn binding_too_long_is_not_written() {
    let key = vec![1u8; 40_000];
    let signature = vec![2u8; 40_000];
    assert!(encode_libp2p_extension(&key, &signature).is_none());
    assert!(encode_libp2p_extension(&vec![0; 65535], &[]).is_none());
    assert!(encode_libp2p_extension(&[], &vec![0; 65535]).is_none());
    // The longest binding that fits: two bit strings of 4 and 65531 bytes in all.
    let longest = encode_libp2p_extension(&[7], &vec![3; 65526]).unwrap();
    assert_eq!(longest.len(), 4 + 65535);
    let read = read_libp2p_extension(&longest).unwrap();
    assert_eq!(read.peer_key, &[7][..]);
    assert_eq!(read.signature.len(), 65526);
    assert!(encode_libp2p_extension(&[7], &vec![3; 65527]).is_none());
}

#[test]
fn bit_string_reader_agrees_with_the_certificate_reader() {
    let mut candidates: Vec<Vec<u8>> = vec![
        vec![3, 1, 0],
        vec![3, 2, 0, 9],
        vec![3, 2, 1, 9],
        vec![3, 0],
        vec![4, 2, 0, 9],
        vec![3, 0x81, 1, 0],
        vec![3, 0x82, 0, 1, 0],
        vec![3, 0x80, 0],
        vec![0x23, 2, 0, 9],
        vec![3],
        vec![],
        vec![3, 3, 0, 9],
        vec![0x1f, 1, 0],
    ];
    for n in [126usize, 127, 128, 254, 255, 256, 300] {
        let mut content = vec![0u8];
        content.extend(std::iter::repeat(5).take(n));
        candidates.push(element(TAG_BIT_STRING, &content));
        let mut odd = element(TAG_BIT_STRING, &content);
        odd[1] ^= 0x01;
        candidates.push(odd);
    }
    for candidate in candidates {
        let ours = match read_bit_string(&candidate) {
            Some((bytes, rest)) if rest.is_empty() => Some(bytes.to_vec()),
            _ => None,
        };
        assert_eq!(ours, accepted_by_x509_reader(&candidate), "{:?}", candidate);
    }
}

#[test]
fn bytes_are_compared_exactly() {
    assert!(bytes_equal(&[], &[]));
    assert!(bytes_equal(&[1, 2, 3], &[1, 2, 3]));
    assert!(!bytes_equal(&[1, 2, 3], &[1, 2]));
    assert!(!bytes_equal(&[1, 2], &[1, 2, 3]));
    assert!(!bytes_equal(&[1, 2, 3], &[1, 2, 4]));
    assert!(!bytes_equal(&[0, 2, 3], &[1, 2, 3]));
}
