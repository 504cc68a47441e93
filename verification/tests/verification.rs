use libp2p_identity::{Keypair, PeerId, PublicKey};
use libp2p_quic::binder::{
    bind_signed_key, encode_signed_key, gen_signed_keypair, make_cert, ConfigError,
    SessionCertificate, LIBP2P_OID,
};
use libp2p_quic::binding::{
    encode_libp2p_extension, read_libp2p_extension, signing_message, LIBP2P_OID_BYTES,
};
use libp2p_quic::certificate::{locate_binding, parse_certificate, parse_libp2p_extension, CertificateExtension};
use libp2p_quic::error::{CertificateError, VerificationError};
use libp2p_quic::verification::{
    check_validity, extract_peerid, extract_peerid_or_panic, peer_of_handshake,
    verify_certificate_signature,
    verify_libp2p_signature, verify_presented_certs, Libp2pCertificateVerifier, ProtocolVersion,
    TlsSignatureScheme,
};

const NOW: u64 = 1_800_000_000;

fn certificate_with(session: &rcgen::KeyPair, extensions: Vec<(Vec<u64>, Vec<u8>, bool)>) -> Vec<u8> {
    let mut params = rcgen::CertificateParams::new(Vec::<String>::new()).unwrap();
    for (oid, content, critical) in extensions {
        let mut extension = rcgen::CustomExtension::from_oid_content(&oid, content);
        extension.set_criticality(critical);
        params.custom_extensions.push(extension);
    }
    params.self_signed(session).unwrap().der().to_vec()
}

fn binding_for(identity: &Keypair, session: &rcgen::KeyPair) -> (Vec<u8>, Vec<u8>) {
    let message = signing_message(session.public_key_raw());
    let signature = identity.sign(&message).unwrap();
    (identity.public().encode_protobuf(), signature)
}

fn valid_payload(identity: &Keypair, session: &rcgen::KeyPair) -> Vec<u8> {
    let (key, signature) = binding_for(identity, session);
    encode_libp2p_extension(&key, &signature).unwrap()
}

fn webpki<T: std::fmt::Debug>(result: Result<T, VerificationError>) -> CertificateError {
    match result {
        Err(VerificationError::WebPKIError(e)) => e,
        other => panic!("expected a certificate error, got {:?}", other),
    }
}

#[test]
fn generated_certificate_round_trips_identity() {
    for _ in 0..8 {
        let identity = Keypair::generate_ed25519();
        let made = make_cert(&identity).unwrap();
        let verified = verify_presented_certs(&[made.certificate.clone()], Some(NOW)).unwrap();
        assert_eq!(verified.public_key(), identity.public().encode_protobuf());
        assert_eq!(made.peer_key, identity.public().encode_protobuf());
        let recovered = PublicKey::try_decode_protobuf(&verified.public_key()).unwrap();
        assert_eq!(recovered, identity.public());
        assert_eq!(verified.peer_id(), PeerId::from_public_key(&identity.public()).to_bytes());
        assert_eq!(
            extract_peerid_or_panic(&made.certificate),
            PeerId::from_public_key(&identity.public()).to_bytes()
        );
    }
}

#[test]
fn made_certificate_holds_the_binding_it_reports() {
    let identity = Keypair::generate_ed25519();
    let made = make_cert(&identity).unwrap();
    let bound = parse_certificate(&made.certificate).unwrap();
    assert_eq!(bound.certificate.subject_public_key, made.session_public_key);
    assert_eq!(bound.peer_key, made.peer_key);
    assert_eq!(bound.canonical_key, made.peer_key);
    let in_certificate: Vec<&CertificateExtension> = bound
        .certificate
        .extensions
        .iter()
        .filter(|e| e.oid == LIBP2P_OID_BYTES.to_vec())
        .collect();
    assert_eq!(in_certificate.len(), 1);
    assert_eq!(in_certificate[0].value, made.extension);
    assert!(!in_certificate[0].critical);
    assert!(bound.certificate.extensions_complete);
    let payload = read_libp2p_extension(&made.extension).unwrap();
    assert_eq!(payload.peer_key, &made.peer_key[..]);
    assert!(identity.public().verify(&signing_message(&made.session_public_key), payload.signature));
    assert!(verify_libp2p_signature(payload.peer_key, payload.signature, &made.session_public_key));
    // The private key that is handed out belongs to the certificate.
    let reloaded = rcgen::KeyPair::try_from(made.private_key.as_slice()).unwrap();
    assert_eq!(reloaded.public_key_raw(), &made.session_public_key[..]);
}

#[test]
fn every_single_bit_mutation_of_the_signature_is_a_binding_error() {
    let identity = Keypair::generate_ed25519();
    let session = rcgen::KeyPair::generate().unwrap();
    let (key, signature) = binding_for(&identity, &session);
    assert_eq!(signature.len(), 64);
    let intact = certificate_with(
        &session,
        vec![(LIBP2P_OID.to_vec(), encode_libp2p_extension(&key, &signature).unwrap(), false)],
    );
    assert!(verify_presented_certs(&[intact], Some(NOW)).is_ok());
    for bit in 0..signature.len() * 8 {
        let mut mutated = signature.clone();
        mutated[bit / 8] ^= 1 << (bit % 8);
        let payload = encode_libp2p_extension(&key, &mutated).unwrap();
        let certificate = certificate_with(&session, vec![(LIBP2P_OID.to_vec(), payload, false)]);
        assert_eq!(
            webpki(verify_presented_certs(&[certificate], Some(NOW))),
            CertificateError::UnknownIssuer,
            "bit {}",
            bit
        );
    }
}

#[test]
fn signature_over_another_session_key_is_a_binding_error() {
    let identity = Keypair::generate_ed25519();
    let session = rcgen::KeyPair::generate().unwrap();
    let other = rcgen::KeyPair::generate().unwrap();
    let payload = valid_payload(&identity, &other);
    let certificate = certificate_with(&session, vec![(LIBP2P_OID.to_vec(), payload, false)]);
    assert_eq!(
        webpki(verify_presented_certs(&[certificate], Some(NOW))),
        CertificateError::UnknownIssuer
    );
}

#[test]
fn signature_without_the_prefix_is_a_binding_error() {
    let identity = Keypair::generate_ed25519();
    let session = rcgen::KeyPair::generate().unwrap();
    let signature = identity.sign(session.public_key_raw()).unwrap();
    let payload =
        encode_libp2p_extension(&identity.public().encode_protobuf(), &signature).unwrap();
    let certificate = certificate_with(&session, vec![(LIBP2P_OID.to_vec(), payload, false)]);
    assert_eq!(
        webpki(verify_presented_certs(&[certificate], Some(NOW))),
        CertificateError::UnknownIssuer
    );
}

#[test]
fn zero_or_two_certificates_fail_with_the_cardinality_error() {
    let identity = Keypair::generate_ed25519();
    let certificate = make_cert(&identity).unwrap().certificate;
    for now in [None, Some(0), Some(NOW)] {
        assert_eq!(
            verify_presented_certs(&[], now).unwrap_err(),
            VerificationError::NoCertificatesPresented
        );
        assert_eq!(
            verify_presented_certs(&[certificate.clone(), certificate.clone()], now).unwrap_err(),
            VerificationError::NoCertificatesPresented
        );
        assert_eq!(
            verify_presented_certs(&[vec![1, 2, 3], vec![]], now).unwrap_err(),
            VerificationError::NoCertificatesPresented
        );
    }
}

#[test]
fn duplicate_binding_fails_as_badly_encoded_whatever_the_payloads() {
    let identity = Keypair::generate_ed25519();
    let session = rcgen::KeyPair::generate().unwrap();
    let valid = valid_payload(&identity, &session);
    let garbage = vec![0xde, 0xad];
    for (first, second) in [
        (valid.clone(), valid.clone()),
        (valid.clone(), garbage.clone()),
        (garbage.clone(), valid.clone()),
        (garbage.clone(), garbage.clone()),
    ] {
        let bound = locate_binding(
            &vec![
                CertificateExtension { oid: LIBP2P_OID_BYTES.to_vec(), critical: false, value: first },
                CertificateExtension { oid: vec![85, 29, 17], critical: true, value: vec![] },
                CertificateExtension { oid: LIBP2P_OID_BYTES.to_vec(), critical: false, value: second },
            ],
            true,
        );
        assert_eq!(bound, Err(CertificateError::BadDER));
    }
}

#[test]
fn certificate_with_two_bindings_is_refused() {
    // Where the certificate generator agrees to write the extension twice, the
    // certificate must be refused; where it does not, there is nothing to present.
    let identity = Keypair::generate_ed25519();
    let session = rcgen::KeyPair::generate().unwrap();
    let valid = valid_payload(&identity, &session);
    let mut params = rcgen::CertificateParams::new(Vec::<String>::new()).unwrap();
    params.custom_extensions.push(rcgen::CustomExtension::from_oid_content(&LIBP2P_OID, valid.clone()));
    params.custom_extensions.push(rcgen::CustomExtension::from_oid_content(&LIBP2P_OID, valid));
    match params.self_signed(&session) {
        Ok(certificate) => assert_eq!(
            webpki(verify_presented_certs(&[certificate.der().to_vec()], Some(NOW))),
            CertificateError::BadDER
        ),
        Err(_) => {}
    }
}

#[test]
fn other_critical_extension_fails_even_with_a_valid_binding() {
    let identity = Keypair::generate_ed25519();
    let session = rcgen::KeyPair::generate().unwrap();
    let valid = valid_payload(&identity, &session);
    let unknown: Vec<u64> = vec![1, 3, 6, 1, 4, 1, 53594, 9, 9];
    for order in 0..2 {
        let mut extensions = vec![
            (LIBP2P_OID.to_vec(), valid.clone(), false),
            (unknown.clone(), vec![5, 0], true),
        ];
        if order == 1 {
            extensions.reverse();
        }
        let certificate = certificate_with(&session, extensions);
        assert_eq!(
            webpki(verify_presented_certs(&[certificate], Some(NOW))),
            CertificateError::UnsupportedCriticalExtension
        );
    }
    // The same extension is ignored where it is not critical.
    let certificate = certificate_with(
        &session,
        vec![(unknown, vec![5, 0], false), (LIBP2P_OID.to_vec(), valid, false)],
    );
    let verified = verify_presented_certs(&[certificate], Some(NOW)).unwrap();
    assert_eq!(verified.public_key(), identity.public().encode_protobuf());
}

#[test]
fn critical_binding_is_accepted() {
    let identity = Keypair::generate_ed25519();
    let session = rcgen::KeyPair::generate().unwrap();
    let valid = valid_payload(&identity, &session);
    let certificate = certificate_with(&session, vec![(LIBP2P_OID.to_vec(), valid, true)]);
    assert!(verify_presented_certs(&[certificate], Some(NOW)).is_ok());
}

#[test]
fn certificate_without_binding_has_no_issuer() {
    let session = rcgen::KeyPair::generate().unwrap();
    let certificate = certificate_with(&session, vec![]);
    assert_eq!(
        webpki(verify_presented_certs(&[certificate.clone()], Some(NOW))),
        CertificateError::UnknownIssuer
    );
    assert_eq!(parse_certificate(&certificate).unwrap_err(), CertificateError::UnknownIssuer);
    assert_eq!(extract_peerid(&certificate), None);
}

#[test]
fn malformed_binding_payload_is_extension_value_invalid() {
    let identity = Keypair::generate_ed25519();
    let session = rcgen::KeyPair::generate().unwrap();
    let (key, signature) = binding_for(&identity, &session);
    let valid = encode_libp2p_extension(&key, &signature).unwrap();
    let mut trailing = valid.clone();
    trailing.push(0);
    let undecodable_key = encode_libp2p_extension(&[1, 2, 3], &signature).unwrap();
    for payload in [vec![], vec![0x30, 0], trailing, undecodable_key] {
        assert_eq!(
            parse_libp2p_extension(&payload).unwrap_err(),
            CertificateError::ExtensionValueInvalid
        );
        let certificate = certificate_with(&session, vec![(LIBP2P_OID.to_vec(), payload, false)]);
        assert_eq!(
            webpki(verify_presented_certs(&[certificate], Some(NOW))),
            CertificateError::ExtensionValueInvalid
        );
    }
    let (peer_key, canonical, read_signature) = parse_libp2p_extension(&valid).unwrap();
    assert_eq!(peer_key, key);
    assert_eq!(canonical, key);
    assert_eq!(read_signature, signature);
}

#[test]
fn garbage_is_badly_encoded() {
    assert_eq!(
        webpki(verify_presented_certs(&[vec![1, 2, 3]], Some(NOW))),
        CertificateError::BadDER
    );
    assert_eq!(webpki(verify_presented_certs(&[vec![]], None)), CertificateError::BadDER);
    assert_eq!(extract_peerid(&[0x30, 0x00]), None);
}

#[test]
fn unreadable_clock_is_reported_after_the_certificate_was_read() {
    let identity = Keypair::generate_ed25519();
    let certificate = make_cert(&identity).unwrap().certificate;
    assert_eq!(
        verify_presented_certs(&[certificate], None).unwrap_err(),
        VerificationError::FailedToGetCurrentTime
    );
    assert_eq!(webpki(verify_presented_certs(&[vec![7]], None)), CertificateError::BadDER);
}

#[test]
fn validity_window_is_enforced() {
    let identity = Keypair::generate_ed25519();
    let certificate = make_cert(&identity).unwrap().certificate;
    let parsed = parse_certificate(&certificate).unwrap().certificate;
    // The generator's window runs from 1975 to 4096.
    assert_eq!(parsed.not_before, 157_766_400);
    assert_eq!(parsed.not_after, 67_090_118_400);
    assert_eq!(
        webpki(verify_presented_certs(&[certificate.clone()], Some(157_766_399))),
        CertificateError::CertNotValidYet
    );
    assert!(verify_presented_certs(&[certificate.clone()], Some(157_766_400)).is_ok());
    assert!(verify_presented_certs(&[certificate.clone()], Some(67_090_118_400)).is_ok());
    assert_eq!(
        webpki(verify_presented_certs(&[certificate.clone()], Some(67_090_118_401))),
        CertificateError::CertExpired
    );
    assert_eq!(
        webpki(verify_presented_certs(&[certificate], Some(u64::MAX))),
        CertificateError::CertExpired
    );
}

#[test]
fn check_validity_exact_values() {
    assert_eq!(check_validity(10, 20, 9), Err(CertificateError::CertNotValidYet));
    assert_eq!(check_validity(10, 20, 10), Ok(()));
    assert_eq!(check_validity(10, 20, 20), Ok(()));
    assert_eq!(check_validity(10, 20, 21), Err(CertificateError::CertExpired));
    assert_eq!(check_validity(-5, -1, 0), Err(CertificateError::CertExpired));
    assert_eq!(check_validity(-5, 0, 0), Ok(()));
    assert_eq!(check_validity(i64::MIN, i64::MAX, u64::MAX), Err(CertificateError::CertExpired));
    assert_eq!(check_validity(i64::MAX, i64::MAX, 0), Err(CertificateError::CertNotValidYet));
}

#[test]
fn certificate_signed_by_another_key_is_not_self_issued() {
    let identity = Keypair::generate_ed25519();
    let session = rcgen::KeyPair::generate().unwrap();
    let issuer_key = rcgen::KeyPair::generate().unwrap();
    let mut params = rcgen::CertificateParams::new(Vec::<String>::new()).unwrap();
    params.custom_extensions.push(rcgen::CustomExtension::from_oid_content(
        &LIBP2P_OID,
        valid_payload(&identity, &session),
    ));
    let issuer = rcgen::Issuer::from_params(&params, &issuer_key);
    let certificate = params.signed_by(&session, &issuer).unwrap().der().to_vec();
    assert_eq!(
        webpki(verify_presented_certs(&[certificate], Some(NOW))),
        CertificateError::InvalidSignatureForPublicKey
    );
}

#[test]
fn tampered_certificate_fails_its_own_signature() {
    let identity = Keypair::generate_ed25519();
    let mut certificate = make_cert(&identity).unwrap().certificate;
    let last = certificate.len() - 1;
    certificate[last] ^= 1;
    assert_eq!(
        webpki(verify_presented_certs(&[certificate], Some(NOW))),
        CertificateError::InvalidSignatureForPublicKey
    );
}

#[test]
fn handshake_signature_is_checked_against_the_certificate_key() {
    let session = rcgen::KeyPair::generate().unwrap();
    let certificate = certificate_with(&session, vec![]);
    let message = b"handshake transcript".to_vec();
    let rng = ring::rand::SystemRandom::new();
    let signing = ring::signature::EcdsaKeyPair::from_pkcs8(
        &ring::signature::ECDSA_P256_SHA256_ASN1_SIGNING,
        &session.serialize_der(),
        &rng,
    )
    .unwrap();
    let signature = signing.sign(&rng, &message).unwrap().as_ref().to_vec();
    let check = |scheme, msg: &[u8], sig: &[u8], now| {
        verify_certificate_signature(scheme, ProtocolVersion::TLSv1_3, &certificate, msg, sig, now)
    };
    assert_eq!(check(TlsSignatureScheme::EcdsaNistp256Sha256, &message, &signature, Some(NOW)), Ok(()));
    assert_eq!(
        webpki(check(TlsSignatureScheme::EcdsaNistp256Sha256, b"another", &signature, Some(NOW))),
        CertificateError::InvalidSignatureForPublicKey
    );
    assert_eq!(
        webpki(check(TlsSignatureScheme::Ed25519, &message, &signature, Some(NOW))),
        CertificateError::UnsupportedSignatureAlgorithmForPublicKey
    );
    assert_eq!(
        webpki(check(TlsSignatureScheme::Other, &message, &signature, Some(NOW))),
        CertificateError::UnsupportedSignatureAlgorithm
    );
    assert_eq!(
        check(TlsSignatureScheme::EcdsaNistp256Sha256, &message, &signature, None),
        Err(VerificationError::FailedToGetCurrentTime)
    );
    assert_eq!(
        webpki(check(TlsSignatureScheme::EcdsaNistp256Sha256, &message, &signature, Some(1))),
        CertificateError::CertNotValidYet
    );
    assert_eq!(
        webpki(verify_certificate_signature(
            TlsSignatureScheme::EcdsaNistp256Sha256,
            ProtocolVersion::TLSv1_3,
            &[1, 2],
            &message,
            &signature,
            Some(NOW)
        )),
        CertificateError::BadDER
    );
}

#[test]
fn signing_and_encoding_errors() {
    let identity = Keypair::generate_ed25519();
    let key = identity.public().encode_protobuf();
    let long = vec![0u8; 70_000];
    assert!(matches!(encode_signed_key(&key, &long), Err(ConfigError::BindingTooLong)));
    assert_eq!(encode_signed_key(&key, &[1]).unwrap(), encode_libp2p_extension(&key, &[1]).unwrap());
    let (peer_key, payload) = gen_signed_keypair(&[4, 5, 6], &identity).unwrap();
    assert_eq!(peer_key, key);
    let read = read_libp2p_extension(&payload).unwrap();
    assert_eq!(read.peer_key, &key[..]);
    assert!(identity.public().verify(b"libp2p-tls-handshake:\x04\x05\x06", read.signature));
}

#[test]
fn locate_binding_exact_values() {
    let binding = |critical| CertificateExtension {
        oid: LIBP2P_OID_BYTES.to_vec(),
        critical,
        value: vec![1],
    };
    let other = |critical| CertificateExtension { oid: vec![85, 29, 15], critical, value: vec![] };
    assert_eq!(locate_binding(&vec![], true), Err(CertificateError::UnknownIssuer));
    assert_eq!(locate_binding(&vec![], false), Err(CertificateError::BadDER));
    assert_eq!(locate_binding(&vec![other(false)], true), Err(CertificateError::UnknownIssuer));
    assert_eq!(locate_binding(&vec![binding(false)], true), Ok(0));
    assert_eq!(locate_binding(&vec![binding(true)], true), Ok(0));
    assert_eq!(locate_binding(&vec![binding(false)], false), Err(CertificateError::BadDER));
    assert_eq!(locate_binding(&vec![other(false), other(false), binding(false)], true), Ok(2));
    assert_eq!(
        locate_binding(&vec![other(true), binding(false)], true),
        Err(CertificateError::UnsupportedCriticalExtension)
    );
    assert_eq!(
        locate_binding(&vec![binding(false), other(true)], true),
        Err(CertificateError::UnsupportedCriticalExtension)
    );
    assert_eq!(
        locate_binding(&vec![other(true), binding(false), binding(false)], true),
        Err(CertificateError::BadDER)
    );
    assert_eq!(
        locate_binding(&vec![binding(false), other(false), binding(true)], true),
        Err(CertificateError::BadDER)
    );
}

#[test]
fn both_roles_are_checked_alike() {
    let verifier = Libp2pCertificateVerifier;
    let identity = Keypair::generate_ed25519();
    let certificate = make_cert(&identity).unwrap().certificate;
    let session = rcgen::KeyPair::generate().unwrap();
    let unbound = certificate_with(&session, vec![]);
    for chain in [vec![], vec![certificate.clone()], vec![unbound], vec![certificate.clone(), certificate]] {
        for now in [None, Some(1), Some(NOW)] {
            let as_server = verifier.verify_server_cert(&chain, now);
            let as_client = verifier.verify_client_cert(&chain, now);
            let plain = verify_presented_certs(&chain, now);
            assert_eq!(as_server.as_ref().err(), as_client.as_ref().err());
            assert_eq!(as_server.as_ref().err(), plain.as_ref().err());
            assert_eq!(
                as_server.as_ref().ok().map(|i| (i.public_key().to_vec(), i.peer_id().to_vec())),
                as_client.as_ref().ok().map(|i| (i.public_key().to_vec(), i.peer_id().to_vec()))
            );
            assert_eq!(as_server.is_ok(), chain.len() == 1 && now == Some(NOW) && plain.is_ok());
        }
    }
    assert!(verifier.offer_client_auth());
    assert_eq!(verifier.client_auth_root_subjects(), Some(vec![]));
    assert_eq!(
        verifier.verify_certificate_signature(
            TlsSignatureScheme::Ed25519,
            ProtocolVersion::TLSv1_3,
            &[],
            &[],
            &[],
            Some(NOW)
        ),
        Err(VerificationError::WebPKIError(CertificateError::BadDER))
    );
}

#[test]
fn made_certificate_proves_its_identity() {
    let identity = Keypair::generate_ed25519();
    let other = Keypair::generate_ed25519();
    let made = make_cert(&identity).unwrap();
    assert!(made.proves_identity());
    let mut wrong_key = made.clone();
    wrong_key.peer_key = other.public().encode_protobuf();
    assert!(!wrong_key.proves_identity());
    let mut wrong_session = made.clone();
    wrong_session.session_public_key[0] ^= 1;
    assert!(!wrong_session.proves_identity());
    let mut wrong_certificate = made.clone();
    wrong_certificate.certificate = make_cert(&other).unwrap().certificate;
    assert!(!wrong_certificate.proves_identity());
    let mut tampered = made.clone();
    let last = tampered.certificate.len() - 1;
    tampered.certificate[last] ^= 1;
    assert!(!tampered.proves_identity());
    let mut garbage = made;
    garbage.certificate = vec![1, 2, 3];
    assert!(!garbage.proves_identity());
}

#[test]
fn made_certificate_passes_its_own_check() {
    for _ in 0..4 {
        let identity = Keypair::generate_ed25519();
        let made = make_cert(&identity).unwrap();
        assert!(made.is_well_made());
        assert!(made.proves_identity());
        let mut other_payload = made.clone();
        other_payload.extension = encode_libp2p_extension(&made.peer_key, &[0; 64]).unwrap();
        assert!(other_payload.proves_identity());
        assert!(!other_payload.is_well_made());
        let mut other_key = made.clone();
        other_key.peer_key = Keypair::generate_ed25519().public().encode_protobuf();
        assert!(!other_key.is_well_made());
    }
}

#[test]
fn certificate_with_a_critical_binding_is_not_well_made() {
    let identity = Keypair::generate_ed25519();
    let session = rcgen::KeyPair::generate().unwrap();
    let payload = valid_payload(&identity, &session);
    let by_hand = |critical| SessionCertificate {
        certificate: certificate_with(&session, vec![(LIBP2P_OID.to_vec(), payload.clone(), critical)]),
        private_key: session.serialize_der(),
        session_public_key: session.public_key_raw().to_vec(),
        peer_key: identity.public().encode_protobuf(),
        extension: payload.clone(),
    };
    assert!(by_hand(false).is_well_made());
    assert!(by_hand(true).proves_identity());
    assert!(!by_hand(true).is_well_made());
    let unbound = SessionCertificate {
        certificate: certificate_with(&session, vec![]),
        ..by_hand(false)
    };
    assert!(!unbound.is_well_made());
    assert!(!unbound.proves_identity());
}

#[test]
fn settings_hold_a_certificate_that_a_peer_accepts() {
    let identity = Keypair::generate_ed25519();
    let (client, server) = libp2p_quic::config::make_tls_config(&identity).unwrap();
    assert_eq!(client.certificate, server.certificate);
    assert_eq!(client.private_key, server.private_key);
    let verified = verify_presented_certs(&[server.certificate.clone()], Some(NOW)).unwrap();
    assert_eq!(verified.public_key(), identity.public().encode_protobuf());
    let config = libp2p_quic::transport::QuicConfig::new(&identity).unwrap();
    let verified = verify_presented_certs(&[config.client.certificate.clone()], Some(NOW)).unwrap();
    assert_eq!(verified.public_key(), identity.public().encode_protobuf());
    assert_eq!(config.client.certificate, config.server.certificate);
}

#[test]
fn binding_is_written_for_a_key_that_vouches_only() {
    let identity = Keypair::generate_ed25519();
    let key = identity.public().encode_protobuf();
    let session = [4u8, 5, 6];
    let signature = identity.sign(b"libp2p-tls-handshake:\x04\x05\x06").unwrap();
    assert_eq!(
        bind_signed_key(&session, &key, Ok(signature.clone())).unwrap(),
        encode_libp2p_extension(&key, &signature).unwrap()
    );
    let rejected = |session: &[u8], key: &[u8], signature: Vec<u8>| {
        matches!(bind_signed_key(session, key, Ok(signature)), Err(ConfigError::BindingRejected))
    };
    let mut flipped = signature.clone();
    flipped[0] ^= 1;
    assert!(rejected(&session, &key, flipped));
    assert!(rejected(&[4, 5, 7], &key, signature.clone()));
    assert!(rejected(&session, &[1, 2, 3], signature.clone()));
    let other = Keypair::generate_ed25519().public().encode_protobuf();
    assert!(rejected(&session, &other, signature.clone()));
    assert!(rejected(&session, &key, vec![0u8; 70_000]));
    // A key whose encoding carries more than the key reads as a key, but not as itself.
    let mut padded = key.clone();
    padded.extend_from_slice(&[0x18, 0x01]);
    if PublicKey::try_decode_protobuf(&padded).is_ok() {
        assert!(rejected(&session, &padded, signature.clone()));
    }
}

#[test]
fn signed_binding_is_one_that_the_identity_key_accepts() {
    for _ in 0..4 {
        let identity = Keypair::generate_ed25519();
        let session = rcgen::KeyPair::generate().unwrap();
        let (peer_key, payload) = gen_signed_keypair(session.public_key_raw(), &identity).unwrap();
        assert_eq!(peer_key, identity.public().encode_protobuf());
        let read = read_libp2p_extension(&payload).unwrap();
        assert_eq!(read.peer_key, &peer_key[..]);
        assert!(verify_libp2p_signature(read.peer_key, read.signature, session.public_key_raw()));
    }
}

#[test]
fn handshake_stands_for_the_peer_of_its_one_certificate() {
    let identity = Keypair::generate_ed25519();
    let made = make_cert(&identity).unwrap();
    let expected = PeerId::from_public_key(&identity.public()).to_bytes();
    assert_eq!(peer_of_handshake(Some(&[made.certificate.clone()])), Ok(expected));
    assert_eq!(peer_of_handshake(None), Err(VerificationError::NoCertificatesPresented));
    assert_eq!(peer_of_handshake(Some(&[])), Err(VerificationError::NoCertificatesPresented));
    assert_eq!(
        peer_of_handshake(Some(&[made.certificate.clone(), made.certificate.clone()])),
        Err(VerificationError::NoCertificatesPresented)
    );
    assert_eq!(
        peer_of_handshake(Some(&[vec![1, 2, 3]])),
        Err(VerificationError::WebPKIError(CertificateError::UnknownIssuer))
    );
    let session = rcgen::KeyPair::generate().unwrap();
    assert_eq!(
        peer_of_handshake(Some(&[certificate_with(&session, vec![])])),
        Err(VerificationError::WebPKIError(CertificateError::UnknownIssuer))
    );
}

#[test]
fn certificate_is_handed_out_only_where_it_is_well_made() {
    let identity = Keypair::generate_ed25519();
    let session = rcgen::KeyPair::generate().unwrap();
    let payload = valid_payload(&identity, &session);
    let key = identity.public().encode_protobuf();
    let with = |critical: bool, extension: Vec<u8>| {
        libp2p_quic::binder::certified(
            Ok(certificate_with(&session, vec![(LIBP2P_OID.to_vec(), payload.clone(), critical)])),
            session.serialize_der(),
            session.public_key_raw().to_vec(),
            key.clone(),
            extension,
        )
    };
    let made = with(false, payload.clone()).unwrap();
    assert!(made.is_well_made());
    assert_eq!(made.peer_key, key);
    assert_eq!(made.extension, payload);
    assert_eq!(made.private_key, session.serialize_der());
    assert_eq!(made.session_public_key, session.public_key_raw());
    assert!(matches!(with(true, payload.clone()), Err(ConfigError::CertificateRejected)));
    assert!(matches!(with(false, vec![1, 2]), Err(ConfigError::CertificateRejected)));
    let garbage = libp2p_quic::binder::certified(
        Ok(vec![1, 2, 3]),
        vec![],
        session.public_key_raw().to_vec(),
        key.clone(),
        payload.clone(),
    );
    assert!(matches!(garbage, Err(ConfigError::CertificateRejected)));
}
