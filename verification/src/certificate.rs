//! Reading a presented certificate: the X.509 structure, the place of the binding among its
//! extensions, and the binding itself.
//!
//! The X.509 structure is read by `x509_signature`; what that crate makes of a certificate
//! has a name here and is not proved. The rules on the list of extensions and on the
//! payload of the binding are this crate's own and are proved against their statement.

use vstd::prelude::*;
use vstd::slice::slice_to_vec;
use crate::binding::{
    binding_fields,
    is_libp2p_oid,
    read_libp2p_extension,
    BindingModel,
    LIBP2P_OID_BYTES,
};
use crate::error::CertificateError;
use crate::identity::{canonical_public_key, decode_public_key};

verus! {

/// One extension of a certificate, as mathematical values.
pub struct ExtensionModel {
    /// The content bytes of the extension's object identifier.
    pub oid: Seq<u8>,
    /// Whether the extension is marked critical.
    pub critical: bool,
    /// The extension's payload.
    pub value: Seq<u8>,
}

/// One extension of a certificate.
#[derive(Clone, Debug)]
pub struct CertificateExtension {
    /// The content bytes of the extension's object identifier.
    pub oid: Vec<u8>,
    /// Whether the extension is marked critical.
    pub critical: bool,
    /// The extension's payload.
    pub value: Vec<u8>,
}

impl View for CertificateExtension {
    type V = ExtensionModel;

    open spec fn view(&self) -> ExtensionModel {
        ExtensionModel { oid: self.oid@, critical: self.critical, value: self.value@ }
    }
}

/// What is read of a certificate, as mathematical values.
pub struct CertificateModel {
    /// The bits of the subject's public key, the session key.
    pub subject_public_key: Seq<u8>,
    /// First second of the validity window, in seconds since the Unix epoch.
    pub not_before: int,
    /// Last second of the validity window, in seconds since the Unix epoch.
    pub not_after: int,
    /// The extensions in the order of the certificate, as far as the walk over them got:
    /// all of them, or those up to and with the last one that it read before it failed.
    pub extensions: Seq<ExtensionModel>,
    /// Whether the walk got to the end: whether the whole list of extensions was
    /// well-formed.
    pub extensions_complete: bool,
}

/// What is read of a certificate.
#[derive(Clone, Debug)]
pub struct ParsedCertificate {
    /// The bits of the subject's public key, the session key.
    pub subject_public_key: Vec<u8>,
    /// First second of the validity window, in seconds since the Unix epoch.
    pub not_before: i64,
    /// Last second of the validity window, in seconds since the Unix epoch.
    pub not_after: i64,
    /// The extensions in the order of the certificate, as far as the walk over them got:
    /// all of them, or those up to and with the last one that it read before it failed.
    pub extensions: Vec<CertificateExtension>,
    /// Whether the walk got to the end: whether the whole list of extensions was
    /// well-formed.
    pub extensions_complete: bool,
}

impl View for ParsedCertificate {
    type V = CertificateModel;

    open spec fn view(&self) -> CertificateModel {
        CertificateModel {
            subject_public_key: self.subject_public_key@,
            not_before: self.not_before as int,
            not_after: self.not_after as int,
            extensions: self.extensions@.map_values(|e: CertificateExtension| e@),
            extensions_complete: self.extensions_complete,
        }
    }
}

/// A certificate together with the binding that it carries.
#[derive(Clone, Debug)]
pub struct BoundCertificate {
    /// What was read of the certificate.
    pub certificate: ParsedCertificate,
    /// The peer's long-term public key as the binding carries it.
    pub peer_key: Vec<u8>,
    /// The canonical encoding of the peer's long-term public key.
    pub canonical_key: Vec<u8>,
    /// The long-term key's signature over the signed message.
    pub signature: Vec<u8>,
}

/// What `x509_signature::parse_certificate` makes of `certificate`, with the fields and
/// extensions read from the parsed certificate.
pub uninterp spec fn x509_certificate(certificate: Seq<u8>) -> Result<
    CertificateModel,
    CertificateError,
>;

/// What `X509Certificate::check_self_issued` answers for the certificate parsed from
/// `certificate`: whether it names its subject as its issuer and is signed by its own key.
pub uninterp spec fn x509_self_issued(certificate: Seq<u8>) -> Result<(), CertificateError>;

/// The error of the X.509 reader.
#[verifier::external_type_specification]
#[verifier::external_body]
pub struct ExX509Error(x509_signature::Error);

/// Tells the variants of `x509_signature::Error` apart. A variant that the reader may gain
/// later counts as `BadDER`.
#[verifier::external_body]
pub(crate) fn certificate_error(error: x509_signature::Error) -> (class: CertificateError) {
    match error {
        x509_signature::Error::UnsupportedCertVersion => CertificateError::UnsupportedCertVersion,
        x509_signature::Error::UnsupportedSignatureAlgorithm => CertificateError::UnsupportedSignatureAlgorithm,
        x509_signature::Error::UnsupportedSignatureAlgorithmForPublicKey => CertificateError::UnsupportedSignatureAlgorithmForPublicKey,
        x509_signature::Error::InvalidSignatureForPublicKey => CertificateError::InvalidSignatureForPublicKey,
        x509_signature::Error::SignatureAlgorithmMismatch => CertificateError::SignatureAlgorithmMismatch,
        x509_signature::Error::BadDERTime => CertificateError::BadDERTime,
        x509_signature::Error::CertNotValidYet => CertificateError::CertNotValidYet,
        x509_signature::Error::CertExpired => CertificateError::CertExpired,
        x509_signature::Error::InvalidCertValidity => CertificateError::InvalidCertValidity,
        x509_signature::Error::UnknownIssuer => CertificateError::UnknownIssuer,
        _ => CertificateError::BadDER,
    }
}

/// Appends one extension to `extensions`.
pub fn record_extension(
    extensions: &mut Vec<CertificateExtension>,
    oid: &[u8],
    critical: bool,
    value: &[u8],
)
    ensures
        final(extensions)@.len() == old(extensions)@.len() + 1,
        final(extensions)@.subrange(0, old(extensions)@.len() as int) == old(extensions)@,
        final(extensions)@.last()@ == (ExtensionModel {
            oid: oid@,
            critical: critical,
            value: value@,
        }),
{
    let ghost before = extensions@;
    extensions.push(
        CertificateExtension { oid: slice_to_vec(oid), critical, value: slice_to_vec(value) },
    );
    assert(extensions@.subrange(0, before.len() as int) =~= before);
}

/// Parses `certificate` with `x509_signature::parse_certificate`, copies the subject's key
/// bits and the validity window, and walks the extensions with `ExtensionIterator::iterate`.
///
/// Trusted: the outcome is a function of the certificate's bytes alone, named
/// `x509_certificate`.
#[verifier::external_body]
pub(crate) fn read_certificate(certificate: &[u8]) -> (r: Result<
    ParsedCertificate,
    CertificateError,
>)
    ensures
        match r {
            Ok(parsed) => x509_certificate(certificate@) == Ok::<
                CertificateModel,
                CertificateError,
            >(parsed@),
            Err(e) => x509_certificate(certificate@) == Err::<CertificateModel, CertificateError>(
                e,
            ),
        },
{
    let parsed = x509_signature::parse_certificate(certificate).map_err(certificate_error)?;
    let mut extensions: Vec<CertificateExtension> = Vec::new();
    let walked = parsed.extensions().iterate(&mut |oid, critical, value| {
        Ok(record_extension(&mut extensions, oid, critical, value.as_slice_less_safe()))
    });
    Ok(ParsedCertificate {
        subject_public_key: parsed.subject_public_key_info().key().to_vec(),
        not_before: parsed.not_before().into(),
        not_after: parsed.not_after().into(),
        extensions,
        extensions_complete: walked.is_ok(),
    })
}

/// Parses `certificate` with `x509_signature::parse_certificate` and asks
/// `X509Certificate::check_self_issued`.
///
/// Trusted: the answer is a function of the certificate's bytes alone, named
/// `x509_self_issued`.
#[verifier::external_body]
pub(crate) fn check_self_issued(certificate: &[u8]) -> (r: Result<(), CertificateError>)
    ensures
        r == x509_self_issued(certificate@),
{
    let parsed = x509_signature::parse_certificate(certificate).map_err(certificate_error)?;
    parsed.check_self_issued().map_err(certificate_error)
}

/// Whether an extension is the binding.
pub open spec fn is_binding(extension: ExtensionModel) -> bool {
    extension.oid == LIBP2P_OID_BYTES@
}

/// Whether the binding occurs among the first `n` extensions.
pub open spec fn present_before(extensions: Seq<ExtensionModel>, n: int) -> bool {
    exists|i: int| 0 <= i < n && #[trigger] is_binding(extensions[i])
}

/// Whether the binding occurs twice among the first `n` extensions.
pub open spec fn duplicated_before(extensions: Seq<ExtensionModel>, n: int) -> bool {
    exists|i: int, j: int|
        0 <= i < j < n && #[trigger] is_binding(extensions[i]) && #[trigger] is_binding(
            extensions[j],
        )
}

/// Whether one of the first `n` extensions is marked critical and is not the binding.
pub open spec fn unknown_critical_before(extensions: Seq<ExtensionModel>, n: int) -> bool {
    exists|i: int| 0 <= i < n && !(#[trigger] is_binding(extensions[i])) && extensions[i].critical
}

/// The place of the binding in a list in which it occurs.
pub open spec fn binding_index(extensions: Seq<ExtensionModel>) -> int {
    choose|i: int| 0 <= i < extensions.len() && #[trigger] is_binding(extensions[i])
}

/// The place of the binding in a list of extensions, or the reason why the list is
/// refused: a list that is malformed or holds the binding twice is badly encoded; otherwise
/// an extension that is critical and not the binding is unsupported; otherwise a list
/// without the binding names no issuer.
pub open spec fn located_binding(extensions: Seq<ExtensionModel>, complete: bool) -> Result<
    int,
    CertificateError,
> {
    let n = extensions.len() as int;
    if !complete || duplicated_before(extensions, n) {
        Err(CertificateError::BadDER)
    } else if unknown_critical_before(extensions, n) {
        Err(CertificateError::UnsupportedCriticalExtension)
    } else if !present_before(extensions, n) {
        Err(CertificateError::UnknownIssuer)
    } else {
        Ok(binding_index(extensions))
    }
}

/// The extension of a certificate that is its binding, where the certificate can be read
/// and its list of extensions holds one binding and nothing that is refused.
pub open spec fn binding_extension(certificate: Seq<u8>) -> Option<ExtensionModel> {
    match x509_certificate(certificate) {
        Err(_) => None,
        Ok(parsed) => match located_binding(parsed.extensions, parsed.extensions_complete) {
            Err(_) => None,
            Ok(index) => Some(parsed.extensions[index]),
        },
    }
}

/// The binding in the payload of an extension, with an identity key that can be decoded.
pub open spec fn decoded_binding(payload: Seq<u8>) -> Result<BindingModel, CertificateError> {
    match binding_fields(payload) {
        Some(binding) => if canonical_public_key(binding.peer_key).is_some() {
            Ok(binding)
        } else {
            Err(CertificateError::ExtensionValueInvalid)
        },
        None => Err(CertificateError::ExtensionValueInvalid),
    }
}

/// The certificate and the binding that the bytes of a certificate hold.
pub open spec fn certificate_binding(certificate: Seq<u8>) -> Result<
    (CertificateModel, BindingModel),
    CertificateError,
> {
    match x509_certificate(certificate) {
        Err(e) => Err(e),
        Ok(parsed) => match located_binding(parsed.extensions, parsed.extensions_complete) {
            Err(e) => Err(e),
            Ok(index) => match decoded_binding(parsed.extensions[index].value) {
                Err(e) => Err(e),
                Ok(binding) => Ok((parsed, binding)),
            },
        },
    }
}

/// Finds the binding among the extensions of a certificate.
pub fn locate_binding(extensions: &Vec<CertificateExtension>, complete: bool) -> (r: Result<
    usize,
    CertificateError,
>)
    ensures
        match r {
            Ok(index) => located_binding(
                extensions@.map_values(|e: CertificateExtension| e@),
                complete,
            ) == Ok::<int, CertificateError>(index as int) && index < extensions@.len(),
            Err(e) => located_binding(
                extensions@.map_values(|e: CertificateExtension| e@),
                complete,
            ) == Err::<int, CertificateError>(e),
        },
{
    let ghost models = extensions@.map_values(|e: CertificateExtension| e@);
    let mut first: Option<usize> = None;
    let mut duplicated: bool = false;
    let mut critical: bool = false;
    let mut i: usize = 0;
    while i < extensions.len()
        invariant
            i <= extensions@.len(),
            models == extensions@.map_values(|e: CertificateExtension| e@),
            models.len() == extensions@.len(),
            first.is_some() == present_before(models, i as int),
            first.is_some() ==> first.unwrap() < i && is_binding(models[first.unwrap() as int]),
            duplicated == duplicated_before(models, i as int),
            critical == unknown_critical_before(models, i as int),
        decreases extensions@.len() - i,
    {
        let entry = &extensions[i];
        assert(models[i as int] == entry@);
        let binding_here: bool = is_libp2p_oid(entry.oid.as_slice());
        assert(binding_here == is_binding(models[i as int]));
        proof {
            let n = i as int;
            if present_before(models, n + 1) {
                let k = choose|k: int| 0 <= k < n + 1 && #[trigger] is_binding(models[k]);
                assert(k == n || present_before(models, n));
            }
            if duplicated_before(models, n + 1) {
                let (a, b) = choose|a: int, b: int|
                    0 <= a < b < n + 1 && #[trigger] is_binding(models[a])
                        && #[trigger] is_binding(models[b]);
                if b == n {
                    assert(present_before(models, n));
                } else {
                    assert(duplicated_before(models, n));
                }
            }
            if binding_here && present_before(models, n) {
                let k = choose|k: int| 0 <= k < n && #[trigger] is_binding(models[k]);
                assert(0 <= k < n < n + 1 && is_binding(models[k]) && is_binding(models[n]));
            }
            if unknown_critical_before(models, n + 1) {
                let k = choose|k: int|
                    0 <= k < n + 1 && !(#[trigger] is_binding(models[k])) && models[k].critical;
                assert(k == n || unknown_critical_before(models, n));
            }
            if !binding_here && entry.critical {
                assert(!is_binding(models[n]) && models[n].critical);
            }
        }
        if binding_here {
            if first.is_some() {
                duplicated = true;
            } else {
                first = Some(i);
            }
        } else if entry.critical {
            critical = true;
        }
        i += 1;
    }
    if !complete || duplicated {
        return Err(CertificateError::BadDER);
    }
    if critical {
        return Err(CertificateError::UnsupportedCriticalExtension);
    }
    match first {
        None => Err(CertificateError::UnknownIssuer),
        Some(index) => {
            proof {
                let n = models.len() as int;
                let found = index as int;
                let chosen = binding_index(models);
                if chosen < found {
                    assert(0 <= chosen && chosen < found && found < n && is_binding(
                        models[chosen],
                    ) && is_binding(models[found]));
                } else if found < chosen {
                    assert(0 <= found && found < chosen && chosen < n && is_binding(models[found])
                        && is_binding(models[chosen]));
                }
            }
            Ok(index)
        },
    }
}

/// Reads the binding from the payload of the binding extension and checks that its
/// identity key can be decoded. Both failures are reported alike.
pub fn parse_libp2p_extension(extension: &[u8]) -> (r: Result<
    (Vec<u8>, Vec<u8>, Vec<u8>),
    CertificateError,
>)
    ensures
        match r {
            Ok((peer_key, canonical_key, signature)) => {
                &&& decoded_binding(extension@) == Ok::<BindingModel, CertificateError>(
                    BindingModel { peer_key: peer_key@, signature: signature@ },
                )
                &&& canonical_public_key(peer_key@) == Some(canonical_key@)
            },
            Err(e) => decoded_binding(extension@) == Err::<BindingModel, CertificateError>(e),
        },
{
    let binding = match read_libp2p_extension(extension) {
        Some(binding) => binding,
        None => { return Err(CertificateError::ExtensionValueInvalid); },
    };
    let canonical_key: Vec<u8> = match decode_public_key(binding.peer_key) {
        Some(canonical) => canonical,
        None => { return Err(CertificateError::ExtensionValueInvalid); },
    };
    Ok((slice_to_vec(binding.peer_key), canonical_key, slice_to_vec(binding.signature)))
}

/// Reads a certificate and the binding that it carries.
pub fn parse_certificate(certificate: &[u8]) -> (r: Result<BoundCertificate, CertificateError>)
    ensures
        match r {
            Ok(bound) => {
                &&& certificate_binding(certificate@) == Ok::<
                    (CertificateModel, BindingModel),
                    CertificateError,
                >(
                    (
                        bound.certificate@,
                        BindingModel { peer_key: bound.peer_key@, signature: bound.signature@ },
                    ),
                )
                &&& canonical_public_key(bound.peer_key@) == Some(bound.canonical_key@)
            },
            Err(e) => certificate_binding(certificate@) == Err::<
                (CertificateModel, BindingModel),
                CertificateError,
            >(e),
        },
{
    let parsed = match read_certificate(certificate) {
        Ok(parsed) => parsed,
        Err(e) => { return Err(e); },
    };
    let index: usize = match locate_binding(&parsed.extensions, parsed.extensions_complete) {
        Ok(index) => index,
        Err(e) => { return Err(e); },
    };
    assert(parsed@.extensions[index as int] == parsed.extensions@[index as int]@);
    match parse_libp2p_extension(parsed.extensions[index].value.as_slice()) {
        Ok((peer_key, canonical_key, signature)) => Ok(
            BoundCertificate { certificate: parsed, peer_key, canonical_key, signature },
        ),
        Err(e) => Err(e),
    }
}

} // verus!
