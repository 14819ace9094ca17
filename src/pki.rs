use vstd::prelude::*;
use crate::certificate::{ders, Certificate, SigAlg};
use crate::error::PkiFailure;
use webpki::Error as E;

verus! {

#[verifier::external_type_specification]
#[verifier::external_body]
pub struct ExPkiError(webpki::Error);

/// Relies on the variants of `webpki::Error`: each one the service tells
/// apart becomes the variant of the same name; the others keep their
/// `Debug` description.
#[verifier::external_body]
fn failure_of(e: webpki::Error) -> PkiFailure {
    match e {
        E::BadDer => PkiFailure::BadDer, E::BadDerTime => PkiFailure::BadDerTime,
        E::CertNotValidYet => PkiFailure::CertNotValidYet,
        E::CertExpired => PkiFailure::CertExpired,
        E::InvalidCertValidity => PkiFailure::InvalidCertValidity,
        E::UnknownIssuer => PkiFailure::UnknownIssuer,
        E::CertNotValidForName => PkiFailure::CertNotValidForName,
        E::CertRevoked => PkiFailure::CertRevoked,
        E::IssuerNotCrlSigner => PkiFailure::IssuerNotCrlSigner,
        E::InvalidSignatureForPublicKey => PkiFailure::InvalidSignatureForPublicKey,
        E::UnsupportedSignatureAlgorithm => PkiFailure::UnsupportedSignatureAlgorithm,
        E::UnsupportedSignatureAlgorithmForPublicKey => PkiFailure::UnsupportedSignatureAlgorithmForPublicKey,
        E::InvalidCrlSignatureForPublicKey => PkiFailure::InvalidCrlSignatureForPublicKey,
        other => PkiFailure::Unclassified(format!("{other:?}")),
    }
}

#[verifier::external_type_specification]
#[verifier::external_body]
pub struct ExSignatureAlgorithm(webpki::SignatureAlgorithm);

/// What `webpki::TrustAnchor::try_from_cert_der` makes of a root
/// certificate: its subject name, or the failure.
pub uninterp spec fn anchor_parse(der: Seq<u8>) -> Result<Seq<u8>, PkiFailure>;

/// Whether `webpki::EndEntityCert::try_from` accepts the bytes as an
/// end-entity certificate.
pub uninterp spec fn end_entity_parses(der: Seq<u8>) -> bool;

/// What `webpki::EndEntityCert::verify_is_valid_tls_client_cert` decides for
/// an end-entity certificate, its intermediates, the roots taken as trust
/// anchors, the accepted algorithms and a time in seconds since the epoch.
pub uninterp spec fn client_chain_check(
    ee: Seq<u8>,
    intermediates: Seq<Seq<u8>>,
    roots: Seq<Seq<u8>>,
    algs: Seq<SigAlg>,
    now: u64,
) -> Result<(), PkiFailure>;

/// What `webpki::EndEntityCert::verify_is_valid_for_subject_name` decides
/// for a certificate and a DNS name.
pub uninterp spec fn name_check(ee: Seq<u8>, name: Seq<char>) -> Result<(), PkiFailure>;

/// Relies on the `pub static` algorithm values of webpki, one for each
/// variant of the same name.
#[verifier::external_body]
fn algorithm(a: &SigAlg) -> &'static webpki::SignatureAlgorithm {
    match a {
        SigAlg::EcdsaP256Sha256 => &webpki::ECDSA_P256_SHA256,
        SigAlg::EcdsaP256Sha384 => &webpki::ECDSA_P256_SHA384,
        SigAlg::EcdsaP384Sha256 => &webpki::ECDSA_P384_SHA256,
        SigAlg::EcdsaP384Sha384 => &webpki::ECDSA_P384_SHA384,
        SigAlg::Ed25519 => &webpki::ED25519,
        SigAlg::RsaPss2048_8192Sha256LegacyKey => &webpki::RSA_PSS_2048_8192_SHA256_LEGACY_KEY,
        SigAlg::RsaPss2048_8192Sha384LegacyKey => &webpki::RSA_PSS_2048_8192_SHA384_LEGACY_KEY,
        SigAlg::RsaPss2048_8192Sha512LegacyKey => &webpki::RSA_PSS_2048_8192_SHA512_LEGACY_KEY,
        SigAlg::RsaPkcs1_2048_8192Sha256 => &webpki::RSA_PKCS1_2048_8192_SHA256,
        SigAlg::RsaPkcs1_2048_8192Sha384 => &webpki::RSA_PKCS1_2048_8192_SHA384,
        SigAlg::RsaPkcs1_2048_8192Sha512 => &webpki::RSA_PKCS1_2048_8192_SHA512,
        SigAlg::RsaPkcs1_3072_8192Sha384 => &webpki::RSA_PKCS1_3072_8192_SHA384,
    }
}

/// Relies on `webpki::TrustAnchor::try_from_cert_der`: the subject of the
/// anchor it derives from a root certificate, or why it could not.
#[verifier::external_body]
pub(crate) fn trust_anchor_subject(der: &[u8]) -> (r: Result<Vec<u8>, PkiFailure>)
    ensures
        match r {
            Ok(s) => anchor_parse(der@) == Ok::<Seq<u8>, PkiFailure>(s@),
            Err(f) => anchor_parse(der@) == Err::<Seq<u8>, PkiFailure>(f),
        },
{
    webpki::TrustAnchor::try_from_cert_der(der).map(|a| a.subject.to_vec()).map_err(failure_of)
}

/// Relies on `webpki::EndEntityCert::try_from`: whether the bytes parse as
/// an end-entity certificate.
#[verifier::external_body]
pub(crate) fn parses_as_end_entity(der: &[u8]) -> (r: bool)
    ensures
        r == end_entity_parses(der@),
{
    webpki::EndEntityCert::try_from(der).is_ok()
}

/// Relies on `webpki::EndEntityCert::verify_is_valid_tls_client_cert`, with
/// the roots taken as trust anchors and no revocation lists: whether the
/// chain leads from the end-entity certificate to one of the roots at `now`.
#[verifier::external_body]
pub(crate) fn verify_client_chain(
    ee: &[u8],
    intermediates: &[Certificate],
    roots: &[Certificate],
    algs: &[SigAlg],
    now: u64,
) -> (r: Result<(), PkiFailure>)
    ensures
        r == client_chain_check(ee@, ders(intermediates@), ders(roots@), algs@, now),
{
    let cert = webpki::EndEntityCert::try_from(ee).map_err(failure_of)?;
    let anchors: Result<Vec<_>, _> =
        roots.iter().map(|c| webpki::TrustAnchor::try_from_cert_der(&c.0)).collect();
    let anchors = anchors.map_err(failure_of)?;
    let chain: Vec<&[u8]> = intermediates.iter().map(|c| c.0.as_slice()).collect();
    let algs: Vec<&webpki::SignatureAlgorithm> = algs.iter().map(algorithm).collect();
    let time = webpki::Time::from_seconds_since_unix_epoch(now);
    #[allow(deprecated)]
    let trusted = webpki::TlsClientTrustAnchors(&anchors);
    #[allow(deprecated)]
    cert.verify_is_valid_tls_client_cert(&algs, &trusted, &chain, time, &[]).map_err(failure_of)
}

/// Relies on `webpki::EndEntityCert::verify_is_valid_for_subject_name`:
/// whether the certificate is valid for the DNS name. The certificate is
/// parsed first, so one that does not parse is valid for no name.
#[verifier::external_body]
pub(crate) fn verify_for_name(ee: &[u8], name: &str) -> (r: Result<(), PkiFailure>)
    ensures
        r == name_check(ee@, name@),
        !end_entity_parses(ee@) ==> r is Err,
{
    let cert = webpki::EndEntityCert::try_from(ee).map_err(failure_of)?;
    let name = webpki::DnsNameRef::try_from_ascii_str(name).map_err(|e| PkiFailure::Unclassified(format!("{e:?}")))?;
    cert.verify_is_valid_for_subject_name(webpki::SubjectNameRef::DnsName(name)).map_err(failure_of)
}

} // verus!
