use vstd::prelude::*;

verus! {

/// A low-level failure reported by the certificate path validator.
///
/// The variants that the service distinguishes are listed one by one; every
/// other failure is carried as `Unclassified` with its description.
#[derive(Clone, Debug, PartialEq, Eq)]
pub enum PkiFailure {
    BadDer,
    BadDerTime,
    CertNotValidYet,
    CertExpired,
    InvalidCertValidity,
    UnknownIssuer,
    CertNotValidForName,
    CertRevoked,
    IssuerNotCrlSigner,
    InvalidSignatureForPublicKey,
    UnsupportedSignatureAlgorithm,
    UnsupportedSignatureAlgorithmForPublicKey,
    InvalidCrlSignatureForPublicKey,
    Unclassified(String),
}

/// The service-level kind of a certificate failure.
#[derive(Clone, Debug, PartialEq, Eq)]
pub enum CertError {
    BadEncoding,
    NotYetValid,
    Expired,
    UnknownIssuer,
    NotValidForRequestedName,
    Revoked,
    RevocationSignerInvalid,
    BadSignature,
    RevocationSignatureInvalid,
    /// The caller could not supply a time comparable with validity windows.
    ClockUnavailable,
    /// Any other failure, with the low-level cause.
    Other(PkiFailure),
}

/// The service-level kind that a low-level failure is reported as.
pub open spec fn translated(f: PkiFailure) -> CertError {
    match f {
        PkiFailure::BadDer | PkiFailure::BadDerTime => CertError::BadEncoding,
        PkiFailure::CertNotValidYet => CertError::NotYetValid,
        PkiFailure::CertExpired | PkiFailure::InvalidCertValidity => CertError::Expired,
        PkiFailure::UnknownIssuer => CertError::UnknownIssuer,
        PkiFailure::CertNotValidForName => CertError::NotValidForRequestedName,
        PkiFailure::CertRevoked => CertError::Revoked,
        PkiFailure::IssuerNotCrlSigner => CertError::RevocationSignerInvalid,
        PkiFailure::InvalidSignatureForPublicKey
        | PkiFailure::UnsupportedSignatureAlgorithm
        | PkiFailure::UnsupportedSignatureAlgorithmForPublicKey => CertError::BadSignature,
        PkiFailure::InvalidCrlSignatureForPublicKey => CertError::RevocationSignatureInvalid,
        PkiFailure::Unclassified(_) => CertError::Other(f),
    }
}

/// Maps a low-level failure onto its service-level kind; total over all
/// failures, with `Other` as the explicit catch-all.
pub fn pki_error(f: PkiFailure) -> (r: CertError)
    ensures
        r == translated(f),
{
    match f {
        PkiFailure::BadDer | PkiFailure::BadDerTime => CertError::BadEncoding,
        PkiFailure::CertNotValidYet => CertError::NotYetValid,
        PkiFailure::CertExpired | PkiFailure::InvalidCertValidity => CertError::Expired,
        PkiFailure::UnknownIssuer => CertError::UnknownIssuer,
        PkiFailure::CertNotValidForName => CertError::NotValidForRequestedName,
        PkiFailure::CertRevoked => CertError::Revoked,
        PkiFailure::IssuerNotCrlSigner => CertError::RevocationSignerInvalid,
        PkiFailure::InvalidSignatureForPublicKey
        | PkiFailure::UnsupportedSignatureAlgorithm
        | PkiFailure::UnsupportedSignatureAlgorithmForPublicKey => CertError::BadSignature,
        PkiFailure::InvalidCrlSignatureForPublicKey => CertError::RevocationSignatureInvalid,
        PkiFailure::Unclassified(cause) => CertError::Other(PkiFailure::Unclassified(cause)),
    }
}

} // verus!
