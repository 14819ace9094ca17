use vstd::prelude::*;

verus! {

/// One DER-encoded X.509 certificate, treated as opaque bytes.
#[derive(Clone, Debug, PartialEq, Eq)]
pub struct Certificate(pub Vec<u8>);

impl View for Certificate {
    type V = Seq<u8>;

    open spec fn view(&self) -> Seq<u8> {
        self.0@
    }
}

/// The DER bytes of each certificate of a sequence, in order.
pub open spec fn ders(certs: Seq<Certificate>) -> Seq<Seq<u8>> {
    certs.map_values(|c: Certificate| c@)
}

/// A DER-encoded private key (PKCS#1, PKCS#8 or SEC1).
#[derive(Clone, Debug, PartialEq, Eq)]
pub struct PrivateKey(pub Vec<u8>);

/// A signature algorithm accepted on the links of a client chain.
#[derive(Clone, Copy, Debug, PartialEq, Eq)]
pub enum SigAlg {
    EcdsaP256Sha256,
    EcdsaP256Sha384,
    EcdsaP384Sha256,
    EcdsaP384Sha384,
    Ed25519,
    RsaPss2048_8192Sha256LegacyKey,
    RsaPss2048_8192Sha384LegacyKey,
    RsaPss2048_8192Sha512LegacyKey,
    RsaPkcs1_2048_8192Sha256,
    RsaPkcs1_2048_8192Sha384,
    RsaPkcs1_2048_8192Sha512,
    RsaPkcs1_3072_8192Sha384,
}

/// The algorithms a client chain may be signed with, in order of preference.
pub open spec fn supported_algs() -> Seq<SigAlg> {
    seq![
        SigAlg::EcdsaP256Sha256,
        SigAlg::EcdsaP256Sha384,
        SigAlg::EcdsaP384Sha256,
        SigAlg::EcdsaP384Sha384,
        SigAlg::Ed25519,
        SigAlg::RsaPss2048_8192Sha256LegacyKey,
        SigAlg::RsaPss2048_8192Sha384LegacyKey,
        SigAlg::RsaPss2048_8192Sha512LegacyKey,
        SigAlg::RsaPkcs1_2048_8192Sha256,
        SigAlg::RsaPkcs1_2048_8192Sha384,
        SigAlg::RsaPkcs1_2048_8192Sha512,
        SigAlg::RsaPkcs1_3072_8192Sha384,
    ]
}

/// The supported signature algorithms, as `supported_algs` lists them.
pub fn supported_sig_algs() -> (r: Vec<SigAlg>)
    ensures
        r@ == supported_algs(),
{
    let r = vec![
        SigAlg::EcdsaP256Sha256,
        SigAlg::EcdsaP256Sha384,
        SigAlg::EcdsaP384Sha256,
        SigAlg::EcdsaP384Sha384,
        SigAlg::Ed25519,
        SigAlg::RsaPss2048_8192Sha256LegacyKey,
        SigAlg::RsaPss2048_8192Sha384LegacyKey,
        SigAlg::RsaPss2048_8192Sha512LegacyKey,
        SigAlg::RsaPkcs1_2048_8192Sha256,
        SigAlg::RsaPkcs1_2048_8192Sha384,
        SigAlg::RsaPkcs1_2048_8192Sha512,
        SigAlg::RsaPkcs1_3072_8192Sha384,
    ];
    assert(r@ =~= supported_algs());
    r
}

} // verus!
