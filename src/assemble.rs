use vstd::prelude::*;
use crate::certificate::{ders, Certificate, PrivateKey};
use crate::client_auth::{all_anchors_parse, subjects_of, MalformedRoot};
use crate::error::PkiFailure;
use crate::pki::anchor_parse;
use crate::domain_name::DomainName;
use crate::tls::{
    certificates_read, load_certificates, load_private_key, private_key_read, CredentialError,
};

verus! {

#[verifier::external_type_specification]
#[verifier::external_body]
pub struct ExRootCertStore(rustls::RootCertStore);

#[verifier::external_type_specification]
#[verifier::external_body]
pub struct ExClientConfig(rustls::ClientConfig);

/// Why the TLS configuration of this peer could not be assembled.
#[derive(Clone, Debug, PartialEq, Eq)]
pub enum ConfigError {
    /// A root certificate is not a trust anchor.
    MalformedRoot(MalformedRoot),
    /// This many root certificates were passed over by the root store.
    RootsIgnored(usize),
    /// The local certificate or key could not be read.
    Credentials(CredentialError),
    /// The TLS library refused the local certificate and key, with its
    /// description of why.
    Tls(String),
}

/// The roots that do not parse as trust anchors.
pub open spec fn malformed_roots(roots: Seq<Seq<u8>>) -> Seq<Seq<u8>> {
    roots.filter(|d: Seq<u8>| anchor_parse(d) is Err)
}

/// The number of trust anchors a root store holds, as
/// `rustls::RootCertStore::len` reports it.
pub uninterp spec fn store_len(store: rustls::RootCertStore) -> nat;

/// The subject of each trust anchor a root store holds (its `roots` field),
/// in order, without the outer SEQUENCE encoding: the `subject` each
/// `rustls::OwnedTrustAnchor` was made from.
pub uninterp spec fn store_subjects(store: rustls::RootCertStore) -> Seq<Seq<u8>>;

/// The subjects of the roots that parse as trust anchors, in order.
pub open spec fn parsed_subjects(roots: Seq<Seq<u8>>) -> Seq<Seq<u8>> {
    roots.filter_map(
        |d: Seq<u8>|
            match anchor_parse(d) {
                Ok(subject) => Some(subject),
                Err(_) => None,
            },
    )
}

/// Relies on `rustls::RootCertStore::add_parsable_certificates` on an empty
/// store: for each root in turn that `webpki::TrustAnchor::try_from_cert_der`
/// accepts, it pushes an anchor made from that subject, counting it as
/// added, and counts, as ignored, each root it refuses.
#[verifier::external_body]
fn parsable_root_store(roots: &[Certificate]) -> (r: (rustls::RootCertStore, usize, usize))
    ensures
        r.1 + r.2 == roots@.len(),
        r.2 == malformed_roots(ders(roots@)).len(),
        store_len(r.0) == r.1,
        store_subjects(r.0) == parsed_subjects(ders(roots@)),
{
    let mut store = rustls::RootCertStore::empty();
    let der_certs: Vec<&[u8]> = roots.iter().map(|c| c.0.as_slice()).collect();
    let (added, ignored) = store.add_parsable_certificates(&der_certs);
    (store, added, ignored)
}

/// Relies on the `rustls::ClientConfig` builder with its safe defaults,
/// the given root store, and `with_client_auth_cert` for the local chain
/// and key; a refusal is returned as rustls's description of it.
#[verifier::external_body]
fn client_tls_config(
    store: rustls::RootCertStore,
    certs: Vec<Certificate>,
    key: PrivateKey,
) -> Result<rustls::ClientConfig, String> {
    let certs = certs.into_iter().map(|c| rustls::Certificate(c.0)).collect();
    rustls::ClientConfig::builder()
        .with_safe_defaults()
        .with_root_certificates(store)
        .with_client_auth_cert(certs, rustls::PrivateKey(key.0))
        .map_err(|e| e.to_string())
}

/// No root is malformed exactly when every root parses as a trust anchor.
proof fn lemma_no_malformed_roots(roots: Seq<Seq<u8>>)
    ensures
        malformed_roots(roots).len() == 0 <==> all_anchors_parse(roots),
{
    let pred = |d: Seq<u8>| anchor_parse(d) is Err;
    if malformed_roots(roots).len() > 0 {
        roots.lemma_filter_pred(pred, 0);
        roots.lemma_filter_contains_rev(pred, roots.filter(pred)[0]);
    }
    if !all_anchors_parse(roots) {
        let i = choose|i: int| 0 <= i < roots.len() && !(#[trigger] anchor_parse(roots[i]) is Ok);
        roots.lemma_filter_contains(pred, i);
    }
}

/// When every root parses, the parsed subjects are those of the roots, one
/// for one and in order.
proof fn lemma_parsed_subjects_of_all(roots: Seq<Seq<u8>>)
    requires
        all_anchors_parse(roots),
    ensures
        subjects_of(roots, parsed_subjects(roots)),
    decreases roots.len(),
{
    if roots.len() > 0 {
        let rest = roots.drop_last();
        assert forall|i: int| 0 <= i < rest.len() implies (#[trigger] anchor_parse(
            rest[i],
        )) is Ok by {
            assert(rest[i] == roots[i]);
            assert(anchor_parse(roots[i]) is Ok);
        }
        lemma_parsed_subjects_of_all(rest);
        let last = roots.len() - 1;
        assert(anchor_parse(roots[last]) is Ok);
        assert forall|i: int| 0 <= i < roots.len() implies #[trigger] anchor_parse(roots[i])
            == Ok::<Seq<u8>, PkiFailure>(parsed_subjects(roots)[i]) by {
            if i < rest.len() {
                assert(rest[i] == roots[i]);
            }
        }
    }
}

/// Builds the root store of the client side, with one trust anchor for
/// each root, holding the roots' subjects in order. Fails, with the number of roots it would pass over, unless
/// every root is a trust anchor: a partial store is never returned.
pub fn build_root_store(ca: &[Certificate]) -> (r: Result<rustls::RootCertStore, ConfigError>)
    ensures
        r is Ok <==> all_anchors_parse(ders(ca@)),
        r is Ok ==> store_len(r->Ok_0) == ca@.len(),
        r is Ok ==> subjects_of(ders(ca@), store_subjects(r->Ok_0)),
        r is Err ==> r->Err_0 == ConfigError::RootsIgnored(
            malformed_roots(ders(ca@)).len() as usize,
        ),
{
    let (store, _added, ignored) = parsable_root_store(ca);
    proof {
        lemma_no_malformed_roots(ders(ca@));
        if all_anchors_parse(ders(ca@)) {
            lemma_parsed_subjects_of_all(ders(ca@));
        }
    }
    if ignored > 0 {
        Err(ConfigError::RootsIgnored(ignored))
    } else {
        Ok(store)
    }
}

/// The outcome of assembling the client configuration, from what the TLS
/// library returned: the configuration, or its refusal as `Tls`.
pub fn client_config_outcome(built: Result<rustls::ClientConfig, String>) -> (r: Result<
    rustls::ClientConfig,
    ConfigError,
>)
    ensures
        match built {
            Ok(c) => r == Ok::<rustls::ClientConfig, ConfigError>(c),
            Err(why) => r == Err::<rustls::ClientConfig, ConfigError>(ConfigError::Tls(why)),
        },
{
    match built {
        Ok(config) => Ok(config),
        Err(why) => Err(ConfigError::Tls(why)),
    }
}

/// Assembles the configuration for connecting to another peer: it trusts
/// the given root store and presents the local chain and key, all handed
/// to the TLS library as they are. Only the library's refusal can fail it.
pub fn build_client_config(
    root_store: rustls::RootCertStore,
    certs: Vec<Certificate>,
    key: PrivateKey,
) -> (r: Result<rustls::ClientConfig, ConfigError>)
    ensures
        r is Err ==> r->Err_0 is Tls,
{
    client_config_outcome(client_tls_config(root_store, certs, key))
}

/// The credentials of this peer: trusted roots, its own chain and key, and
/// the optional whitelist of client identities.
pub struct CredentialSet {
    pub roots: Vec<Certificate>,
    pub certs: Vec<Certificate>,
    pub key: PrivateKey,
    pub whitelist: Option<Vec<DomainName>>,
}

impl CredentialSet {
    /// Reads the roots, the local chain and the local key from their PEM
    /// texts, in that order, stopping at the first that fails.
    pub fn from_pem(
        ca_pem: &[u8],
        certs_pem: &[u8],
        key_pem: &[u8],
        whitelist: Option<Vec<DomainName>>,
    ) -> (r: Result<CredentialSet, ConfigError>)
        ensures
            match r {
                Ok(set) => {
                    &&& certificates_read(ca_pem@) == Ok::<Seq<Seq<u8>>, CredentialError>(
                        ders(set.roots@),
                    )
                    &&& certificates_read(certs_pem@) == Ok::<Seq<Seq<u8>>, CredentialError>(
                        ders(set.certs@),
                    )
                    &&& private_key_read(key_pem@) == Ok::<Seq<u8>, CredentialError>(set.key.0@)
                    &&& set.whitelist == whitelist
                },
                Err(e) => if certificates_read(ca_pem@) is Err {
                    e == ConfigError::Credentials(certificates_read(ca_pem@)->Err_0)
                } else if certificates_read(certs_pem@) is Err {
                    e == ConfigError::Credentials(certificates_read(certs_pem@)->Err_0)
                } else {
                    private_key_read(key_pem@) is Err && e == ConfigError::Credentials(
                        private_key_read(key_pem@)->Err_0,
                    )
                },
            },
    {
        let roots = match load_certificates(ca_pem) {
            Ok(v) => v,
            Err(e) => return Err(ConfigError::Credentials(e)),
        };
        let certs = match load_certificates(certs_pem) {
            Ok(v) => v,
            Err(e) => return Err(ConfigError::Credentials(e)),
        };
        let key = match load_private_key(key_pem) {
            Ok(k) => k,
            Err(e) => return Err(ConfigError::Credentials(e)),
        };
        Ok(CredentialSet { roots, certs, key, whitelist })
    }
}

} // verus!
