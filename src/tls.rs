use vstd::prelude::*;
use crate::certificate::{ders, Certificate, PrivateKey};
use crate::domain_name::{names, DomainName};
use crate::client_auth::verification;
use crate::pki::{end_entity_parses, name_check, verify_for_name};

verus! {

/// One recognised block of a PEM file, with its DER payload.
#[derive(Clone, Debug, PartialEq, Eq)]
pub enum PemSection {
    Certificate(Vec<u8>),
    RsaKey(Vec<u8>),
    Pkcs8Key(Vec<u8>),
    EcKey(Vec<u8>),
    Crl(Vec<u8>),
    /// A block of a kind the reader knows but this library does not use.
    Unused,
}

#[verifier::external_type_specification]
#[verifier::external_body]
pub struct ExPemItem(rustls_pemfile::Item);

/// What `rustls_pemfile::read_all` reads from the text: its recognised
/// blocks in order, or `None` where it reports an error.
pub uninterp spec fn pem_decode(pem: Seq<u8>) -> Option<Seq<PemSection>>;

/// Relies on the variants of `rustls_pemfile::Item`: each becomes the
/// section of the same kind, with the same payload.
#[verifier::external_body]
fn section_of(item: rustls_pemfile::Item) -> PemSection {
    match item {
        rustls_pemfile::Item::X509Certificate(der) => PemSection::Certificate(der),
        rustls_pemfile::Item::RSAKey(der) => PemSection::RsaKey(der),
        rustls_pemfile::Item::PKCS8Key(der) => PemSection::Pkcs8Key(der),
        rustls_pemfile::Item::ECKey(der) => PemSection::EcKey(der),
        rustls_pemfile::Item::Crl(der) => PemSection::Crl(der),
        _ => PemSection::Unused,
    }
}

/// Relies on `rustls_pemfile::read_all`, reading the blocks of PEM text
/// held in memory.
#[verifier::external_body]
fn pem_sections(pem: &[u8]) -> (r: Option<Vec<PemSection>>)
    ensures
        match r {
            Some(v) => pem_decode(pem@) == Some(v@),
            None => pem_decode(pem@) is None,
        },
{
    let mut reader = pem;
    let items = rustls_pemfile::read_all(&mut reader).ok()?;
    Some(items.into_iter().map(section_of).collect())
}

/// Why credentials could not be read from PEM text.
#[derive(Clone, Debug, PartialEq, Eq)]
pub enum CredentialError {
    /// The text is not well-formed PEM.
    MalformedPem,
    /// No RSA, PKCS#8 or EC private key is in the text.
    NoPrivateKey,
    /// More than one private key is in the text.
    MultiplePrivateKeys,
}

/// The payload of a certificate block.
pub open spec fn cert_payload(s: PemSection) -> Option<Seq<u8>> {
    match s {
        PemSection::Certificate(der) => Some(der@),
        _ => None,
    }
}

/// The payload of a private key block of any supported kind.
pub open spec fn key_payload(s: PemSection) -> Option<Seq<u8>> {
    match s {
        PemSection::RsaKey(der) | PemSection::Pkcs8Key(der) | PemSection::EcKey(der) => Some(
            der@,
        ),
        _ => None,
    }
}

/// The certificates of the blocks, in order.
pub open spec fn certs_in(sections: Seq<PemSection>) -> Seq<Seq<u8>> {
    sections.filter_map(|s: PemSection| cert_payload(s))
}

/// The private keys of the blocks, in order.
pub open spec fn keys_in(sections: Seq<PemSection>) -> Seq<Seq<u8>> {
    sections.filter_map(|s: PemSection| key_payload(s))
}

/// What reading the certificates of PEM text gives: their DER bytes in
/// order, or the failure.
pub open spec fn certificates_read(pem: Seq<u8>) -> Result<Seq<Seq<u8>>, CredentialError> {
    match pem_decode(pem) {
        None => Err(CredentialError::MalformedPem),
        Some(sections) => Ok(certs_in(sections)),
    }
}

/// What reading the private key of PEM text gives: the one key, or the
/// failure.
pub open spec fn private_key_read(pem: Seq<u8>) -> Result<Seq<u8>, CredentialError> {
    match pem_decode(pem) {
        None => Err(CredentialError::MalformedPem),
        Some(sections) => {
            let keys = keys_in(sections);
            if keys.len() == 0 {
                Err(CredentialError::NoPrivateKey)
            } else if keys.len() == 1 {
                Ok(keys[0])
            } else {
                Err(CredentialError::MultiplePrivateKeys)
            }
        },
    }
}

/// Reads every certificate of PEM text, in order. Text with no
/// certificate gives an empty list.
pub fn load_certificates(pem: &[u8]) -> (r: Result<Vec<Certificate>, CredentialError>)
    ensures
        match r {
            Ok(v) => certificates_read(pem@) == Ok::<Seq<Seq<u8>>, CredentialError>(ders(v@)),
            Err(e) => certificates_read(pem@) == Err::<Seq<Seq<u8>>, CredentialError>(e),
        },
{
    let sections = match pem_sections(pem) {
        Some(v) => v,
        None => return Err(CredentialError::MalformedPem),
    };
    let mut certs: Vec<Certificate> = Vec::new();
    let mut i: usize = 0;
    while i < sections.len()
        invariant
            i <= sections.len(),
            ders(certs@) == certs_in(sections@.take(i as int)),
        decreases sections.len() - i,
    {
        proof {
            assert(sections@.take(i + 1).drop_last() =~= sections@.take(i as int));
        }
        match &sections[i] {
            PemSection::Certificate(der) => {
                certs.push(Certificate(der.clone()));
                proof {
                    assert(ders(certs@) =~= certs_in(sections@.take(i + 1)));
                }
            },
            _ => {},
        }
        i = i + 1;
    }
    proof {
        assert(sections@.take(i as int) =~= sections@);
    }
    Ok(certs)
}

/// Reads the one private key of PEM text, which may also hold
/// certificates. Fails unless exactly one RSA, PKCS#8 or EC key is there.
pub fn load_private_key(pem: &[u8]) -> (r: Result<PrivateKey, CredentialError>)
    ensures
        match r {
            Ok(k) => private_key_read(pem@) == Ok::<Seq<u8>, CredentialError>(k.0@),
            Err(e) => private_key_read(pem@) == Err::<Seq<u8>, CredentialError>(e),
        },
{
    let sections = match pem_sections(pem) {
        Some(v) => v,
        None => return Err(CredentialError::MalformedPem),
    };
    let mut keys: Vec<Vec<u8>> = Vec::new();
    let mut i: usize = 0;
    while i < sections.len()
        invariant
            i <= sections.len(),
            keys@.map_values(|k: Vec<u8>| k@) == keys_in(sections@.take(i as int)),
        decreases sections.len() - i,
    {
        proof {
            assert(sections@.take(i + 1).drop_last() =~= sections@.take(i as int));
        }
        match &sections[i] {
            PemSection::RsaKey(der) | PemSection::Pkcs8Key(der) | PemSection::EcKey(der) => {
                keys.push(der.clone());
                proof {
                    assert(keys@.map_values(|k: Vec<u8>| k@) =~= keys_in(sections@.take(i + 1)));
                }
            },
            _ => {},
        }
        i = i + 1;
    }
    proof {
        assert(sections@.take(i as int) =~= sections@);
    }
    if keys.len() == 0 {
        Err(CredentialError::NoPrivateKey)
    } else if keys.len() == 1 {
        let key = keys.pop().unwrap();
        proof {
            assert(keys_in(sections@)[0] == key@);
        }
        Ok(PrivateKey(key))
    } else {
        Err(CredentialError::MultiplePrivateKeys)
    }
}

/// Whether some certificate of the list parses and is valid for the name.
pub open spec fn some_cert_valid_for(certs: Seq<Seq<u8>>, d: Seq<char>) -> bool {
    exists|i: int|
        0 <= i < certs.len() && end_entity_parses(certs[i]) && (#[trigger] name_check(
            certs[i],
            d,
        )) is Ok
}

/// The candidates that some certificate is valid for, in list order, each
/// taken once.
pub open spec fn matched_names(certs: Seq<Seq<u8>>, domains: Seq<Seq<char>>) -> Seq<Seq<char>>
    decreases domains.len(),
{
    if domains.len() == 0 {
        Seq::empty()
    } else {
        let prior = matched_names(certs, domains.drop_last());
        let d = domains.last();
        if some_cert_valid_for(certs, d) && !prior.contains(d) {
            prior.push(d)
        } else {
            prior
        }
    }
}

/// The match holds no name twice, and holds exactly the candidates that
/// some certificate is valid for.
pub proof fn lemma_matched_names_members(certs: Seq<Seq<u8>>, domains: Seq<Seq<char>>)
    ensures
        matched_names(certs, domains).no_duplicates(),
        forall|d: Seq<char>|
            #[trigger] matched_names(certs, domains).contains(d) <==> (domains.contains(d)
                && some_cert_valid_for(certs, d)),
    decreases domains.len(),
{
    if domains.len() > 0 {
        let rest = domains.drop_last();
        lemma_matched_names_members(certs, rest);
        let prior = matched_names(certs, rest);
        assert(domains =~= rest.push(domains.last()));
        assert forall|d: Seq<char>|
            #[trigger] matched_names(certs, domains).contains(d) <==> (domains.contains(d)
                && some_cert_valid_for(certs, d)) by {
            if domains.contains(d) && d != domains.last() {
                let k = choose|k: int| 0 <= k < domains.len() && domains[k] == d;
                assert(rest[k] == d);
            }
            if rest.contains(d) {
                let k = choose|k: int| 0 <= k < rest.len() && rest[k] == d;
                assert(domains[k] == d);
            }
            if some_cert_valid_for(certs, domains.last()) && !prior.contains(domains.last()) {
                assert(prior.push(domains.last()).last() == domains.last());
                if prior.contains(d) {
                    let k = choose|k: int| 0 <= k < prior.len() && prior[k] == d;
                    assert(prior.push(domains.last())[k] == d);
                }
                if prior.push(domains.last()).contains(d) && d != domains.last() {
                    let k = choose|k: int|
                        0 <= k < prior.push(domains.last()).len() && prior.push(
                            domains.last(),
                        )[k] == d;
                    assert(prior[k] == d);
                }
            }
        }
    }
}

/// A certificate that does not parse changes no match: matching with it
/// in front of the others gives what the others give alone.
pub proof fn lemma_unparsable_certificate_skipped(
    bad: Seq<u8>,
    certs: Seq<Seq<u8>>,
    domains: Seq<Seq<char>>,
)
    requires
        !end_entity_parses(bad),
    ensures
        matched_names(seq![bad] + certs, domains) == matched_names(certs, domains),
    decreases domains.len(),
{
    let all = seq![bad] + certs;
    assert forall|d: Seq<char>| some_cert_valid_for(all, d) == some_cert_valid_for(certs, d) by {
        if some_cert_valid_for(all, d) {
            let i = choose|i: int|
                0 <= i < all.len() && end_entity_parses(all[i]) && (#[trigger] name_check(
                    all[i],
                    d,
                )) is Ok;
            assert(i > 0);
            assert(all[i] == certs[i - 1]);
        }
        if some_cert_valid_for(certs, d) {
            let i = choose|i: int|
                0 <= i < certs.len() && end_entity_parses(certs[i]) && (#[trigger] name_check(
                    certs[i],
                    d,
                )) is Ok;
            assert(all[i + 1] == certs[i]);
        }
    }
    if domains.len() > 0 {
        lemma_unparsable_certificate_skipped(bad, certs, domains.drop_last());
    }
}

/// Whether some certificate parses and is valid for the name, asking
/// certificate by certificate.
fn valid_for_some_cert(certs: &[Certificate], name: &str) -> (r: bool)
    ensures
        r == some_cert_valid_for(ders(certs@), name@),
{
    let mut i: usize = 0;
    while i < certs.len()
        invariant
            i <= certs.len(),
            forall|k: int|
                0 <= k < i ==> !(end_entity_parses(ders(certs@)[k]) && (#[trigger] name_check(
                    ders(certs@)[k],
                    name@,
                )) is Ok),
        decreases certs.len() - i,
    {
        proof {
            assert(ders(certs@)[i as int] == certs@[i as int]@);
        }
        if verify_for_name(certs[i].0.as_slice(), name).is_ok() {
            return true;
        }
        i = i + 1;
    }
    false
}

/// Whether the list already holds the name.
fn holds_name(list: &Vec<DomainName>, d: &DomainName) -> (r: bool)
    ensures
        r == names(list@).contains(d@),
{
    let mut k: usize = 0;
    while k < list.len()
        invariant
            k <= list.len(),
            forall|m: int| 0 <= m < k ==> names(list@)[m] != d@,
        decreases list.len() - k,
    {
        if list[k].same_as(d) {
            proof {
                assert(names(list@)[k as int] == d@);
            }
            return true;
        }
        k = k + 1;
    }
    false
}

/// The candidate names that some of the certificates is valid for, in the
/// order of `domains` and each once. A certificate that does not parse
/// matches no name and is passed over; the others are still examined.
pub fn match_certs_domain(certs: &[Certificate], domains: &[DomainName]) -> (r: Vec<DomainName>)
    ensures
        names(r@) == matched_names(ders(certs@), names(domains@)),
        names(r@).no_duplicates(),
        forall|d: Seq<char>|
            #[trigger] names(r@).contains(d) <==> (names(domains@).contains(d)
                && some_cert_valid_for(ders(certs@), d)),
{
    let mut result: Vec<DomainName> = Vec::new();
    let mut j: usize = 0;
    while j < domains.len()
        invariant
            j <= domains.len(),
            names(result@) == matched_names(ders(certs@), names(domains@).take(j as int)),
        decreases domains.len() - j,
    {
        proof {
            assert(names(domains@).take(j + 1).drop_last() =~= names(domains@).take(j as int));
            assert(names(domains@).take(j + 1).last() == domains@[j as int]@);
        }
        let d = &domains[j];
        if valid_for_some_cert(certs, d.as_str()) && !holds_name(&result, d) {
            let ghost prior = names(result@);
            result.push(d.copied());
            proof {
                assert(names(result@) =~= prior.push(domains@[j as int]@));
            }
        }
        j = j + 1;
    }
    proof {
        assert(names(domains@).take(j as int) =~= names(domains@));
        lemma_matched_names_members(ders(certs@), names(domains@));
    }
    result
}

/// The whitelist a verifier binds: the configured names, or no restriction.
pub fn load_whitelist(whitelist: &Option<Vec<DomainName>>) -> (r: Option<Vec<DomainName>>)
    ensures
        match (r, *whitelist) {
            (Some(a), Some(b)) => a@ == b@,
            (None, None) => true,
            _ => false,
        },
{
    match whitelist {
        None => None,
        Some(list) => {
            let mut out: Vec<DomainName> = Vec::new();
            let mut i: usize = 0;
            while i < list.len()
                invariant
                    i <= list.len(),
                    out@ == list@.take(i as int),
                decreases list.len() - i,
            {
                out.push(list[i].copied());
                proof {
                    assert(out@ =~= list@.take(i + 1));
                }
                i = i + 1;
            }
            proof {
                assert(list@.take(i as int) =~= list@);
            }
            Some(out)
        },
    }
}



/// A certificate that the verifier accepted under a whitelist is valid for
/// at least one listed name, so matching it against the list afterwards
/// recovers a non-empty selection of the list.
pub proof fn lemma_accepted_identity_recoverable(
    roots: Seq<Seq<u8>>,
    list: Seq<DomainName>,
    ee: Seq<u8>,
    intermediates: Seq<Seq<u8>>,
    now: u64,
)
    requires
        verification(roots, Some(list), ee, intermediates, now) is Ok,
    ensures
        matched_names(seq![ee], names(list)).len() > 0,
        forall|k: int|
            0 <= k < matched_names(seq![ee], names(list)).len() ==> names(list).contains(
                #[trigger] matched_names(seq![ee], names(list))[k],
            ),
{
    let ns = names(list);
    let m = matched_names(seq![ee], ns);
    lemma_matched_names_members(seq![ee], ns);
    let i = choose|i: int| 0 <= i < list.len() && (#[trigger] name_check(ee, list[i]@)) is Ok;
    assert(ns[i] == list[i]@);
    assert(seq![ee][0] == ee);
    assert(name_check(seq![ee][0], ns[i]) is Ok);
    assert(some_cert_valid_for(seq![ee], ns[i]));
    assert(ns.contains(ns[i]));
    assert(m.contains(ns[i]));
    assert forall|k: int| 0 <= k < m.len() implies ns.contains(#[trigger] m[k]) by {
        assert(m.contains(m[k]));
    }
}

} // verus!
