use vstd::prelude::*;
use crate::certificate::{ders, supported_algs, supported_sig_algs, Certificate};
use crate::domain_name::DomainName;
use crate::error::{pki_error, translated, CertError, PkiFailure};
use crate::pki::{
    anchor_parse, client_chain_check, end_entity_parses, name_check, parses_as_end_entity,
    trust_anchor_subject, verify_client_chain, verify_for_name,
};

verus! {

/// The subject name of a trust anchor, advertised to peers as an acceptable
/// issuer.
#[derive(Clone, Debug, PartialEq, Eq)]
pub struct DistinguishedName(pub Vec<u8>);

/// A root certificate that could not be taken as a trust anchor.
#[derive(Clone, Debug, PartialEq, Eq)]
pub struct MalformedRoot {
    /// Position of the first such root in the list.
    pub index: usize,
    /// Why it was refused.
    pub cause: CertError,
}

/// Whether every root parses as a trust anchor.
pub open spec fn all_anchors_parse(roots: Seq<Seq<u8>>) -> bool {
    forall|i: int| 0 <= i < roots.len() ==> (#[trigger] anchor_parse(roots[i])) is Ok
}

/// `subjects` holds, in order, the subject of the anchor of each root.
pub open spec fn subjects_of(roots: Seq<Seq<u8>>, subjects: Seq<Seq<u8>>) -> bool {
    &&& subjects.len() == roots.len()
    &&& forall|i: int|
        0 <= i < roots.len() ==> #[trigger] anchor_parse(roots[i]) == Ok::<Seq<u8>, PkiFailure>(
            subjects[i],
        )
}

/// The refusal of the first root that does not parse as a trust anchor.
pub open spec fn first_malformed(roots: Seq<Seq<u8>>, e: MalformedRoot) -> bool {
    &&& e.index < roots.len()
    &&& anchor_parse(roots[e.index as int]) is Err
    &&& e.cause == translated(anchor_parse(roots[e.index as int])->Err_0)
    &&& all_anchors_parse(roots.take(e.index as int))
}

/// Builds the trust anchors of the roots, keeping order, and returns their
/// subjects. Fails on the first root that does not parse: no partial set is
/// ever returned.
pub fn trust_roots(roots: &[Certificate]) -> (r: Result<Vec<DistinguishedName>, MalformedRoot>)
    ensures
        r is Ok <==> all_anchors_parse(ders(roots@)),
        r is Ok ==> subjects_of(ders(roots@), dn_bytes(r->Ok_0@)),
        r is Err ==> first_malformed(ders(roots@), r->Err_0),
{
    let mut subjects: Vec<DistinguishedName> = Vec::new();
    let mut i: usize = 0;
    while i < roots.len()
        invariant
            i <= roots.len(),
            subjects_of(ders(roots@).take(i as int), dn_bytes(subjects@)),
        decreases roots.len() - i,
    {
        match trust_anchor_subject(roots[i].0.as_slice()) {
            Ok(subject) => {
                subjects.push(DistinguishedName(subject));
            },
            Err(f) => {
                let e = MalformedRoot { index: i, cause: pki_error(f) };
                proof {
                    assert(ders(roots@)[i as int] == roots@[i as int]@);
                    assert(anchor_parse(ders(roots@)[i as int]) is Err);
                    assert(ders(roots@).take(i as int) =~= ders(roots@).take(e.index as int));
                    assert forall|j: int| 0 <= j < i implies
                        #[trigger] anchor_parse(ders(roots@).take(i as int)[j]) is Ok by {}
                }
                return Err(e);
            },
        }
        proof {
            assert(ders(roots@).take(i + 1) =~= ders(roots@).take(i as int).push(ders(roots@)[i as int]));
        }
        i = i + 1;
    }
    proof {
        assert(ders(roots@).take(i as int) =~= ders(roots@));
    }
    Ok(subjects)
}

/// The bytes of each distinguished name, in order.
pub open spec fn dn_bytes(dns: Seq<DistinguishedName>) -> Seq<Seq<u8>> {
    dns.map_values(|d: DistinguishedName| d.0@)
}

/// Whether the certificate is valid for at least one name of the list.
pub open spec fn valid_for_some(ee: Seq<u8>, list: Seq<DomainName>) -> bool {
    exists|i: int| 0 <= i < list.len() && (#[trigger] name_check(ee, list[i]@)) is Ok
}

/// The outcome of verifying a client's end-entity certificate `ee` with its
/// `intermediates` at `now`, for a verifier bound to `roots` and `whitelist`.
pub open spec fn verification(
    roots: Seq<Seq<u8>>,
    whitelist: Option<Seq<DomainName>>,
    ee: Seq<u8>,
    intermediates: Seq<Seq<u8>>,
    now: u64,
) -> Result<(), CertError> {
    if !end_entity_parses(ee) {
        Err(CertError::BadEncoding)
    } else {
        match client_chain_check(ee, intermediates, roots, supported_algs(), now) {
            Err(f) => Err(translated(f)),
            Ok(_) => match whitelist {
                None => Ok(()),
                Some(list) => if valid_for_some(ee, list) {
                    Ok(())
                } else {
                    Err(CertError::NotValidForRequestedName)
                },
            },
        }
    }
}

/// Whether the certificate is valid for at least one name of the list,
/// asking name by name in list order.
fn valid_for_any(ee: &[u8], list: &Vec<DomainName>) -> (r: bool)
    ensures
        r == valid_for_some(ee@, list@),
{
    let mut i: usize = 0;
    while i < list.len()
        invariant
            i <= list.len(),
            forall|j: int| 0 <= j < i ==> (#[trigger] name_check(ee@, list@[j]@)) is Err,
        decreases list.len() - i,
    {
        if verify_for_name(ee, list[i].as_str()).is_ok() {
            return true;
        }
        i = i + 1;
    }
    false
}

/// A client certificate verifier that requires every client to present a
/// certificate chaining to one of its roots and, when a whitelist is bound,
/// valid for at least one of the whitelisted names.
///
/// Roots, their subjects and the whitelist are fixed at construction.
pub struct AllowWhitelistAuthenticatedClient {
    roots: Vec<Certificate>,
    subjects: Vec<DistinguishedName>,
    whitelist: Option<Vec<DomainName>>,
}

impl AllowWhitelistAuthenticatedClient {
    /// The DER bytes of the bound roots.
    pub closed spec fn spec_roots(&self) -> Seq<Seq<u8>> {
        ders(self.roots@)
    }

    /// The bound whitelist.
    pub closed spec fn spec_whitelist(&self) -> Option<Seq<DomainName>> {
        match self.whitelist {
            Some(v) => Some(v@),
            None => None,
        }
    }

    /// Every root is a trust anchor and the subjects are theirs.
    #[verifier::type_invariant]
    spec fn roots_are_anchors(&self) -> bool {
        &&& all_anchors_parse(ders(self.roots@))
        &&& subjects_of(ders(self.roots@), dn_bytes(self.subjects@))
    }

    /// Binds a verifier to the roots and the whitelist. Fails, with the
    /// first malformed root, unless every root parses as a trust anchor.
    pub fn new(roots: Vec<Certificate>, whitelist: Option<Vec<DomainName>>) -> (r: Result<
        Self,
        MalformedRoot,
    >)
        ensures
            r is Ok <==> all_anchors_parse(ders(roots@)),
            r is Ok ==> r->Ok_0.spec_roots() == ders(roots@),
            r is Ok ==> r->Ok_0.spec_whitelist() == match whitelist {
                Some(v) => Some(v@),
                None => None::<Seq<DomainName>>,
            },
            r is Err ==> first_malformed(ders(roots@), r->Err_0),
    {
        let subjects = trust_roots(roots.as_slice())?;
        Ok(Self { roots, subjects, whitelist })
    }

    /// Client authentication is always requested: anonymous peers are
    /// never accepted.
    pub fn offer_client_auth(&self) -> (r: bool)
        ensures
            r,
    {
        true
    }

    /// The issuer names advertised to peers: exactly the subjects of the
    /// bound trust anchors.
    pub fn client_auth_root_subjects(&self) -> (r: &[DistinguishedName])
        ensures
            all_anchors_parse(self.spec_roots()),
            subjects_of(self.spec_roots(), dn_bytes(r@)),
    {
        proof {
            use_type_invariant(self);
        }
        self.subjects.as_slice()
    }

    /// Verifies a client's end-entity certificate and intermediates at
    /// `now` (seconds since the Unix epoch): the certificate must parse, the
    /// chain must lead to a bound root, and with a whitelist the certificate
    /// must be valid for one of its names.
    pub fn verify_client_cert(
        &self,
        end_entity: &Certificate,
        intermediates: &[Certificate],
        now: u64,
    ) -> (r: Result<(), CertError>)
        ensures
            r == verification(
                self.spec_roots(),
                self.spec_whitelist(),
                end_entity@,
                ders(intermediates@),
                now,
            ),
    {
        let ee = end_entity.0.as_slice();
        if !parses_as_end_entity(ee) {
            return Err(CertError::BadEncoding);
        }
        let algs = supported_sig_algs();
        match verify_client_chain(ee, intermediates, self.roots.as_slice(), algs.as_slice(), now) {
            Err(f) => Err(pki_error(f)),
            Ok(()) => match &self.whitelist {
                None => Ok(()),
                Some(list) => if valid_for_any(ee, list) {
                    Ok(())
                } else {
                    Err(CertError::NotValidForRequestedName)
                },
            },
        }
    }
}



/// A chain that leads to a bound root, under no whitelist, is accepted.
pub proof fn lemma_trusted_chain_accepted(
    roots: Seq<Seq<u8>>,
    ee: Seq<u8>,
    intermediates: Seq<Seq<u8>>,
    now: u64,
)
    requires
        end_entity_parses(ee),
        client_chain_check(ee, intermediates, roots, supported_algs(), now) is Ok,
    ensures
        verification(roots, None, ee, intermediates, now) == Ok::<(), CertError>(()),
{
}

/// Under a whitelist, a chain that leads to a bound root is accepted exactly
/// when the certificate is valid for one of the listed names; otherwise the
/// failure is `NotValidForRequestedName`, never a trust failure.
pub proof fn lemma_whitelist_decides(
    roots: Seq<Seq<u8>>,
    list: Seq<DomainName>,
    ee: Seq<u8>,
    intermediates: Seq<Seq<u8>>,
    now: u64,
)
    requires
        end_entity_parses(ee),
        client_chain_check(ee, intermediates, roots, supported_algs(), now) is Ok,
    ensures
        verification(roots, Some(list), ee, intermediates, now) is Ok <==> valid_for_some(ee, list),
        !valid_for_some(ee, list) ==> verification(roots, Some(list), ee, intermediates, now)
            == Err::<(), CertError>(CertError::NotValidForRequestedName),
{
}

/// An empty whitelist refuses every otherwise trusted chain, always as
/// `NotValidForRequestedName`.
pub proof fn lemma_empty_whitelist_refuses(
    roots: Seq<Seq<u8>>,
    ee: Seq<u8>,
    intermediates: Seq<Seq<u8>>,
    now: u64,
)
    requires
        end_entity_parses(ee),
        client_chain_check(ee, intermediates, roots, supported_algs(), now) is Ok,
    ensures
        verification(roots, Some(Seq::<DomainName>::empty()), ee, intermediates, now) == Err::<
            (),
            CertError,
        >(CertError::NotValidForRequestedName),
{
}

/// When the validator refuses a chain because `now` lies before a validity
/// window, the failure is `NotYetValid`; when `now` lies after one (or the
/// window is empty), it is `Expired`. The whitelist is not consulted.
pub proof fn lemma_validity_window_failures(
    roots: Seq<Seq<u8>>,
    whitelist: Option<Seq<DomainName>>,
    ee: Seq<u8>,
    intermediates: Seq<Seq<u8>>,
    now: u64,
)
    requires
        end_entity_parses(ee),
    ensures
        client_chain_check(ee, intermediates, roots, supported_algs(), now) == Err::<
            (),
            PkiFailure,
        >(PkiFailure::CertNotValidYet) ==> verification(roots, whitelist, ee, intermediates, now)
            == Err::<(), CertError>(CertError::NotYetValid),
        client_chain_check(ee, intermediates, roots, supported_algs(), now) == Err::<
            (),
            PkiFailure,
        >(PkiFailure::CertExpired) ==> verification(roots, whitelist, ee, intermediates, now)
            == Err::<(), CertError>(CertError::Expired),
        client_chain_check(ee, intermediates, roots, supported_algs(), now) == Err::<
            (),
            PkiFailure,
        >(PkiFailure::InvalidCertValidity) ==> verification(roots, whitelist, ee, intermediates, now)
            == Err::<(), CertError>(CertError::Expired),
{
}

/// When the validator finds no path to a bound root (an intermediate is
/// missing, or the chain was issued under other roots), the failure is
/// `UnknownIssuer`, whatever the whitelist.
pub proof fn lemma_unknown_issuer(
    roots: Seq<Seq<u8>>,
    whitelist: Option<Seq<DomainName>>,
    ee: Seq<u8>,
    intermediates: Seq<Seq<u8>>,
    now: u64,
)
    requires
        end_entity_parses(ee),
        client_chain_check(ee, intermediates, roots, supported_algs(), now) == Err::<
            (),
            PkiFailure,
        >(PkiFailure::UnknownIssuer),
    ensures
        verification(roots, whitelist, ee, intermediates, now) == Err::<(), CertError>(
            CertError::UnknownIssuer,
        ),
{
}

/// A verifier built from a set of roots judges chains against exactly those
/// roots: with no whitelist it accepts a chain the validator accepts against
/// them, and refuses one it refuses, with the translated failure.
pub proof fn lemma_bound_roots_decide(
    v: AllowWhitelistAuthenticatedClient,
    roots: Seq<Seq<u8>>,
    ee: Seq<u8>,
    intermediates: Seq<Seq<u8>>,
    now: u64,
)
    requires
        v.spec_roots() == roots,
        v.spec_whitelist() is None,
        end_entity_parses(ee),
    ensures
        client_chain_check(ee, intermediates, roots, supported_algs(), now) is Ok ==> verification(
            v.spec_roots(),
            v.spec_whitelist(),
            ee,
            intermediates,
            now,
        ) is Ok,
        client_chain_check(ee, intermediates, roots, supported_algs(), now) is Err ==> verification(
            v.spec_roots(),
            v.spec_whitelist(),
            ee,
            intermediates,
            now,
        ) == Err::<(), CertError>(
            translated(client_chain_check(ee, intermediates, roots, supported_algs(), now)->Err_0),
        ),
{
}

} // verus!
