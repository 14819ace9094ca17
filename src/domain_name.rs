use vstd::prelude::*;

verus! {

/// Whether `webpki::DnsNameRef::try_from_ascii_str` accepts the text as a
/// DNS name (ASCII, syntactically valid, no wildcard labels).
pub uninterp spec fn valid_dns_name(s: Seq<char>) -> bool;

/// The character with ASCII upper case letters turned to lower case.
pub open spec fn ascii_lower_char(c: char) -> char {
    if 'A' <= c && c <= 'Z' {
        ((c as u32) + 32) as char
    } else {
        c
    }
}

/// The text with ASCII upper case letters turned to lower case.
pub open spec fn ascii_lower(s: Seq<char>) -> Seq<char> {
    s.map_values(|c: char| ascii_lower_char(c))
}

/// Relies on `webpki::DnsNameRef::try_from_ascii_str`, whose owned form
/// (`DnsNameRef::to_owned`) holds the name with `str::to_ascii_lowercase`
/// applied.
#[verifier::external_body]
fn dns_name_owned(s: &str) -> (r: Option<String>)
    ensures
        r is Some <==> valid_dns_name(s@),
        r is Some ==> r->Some_0@ == ascii_lower(s@),
{
    let name = webpki::DnsNameRef::try_from_ascii_str(s).ok()?.to_owned();
    let text: &str = AsRef::<str>::as_ref(&name);
    Some(text.to_string())
}

/// A validated, lower-cased DNS name: the identities a whitelist holds.
///
/// A value exists only through `DomainName::parse`, so it never holds text
/// that failed validation.
#[derive(Clone, Debug, PartialEq, Eq)]
pub struct DomainName {
    name: String,
}

impl View for DomainName {
    type V = Seq<char>;

    closed spec fn view(&self) -> Seq<char> {
        self.name@
    }
}

/// The text of each name of a sequence, in order.
pub open spec fn names(list: Seq<DomainName>) -> Seq<Seq<char>> {
    list.map_values(|d: DomainName| d@)
}

/// The reason a text was refused as a domain name.
#[derive(Clone, Debug, PartialEq, Eq)]
pub struct InvalidDomainName;

impl DomainName {
    /// Parses a DNS name; the result is in lower case, and the parse fails
    /// exactly when the text is not a valid DNS name.
    pub fn parse(s: &str) -> (r: Result<DomainName, InvalidDomainName>)
        ensures
            r is Ok <==> valid_dns_name(s@),
            r is Ok ==> r->Ok_0@ == ascii_lower(s@),
    {
        match dns_name_owned(s) {
            Some(name) => Ok(DomainName { name }),
            None => Err(InvalidDomainName),
        }
    }

    /// A copy of the name.
    pub fn copied(&self) -> (r: DomainName)
        ensures
            r == *self,
    {
        DomainName { name: self.name.clone() }
    }

    /// Whether the two names are the same.
    pub fn same_as(&self, other: &DomainName) -> (r: bool)
        ensures
            r == (self@ == other@),
    {
        self.name == other.name
    }

    /// The name as text.
    pub fn as_str(&self) -> (r: &str)
        ensures
            r@ == self@,
    {
        self.name.as_str()
    }
}

} // verus!
