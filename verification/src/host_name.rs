//! Hosts as the URL parser sees them, so that an allow-list entry and a
//! request's target are compared as parsed hosts and not as raw text.

use vstd::prelude::*;
use url::{Host, Url};

verus! {

/// A parsed host: a domain name, or an address held as its bits.
#[derive(Debug, PartialEq, Eq)]
pub enum HostName {
    Domain(String),
    Ipv4(u32),
    Ipv6(u128),
}

/// A parsed host as plain values.
pub enum HostNameView {
    Domain(Seq<char>),
    Ipv4(u32),
    Ipv6(u128),
}

impl View for HostName {
    type V = HostNameView;

    open spec fn view(&self) -> HostNameView {
        match self {
            HostName::Domain(name) => HostNameView::Domain(name@),
            HostName::Ipv4(bits) => HostNameView::Ipv4(*bits),
            HostName::Ipv6(bits) => HostNameView::Ipv6(*bits),
        }
    }
}

impl DeepView for HostName {
    type V = HostNameView;

    open spec fn deep_view(&self) -> HostNameView {
        self@
    }
}

/// The host of the absolute URL that `text` parses to; `None` where `text`
/// is no absolute URL or the URL has no host.
pub uninterp spec fn url_host(text: Seq<char>) -> Option<HostNameView>;

/// The host that `text` parses to when read as a host alone; `None` where it
/// is none.
pub uninterp spec fn parsed_host(text: Seq<char>) -> Option<HostNameView>;

/// Calls `url::Url::parse` and then `url::Url::host` on what it gave. The
/// contract only names the outcome of the two: it depends on the text alone.
/// An address comes back as its bits, a domain as the parser normalised it.
#[verifier::external_body]
pub(crate) fn host_of_url(text: &str) -> (host: Option<HostName>)
    ensures
        host.deep_view() == url_host(text@),
{
    match Url::parse(text) {
        Ok(url) => match url.host() {
            Some(Host::Domain(name)) => Some(HostName::Domain(name.to_string())),
            Some(Host::Ipv4(address)) => Some(HostName::Ipv4(u32::from(address))),
            Some(Host::Ipv6(address)) => Some(HostName::Ipv6(u128::from(address))),
            None => None,
        },
        Err(_) => None,
    }
}

/// Calls `url::Host::parse`. The contract only names the outcome, which
/// depends on the text alone; a text that the parser rejects gives `None`.
#[verifier::external_body]
pub(crate) fn host_of_text(text: &str) -> (host: Option<HostName>)
    ensures
        host.deep_view() == parsed_host(text@),
{
    match Host::parse(text) {
        Ok(Host::Domain(name)) => Some(HostName::Domain(name)),
        Ok(Host::Ipv4(address)) => Some(HostName::Ipv4(u32::from(address))),
        Ok(Host::Ipv6(address)) => Some(HostName::Ipv6(u128::from(address))),
        Err(_) => None,
    }
}

impl HostName {
    /// Whether two hosts are the same: two domains with the same name, or
    /// two addresses of one family with the same bits.
    pub fn same_as(&self, other: &HostName) -> (same: bool)
        ensures
            same == (self@ == other@),
    {
        match (self, other) {
            (HostName::Domain(a), HostName::Domain(b)) => {
                let same = *a == *b;
                proof {
                    if same {
                        assert(self@ == other@);
                    }
                }
                same
            },
            (HostName::Ipv4(a), HostName::Ipv4(b)) => *a == *b,
            (HostName::Ipv6(a), HostName::Ipv6(b)) => *a == *b,
            _ => false,
        }
    }
}

/// Whether some entry of `entries` is the host `host`. An entry that is no
/// host (`None`) matches nothing.
pub open spec fn spec_host_listed(entries: Seq<Option<HostNameView>>, host: HostNameView) -> bool {
    entries.contains(Some(host))
}

/// The entries of an allow-list, each read as a host.
pub open spec fn spec_parsed_hosts(entries: Seq<Seq<char>>) -> Seq<Option<HostNameView>> {
    entries.map_values(|text: Seq<char>| parsed_host(text))
}

/// Reads each entry of an allow-list as a host. An entry that is no host
/// stays in its place as `None`.
pub fn parse_hosts(entries: &Vec<String>) -> (hosts: Vec<Option<HostName>>)
    ensures
        hosts.deep_view() == spec_parsed_hosts(entries.deep_view()),
{
    let mut hosts: Vec<Option<HostName>> = Vec::new();
    let mut i: usize = 0;
    while i < entries.len()
        invariant
            i <= entries.len(),
            hosts.len() == i,
            forall|j: int| 0 <= j < i ==> hosts[j].deep_view() == parsed_host(entries[j]@),
        decreases entries.len() - i,
    {
        let host = host_of_text(entries[i].as_str());
        hosts.push(host);
        i += 1;
    }
    assert(hosts.deep_view() =~= spec_parsed_hosts(entries.deep_view()));
    hosts
}

/// Whether `host` is among the parsed entries of an allow-list.
pub fn host_listed(entries: &Vec<Option<HostName>>, host: &HostName) -> (listed: bool)
    ensures
        listed == spec_host_listed(entries.deep_view(), host@),
{
    let mut i: usize = 0;
    while i < entries.len()
        invariant
            i <= entries.len(),
            forall|j: int| 0 <= j < i ==> entries.deep_view()[j] != Some(host@),
        decreases entries.len() - i,
    {
        let found = match &entries[i] {
            Some(entry) => entry.same_as(host),
            None => false,
        };
        if found {
            assert(entries.deep_view()[i as int] == Some(host@));
            return true;
        }
        i += 1;
    }
    false
}

} // verus!
