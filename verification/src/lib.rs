//! The IP networks configured on the links of a host.
//!
//! The crate holds the logic of the query and none of its transport. A driver
//! talks to the kernel and hands each item that it receives to a
//! [`resolver::LinkScan`] or a [`resolver::AddressScan`], which say what to
//! read next and what the call returns. The functions of this file are that
//! query run against a [`Host`] held in memory.

pub mod error;
pub mod host;
pub mod network;
pub mod record;
pub mod resolver;

use vstd::prelude::*;
pub use crate::error::{Error, Result};
pub use crate::host::{Host, Link};
pub use crate::network::{IpAddress, IpNetwork, Ipv4Network, Ipv6Network};
pub use crate::record::AddressRecord;
use crate::host::{
    gathered, has_link_named, lemma_every_link_selected, lemma_found_where_named, resolve, resolved,
};
use crate::network::{addresses_of, ipv4_only, ipv6_only, v4_only, v6_only, without_prefix};
use crate::resolver::{is_outcome, Outcome, Query, QueryView};

verus! {

/// The query for the link named `link`.
pub open spec fn named(link: Seq<char>) -> QueryView {
    QueryView { filter: Some(link), require_link: false }
}

/// The query for every link.
pub open spec fn every_link() -> QueryView {
    QueryView { filter: None, require_link: false }
}

/// The query for every link that fails on a host without links.
pub open spec fn some_link() -> QueryView {
    QueryView { filter: None, require_link: true }
}

/// Whether `r` fails as `expected` does: for want of a link, and with the
/// same name.
pub open spec fn fails_as<T>(r: Result<T>, expected: Outcome) -> bool {
    r matches Err(Error::LinkNotFound(name)) && expected == Outcome::LinkNotFound(name.deep_view())
}

/// Get all IP networks of the link named `link`.
///
/// Fails with [`Error::LinkNotFound`] and the name where the host has no link
/// of that name.
pub fn addresses(link: String, host: &Host) -> (r: Result<Vec<IpNetwork>>)
    ensures
        is_outcome(r, resolved(named(link@), host@)),
        r is Ok <==> has_link_named(host@, link@),
{
    proof {
        lemma_found_where_named(link@, false, host@);
    }
    resolve(Query::named(link), host)
}

/// Get the IPv4 networks of the link named `link`, in the order in which
/// [`addresses`] has them.
pub fn ipv4_addresses(link: String, host: &Host) -> (r: Result<Vec<Ipv4Network>>)
    ensures
        match resolved(named(link@), host@) {
            Outcome::Found(nets) => r matches Ok(v4) && v4.deep_view() == v4_only(nets),
            failure => fails_as(r, failure),
        },
        r is Ok <==> has_link_named(host@, link@),
{
    match addresses(link, host) {
        Ok(nets) => Ok(ipv4_only(&nets)),
        Err(e) => Err(e),
    }
}

/// Get the IPv6 networks of the link named `link`, in the order in which
/// [`addresses`] has them.
pub fn ipv6_addresses(link: String, host: &Host) -> (r: Result<Vec<Ipv6Network>>)
    ensures
        match resolved(named(link@), host@) {
            Outcome::Found(nets) => r matches Ok(v6) && v6.deep_view() == v6_only(nets),
            failure => fails_as(r, failure),
        },
        r is Ok <==> has_link_named(host@, link@),
{
    match addresses(link, host) {
        Ok(nets) => Ok(ipv6_only(&nets)),
        Err(e) => Err(e),
    }
}

/// Get all IP networks of this host. A host without links has none, which is
/// no failure.
pub fn all_addresses(host: &Host) -> (r: Result<Vec<IpNetwork>>)
    ensures
        is_outcome(r, resolved(every_link(), host@)),
        r matches Ok(nets) && nets.deep_view() == gathered(host@),
{
    proof {
        lemma_every_link_selected(host@);
    }
    resolve(Query::all(), host)
}

/// Get the IPv4 networks of this host, in the order in which
/// [`all_addresses`] has them.
pub fn all_ipv4_addresses(host: &Host) -> (r: Result<Vec<Ipv4Network>>)
    ensures
        r matches Ok(v4) && v4.deep_view() == v4_only(gathered(host@)),
{
    match all_addresses(host) {
        Ok(nets) => Ok(ipv4_only(&nets)),
        Err(e) => Err(e),
    }
}

/// Get the IPv6 networks of this host, in the order in which
/// [`all_addresses`] has them.
pub fn all_ipv6_addresses(host: &Host) -> (r: Result<Vec<Ipv6Network>>)
    ensures
        r matches Ok(v6) && v6.deep_view() == v6_only(gathered(host@)),
{
    match all_addresses(host) {
        Ok(nets) => Ok(ipv6_only(&nets)),
        Err(e) => Err(e),
    }
}

/// Get the IP addresses of the link named `link`, without their prefixes.
///
/// Fails with [`Error::LinkNotFound`] and the name where the host has no link
/// of that name.
pub fn plain_addresses(link: String, host: &Host) -> (r: Result<Vec<IpAddress>>)
    ensures
        match resolved(named(link@), host@) {
            Outcome::Found(nets) => r matches Ok(plain) && plain.deep_view() == addresses_of(nets),
            failure => fails_as(r, failure),
        },
        r is Ok <==> has_link_named(host@, link@),
{
    proof {
        lemma_found_where_named(link@, false, host@);
    }
    match resolve(Query::named(link), host) {
        Ok(nets) => Ok(without_prefix(&nets)),
        Err(e) => Err(e),
    }
}

/// Get the IP addresses of this host, without their prefixes.
///
/// Unlike [`all_addresses`], this fails with [`Error::LinkNotFound`], and no
/// name, on a host without links.
pub fn all_plain_addresses(host: &Host) -> (r: Result<Vec<IpAddress>>)
    ensures
        match resolved(some_link(), host@) {
            Outcome::Found(nets) => r matches Ok(plain) && plain.deep_view() == addresses_of(nets),
            failure => fails_as(r, failure),
        },
        r is Err <==> host@.len() == 0,
{
    proof {
        lemma_every_link_selected(host@);
    }
    match resolve(Query::all_required(), host) {
        Ok(nets) => Ok(without_prefix(&nets)),
        Err(e) => Err(e),
    }
}

} // verus!
