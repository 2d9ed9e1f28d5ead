//! The course of one query, one received item at a time.
//!
//! A query walks the stream of links and, for each link, the stream of its
//! address records. The driver owns the streams; after each item it hands the
//! item to the scan it holds and does what the returned step says: read the
//! addresses of a link, read on, go back to the links, or return.

use rtnetlink::Error as NetlinkError;
use vstd::prelude::*;
use crate::error::Error;
use crate::network::{IpNetView, IpNetwork};
use crate::record::{decode_address, decoded, prefix_fits, AddressRecord, RecordView};

verus! {

/// What is asked: the links of one name or all links, and whether finding no
/// link at all is a failure.
pub struct Query {
    /// The name that a link must have, where only one link is asked for.
    pub filter: Option<String>,
    /// Whether the query fails where no link is seen, even without a name.
    pub require_link: bool,
}

/// What a [`Query`] holds.
pub struct QueryView {
    pub filter: Option<Seq<char>>,
    pub require_link: bool,
}

impl View for Query {
    type V = QueryView;

    open spec fn view(&self) -> QueryView {
        QueryView { filter: self.filter.deep_view(), require_link: self.require_link }
    }
}

impl Query {
    /// Asks for the link named `link`.
    pub fn named(link: String) -> (query: Query)
        ensures
            query@ == (QueryView { filter: Some(link@), require_link: false }),
    {
        Query { filter: Some(link), require_link: false }
    }

    /// Asks for every link; a host without links has no networks.
    pub fn all() -> (query: Query)
        ensures
            query@ == (QueryView { filter: None, require_link: false }),
    {
        Query { filter: None, require_link: false }
    }

    /// Asks for every link; a host without links is a failure.
    pub fn all_required() -> (query: Query)
        ensures
            query@ == (QueryView { filter: None, require_link: true }),
    {
        Query { filter: None, require_link: true }
    }
}

/// How far a query has come.
pub struct ScanView {
    /// The name that was asked for, if any.
    pub filter: Option<Seq<char>>,
    /// Whether seeing no link is a failure even without a name.
    pub require_link: bool,
    /// The number of links seen so far.
    pub num_links: nat,
    /// The networks found so far, in the order in which they arrived.
    pub found: Seq<IpNetView>,
}

/// How a query ends when its streams did not fail.
pub enum Outcome {
    /// The networks of the links that were seen.
    Found(Seq<IpNetView>),
    /// No link was seen; with the name that was asked for, if one was.
    LinkNotFound(Option<Seq<char>>),
}

/// How a query ends that has come as far as `scan` when the stream of links
/// ends: without a link it fails where a name was asked for or a link is
/// required, and else it has found what it has found.
pub open spec fn outcome(scan: ScanView) -> Outcome {
    if scan.num_links == 0 && (scan.filter is Some || scan.require_link) {
        Outcome::LinkNotFound(scan.filter)
    } else {
        Outcome::Found(scan.found)
    }
}

/// Whether the result `r` is the outcome `expected`.
pub open spec fn is_outcome(r: Result<Vec<IpNetwork>, Error>, expected: Outcome) -> bool {
    match r {
        Ok(nets) => expected == Outcome::Found(nets.deep_view()),
        Err(Error::LinkNotFound(filter)) => expected == Outcome::LinkNotFound(filter.deep_view()),
        Err(_) => false,
    }
}

/// What one address record adds to the networks found: its network, or
/// nothing where it describes none.
pub open spec fn contribution(rec: RecordView) -> Seq<IpNetView> {
    match decoded(rec) {
        Some(net) => seq![net],
        None => Seq::empty(),
    }
}

/// A query that waits for the next item of the stream of links.
pub struct LinkScan {
    filter: Option<String>,
    require_link: bool,
    num_links: u64,
    found: Vec<IpNetwork>,
}

/// A query that waits for the next item of one link's stream of address
/// records.
pub struct AddressScan {
    scan: LinkScan,
}

/// What the stream of links gave.
pub enum LinkEvent {
    /// A link, by its index.
    Link(u32),
    /// The end of the stream.
    End,
    /// A failure in place of an item.
    Failed(NetlinkError),
}

/// What a link's stream of address records gave.
pub enum AddressEvent<'a> {
    /// An address record.
    Record(&'a AddressRecord),
    /// The end of the stream.
    End,
    /// A failure in place of an item.
    Failed(NetlinkError),
}

/// What follows an item of the stream of links.
pub enum LinkStep {
    /// Read the address records of the link with this index.
    Addresses(AddressScan, u32),
    /// The query is over, with this result.
    Finished(Result<Vec<IpNetwork>, Error>),
}

/// What follows an item of a link's stream of address records.
pub enum AddressStep {
    /// Read the next address record of the same link.
    Continue(AddressScan),
    /// The link is done: read the next link.
    Links(LinkScan),
    /// The query is over, with this error.
    Failed(Error),
}

impl View for LinkScan {
    type V = ScanView;

    closed spec fn view(&self) -> ScanView {
        ScanView {
            filter: self.filter.deep_view(),
            require_link: self.require_link,
            num_links: self.num_links as nat,
            found: self.found.deep_view(),
        }
    }
}

impl View for AddressScan {
    type V = ScanView;

    closed spec fn view(&self) -> ScanView {
        self.scan@
    }
}

impl LinkScan {
    /// Begins a query once the connection was tried. A connection that could
    /// not be made ends the query with its error; else no link has been seen
    /// and nothing found.
    pub fn start(query: Query, connection: Result<(), std::io::Error>) -> (r: Result<
        LinkScan,
        Error,
    >)
        ensures
            match connection {
                Ok(_) => r matches Ok(scan) && scan@ == (ScanView {
                    filter: query@.filter,
                    require_link: query@.require_link,
                    num_links: 0,
                    found: Seq::empty(),
                }),
                Err(e) => r == Err::<LinkScan, Error>(Error::IoError(e)),
            },
    {
        match connection {
            Ok(_) => {
                let scan = LinkScan {
                    filter: query.filter,
                    require_link: query.require_link,
                    num_links: 0,
                    found: Vec::new(),
                };
                assert(scan.found.deep_view() =~= Seq::empty());
                Ok(scan)
            },
            Err(e) => Err(Error::from(e)),
        }
    }

    /// The name to ask the stream of links for, if any.
    pub fn filter(&self) -> (filter: &Option<String>)
        ensures
            filter.deep_view() == self@.filter,
    {
        &self.filter
    }

    /// The number of links seen so far.
    pub fn links_seen(&self) -> (n: u64)
        ensures
            n == self@.num_links,
    {
        self.num_links
    }

    /// Takes the next item of the stream of links.
    ///
    /// A link is counted and its address records are asked for. The end of the
    /// stream ends the query with [`outcome`]. A failure ends it with that
    /// failure, and what was found is dropped.
    ///
    /// The count of links is a `u64`: [`LinkScan::links_seen`] tells a driver
    /// whether one more link can be counted.
    pub fn step(self, event: LinkEvent) -> (step: LinkStep)
        requires
            event is Link ==> self@.num_links < u64::MAX,
        ensures
            match event {
                LinkEvent::Link(index) => step matches LinkStep::Addresses(scan, asked) && asked
                    == index && scan@ == (ScanView { num_links: self@.num_links + 1, ..self@ }),
                LinkEvent::End => step matches LinkStep::Finished(r) && is_outcome(
                    r,
                    outcome(self@),
                ),
                LinkEvent::Failed(e) => step == LinkStep::Finished(Err(Error::RtNetlink(e))),
            },
    {
        match event {
            LinkEvent::Link(index) => {
                let scan = LinkScan {
                    filter: self.filter,
                    require_link: self.require_link,
                    num_links: self.num_links + 1,
                    found: self.found,
                };
                LinkStep::Addresses(AddressScan { scan }, index)
            },
            LinkEvent::End => {
                if self.num_links == 0 && (self.filter.is_some() || self.require_link) {
                    LinkStep::Finished(Err(Error::LinkNotFound(self.filter)))
                } else {
                    LinkStep::Finished(Ok(self.found))
                }
            },
            LinkEvent::Failed(e) => LinkStep::Finished(Err(Error::from(e))),
        }
    }
}

impl AddressScan {
    /// Takes the next item of a link's stream of address records.
    ///
    /// A record that describes a network adds it behind what was found; any
    /// other record adds nothing. The end of the stream gives the query back
    /// to the stream of links, unchanged. A failure ends the query with that
    /// failure, and what was found is dropped.
    ///
    /// A query has no place for a record with a prefix longer than its
    /// address: [`AddressRecord::has_valid_prefix`] tells a driver whether a
    /// record can be handed in.
    pub fn step(self, event: AddressEvent) -> (step: AddressStep)
        requires
            event matches AddressEvent::Record(record) ==> prefix_fits(record@),
        ensures
            match event {
                AddressEvent::Record(record) => step matches AddressStep::Continue(scan) && scan@
                    == (ScanView { found: self@.found + contribution(record@), ..self@ }),
                AddressEvent::End => step matches AddressStep::Links(scan) && scan@ == self@,
                AddressEvent::Failed(e) => step == AddressStep::Failed(Error::RtNetlink(e)),
            },
    {
        match event {
            AddressEvent::Record(record) => {
                let mut scan = self.scan;
                let ghost before = scan.found.deep_view();
                if let Ok(Some(net)) = decode_address(record) {
                    scan.found.push(net);
                    assert(scan.found.deep_view() =~= before + seq![net@]);
                }
                AddressStep::Continue(AddressScan { scan })
            },
            AddressEvent::End => AddressStep::Links(self.scan),
            AddressEvent::Failed(e) => AddressStep::Failed(Error::from(e)),
        }
    }
}

} // verus!
