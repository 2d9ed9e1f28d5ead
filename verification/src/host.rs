//! A host held in memory: its links and the address records of each.
//!
//! A [`Host`] answers the two questions that a query asks of the kernel, which
//! links there are under a name and which addresses a link has, and never
//! fails. [`resolve`] runs a query against one; what it returns is
//! [`resolved`], which says in one line what a query finds on a host.

use vstd::prelude::*;
use vstd::seq_lib::lemma_flatten_concat;
use crate::error::Error;
use crate::network::{IpNetView, IpNetwork};
use crate::record::{decoded, prefix_fits, AddressRecord, RecordView};
use crate::resolver::{
    contribution, is_outcome, outcome, AddressEvent, AddressScan, AddressStep, LinkEvent, LinkScan,
    LinkStep, Outcome, Query, QueryView, ScanView,
};

verus! {

/// A link with the address records that the kernel holds for it.
#[derive(Clone, Debug, PartialEq, Eq)]
pub struct Link {
    /// The number by which the kernel knows the link.
    pub index: u32,
    /// The name of the link.
    pub name: String,
    /// The address records of the link, in the kernel's order.
    pub records: Vec<AddressRecord>,
}

/// What a [`Link`] holds.
pub struct LinkView {
    pub index: u32,
    pub name: Seq<char>,
    pub records: Seq<RecordView>,
}

impl View for Link {
    type V = LinkView;

    open spec fn view(&self) -> LinkView {
        LinkView { index: self.index, name: self.name@, records: self.records.deep_view() }
    }
}

impl DeepView for Link {
    type V = LinkView;

    open spec fn deep_view(&self) -> LinkView {
        self@
    }
}

/// The links of a host, in the kernel's order. A network can be made of every
/// record of a host that describes one.
#[derive(Debug, PartialEq, Eq)]
pub struct Host {
    links: Vec<Link>,
}

impl View for Host {
    type V = Seq<LinkView>;

    closed spec fn view(&self) -> Seq<LinkView> {
        self.links.deep_view()
    }
}

/// Whether a query with `filter` is answered with `link`: every link answers a
/// query without a name, and a link answers to its own name alone.
pub open spec fn answers(link: LinkView, filter: Option<Seq<char>>) -> bool {
    filter matches Some(name) ==> link.name == name
}

/// [`answers`] for one `filter`, as a predicate on links.
pub open spec fn answering(filter: Option<Seq<char>>) -> spec_fn(LinkView) -> bool {
    |link: LinkView| answers(link, filter)
}

/// The links with which a query with `filter` is answered, in the host's order.
pub open spec fn selected(host: Seq<LinkView>, filter: Option<Seq<char>>) -> Seq<LinkView> {
    host.filter(answering(filter))
}

/// [`decoded`], as a function on records.
pub open spec fn decoding() -> spec_fn(RecordView) -> Option<IpNetView> {
    |rec: RecordView| decoded(rec)
}

/// The networks that `records` describe, in the order of the records.
pub open spec fn decoded_all(records: Seq<RecordView>) -> Seq<IpNetView> {
    records.filter_map(decoding())
}

/// The networks of one link.
pub open spec fn networks_of() -> spec_fn(LinkView) -> Seq<IpNetView> {
    |link: LinkView| decoded_all(link.records)
}

/// The networks of `links`: those of the first link, then those of the second,
/// and so on.
pub open spec fn gathered(links: Seq<LinkView>) -> Seq<IpNetView> {
    links.flat_map(networks_of())
}

/// Whether `host` has a link of the name `name`.
pub open spec fn has_link_named(host: Seq<LinkView>, name: Seq<char>) -> bool {
    exists|i: int| 0 <= i < host.len() && (#[trigger] host[i]).name == name
}

/// What `query` finds on `host`.
pub open spec fn resolved(query: QueryView, host: Seq<LinkView>) -> Outcome {
    let links = selected(host, query.filter);
    outcome(
        ScanView {
            filter: query.filter,
            require_link: query.require_link,
            num_links: links.len(),
            found: gathered(links),
        },
    )
}

/// Whether a network can be made of every record of `host` that describes one.
pub open spec fn prefixes_fit(host: Seq<LinkView>) -> bool {
    forall|i: int, j: int|
        0 <= i < host.len() && 0 <= j < host[i].records.len() ==> prefix_fits(
            #[trigger] host[i].records[j],
        )
}

impl Link {
    /// Whether a query with `filter` is answered with this link.
    pub fn answers(&self, filter: &Option<String>) -> (yes: bool)
        ensures
            yes == answers(self@, filter.deep_view()),
    {
        match filter {
            Some(name) => self.name == *name,
            None => true,
        }
    }

    /// Whether a network can be made of every record of the link that
    /// describes one.
    pub fn has_valid_prefixes(&self) -> (fit: bool)
        ensures
            fit == forall|j: int|
                0 <= j < self@.records.len() ==> prefix_fits(#[trigger] self@.records[j]),
    {
        let mut j: usize = 0;
        while j < self.records.len()
            invariant
                j <= self.records.len(),
                forall|k: int| 0 <= k < j ==> prefix_fits(#[trigger] self@.records[k]),
            decreases self.records.len() - j,
        {
            if !self.records[j].has_valid_prefix() {
                assert(!prefix_fits(self@.records[j as int]));
                return false;
            }
            j += 1;
        }
        true
    }
}

/// Whether a network can be made of every record of `links` that describes
/// one.
fn have_valid_prefixes(links: &Vec<Link>) -> (fit: bool)
    ensures
        fit == prefixes_fit(links.deep_view()),
{
    let ghost host = links.deep_view();
    let mut i: usize = 0;
    while i < links.len()
        invariant
            i <= links.len(),
            host == links.deep_view(),
            forall|k: int, j: int|
                0 <= k < i && 0 <= j < host[k].records.len() ==> prefix_fits(
                    #[trigger] host[k].records[j],
                ),
        decreases links.len() - i,
    {
        assert(host[i as int] == links[i as int]@);
        if !links[i].has_valid_prefixes() {
            return false;
        }
        i += 1;
    }
    true
}

impl Host {
    #[verifier::type_invariant]
    spec fn well_formed(self) -> bool {
        prefixes_fit(self.links.deep_view())
    }

    /// Makes a host of `links`, unless one of their records describes a
    /// network with a prefix longer than its address.
    pub fn new(links: Vec<Link>) -> (host: Option<Host>)
        ensures
            host is Some <==> prefixes_fit(links.deep_view()),
            host matches Some(made) ==> made@ == links.deep_view(),
    {
        if have_valid_prefixes(&links) {
            Some(Host { links })
        } else {
            None
        }
    }

    /// The links of the host.
    pub fn links(&self) -> (links: &Vec<Link>)
        ensures
            links.deep_view() == self@,
            prefixes_fit(self@),
    {
        proof {
            use_type_invariant(self);
        }
        &self.links
    }
}

/// How far a query with `query` has come on `host` when the first `i` links
/// of the host have been passed.
spec fn progress(query: QueryView, host: Seq<LinkView>, i: int) -> ScanView {
    let links = selected(host.take(i), query.filter);
    ScanView {
        filter: query.filter,
        require_link: query.require_link,
        num_links: links.len(),
        found: gathered(links),
    }
}

/// Passing one more link of the host adds that link to the selected ones where
/// it answers the query, and nothing where it does not.
proof fn lemma_selected_take_succ(host: Seq<LinkView>, filter: Option<Seq<char>>, i: int)
    requires
        0 <= i < host.len(),
    ensures
        selected(host.take(i), filter).len() <= i,
        selected(host.take(i + 1), filter) == if answers(host[i], filter) {
            selected(host.take(i), filter).push(host[i])
        } else {
            selected(host.take(i), filter)
        },
        answers(host[i], filter) ==> gathered(selected(host.take(i + 1), filter)) == gathered(
            selected(host.take(i), filter),
        ) + decoded_all(host[i].records),
{
    let pred = answering(filter);
    host.lemma_take_succ_push(i);
    host.take(i).lemma_filter_push(host[i], pred);
    host.take(i).filter(pred).lemma_flat_map_push(networks_of(), host[i]);
}

/// Hands the address records of `link` to `scan`, one by one and then their
/// end: the networks that they describe come behind what was found.
fn read_addresses(scan: AddressScan, link: &Link) -> (r: Result<LinkScan, Error>)
    requires
        forall|k: int| 0 <= k < link@.records.len() ==> prefix_fits(#[trigger] link@.records[k]),
    ensures
        r matches Ok(back) && back@ == (ScanView {
            found: scan@.found + decoded_all(link@.records),
            ..scan@
        }),
{
    let ghost base = scan@;
    let ghost records = link@.records;
    let mut addresses = scan;
    let mut j: usize = 0;
    loop
        invariant
            j <= link.records.len(),
            base == scan@,
            records == link@.records,
            forall|k: int| 0 <= k < records.len() ==> prefix_fits(#[trigger] records[k]),
            addresses@ == (ScanView {
                found: base.found + decoded_all(records.take(j as int)),
                ..base
            }),
        decreases link.records.len() - j,
    {
        let event = if j < link.records.len() {
            AddressEvent::Record(&link.records[j])
        } else {
            AddressEvent::End
        };
        proof {
            if j < link.records.len() {
                let so_far = decoded_all(records.take(j as int));
                let added = contribution(records[j as int]);
                records.lemma_filter_map_take_succ(decoding(), j as int);
                assert((base.found + so_far) + added =~= base.found + (so_far + added));
            } else {
                assert(records.take(j as int) =~= records);
            }
        }
        match addresses.step(event) {
            AddressStep::Continue(more) => {
                addresses = more;
                j += 1;
            },
            AddressStep::Links(back) => {
                return Ok(back);
            },
            AddressStep::Failed(e) => {
                return Err(e);
            },
        }
    }
}

/// Runs `query` against `host`.
///
/// The host is asked for the links under the query's name and for the address
/// records of each of them, and every item goes through the query's scans.
pub fn resolve(query: Query, host: &Host) -> (r: Result<Vec<IpNetwork>, Error>)
    ensures
        is_outcome(r, resolved(query@, host@)),
{
    proof {
        use_type_invariant(host);
    }
    let ghost asked = query@;
    let mut scan = match LinkScan::start(query, Ok(())) {
        Ok(scan) => scan,
        Err(e) => {
            return Err(e);
        },
    };
    let mut i: usize = 0;
    loop
        invariant
            i <= host.links.len(),
            asked == query@,
            prefixes_fit(host@),
            scan@ == progress(asked, host@, i as int),
        decreases host.links.len() - i,
    {
        let ghost passed = i;
        while i < host.links.len() && !host.links[i].answers(scan.filter())
            invariant
                passed <= i <= host.links.len(),
                scan@ == progress(asked, host@, i as int),
            decreases host.links.len() - i,
        {
            proof {
                lemma_selected_take_succ(host@, asked.filter, i as int);
            }
            i += 1;
        }
        let event = if i < host.links.len() {
            LinkEvent::Link(host.links[i].index)
        } else {
            LinkEvent::End
        };
        proof {
            if i < host.links.len() {
                lemma_selected_take_succ(host@, asked.filter, i as int);
            } else {
                assert(host@.take(i as int) =~= host@);
            }
        }
        match scan.step(event) {
            LinkStep::Finished(r) => {
                return r;
            },
            LinkStep::Addresses(addresses, _) => {
                scan = match read_addresses(addresses, &host.links[i]) {
                    Ok(scan) => scan,
                    Err(e) => {
                        return Err(e);
                    },
                };
                i += 1;
            },
        }
    }
}

/// The networks of records are found in the order of the records: those of
/// the records in front come before those of the records behind, wherever the
/// records are parted.
pub proof fn lemma_record_order(front: Seq<RecordView>, back: Seq<RecordView>)
    ensures
        decoded_all(front + back) == decoded_all(front) + decoded_all(back),
    decreases back.len(),
{
    if back.len() > 0 {
        assert((front + back).drop_last() =~= front + back.drop_last());
        lemma_record_order(front, back.drop_last());
    }
}

/// The networks of links are found in the order of the links: all those of
/// the links in front come before any of the links behind.
pub proof fn lemma_gathered_in_order(front: Seq<LinkView>, back: Seq<LinkView>)
    ensures
        gathered(front + back) == gathered(front) + gathered(back),
{
    let each = networks_of();
    assert((front + back).map_values(each) =~= front.map_values(each) + back.map_values(each));
    lemma_flatten_concat(front.map_values(each), back.map_values(each));
}

/// Links are selected in the order of the host, and so what a query finds on
/// the links in front comes before what it finds on the links behind.
pub proof fn lemma_link_order(
    filter: Option<Seq<char>>,
    front: Seq<LinkView>,
    back: Seq<LinkView>,
)
    ensures
        selected(front + back, filter) == selected(front, filter) + selected(back, filter),
        gathered(selected(front + back, filter)) == gathered(selected(front, filter)) + gathered(
            selected(back, filter),
        ),
{
    Seq::filter_distributes_over_add(front, back, answering(filter));
    lemma_gathered_in_order(selected(front, filter), selected(back, filter));
}

/// One link alone gives the networks of its records where it answers the
/// query, and nothing where it does not.
pub proof fn lemma_single_link(filter: Option<Seq<char>>, link: LinkView)
    ensures
        selected(seq![link], filter) == if answers(link, filter) {
            seq![link]
        } else {
            Seq::<LinkView>::empty()
        },
        gathered(seq![link]) == decoded_all(link.records),
{
    Seq::<LinkView>::empty().lemma_filter_push(link, answering(filter));
    seq![link].lemma_flat_map_singleton(networks_of());
}

/// A query without a name on a host of two links finds all the networks of the
/// first link, in the order of its records, and behind them those of the
/// second.
pub proof fn lemma_two_links(require_link: bool, first: LinkView, second: LinkView)
    ensures
        resolved(QueryView { filter: None, require_link }, seq![first, second]) == Outcome::Found(
            decoded_all(first.records) + decoded_all(second.records),
        ),
{
    let host = seq![first, second];
    assert(host =~= seq![first] + seq![second]);
    lemma_link_order(None, seq![first], seq![second]);
    lemma_single_link(None, first);
    lemma_single_link(None, second);
}

/// Links that do not answer a query add nothing to it.
proof fn lemma_none_selected(filter: Option<Seq<char>>, links: Seq<LinkView>)
    requires
        forall|i: int| 0 <= i < links.len() ==> !answers(#[trigger] links[i], filter),
    ensures
        selected(links, filter) == Seq::<LinkView>::empty(),
{
    links.lemma_all_neg_filter_empty(answering(filter));
}

/// A query without a name is answered with every link of the host.
pub proof fn lemma_every_link_selected(host: Seq<LinkView>)
    ensures
        selected(host, None) == host,
    decreases host.len(),
{
    reveal(Seq::filter);
    if host.len() > 0 {
        lemma_every_link_selected(host.drop_last());
    }
}

/// A query for a name that no link of the host has fails, and the failure
/// carries the name.
pub proof fn lemma_unknown_name(name: Seq<char>, require_link: bool, host: Seq<LinkView>)
    requires
        forall|i: int| 0 <= i < host.len() ==> (#[trigger] host[i]).name != name,
    ensures
        resolved(QueryView { filter: Some(name), require_link }, host) == Outcome::LinkNotFound(
            Some(name),
        ),
{
    lemma_none_selected(Some(name), host);
}

/// A query for a name fails for want of a link exactly where the host has no
/// link of that name.
pub proof fn lemma_found_where_named(name: Seq<char>, require_link: bool, host: Seq<LinkView>)
    ensures
        resolved(QueryView { filter: Some(name), require_link }, host) is Found <==> has_link_named(
            host,
            name,
        ),
{
    if has_link_named(host, name) {
        let at = choose|i: int| 0 <= i < host.len() && (#[trigger] host[i]).name == name;
        host.lemma_filter_contains(answering(Some(name)), at);
    } else {
        lemma_unknown_name(name, require_link, host);
    }
}

/// A query for a name that exactly one link of the host has finds the
/// networks of that link and no others.
pub proof fn lemma_only_match(name: Seq<char>, require_link: bool, host: Seq<LinkView>, at: int)
    requires
        0 <= at < host.len(),
        host[at].name == name,
        forall|i: int| 0 <= i < host.len() && i != at ==> (#[trigger] host[i]).name != name,
    ensures
        selected(host, Some(name)) == seq![host[at]],
        resolved(QueryView { filter: Some(name), require_link }, host) == Outcome::Found(
            decoded_all(host[at].records),
        ),
{
    let filter = Some(name);
    let front = host.take(at);
    let back = host.skip(at + 1);
    assert(host =~= (front + seq![host[at]]) + back);
    lemma_none_selected(filter, front);
    lemma_none_selected(filter, back);
    lemma_single_link(filter, host[at]);
}

/// On a host without links a query without a name finds nothing, which is a
/// result and no failure, unless the query requires a link: then it fails, and
/// the failure carries no name.
pub proof fn lemma_no_links(require_link: bool)
    ensures
        resolved(QueryView { filter: None, require_link }, Seq::empty()) == if require_link {
            Outcome::LinkNotFound(None)
        } else {
            Outcome::Found(Seq::empty())
        },
{
}

} // verus!
