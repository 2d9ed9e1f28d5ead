use linkaddrs::resolver::{
    AddressEvent, AddressScan, AddressStep, LinkEvent, LinkScan, LinkStep, Query,
};
use linkaddrs::{AddressRecord, Error, IpNetwork, Ipv4Network, Ipv6Network};

fn record(family: u8, prefix_len: u8, address: &[u8]) -> AddressRecord {
    AddressRecord { family, prefix_len, address: Some(address.to_vec()) }
}

fn started(query: Query) -> LinkScan {
    LinkScan::start(query, Ok(())).unwrap()
}

fn link(scan: LinkScan, index: u32) -> AddressScan {
    match scan.step(LinkEvent::Link(index)) {
        LinkStep::Addresses(addresses, asked) => {
            assert_eq!(asked, index);
            addresses
        },
        LinkStep::Finished(r) => panic!("the query ended on a link: {:?}", r),
    }
}

fn address(scan: AddressScan, rec: &AddressRecord) -> AddressScan {
    match scan.step(AddressEvent::Record(rec)) {
        AddressStep::Continue(more) => more,
        AddressStep::Links(_) => panic!("the link ended on a record"),
        AddressStep::Failed(e) => panic!("the query failed on a record: {:?}", e),
    }
}

fn end_of_addresses(scan: AddressScan) -> LinkScan {
    match scan.step(AddressEvent::End) {
        AddressStep::Links(back) => back,
        AddressStep::Continue(_) => panic!("the link went on after its end"),
        AddressStep::Failed(e) => panic!("the query failed at the end of a link: {:?}", e),
    }
}

fn end_of_links(scan: LinkScan) -> Result<Vec<IpNetwork>, Error> {
    match scan.step(LinkEvent::End) {
        LinkStep::Finished(r) => r,
        LinkStep::Addresses(_, index) => panic!("addresses of {} asked for at the end", index),
    }
}

#[test]
fn queries_are_what_they_say() {
    let named = Query::named(String::from("eth0"));
    assert_eq!(named.filter, Some(String::from("eth0")));
    assert!(!named.require_link);
    let all = Query::all();
    assert_eq!(all.filter, None);
    assert!(!all.require_link);
    let required = Query::all_required();
    assert_eq!(required.filter, None);
    assert!(required.require_link);
}

#[test]
fn failed_connection_ends_the_query() {
    let refused = std::io::Error::new(std::io::ErrorKind::PermissionDenied, "no netlink for you");
    match LinkScan::start(Query::all(), Err(refused)) {
        Err(Error::IoError(e)) => {
            assert_eq!(e.kind(), std::io::ErrorKind::PermissionDenied);
            assert_eq!(e.to_string(), "no netlink for you");
        },
        Err(other) => panic!("unexpected error: {:?}", other),
        Ok(_) => panic!("the query began without a connection"),
    }
}

#[test]
fn fresh_query_has_seen_nothing() {
    let scan = started(Query::named(String::from("lo")));
    assert_eq!(scan.links_seen(), 0);
    assert_eq!(scan.filter(), &Some(String::from("lo")));
    let scan = started(Query::all());
    assert_eq!(scan.links_seen(), 0);
    assert_eq!(scan.filter(), &None);
}

#[test]
fn links_are_counted() {
    let mut scan = started(Query::all());
    for index in [1u32, 2, 40, 3] {
        let seen = scan.links_seen();
        scan = end_of_addresses(link(scan, index));
        assert_eq!(scan.links_seen(), seen + 1);
    }
    assert_eq!(scan.links_seen(), 4);
    assert_eq!(end_of_links(scan).unwrap(), Vec::new());
}

#[test]
fn walk_of_two_links() {
    let scan = started(Query::all());
    let scan = link(scan, 1);
    let scan = address(scan, &record(2, 8, &[127, 0, 0, 1]));
    let scan = address(scan, &record(10, 128, &[0, 0, 0, 0, 0, 0, 0, 0, 0, 0, 0, 0, 0, 0, 0, 1]));
    let scan = end_of_addresses(scan);
    let scan = link(scan, 2);
    let scan = address(scan, &record(7, 0, &[1, 2, 3]));
    let scan = address(scan, &record(2, 24, &[192, 168, 1, 10]));
    let scan = end_of_addresses(scan);
    assert_eq!(scan.links_seen(), 2);
    assert_eq!(
        end_of_links(scan).unwrap(),
        vec![
            IpNetwork::V4(Ipv4Network::new([127, 0, 0, 1], 8).unwrap()),
            IpNetwork::V6(
                Ipv6Network::new([0, 0, 0, 0, 0, 0, 0, 0, 0, 0, 0, 0, 0, 0, 0, 1], 128).unwrap()
            ),
            IpNetwork::V4(Ipv4Network::new([192, 168, 1, 10], 24).unwrap()),
        ]
    );
}

#[test]
fn no_link_under_a_name_is_link_not_found() {
    let scan = started(Query::named(String::from("nonexistent0")));
    match end_of_links(scan) {
        Err(Error::LinkNotFound(Some(name))) => assert_eq!(name, "nonexistent0"),
        other => panic!("unexpected result: {:?}", other),
    }
}

#[test]
fn no_link_without_a_name_is_an_empty_result() {
    assert_eq!(end_of_links(started(Query::all())).unwrap(), Vec::new());
}

#[test]
fn no_link_where_one_is_required_is_link_not_found() {
    assert!(matches!(
        end_of_links(started(Query::all_required())),
        Err(Error::LinkNotFound(None))
    ));
    let scan = end_of_addresses(link(started(Query::all_required()), 1));
    assert_eq!(end_of_links(scan).unwrap(), Vec::new());
}

#[test]
fn named_link_without_networks_is_an_empty_result() {
    let scan = end_of_addresses(link(started(Query::named(String::from("tun0"))), 9));
    assert_eq!(end_of_links(scan).unwrap(), Vec::new());
}

#[test]
fn failure_of_the_link_stream_ends_the_query() {
    let scan = started(Query::all());
    let scan = address(link(scan, 1), &record(2, 8, &[127, 0, 0, 1]));
    let scan = end_of_addresses(scan);
    match scan.step(LinkEvent::Failed(rtnetlink::Error::RequestFailed)) {
        LinkStep::Finished(Err(Error::RtNetlink(e))) => {
            assert_eq!(e, rtnetlink::Error::RequestFailed)
        },
        LinkStep::Finished(other) => panic!("unexpected result: {:?}", other),
        LinkStep::Addresses(..) => panic!("the query went on after a failure"),
    }
}

#[test]
fn failure_at_the_first_link_ends_the_query() {
    let failure = rtnetlink::Error::NamespaceError(String::from("gone"));
    match started(Query::named(String::from("lo"))).step(LinkEvent::Failed(failure.clone())) {
        LinkStep::Finished(Err(Error::RtNetlink(e))) => assert_eq!(e, failure),
        LinkStep::Finished(other) => panic!("unexpected result: {:?}", other),
        LinkStep::Addresses(..) => panic!("the query went on after a failure"),
    }
}

#[test]
fn failure_of_an_address_stream_ends_the_query() {
    let scan = started(Query::all());
    let scan = address(link(scan, 1), &record(2, 8, &[127, 0, 0, 1]));
    let failure = rtnetlink::Error::InvalidIp(vec![1, 2, 3]);
    match scan.step(AddressEvent::Failed(failure.clone())) {
        AddressStep::Failed(Error::RtNetlink(e)) => assert_eq!(e, failure),
        AddressStep::Failed(other) => panic!("unexpected error: {:?}", other),
        AddressStep::Continue(_) | AddressStep::Links(_) => {
            panic!("the query went on after a failure")
        },
    }
}
