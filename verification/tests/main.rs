use linkaddrs::{
    addresses, all_addresses, all_ipv4_addresses, all_ipv6_addresses, all_plain_addresses,
    ipv4_addresses, ipv6_addresses, plain_addresses, AddressRecord, Error, Host, IpAddress,
    IpNetwork, Ipv4Network, Ipv6Network, Link, Result,
};

const AF_INET: u8 = 2;
const AF_INET6: u8 = 10;

fn record(family: u8, prefix_len: u8, address: &[u8]) -> AddressRecord {
    AddressRecord { family, prefix_len, address: Some(address.to_vec()) }
}

fn v4(octets: [u8; 4], prefix_len: u8) -> Ipv4Network {
    Ipv4Network::new(octets, prefix_len).unwrap()
}

fn v6(octets: [u8; 16], prefix_len: u8) -> Ipv6Network {
    Ipv6Network::new(octets, prefix_len).unwrap()
}

const LOOPBACK6: [u8; 16] = [0, 0, 0, 0, 0, 0, 0, 0, 0, 0, 0, 0, 0, 0, 0, 1];
const LINK_LOCAL6: [u8; 16] =
    [0xfe, 0x80, 0, 0, 0, 0, 0, 0, 0x02, 0x16, 0x3e, 0xff, 0xfe, 0, 0, 0x2a];

fn lo() -> Link {
    Link {
        index: 1,
        name: String::from("lo"),
        records: vec![record(AF_INET, 8, &[127, 0, 0, 1]), record(AF_INET6, 128, &LOOPBACK6)],
    }
}

fn eth0() -> Link {
    Link {
        index: 2,
        name: String::from("eth0"),
        records: vec![
            record(AF_INET6, 64, &LINK_LOCAL6),
            record(AF_INET, 24, &[192, 168, 1, 10]),
            record(AF_INET, 32, &[10, 0, 0, 1]),
        ],
    }
}

fn host() -> Host {
    Host::new(vec![lo(), eth0()]).unwrap()
}

#[test]
fn test_addresses() -> Result<()> {
    let addrs = addresses(String::from("lo"), &host())?;
    println!("{:?}", addrs);
    assert_eq!(
        addrs,
        vec![IpNetwork::V4(v4([127, 0, 0, 1], 8)), IpNetwork::V6(v6(LOOPBACK6, 128))]
    );

    Ok(())
}

#[test]
fn test_ipv4_addresses() -> Result<()> {
    let addrs = ipv4_addresses(String::from("lo"), &host())?;
    println!("{:?}", addrs);
    assert_eq!(addrs, vec![v4([127, 0, 0, 1], 8)]);

    Ok(())
}

#[test]
fn test_ipv6_addresses() -> Result<()> {
    let addrs = ipv6_addresses(String::from("lo"), &host())?;
    println!("{:?}", addrs);
    assert_eq!(addrs, vec![v6(LOOPBACK6, 128)]);

    Ok(())
}

#[test]
fn test_all_addresses() -> Result<()> {
    let addrs = all_addresses(&host())?;
    println!("{:?}", addrs);
    assert_eq!(
        addrs,
        vec![
            IpNetwork::V4(v4([127, 0, 0, 1], 8)),
            IpNetwork::V6(v6(LOOPBACK6, 128)),
            IpNetwork::V6(v6(LINK_LOCAL6, 64)),
            IpNetwork::V4(v4([192, 168, 1, 10], 24)),
            IpNetwork::V4(v4([10, 0, 0, 1], 32)),
        ]
    );

    Ok(())
}

#[test]
fn loopback_alone_has_its_two_networks_in_order() {
    let host = Host::new(vec![lo()]).unwrap();
    let addrs = addresses(String::from("lo"), &host).unwrap();
    assert_eq!(
        addrs,
        vec![IpNetwork::V4(v4([127, 0, 0, 1], 8)), IpNetwork::V6(v6(LOOPBACK6, 128))]
    );
    assert_eq!(ipv4_addresses(String::from("lo"), &host).unwrap(), vec![v4([127, 0, 0, 1], 8)]);
    assert_eq!(ipv6_addresses(String::from("lo"), &host).unwrap(), vec![v6(LOOPBACK6, 128)]);
}

#[test]
fn unknown_name_is_link_not_found_with_the_name() {
    for host in [host(), Host::new(Vec::new()).unwrap(), Host::new(vec![lo()]).unwrap()] {
        match addresses(String::from("nonexistent0"), &host) {
            Err(Error::LinkNotFound(Some(name))) => assert_eq!(name, "nonexistent0"),
            other => panic!("unexpected result: {:?}", other),
        }
        assert!(matches!(
            ipv4_addresses(String::from("nonexistent0"), &host),
            Err(Error::LinkNotFound(Some(name))) if name == "nonexistent0"
        ));
        assert!(matches!(
            ipv6_addresses(String::from("nonexistent0"), &host),
            Err(Error::LinkNotFound(Some(name))) if name == "nonexistent0"
        ));
        assert!(matches!(
            plain_addresses(String::from("nonexistent0"), &host),
            Err(Error::LinkNotFound(Some(name))) if name == "nonexistent0"
        ));
    }
}

#[test]
fn empty_name_matches_nothing() {
    assert!(matches!(
        addresses(String::new(), &host()),
        Err(Error::LinkNotFound(Some(name))) if name.is_empty()
    ));
}

#[test]
fn name_must_match_exactly() {
    assert!(matches!(addresses(String::from("eth"), &host()), Err(Error::LinkNotFound(_))));
    assert!(matches!(addresses(String::from("eth00"), &host()), Err(Error::LinkNotFound(_))));
    assert!(matches!(addresses(String::from("LO"), &host()), Err(Error::LinkNotFound(_))));
}

#[test]
fn one_matching_link_gives_only_its_networks() {
    let addrs = addresses(String::from("eth0"), &host()).unwrap();
    assert_eq!(
        addrs,
        vec![
            IpNetwork::V6(v6(LINK_LOCAL6, 64)),
            IpNetwork::V4(v4([192, 168, 1, 10], 24)),
            IpNetwork::V4(v4([10, 0, 0, 1], 32)),
        ]
    );
}

#[test]
fn links_come_in_host_order_and_records_in_link_order() {
    let forward = Host::new(vec![lo(), eth0()]).unwrap();
    let backward = Host::new(vec![eth0(), lo()]).unwrap();
    let of_lo = addresses(String::from("lo"), &forward).unwrap();
    let of_eth0 = addresses(String::from("eth0"), &forward).unwrap();

    let mut expected = of_lo.clone();
    expected.extend(of_eth0.iter().copied());
    assert_eq!(all_addresses(&forward).unwrap(), expected);

    let mut expected = of_eth0.clone();
    expected.extend(of_lo.iter().copied());
    assert_eq!(all_addresses(&backward).unwrap(), expected);
}

#[test]
fn equal_networks_are_kept_twice() {
    let twice = Link {
        index: 3,
        name: String::from("dummy0"),
        records: vec![record(AF_INET, 24, &[10, 1, 1, 1]), record(AF_INET, 24, &[10, 1, 1, 1])],
    };
    let host = Host::new(vec![twice.clone(), twice]).unwrap();
    let one = IpNetwork::V4(v4([10, 1, 1, 1], 24));
    assert_eq!(all_addresses(&host).unwrap(), vec![one, one, one, one]);
    assert_eq!(addresses(String::from("dummy0"), &host).unwrap(), vec![one, one, one, one]);
}

#[test]
fn records_that_describe_no_network_are_dropped() {
    let link = Link {
        index: 7,
        name: String::from("wg0"),
        records: vec![
            record(17, 0, &[1, 2, 3, 4, 5, 6]),
            record(AF_INET, 24, &[10, 9, 8, 7]),
            AddressRecord { family: AF_INET, prefix_len: 24, address: None },
            record(AF_INET, 24, &[10, 9, 8]),
            record(AF_INET6, 64, &[10, 9, 8, 7]),
            record(AF_INET6, 64, &LINK_LOCAL6),
        ],
    };
    let host = Host::new(vec![link]).unwrap();
    assert_eq!(
        all_addresses(&host).unwrap(),
        vec![IpNetwork::V4(v4([10, 9, 8, 7], 24)), IpNetwork::V6(v6(LINK_LOCAL6, 64))]
    );
}

#[test]
fn link_without_records_is_found_and_empty() {
    let bare = Link { index: 4, name: String::from("tun0"), records: Vec::new() };
    let host = Host::new(vec![bare]).unwrap();
    assert_eq!(addresses(String::from("tun0"), &host).unwrap(), Vec::new());
    assert_eq!(all_addresses(&host).unwrap(), Vec::new());
    assert_eq!(all_plain_addresses(&host).unwrap(), Vec::new());
}

#[test]
fn host_without_links_has_no_networks() {
    let empty = Host::new(Vec::new()).unwrap();
    assert_eq!(all_addresses(&empty).unwrap(), Vec::new());
    assert_eq!(all_ipv4_addresses(&empty).unwrap(), Vec::new());
    assert_eq!(all_ipv6_addresses(&empty).unwrap(), Vec::new());
}

#[test]
fn plain_addresses_of_host_without_links_fail() {
    let empty = Host::new(Vec::new()).unwrap();
    assert!(matches!(all_plain_addresses(&empty), Err(Error::LinkNotFound(None))));
}

#[test]
fn family_projections_keep_order() {
    assert_eq!(
        all_ipv4_addresses(&host()).unwrap(),
        vec![v4([127, 0, 0, 1], 8), v4([192, 168, 1, 10], 24), v4([10, 0, 0, 1], 32)]
    );
    assert_eq!(
        all_ipv6_addresses(&host()).unwrap(),
        vec![v6(LOOPBACK6, 128), v6(LINK_LOCAL6, 64)]
    );
    assert_eq!(
        ipv4_addresses(String::from("eth0"), &host()).unwrap(),
        vec![v4([192, 168, 1, 10], 24), v4([10, 0, 0, 1], 32)]
    );
    assert_eq!(ipv6_addresses(String::from("eth0"), &host()).unwrap(), vec![v6(LINK_LOCAL6, 64)]);
}

#[test]
fn plain_addresses_drop_the_prefix() {
    assert_eq!(
        plain_addresses(String::from("lo"), &host()).unwrap(),
        vec![IpAddress::V4([127, 0, 0, 1]), IpAddress::V6(LOOPBACK6)]
    );
    assert_eq!(
        all_plain_addresses(&host()).unwrap(),
        vec![
            IpAddress::V4([127, 0, 0, 1]),
            IpAddress::V6(LOOPBACK6),
            IpAddress::V6(LINK_LOCAL6),
            IpAddress::V4([192, 168, 1, 10]),
            IpAddress::V4([10, 0, 0, 1]),
        ]
    );
}

#[test]
fn host_refuses_a_prefix_longer_than_the_address() {
    let bad4 = Link {
        index: 1,
        name: String::from("lo"),
        records: vec![record(AF_INET, 8, &[127, 0, 0, 1]), record(AF_INET, 33, &[127, 0, 0, 1])],
    };
    assert!(!bad4.has_valid_prefixes());
    assert_eq!(Host::new(vec![lo(), bad4]), None);

    let bad6 = Link {
        index: 1,
        name: String::from("lo"),
        records: vec![record(AF_INET6, 129, &LOOPBACK6)],
    };
    assert!(!bad6.has_valid_prefixes());
    assert_eq!(Host::new(vec![bad6, eth0()]), None);

    let unread = Link {
        index: 1,
        name: String::from("lo"),
        records: vec![record(AF_INET, 200, &[127, 0, 0]), record(99, 255, &LOOPBACK6)],
    };
    assert!(unread.has_valid_prefixes());
    let host = Host::new(vec![unread]).unwrap();
    assert_eq!(all_addresses(&host).unwrap(), Vec::new());
}

#[test]
fn host_hands_its_links_back() {
    let host = host();
    assert_eq!(host.links(), &vec![lo(), eth0()]);
    assert!(host.links()[0].answers(&None));
    assert!(host.links()[0].answers(&Some(String::from("lo"))));
    assert!(!host.links()[0].answers(&Some(String::from("eth0"))));
}
