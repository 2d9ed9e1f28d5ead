//! IP networks: an address together with a prefix length.

use vstd::prelude::*;

verus! {

/// The error of ipnet's constructors, carried from the call to the place where
/// it is mapped to [`PrefixTooLong`].
#[verifier::external_type_specification]
#[verifier::external_body]
pub struct ExIpnetPrefixLenError(ipnet::PrefixLenError);

/// The longest prefix of an IPv4 network.
pub const MAX_V4_PREFIX_LEN: u8 = 32;

/// The longest prefix of an IPv6 network.
pub const MAX_V6_PREFIX_LEN: u8 = 128;

/// A prefix length that is longer than the address it belongs to.
#[derive(Clone, Copy, Debug, PartialEq, Eq)]
pub struct PrefixTooLong;

/// What a network is made of: the octets of its address, most significant
/// first, and the length of its prefix in bits.
pub struct NetView {
    pub octets: Seq<u8>,
    pub prefix_len: u8,
}

/// An IPv4 address with a prefix length of at most 32 bits.
#[derive(Clone, Copy, Debug, PartialEq, Eq)]
pub struct Ipv4Network {
    octets: [u8; 4],
    prefix_len: u8,
}

/// `ipnet::Ipv4Net::new`, then `addr` and `prefix_len` of the network it made.
/// ipnet accepts a prefix length up to 32 and keeps the address and the prefix
/// length as they were given; anything longer is its `PrefixLenError`.
#[verifier::external_body]
fn ipnet_v4(octets: [u8; 4], prefix_len: u8) -> (r: Result<([u8; 4], u8), ipnet::PrefixLenError>)
    ensures
        r is Ok <==> prefix_len <= 32,
        r matches Ok(parts) ==> parts.0@ == octets@ && parts.1 == prefix_len,
{
    match ipnet::Ipv4Net::new(octets.into(), prefix_len) {
        Ok(net) => Ok((net.addr().octets(), net.prefix_len())),
        Err(e) => Err(e),
    }
}

impl View for Ipv4Network {
    type V = NetView;

    closed spec fn view(&self) -> NetView {
        NetView { octets: self.octets@, prefix_len: self.prefix_len }
    }
}

impl DeepView for Ipv4Network {
    type V = NetView;

    open spec fn deep_view(&self) -> NetView {
        self@
    }
}

impl Ipv4Network {
    #[verifier::type_invariant]
    spec fn well_formed(self) -> bool {
        self.prefix_len <= MAX_V4_PREFIX_LEN
    }

    /// Makes the network `octets/prefix_len`, or fails where the prefix is
    /// longer than 32 bits.
    pub fn new(octets: [u8; 4], prefix_len: u8) -> (r: Result<Ipv4Network, PrefixTooLong>)
        ensures
            r is Ok <==> prefix_len <= MAX_V4_PREFIX_LEN,
            r matches Ok(net) ==> net@ == (NetView { octets: octets@, prefix_len }),
    {
        match ipnet_v4(octets, prefix_len) {
            Ok(parts) => Ok(Ipv4Network { octets: parts.0, prefix_len: parts.1 }),
            Err(_) => Err(PrefixTooLong),
        }
    }

    /// The four octets of the address.
    pub fn octets(&self) -> (o: [u8; 4])
        ensures
            o@ == self@.octets,
    {
        self.octets
    }

    /// The length of the prefix, in bits.
    pub fn prefix_len(&self) -> (p: u8)
        ensures
            p == self@.prefix_len,
            p <= MAX_V4_PREFIX_LEN,
    {
        proof {
            use_type_invariant(self);
        }
        self.prefix_len
    }
}

/// An IPv6 address with a prefix length of at most 128 bits.
#[derive(Clone, Copy, Debug, PartialEq, Eq)]
pub struct Ipv6Network {
    octets: [u8; 16],
    prefix_len: u8,
}

/// `ipnet::Ipv6Net::new`, then `addr` and `prefix_len` of the network it made.
/// ipnet accepts a prefix length up to 128 and keeps the address and the prefix
/// length as they were given; anything longer is its `PrefixLenError`.
#[verifier::external_body]
fn ipnet_v6(octets: [u8; 16], prefix_len: u8) -> (r: Result<([u8; 16], u8), ipnet::PrefixLenError>)
    ensures
        r is Ok <==> prefix_len <= 128,
        r matches Ok(parts) ==> parts.0@ == octets@ && parts.1 == prefix_len,
{
    match ipnet::Ipv6Net::new(octets.into(), prefix_len) {
        Ok(net) => Ok((net.addr().octets(), net.prefix_len())),
        Err(e) => Err(e),
    }
}

impl View for Ipv6Network {
    type V = NetView;

    closed spec fn view(&self) -> NetView {
        NetView { octets: self.octets@, prefix_len: self.prefix_len }
    }
}

impl DeepView for Ipv6Network {
    type V = NetView;

    open spec fn deep_view(&self) -> NetView {
        self@
    }
}

impl Ipv6Network {
    #[verifier::type_invariant]
    spec fn well_formed(self) -> bool {
        self.prefix_len <= MAX_V6_PREFIX_LEN
    }

    /// Makes the network `octets/prefix_len`, or fails where the prefix is
    /// longer than 128 bits.
    pub fn new(octets: [u8; 16], prefix_len: u8) -> (r: Result<Ipv6Network, PrefixTooLong>)
        ensures
            r is Ok <==> prefix_len <= MAX_V6_PREFIX_LEN,
            r matches Ok(net) ==> net@ == (NetView { octets: octets@, prefix_len }),
    {
        match ipnet_v6(octets, prefix_len) {
            Ok(parts) => Ok(Ipv6Network { octets: parts.0, prefix_len: parts.1 }),
            Err(_) => Err(PrefixTooLong),
        }
    }

    /// The sixteen octets of the address.
    pub fn octets(&self) -> (o: [u8; 16])
        ensures
            o@ == self@.octets,
    {
        self.octets
    }

    /// The length of the prefix, in bits.
    pub fn prefix_len(&self) -> (p: u8)
        ensures
            p == self@.prefix_len,
            p <= MAX_V6_PREFIX_LEN,
    {
        proof {
            use_type_invariant(self);
        }
        self.prefix_len
    }
}

/// What an [`IpNetwork`] is made of.
pub enum IpNetView {
    V4(NetView),
    V6(NetView),
}

/// An IP network of either family.
#[derive(Clone, Copy, Debug, PartialEq, Eq)]
pub enum IpNetwork {
    V4(Ipv4Network),
    V6(Ipv6Network),
}

impl View for IpNetwork {
    type V = IpNetView;

    open spec fn view(&self) -> IpNetView {
        match *self {
            IpNetwork::V4(net) => IpNetView::V4(net@),
            IpNetwork::V6(net) => IpNetView::V6(net@),
        }
    }
}

impl DeepView for IpNetwork {
    type V = IpNetView;

    open spec fn deep_view(&self) -> IpNetView {
        self@
    }
}

/// The IPv4 network in `net`, if it is one.
pub open spec fn v4_part(net: IpNetView) -> Option<NetView> {
    match net {
        IpNetView::V4(v4) => Some(v4),
        IpNetView::V6(_) => None,
    }
}

/// The IPv6 network in `net`, if it is one.
pub open spec fn v6_part(net: IpNetView) -> Option<NetView> {
    match net {
        IpNetView::V4(_) => None,
        IpNetView::V6(v6) => Some(v6),
    }
}

/// The IPv4 networks of `nets`, in the order in which they stand there.
pub open spec fn v4_only(nets: Seq<IpNetView>) -> Seq<NetView> {
    nets.filter_map(|net: IpNetView| v4_part(net))
}

/// The IPv6 networks of `nets`, in the order in which they stand there.
pub open spec fn v6_only(nets: Seq<IpNetView>) -> Seq<NetView> {
    nets.filter_map(|net: IpNetView| v6_part(net))
}

/// Keeps the IPv4 networks of `nets` and their order.
pub fn ipv4_only(nets: &Vec<IpNetwork>) -> (out: Vec<Ipv4Network>)
    ensures
        out.deep_view() == v4_only(nets.deep_view()),
{
    let ghost all = nets.deep_view();
    let ghost part = |net: IpNetView| v4_part(net);
    let mut out: Vec<Ipv4Network> = Vec::new();
    let mut i: usize = 0;
    while i < nets.len()
        invariant
            i <= nets.len(),
            all == nets.deep_view(),
            part == (|net: IpNetView| v4_part(net)),
            out.deep_view() == all.take(i as int).filter_map(part),
        decreases nets.len() - i,
    {
        proof {
            all.lemma_filter_map_take_succ(part, i as int);
        }
        if let IpNetwork::V4(net) = nets[i] {
            out.push(net);
        }
        i += 1;
    }
    assert(all.take(nets.len() as int) =~= all);
    out
}

/// Keeps the IPv6 networks of `nets` and their order.
pub fn ipv6_only(nets: &Vec<IpNetwork>) -> (out: Vec<Ipv6Network>)
    ensures
        out.deep_view() == v6_only(nets.deep_view()),
{
    let ghost all = nets.deep_view();
    let ghost part = |net: IpNetView| v6_part(net);
    let mut out: Vec<Ipv6Network> = Vec::new();
    let mut i: usize = 0;
    while i < nets.len()
        invariant
            i <= nets.len(),
            all == nets.deep_view(),
            part == (|net: IpNetView| v6_part(net)),
            out.deep_view() == all.take(i as int).filter_map(part),
        decreases nets.len() - i,
    {
        proof {
            all.lemma_filter_map_take_succ(part, i as int);
        }
        if let IpNetwork::V6(net) = nets[i] {
            out.push(net);
        }
        i += 1;
    }
    assert(all.take(nets.len() as int) =~= all);
    out
}

/// What an [`IpAddress`] is made of: the octets of the address, most
/// significant first.
pub enum AddressView {
    V4(Seq<u8>),
    V6(Seq<u8>),
}

/// An IP address of either family, without a prefix.
#[derive(Clone, Copy, Debug, PartialEq, Eq)]
pub enum IpAddress {
    V4([u8; 4]),
    V6([u8; 16]),
}

impl View for IpAddress {
    type V = AddressView;

    open spec fn view(&self) -> AddressView {
        match *self {
            IpAddress::V4(octets) => AddressView::V4(octets@),
            IpAddress::V6(octets) => AddressView::V6(octets@),
        }
    }
}

impl DeepView for IpAddress {
    type V = AddressView;

    open spec fn deep_view(&self) -> AddressView {
        self@
    }
}

/// The address of `net`.
pub open spec fn address_of(net: IpNetView) -> AddressView {
    match net {
        IpNetView::V4(v4) => AddressView::V4(v4.octets),
        IpNetView::V6(v6) => AddressView::V6(v6.octets),
    }
}

/// The addresses of `nets`, one for each network and in the same order.
pub open spec fn addresses_of(nets: Seq<IpNetView>) -> Seq<AddressView> {
    Seq::new(nets.len(), |i: int| address_of(nets[i]))
}

impl IpNetwork {
    /// The address of the network.
    pub fn addr(&self) -> (address: IpAddress)
        ensures
            address@ == address_of(self@),
    {
        match self {
            IpNetwork::V4(net) => IpAddress::V4(net.octets()),
            IpNetwork::V6(net) => IpAddress::V6(net.octets()),
        }
    }

    /// The length of the prefix, in bits.
    pub fn prefix_len(&self) -> (p: u8)
        ensures
            p == match self@ {
                IpNetView::V4(v4) => v4.prefix_len,
                IpNetView::V6(v6) => v6.prefix_len,
            },
    {
        match self {
            IpNetwork::V4(net) => net.prefix_len(),
            IpNetwork::V6(net) => net.prefix_len(),
        }
    }
}

/// Takes the address of each network and drops its prefix.
pub fn without_prefix(nets: &Vec<IpNetwork>) -> (out: Vec<IpAddress>)
    ensures
        out.deep_view() == addresses_of(nets.deep_view()),
{
    let mut out: Vec<IpAddress> = Vec::new();
    let mut i: usize = 0;
    while i < nets.len()
        invariant
            i <= nets.len(),
            out.len() == i,
            forall|k: int| 0 <= k < i ==> (#[trigger] out[k])@ == address_of(nets[k]@),
        decreases nets.len() - i,
    {
        out.push(nets[i].addr());
        i += 1;
    }
    out
}

} // verus!
