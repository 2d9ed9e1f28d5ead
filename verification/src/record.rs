//! Address records as the kernel reports them, and how one is read.

use vstd::prelude::*;
use crate::network::{
    IpNetView, IpNetwork, Ipv4Network, Ipv6Network, NetView, PrefixTooLong, MAX_V4_PREFIX_LEN,
    MAX_V6_PREFIX_LEN,
};

verus! {

/// The address-family tag of IPv4.
pub const AF_INET: u8 = 2;

/// The address-family tag of IPv6.
pub const AF_INET6: u8 = 10;

/// The number of octets of an IPv4 address.
pub const V4_ADDRESS_LEN: usize = 4;

/// The number of octets of an IPv6 address.
pub const V6_ADDRESS_LEN: usize = 16;

/// The family that a tag names.
#[derive(Clone, Copy, Debug, PartialEq, Eq)]
pub enum AddressFamily {
    Inet,
    Inet6,
    Unsupported,
}

/// The family that `tag` names.
pub open spec fn family_of(tag: u8) -> AddressFamily {
    if tag == AF_INET {
        AddressFamily::Inet
    } else if tag == AF_INET6 {
        AddressFamily::Inet6
    } else {
        AddressFamily::Unsupported
    }
}

impl AddressFamily {
    /// Reads an address-family tag.
    pub fn from_tag(tag: u8) -> (family: AddressFamily)
        ensures
            family == family_of(tag),
    {
        if tag == AF_INET {
            AddressFamily::Inet
        } else if tag == AF_INET6 {
            AddressFamily::Inet6
        } else {
            AddressFamily::Unsupported
        }
    }
}

/// One address bound to a link, as received: nothing in it has been checked.
#[derive(Clone, Debug, PartialEq, Eq)]
pub struct AddressRecord {
    /// The address-family tag.
    pub family: u8,
    /// The length of the prefix, in bits.
    pub prefix_len: u8,
    /// The payload of the address attribute, where the record has one.
    pub address: Option<Vec<u8>>,
}

/// What an [`AddressRecord`] holds.
pub struct RecordView {
    pub family: u8,
    pub prefix_len: u8,
    pub address: Option<Seq<u8>>,
}

impl View for AddressRecord {
    type V = RecordView;

    open spec fn view(&self) -> RecordView {
        RecordView {
            family: self.family,
            prefix_len: self.prefix_len,
            address: match self.address {
                Some(bytes) => Some(bytes@),
                None => None,
            },
        }
    }
}

impl DeepView for AddressRecord {
    type V = RecordView;

    open spec fn deep_view(&self) -> RecordView {
        self@
    }
}

/// The family in which the payload of `rec` can be read: the one that the tag
/// names, where the payload is there and has exactly that family's length.
pub open spec fn readable_as(rec: RecordView) -> AddressFamily {
    match rec.address {
        Some(bytes) => match family_of(rec.family) {
            AddressFamily::Inet => if bytes.len() == V4_ADDRESS_LEN {
                AddressFamily::Inet
            } else {
                AddressFamily::Unsupported
            },
            AddressFamily::Inet6 => if bytes.len() == V6_ADDRESS_LEN {
                AddressFamily::Inet6
            } else {
                AddressFamily::Unsupported
            },
            AddressFamily::Unsupported => AddressFamily::Unsupported,
        },
        None => AddressFamily::Unsupported,
    }
}

/// Whether a network can be made of `rec`: a record that can be read has a
/// prefix no longer than its family's addresses.
pub open spec fn prefix_fits(rec: RecordView) -> bool {
    match readable_as(rec) {
        AddressFamily::Inet => rec.prefix_len <= MAX_V4_PREFIX_LEN,
        AddressFamily::Inet6 => rec.prefix_len <= MAX_V6_PREFIX_LEN,
        AddressFamily::Unsupported => true,
    }
}

/// The network that `rec` describes: its payload and its prefix length as they
/// are, in the family in which the payload can be read; none where it cannot.
pub open spec fn decoded(rec: RecordView) -> Option<IpNetView> {
    match readable_as(rec) {
        AddressFamily::Inet => Some(
            IpNetView::V4(NetView { octets: rec.address->0, prefix_len: rec.prefix_len }),
        ),
        AddressFamily::Inet6 => Some(
            IpNetView::V6(NetView { octets: rec.address->0, prefix_len: rec.prefix_len }),
        ),
        AddressFamily::Unsupported => None,
    }
}

impl AddressRecord {
    /// Whether [`decode_address`] accepts the record's prefix length.
    pub fn has_valid_prefix(&self) -> (fits: bool)
        ensures
            fits == prefix_fits(self@),
    {
        match &self.address {
            Some(bytes) => match AddressFamily::from_tag(self.family) {
                AddressFamily::Inet => bytes.len() != V4_ADDRESS_LEN
                    || self.prefix_len <= MAX_V4_PREFIX_LEN,
                AddressFamily::Inet6 => bytes.len() != V6_ADDRESS_LEN
                    || self.prefix_len <= MAX_V6_PREFIX_LEN,
                AddressFamily::Unsupported => true,
            },
            None => true,
        }
    }
}

/// Reads one address record.
///
/// A record whose tag names IPv4 and whose payload has 4 octets is an IPv4
/// network, one whose tag names IPv6 and whose payload has 16 octets an IPv6
/// network; the octets and the prefix length are taken as they are. Every
/// other record is `None`, whatever its prefix length. A prefix longer than the
/// address is refused, as the network's constructor refuses it.
pub fn decode_address(record: &AddressRecord) -> (r: Result<Option<IpNetwork>, PrefixTooLong>)
    ensures
        r is Ok <==> prefix_fits(record@),
        r matches Ok(net) ==> net.deep_view() == decoded(record@),
        record@.address matches Some(bytes) ==> (bytes.len() != 4 && bytes.len() != 16 ==> r
            == Ok::<Option<IpNetwork>, PrefixTooLong>(None)),
        record@.address matches Some(bytes) ==> (record@.family == AF_INET && bytes.len() == 4
            && record@.prefix_len <= 32 ==> (r matches Ok(Some(IpNetwork::V4(net))) && net@
            == (NetView { octets: bytes, prefix_len: record@.prefix_len }))),
        record@.address matches Some(bytes) ==> (record@.family == AF_INET6 && bytes.len() == 16
            && record@.prefix_len <= 128 ==> (r matches Ok(Some(IpNetwork::V6(net))) && net@
            == (NetView { octets: bytes, prefix_len: record@.prefix_len }))),
{
    let bytes = match &record.address {
        Some(bytes) => bytes,
        None => {
            return Ok(None);
        },
    };
    match AddressFamily::from_tag(record.family) {
        AddressFamily::Inet => {
            if bytes.len() != V4_ADDRESS_LEN {
                return Ok(None);
            }
            let octets: [u8; 4] = [bytes[0], bytes[1], bytes[2], bytes[3]];
            assert(octets@ =~= bytes@);
            match Ipv4Network::new(octets, record.prefix_len) {
                Ok(net) => Ok(Some(IpNetwork::V4(net))),
                Err(e) => Err(e),
            }
        },
        AddressFamily::Inet6 => {
            if bytes.len() != V6_ADDRESS_LEN {
                return Ok(None);
            }
            let octets: [u8; 16] = [
                bytes[0],
                bytes[1],
                bytes[2],
                bytes[3],
                bytes[4],
                bytes[5],
                bytes[6],
                bytes[7],
                bytes[8],
                bytes[9],
                bytes[10],
                bytes[11],
                bytes[12],
                bytes[13],
                bytes[14],
                bytes[15],
            ];
            assert(octets@ =~= bytes@);
            match Ipv6Network::new(octets, record.prefix_len) {
                Ok(net) => Ok(Some(IpNetwork::V6(net))),
                Err(e) => Err(e),
            }
        },
        AddressFamily::Unsupported => Ok(None),
    }
}

} // verus!
