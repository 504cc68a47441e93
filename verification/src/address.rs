//! Addresses of QUIC endpoints.
//!
//! A transport address is a layered address of exactly three parts: an IPv4 or IPv6
//! address, a UDP port, and the QUIC marker. Layered addresses are kept in
//! `libp2p_core::Multiaddr`; what such an address holds has a name here, and the rules on
//! it are stated over that name.

use vstd::prelude::*;
use vstd::pervasive::unreached;

verus! {

/// An IP address, as the number that its bytes spell in network order.
#[derive(Clone, Copy, Debug, PartialEq, Eq, Structural)]
pub enum IpAddress {
    /// An IPv4 address.
    V4(u32),
    /// An IPv6 address.
    V6(u128),
}

/// An IP address with a UDP port.
#[derive(Clone, Copy, Debug, PartialEq, Eq, Structural)]
pub struct SocketAddress {
    /// The IP address.
    pub ip: IpAddress,
    /// The UDP port.
    pub port: u16,
}

/// One part of a layered address.
#[derive(Clone, Copy, Debug, PartialEq, Eq, Structural)]
pub enum Protocol {
    /// An IPv4 address.
    Ip4(u32),
    /// An IPv6 address.
    Ip6(u128),
    /// A TCP port.
    Tcp(u16),
    /// A UDP port.
    Udp(u16),
    /// The QUIC marker.
    Quic,
    /// Any other part.
    Other,
}

/// A layered address.
#[verifier::external_type_specification]
#[verifier::external_body]
pub struct ExMultiaddr(libp2p_core::Multiaddr);

/// The parts of a layered address, outermost first.
pub uninterp spec fn multiaddr_protocols(addr: libp2p_core::Multiaddr) -> Seq<Protocol>;

/// Walks a layered address with `Multiaddr::iter` and tells the parts apart.
///
/// Trusted: the parts handed out are the contents of the address.
#[verifier::external_body]
pub(crate) fn protocols_of(addr: &libp2p_core::Multiaddr) -> (parts: Vec<Protocol>)
    ensures
        parts@ == multiaddr_protocols(*addr),
{
    addr.iter().map(|part| match part {
        libp2p_core::multiaddr::Protocol::Ip4(ip) => Protocol::Ip4(ip.into()),
        libp2p_core::multiaddr::Protocol::Ip6(ip) => Protocol::Ip6(ip.into()),
        libp2p_core::multiaddr::Protocol::Tcp(port) => Protocol::Tcp(port),
        libp2p_core::multiaddr::Protocol::Udp(port) => Protocol::Udp(port),
        libp2p_core::multiaddr::Protocol::Quic => Protocol::Quic,
        _ => Protocol::Other,
    }).collect()
}

/// Collects parts into a layered address; a list with an `Other` part has none.
///
/// Trusted: an address built from parts holds those parts in their order.
#[verifier::external_body]
pub(crate) fn multiaddr_of(parts: &Vec<Protocol>) -> (addr: Option<libp2p_core::Multiaddr>)
    ensures
        addr.is_some() == (forall|i: int| 0 <= i < parts@.len() ==> !(parts@[i] is Other)),
        addr.is_some() ==> multiaddr_protocols(addr.unwrap()) == parts@,
{
    parts.iter().map(|part| match *part {
        Protocol::Ip4(ip) => Some(libp2p_core::multiaddr::Protocol::Ip4(ip.into())),
        Protocol::Ip6(ip) => Some(libp2p_core::multiaddr::Protocol::Ip6(ip.into())),
        Protocol::Tcp(port) => Some(libp2p_core::multiaddr::Protocol::Tcp(port)),
        Protocol::Udp(port) => Some(libp2p_core::multiaddr::Protocol::Udp(port)),
        Protocol::Quic => Some(libp2p_core::multiaddr::Protocol::Quic),
        Protocol::Other => None,
    }).collect()
}

impl IpAddress {
    /// Whether this is the wildcard address of its family.
    pub open spec fn unspecified(self) -> bool {
        match self {
            IpAddress::V4(bits) => bits == 0,
            IpAddress::V6(bits) => bits == 0,
        }
    }

    /// Whether this is the wildcard address of its family.
    pub fn is_unspecified(&self) -> (wildcard: bool)
        ensures
            wildcard == self.unspecified(),
    {
        match self {
            IpAddress::V4(bits) => *bits == 0,
            IpAddress::V6(bits) => *bits == 0,
        }
    }

    /// Whether both addresses are of one family.
    pub open spec fn same_family(self, other: IpAddress) -> bool {
        (self is V4) == (other is V4)
    }

    /// Whether both addresses are of one family.
    pub fn is_same_family(&self, other: &IpAddress) -> (same: bool)
        ensures
            same == self.same_family(*other),
    {
        match (self, other) {
            (IpAddress::V4(_), IpAddress::V4(_)) => true,
            (IpAddress::V6(_), IpAddress::V6(_)) => true,
            _ => false,
        }
    }

    /// The part of a layered address that holds this address.
    pub open spec fn protocol(self) -> Protocol {
        match self {
            IpAddress::V4(bits) => Protocol::Ip4(bits),
            IpAddress::V6(bits) => Protocol::Ip6(bits),
        }
    }
}

impl SocketAddress {
    /// Whether the address names one endpoint: neither a wildcard address nor port zero.
    pub open spec fn concrete(self) -> bool {
        !self.ip.unspecified() && self.port != 0
    }

    /// Whether the address names one endpoint: neither a wildcard address nor port zero.
    pub fn is_concrete(&self) -> (concrete: bool)
        ensures
            concrete == self.concrete(),
    {
        !self.ip.is_unspecified() && self.port != 0
    }

    /// The parts of the layered address of this endpoint.
    pub open spec fn protocols(self) -> Seq<Protocol> {
        seq![self.ip.protocol(), Protocol::Udp(self.port), Protocol::Quic]
    }
}

/// The endpoint that a list of parts names: the list must be an IP address, a UDP port and
/// the QUIC marker, and nothing else.
pub open spec fn socket_address_of(parts: Seq<Protocol>) -> Option<SocketAddress> {
    if parts.len() != 3 {
        None
    } else {
        match (parts[0], parts[1], parts[2]) {
            (Protocol::Ip4(bits), Protocol::Udp(port), Protocol::Quic) => Some(
                SocketAddress { ip: IpAddress::V4(bits), port: port },
            ),
            (Protocol::Ip6(bits), Protocol::Udp(port), Protocol::Quic) => Some(
                SocketAddress { ip: IpAddress::V6(bits), port: port },
            ),
            _ => None,
        }
    }
}

/// The parts of an endpoint's address name that endpoint.
pub proof fn lemma_socket_address_round_trip(addr: SocketAddress)
    ensures
        socket_address_of(addr.protocols()) == Some(addr),
{
}

/// A list of parts that names an endpoint is the list of that endpoint's address: an
/// endpoint has one address only.
pub proof fn lemma_socket_address_unique(parts: Seq<Protocol>)
    requires
        socket_address_of(parts).is_some(),
    ensures
        parts == socket_address_of(parts).unwrap().protocols(),
{
    assert(parts =~= socket_address_of(parts).unwrap().protocols());
}

/// Reads the endpoint that a list of parts names.
pub fn socket_address_from_parts(parts: &[Protocol]) -> (r: Result<SocketAddress, ()>)
    ensures
        match r {
            Ok(addr) => socket_address_of(parts@) == Some(addr),
            Err(_) => socket_address_of(parts@).is_none(),
        },
{
    if parts.len() != 3 {
        return Err(());
    }
    match (parts[0], parts[1], parts[2]) {
        (Protocol::Ip4(bits), Protocol::Udp(port), Protocol::Quic) => Ok(
            SocketAddress { ip: IpAddress::V4(bits), port },
        ),
        (Protocol::Ip6(bits), Protocol::Udp(port), Protocol::Quic) => Ok(
            SocketAddress { ip: IpAddress::V6(bits), port },
        ),
        _ => Err(()),
    }
}

/// Reads the endpoint that a layered address names.
pub fn multiaddr_to_socketaddr(addr: &libp2p_core::Multiaddr) -> (r: Result<SocketAddress, ()>)
    ensures
        match r {
            Ok(socket) => socket_address_of(multiaddr_protocols(*addr)) == Some(socket),
            Err(_) => socket_address_of(multiaddr_protocols(*addr)).is_none(),
        },
{
    let parts: Vec<Protocol> = protocols_of(addr);
    socket_address_from_parts(parts.as_slice())
}

/// The layered address of an endpoint.
pub fn socketaddr_to_multiaddr(socket: &SocketAddress) -> (addr: libp2p_core::Multiaddr)
    ensures
        multiaddr_protocols(addr) == socket.protocols(),
        socket_address_of(multiaddr_protocols(addr)) == Some(*socket),
{
    let ip: Protocol = match socket.ip {
        IpAddress::V4(bits) => Protocol::Ip4(bits),
        IpAddress::V6(bits) => Protocol::Ip6(bits),
    };
    let mut parts: Vec<Protocol> = Vec::new();
    parts.push(ip);
    parts.push(Protocol::Udp(socket.port));
    parts.push(Protocol::Quic);
    assert(parts@ =~= socket.protocols());
    match multiaddr_of(&parts) {
        Some(addr) => addr,
        None => unreached(),
    }
}

} // verus!
