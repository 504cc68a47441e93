//! The decisions of a QUIC endpoint: where to bind, whom to dial, which addresses to
//! announce, and what each poll of a listener yields.
//!
//! Sockets and handshakes are not touched here. The one who owns the socket asks these
//! functions what to do, does it, and hands back what happened.

use vstd::prelude::*;
use crate::address::{
    multiaddr_protocols,
    multiaddr_to_socketaddr,
    socket_address_of,
    socketaddr_to_multiaddr,
    IpAddress,
    Protocol,
    SocketAddress,
};
use crate::binder::{certifies, ConfigError};
use crate::identity::public_key_of;
use crate::config::{make_tls_config, ClientSettings, ServerSettings};

verus! {

/// Why a connection ended.
#[derive(Clone, Copy, Debug, PartialEq, Eq, Structural)]
pub enum ConnectionError {
    /// The peer does not speak a version of the protocol that this endpoint speaks.
    VersionMismatch,
    /// The peer broke the protocol.
    TransportError,
    /// The peer's transport closed the connection.
    ConnectionClosed,
    /// The peer's application closed the connection.
    ApplicationClosed,
    /// The peer lost its state of the connection.
    Reset,
    /// The peer did not answer in time.
    TimedOut,
    /// The connection was closed on this side.
    LocallyClosed,
    /// The connection ran out of connection identifiers.
    CidsExhausted,
}

/// Why an endpoint cannot be used.
#[derive(Clone, Copy, Debug, PartialEq, Eq, Structural)]
pub enum EndpointError {
    /// The target can never be connected to: no I/O was tried.
    ConnectionRefused,
    /// The socket failed.
    Socket,
    /// The listener would be reachable under no address.
    Unreachable,
}

/// Why an outbound connection could not be started.
#[derive(Clone, Copy, Debug, PartialEq, Eq, Structural)]
pub enum ConnectError {
    /// The endpoint is shutting down.
    EndpointStopping,
    /// The endpoint ran out of connection identifiers.
    CidsExhausted,
    /// The name given for the server is not valid.
    InvalidServerName,
    /// The remote address is not valid.
    InvalidRemoteAddress,
    /// The endpoint has no client configuration.
    NoDefaultClientConfig,
    /// The endpoint does not speak the version asked for.
    UnsupportedVersion,
}

/// An error in the QUIC transport.
#[derive(Clone, Copy, Debug, PartialEq, Eq, Structural)]
pub enum QuicError {
    /// The endpoint failed.
    EndpointError(EndpointError),
    /// An established or pending connection failed.
    ConnectionError(ConnectionError),
    /// An outbound connection could not be started.
    ConnectError(ConnectError),
}

/// Why listening or dialing is refused.
#[derive(Debug)]
pub enum TransportError {
    /// The address does not name a QUIC endpoint; it is handed back.
    MultiaddrNotSupported(libp2p_core::Multiaddr),
    /// Any other failure.
    Other(QuicError),
}

/// What to do to dial a remote endpoint.
#[derive(Clone, Copy, Debug, PartialEq, Eq, Structural)]
pub struct DialPlan {
    /// The local address to bind: the IPv6 wildcard with a port of the system's choice.
    pub local: SocketAddress,
    /// The remote endpoint to connect to.
    pub remote: SocketAddress,
}

/// An event of a listener.
#[derive(Debug)]
pub enum ListenerEvent {
    /// The listener is reachable under this address.
    NewAddress(libp2p_core::Multiaddr),
    /// A peer is connecting.
    Upgrade {
        /// The address of the peer.
        remote_addr: libp2p_core::Multiaddr,
        /// The address of the listener at which the peer arrived.
        local_addr: libp2p_core::Multiaddr,
    },
}

/// What polling the endpoint for incoming connections gave.
#[derive(Clone, Copy, Debug, PartialEq, Eq, Structural)]
pub enum IncomingPoll {
    /// Nothing yet.
    Pending,
    /// A peer is connecting.
    Connecting {
        /// The address of the peer.
        peer: SocketAddress,
        /// The local address at which the peer arrived, where the socket tells it.
        arrived: Option<IpAddress>,
    },
    /// The endpoint accepts no more connections.
    Closed,
}

/// What a poll of a listener yields.
#[derive(Debug)]
pub enum ListenerPoll {
    /// Nothing yet.
    Pending,
    /// An event.
    Ready(ListenerEvent),
    /// The listener has ended.
    Finished,
}

/// An event of a listener as mathematical values: each address by its parts.
pub enum ListenerEventModel {
    NewAddress(Seq<Protocol>),
    Upgrade { remote_addr: Seq<Protocol>, local_addr: Seq<Protocol> },
}

/// What a poll of a listener yields, as mathematical values.
pub enum ListenerPollModel {
    Pending,
    Ready(ListenerEventModel),
    Finished,
}

impl View for ListenerEvent {
    type V = ListenerEventModel;

    open spec fn view(&self) -> ListenerEventModel {
        match self {
            ListenerEvent::NewAddress(addr) => ListenerEventModel::NewAddress(
                multiaddr_protocols(*addr),
            ),
            ListenerEvent::Upgrade { remote_addr, local_addr } => ListenerEventModel::Upgrade {
                remote_addr: multiaddr_protocols(*remote_addr),
                local_addr: multiaddr_protocols(*local_addr),
            },
        }
    }
}

impl View for ListenerPoll {
    type V = ListenerPollModel;

    open spec fn view(&self) -> ListenerPollModel {
        match self {
            ListenerPoll::Pending => ListenerPollModel::Pending,
            ListenerPoll::Ready(event) => ListenerPollModel::Ready(event@),
            ListenerPoll::Finished => ListenerPollModel::Finished,
        }
    }
}

/// The configuration of a QUIC transport: the TLS settings of both roles.
#[derive(Clone, Debug)]
pub struct QuicConfig {
    /// The settings for outbound connections.
    pub client: ClientSettings,
    /// The settings for inbound connections.
    pub server: ServerSettings,
}

/// A listener: the address that it was asked to listen on, the addresses under which it is
/// reachable, and how many of them it has announced. Every listener is reachable under
/// one address at least, each of its addresses names one endpoint, and it announces them
/// all before it hands out a peer.
#[derive(Debug)]
pub struct QuicIncoming {
    addr: SocketAddress,
    announcements: Vec<SocketAddress>,
    announced: usize,
}

/// The local address that dialing binds.
pub open spec fn dial_local() -> SocketAddress {
    SocketAddress { ip: IpAddress::V6(0), port: 0 }
}

/// What dialing the endpoint named by `parts` comes to: a plan, or the reason for refusing.
/// `None` stands for an address that names no QUIC endpoint.
pub open spec fn dial_decision(parts: Seq<Protocol>) -> Option<
    Result<DialPlan, QuicError>,
> {
    match socket_address_of(parts) {
        None => None,
        Some(remote) => if remote.concrete() {
            Some(Ok(DialPlan { local: dial_local(), remote: remote }))
        } else {
            Some(Err(QuicError::EndpointError(EndpointError::ConnectionRefused)))
        },
    }
}

/// Whether a listener on the wildcard address `requested` is reachable under the host
/// address `ip`: the host address is no wildcard, and it is of the family of the socket.
pub open spec fn usable_host(requested: IpAddress, ip: IpAddress) -> bool {
    !ip.unspecified() && ip.same_family(requested)
}

/// The host addresses under which a listener on the wildcard address `requested` is
/// reachable, in their order.
pub open spec fn usable_hosts(requested: IpAddress, hosts: Seq<IpAddress>) -> Seq<IpAddress> {
    hosts.filter(|ip: IpAddress| usable_host(requested, ip))
}

/// The loopback address of the family of `ip`: 127.0.0.1 or ::1.
pub open spec fn loopback(ip: IpAddress) -> IpAddress {
    match ip {
        IpAddress::V4(_) => IpAddress::V4(0x7f00_0001),
        IpAddress::V6(_) => IpAddress::V6(1),
    }
}

/// The addresses under which a listener is reachable. `requested` is the address that it
/// was asked to listen on, `bound` the address that its socket was bound to, and `hosts`
/// the addresses of the host's interfaces as far as they are known.
///
/// A listener on a wildcard address is reachable under every usable host address of the
/// wildcard's family, and under the loopback address of that family where no such host
/// address is known; any other listener under the address requested. The port is the
/// one that the socket got. A socket without a port is reachable under no address.
pub open spec fn listen_addresses(
    requested: SocketAddress,
    bound: SocketAddress,
    hosts: Seq<IpAddress>,
) -> Seq<SocketAddress> {
    if bound.port == 0 {
        Seq::empty()
    } else if !requested.ip.unspecified() {
        seq![SocketAddress { ip: requested.ip, port: bound.port }]
    } else if usable_hosts(requested.ip, hosts).len() > 0 {
        usable_hosts(requested.ip, hosts).map_values(
            |ip: IpAddress| SocketAddress { ip: ip, port: bound.port },
        )
    } else {
        seq![SocketAddress { ip: loopback(requested.ip), port: bound.port }]
    }
}

/// The address of a listener at which a peer arrived. `requested` is the address that the
/// listener was asked to listen on, `addresses` are the addresses under which it is
/// reachable, and `arrived` is the local address of the connection where the socket tells
/// it.
///
/// A listener on one address is reached at that address. A listener on a wildcard address
/// is reached at the address that the socket tells, where that is a usable one, and else
/// counts as reached at the first of its addresses. The port is the listener's.
pub open spec fn upgrade_local(
    requested: SocketAddress,
    addresses: Seq<SocketAddress>,
    arrived: Option<IpAddress>,
) -> SocketAddress {
    if requested.ip.unspecified() && arrived.is_some() && usable_host(
        requested.ip,
        arrived.unwrap(),
    ) {
        SocketAddress { ip: arrived.unwrap(), port: addresses[0].port }
    } else {
        addresses[0]
    }
}

/// What a poll of a listener yields. `requested` is the address that the listener was
/// asked to listen on, `addresses` are the addresses under which it is reachable,
/// `pending` those that it still has to announce, and `incoming` is what polling the
/// endpoint gave.
///
/// Addresses are announced first, one with each poll. Only a listener that has none left
/// looks at the endpoint: a connecting peer becomes an upgrade with the peer's address and
/// the address of the listener at which it arrived.
pub open spec fn listener_poll(
    requested: SocketAddress,
    addresses: Seq<SocketAddress>,
    pending: Seq<SocketAddress>,
    incoming: IncomingPoll,
) -> ListenerPollModel {
    if pending.len() > 0 {
        ListenerPollModel::Ready(ListenerEventModel::NewAddress(pending[0].protocols()))
    } else {
        match incoming {
            IncomingPoll::Pending => ListenerPollModel::Pending,
            IncomingPoll::Closed => ListenerPollModel::Finished,
            IncomingPoll::Connecting { peer, arrived } => ListenerPollModel::Ready(
                ListenerEventModel::Upgrade {
                    remote_addr: peer.protocols(),
                    local_addr: upgrade_local(requested, addresses, arrived).protocols(),
                },
            ),
        }
    }
}

/// The addresses that a listener has left to announce after a poll.
pub open spec fn pending_after_poll(pending: Seq<SocketAddress>) -> Seq<SocketAddress> {
    if pending.len() > 0 {
        pending.subrange(1, pending.len() as int)
    } else {
        pending
    }
}

/// Whether the parts of a layered address name one QUIC endpoint: neither a wildcard
/// address nor port zero.
pub open spec fn names_one_endpoint(parts: Seq<Protocol>) -> bool {
    socket_address_of(parts).is_some() && socket_address_of(parts).unwrap().concrete()
}

impl ListenerPollModel {
    /// Whether every address of the listener that the poll shows names one endpoint: the
    /// address announced, or the local address of the upgrade.
    pub open spec fn shows_endpoints(self) -> bool {
        match self {
            ListenerPollModel::Ready(ListenerEventModel::NewAddress(addr)) => names_one_endpoint(
                addr,
            ),
            ListenerPollModel::Ready(
                ListenerEventModel::Upgrade { remote_addr, local_addr },
            ) => names_one_endpoint(local_addr),
            _ => true,
        }
    }
}

/// The parts of the layered address of an endpoint name that endpoint.
pub proof fn lemma_protocols_name_the_endpoint(addr: SocketAddress)
    ensures
        socket_address_of(addr.protocols()) == Some(addr),
{
}

/// Every address under which a listener is announced names one endpoint: no wildcard
/// address and no port zero is ever announced.
pub proof fn lemma_announcements_concrete(
    requested: SocketAddress,
    bound: SocketAddress,
    hosts: Seq<IpAddress>,
    i: int,
)
    requires
        0 <= i < listen_addresses(requested, bound, hosts).len(),
    ensures
        listen_addresses(requested, bound, hosts)[i].concrete(),
        listen_addresses(requested, bound, hosts)[i].port == bound.port,
{
    if requested.ip.unspecified() && usable_hosts(requested.ip, hosts).len() > 0 {
        let pred = |ip: IpAddress| usable_host(requested.ip, ip);
        hosts.lemma_filter_pred(pred, i);
    }
}

/// A listener on a wildcard address is announced under addresses of the wildcard's
/// family only.
pub proof fn lemma_announcements_of_one_family(
    requested: SocketAddress,
    bound: SocketAddress,
    hosts: Seq<IpAddress>,
    i: int,
)
    requires
        0 <= i < listen_addresses(requested, bound, hosts).len(),
    ensures
        listen_addresses(requested, bound, hosts)[i].ip.same_family(requested.ip),
{
    if requested.ip.unspecified() && usable_hosts(requested.ip, hosts).len() > 0 {
        let pred = |ip: IpAddress| usable_host(requested.ip, ip);
        hosts.lemma_filter_pred(pred, i);
    }
}

/// A listener whose socket was bound to a port has a first announcement, and it names one
/// endpoint, whether the listener was asked for a wildcard address, for port zero, or for
/// neither, and whatever is known of the host.
pub proof fn lemma_first_announcement(
    requested: SocketAddress,
    bound: SocketAddress,
    hosts: Seq<IpAddress>,
)
    requires
        bound.port != 0,
    ensures
        listen_addresses(requested, bound, hosts).len() > 0,
        listen_addresses(requested, bound, hosts)[0].concrete(),
{
    lemma_announcements_concrete(requested, bound, hosts, 0);
}

/// The first event of a listener whose socket was bound to a port is the announcement of
/// an address that names one endpoint, whatever the endpoint has to say at that time: no
/// peer is handed out before it.
pub proof fn lemma_first_event_is_an_announcement(
    requested: SocketAddress,
    bound: SocketAddress,
    hosts: Seq<IpAddress>,
    incoming: IncomingPoll,
)
    requires
        bound.port != 0,
    ensures
        listen_addresses(requested, bound, hosts).len() > 0,
        listen_addresses(requested, bound, hosts)[0].concrete(),
        listener_poll(
            requested,
            listen_addresses(requested, bound, hosts),
            listen_addresses(requested, bound, hosts),
            incoming,
        ) == ListenerPollModel::Ready(
            ListenerEventModel::NewAddress(
                listen_addresses(requested, bound, hosts)[0].protocols(),
            ),
        ),
{
    lemma_first_announcement(requested, bound, hosts);
}

/// While a listener has addresses left to announce, no poll hands out a peer, and none
/// ends the listener.
pub proof fn lemma_announcements_come_first(
    requested: SocketAddress,
    addresses: Seq<SocketAddress>,
    pending: Seq<SocketAddress>,
    incoming: IncomingPoll,
)
    requires
        pending.len() > 0,
    ensures
        listener_poll(requested, addresses, pending, incoming) is Ready,
        listener_poll(requested, addresses, pending, incoming)->Ready_0 is NewAddress,
        pending_after_poll(pending).len() == pending.len() - 1,
{
}

/// The local address of every upgrade names one endpoint: a peer is never shown a
/// wildcard address or port zero, whatever the listener was asked for. A listener that was
/// asked for one address is reached at that address, with the port that the socket got.
pub proof fn lemma_upgrade_names_one_endpoint(
    requested: SocketAddress,
    bound: SocketAddress,
    hosts: Seq<IpAddress>,
    arrived: Option<IpAddress>,
)
    requires
        bound.port != 0,
    ensures
        upgrade_local(requested, listen_addresses(requested, bound, hosts), arrived).concrete(),
        upgrade_local(requested, listen_addresses(requested, bound, hosts), arrived).port
            == bound.port,
        !requested.ip.unspecified() ==> upgrade_local(
            requested,
            listen_addresses(requested, bound, hosts),
            arrived,
        ) == (SocketAddress { ip: requested.ip, port: bound.port }),
{
    lemma_announcements_concrete(requested, bound, hosts, 0);
}

/// A target with a wildcard address or with port zero is never dialed: the decision is a
/// refusal, made before any socket exists.
pub proof fn lemma_dial_refuses_wildcards(parts: Seq<Protocol>)
    requires
        socket_address_of(parts).is_some(),
        socket_address_of(parts).unwrap().ip.unspecified() || socket_address_of(
            parts,
        ).unwrap().port == 0,
    ensures
        dial_decision(parts) == Some(
            Err::<DialPlan, QuicError>(QuicError::EndpointError(EndpointError::ConnectionRefused)),
        ),
{
}

/// Computes the addresses under which a listener is reachable.
pub fn compute_listen_addresses(
    requested: SocketAddress,
    bound: SocketAddress,
    hosts: &Vec<IpAddress>,
) -> (addresses: Vec<SocketAddress>)
    ensures
        addresses@ == listen_addresses(requested, bound, hosts@),
{
    let mut addresses: Vec<SocketAddress> = Vec::new();
    if bound.port == 0 {
        return addresses;
    }
    if !requested.ip.is_unspecified() {
        addresses.push(SocketAddress { ip: requested.ip, port: bound.port });
        assert(addresses@ =~= listen_addresses(requested, bound, hosts@));
        return addresses;
    }
    let ghost pred = |ip: IpAddress| usable_host(requested.ip, ip);
    let ghost make = |ip: IpAddress| SocketAddress { ip: ip, port: bound.port };
    let mut i: usize = 0;
    assert(hosts@.take(0) =~= Seq::<IpAddress>::empty());
    while i < hosts.len()
        invariant
            i <= hosts@.len(),
            pred == (|ip: IpAddress| usable_host(requested.ip, ip)),
            make == (|ip: IpAddress| SocketAddress { ip: ip, port: bound.port }),
            addresses@ == hosts@.take(i as int).filter(pred).map_values(make),
        decreases hosts@.len() - i,
    {
        let ip: IpAddress = hosts[i];
        proof {
            let before = hosts@.take(i as int);
            assert(hosts@.take(i as int + 1) =~= before.push(ip));
            before.lemma_filter_push(ip, pred);
        }
        if !ip.is_unspecified() && ip.is_same_family(&requested.ip) {
            addresses.push(SocketAddress { ip, port: bound.port });
            assert(addresses@ =~= hosts@.take(i as int + 1).filter(pred).map_values(make));
        }
        i += 1;
    }
    assert(hosts@.take(hosts@.len() as int) =~= hosts@);
    if addresses.len() == 0 {
        let ip: IpAddress = match requested.ip {
            IpAddress::V4(_) => IpAddress::V4(0x7f00_0001),
            IpAddress::V6(_) => IpAddress::V6(1),
        };
        addresses.push(SocketAddress { ip, port: bound.port });
        assert(addresses@ =~= listen_addresses(requested, bound, hosts@));
    }
    addresses
}

impl QuicConfig {
    /// Makes the configuration of `keypair`: a fresh session certificate and the settings
    /// of both roles for it. Both roles hold the same certificate and key under the pinned
    /// constraints, and the certificate is one that certifies the public key of `keypair`.
    pub fn new(keypair: &libp2p_identity::Keypair) -> (r: Result<QuicConfig, ConfigError>)
        ensures
            r.is_ok() ==> certifies(r.unwrap().client.certificate@, public_key_of(*keypair)),
            r.is_ok() ==> r.unwrap().client.is_for(
                r.unwrap().server.certificate@,
                r.unwrap().server.private_key@,
            ),
            r.is_ok() ==> r.unwrap().server.is_for(
                r.unwrap().client.certificate@,
                r.unwrap().client.private_key@,
            ),
    {
        match make_tls_config(keypair) {
            Ok((client, server)) => Ok(QuicConfig { client, server }),
            Err(e) => Err(e),
        }
    }

    /// Decides where to bind a listener for `addr`. An address that names no QUIC endpoint
    /// is handed back.
    pub fn listen_on(&self, addr: libp2p_core::Multiaddr) -> (r: Result<
        SocketAddress,
        TransportError,
    >)
        ensures
            match r {
                Ok(socket) => socket_address_of(multiaddr_protocols(addr)) == Some(socket),
                Err(TransportError::MultiaddrNotSupported(given)) => given == addr
                    && socket_address_of(multiaddr_protocols(addr)).is_none(),
                Err(TransportError::Other(_)) => false,
            },
    {
        match multiaddr_to_socketaddr(&addr) {
            Ok(socket) => Ok(socket),
            Err(_) => Err(TransportError::MultiaddrNotSupported(addr)),
        }
    }

    /// Decides how to dial `addr`. An address that names no QUIC endpoint is handed back; a
    /// wildcard address or port zero is refused at once; any other target is dialed from a
    /// socket bound to the IPv6 wildcard and a port of the system's choice.
    pub fn dial(&self, addr: libp2p_core::Multiaddr) -> (r: Result<DialPlan, TransportError>)
        ensures
            match r {
                Ok(plan) => dial_decision(multiaddr_protocols(addr)) == Some(
                    Ok::<DialPlan, QuicError>(plan),
                ),
                Err(TransportError::MultiaddrNotSupported(given)) => given == addr
                    && dial_decision(multiaddr_protocols(addr)).is_none(),
                Err(TransportError::Other(e)) => dial_decision(multiaddr_protocols(addr)) == Some(
                    Err::<DialPlan, QuicError>(e),
                ),
            },
    {
        let remote: SocketAddress = match multiaddr_to_socketaddr(&addr) {
            Ok(remote) => remote,
            Err(_) => { return Err(TransportError::MultiaddrNotSupported(addr)); },
        };
        if remote.port == 0 || remote.ip.is_unspecified() {
            return Err(
                TransportError::Other(QuicError::EndpointError(EndpointError::ConnectionRefused)),
            );
        }
        Ok(DialPlan { local: SocketAddress { ip: IpAddress::V6(0), port: 0 }, remote })
    }
}

impl QuicIncoming {
    /// The address that the listener was asked to listen on.
    pub closed spec fn local(&self) -> SocketAddress {
        self.addr
    }

    /// The addresses under which the listener is reachable, in the order in which it
    /// announces them.
    pub closed spec fn addresses(&self) -> Seq<SocketAddress> {
        self.announcements@
    }

    /// The addresses that the listener still has to announce, in their order.
    pub closed spec fn pending(&self) -> Seq<SocketAddress> {
        self.announcements@.subrange(self.announced as int, self.announcements@.len() as int)
    }

    /// The listener has an address, each of its addresses names one endpoint, and no more
    /// addresses were announced than there are.
    #[verifier::type_invariant]
    spec fn counted(&self) -> bool {
        &&& self.announcements@.len() > 0
        &&& self.announced <= self.announcements@.len()
        &&& forall|i: int|
            0 <= i < self.announcements@.len() ==> (#[trigger] self.announcements@[i]).concrete()
    }

    /// A listener that was asked to listen on `requested` and whose socket was bound to
    /// `bound`, on a host with the interface addresses `hosts`, as far as they are known.
    ///
    /// A listener whose socket has no port would be reachable under no address: it is
    /// refused. Every other listener starts with an address to announce.
    pub fn new(requested: SocketAddress, bound: SocketAddress, hosts: &Vec<IpAddress>) -> (r: Result<
        QuicIncoming,
        QuicError,
    >)
        ensures
            match r {
                Ok(listener) => {
                    &&& bound.port != 0
                    &&& listener.local() == requested
                    &&& listener.addresses() == listen_addresses(requested, bound, hosts@)
                    &&& listener.pending() == listener.addresses()
                    &&& listener.pending().len() > 0
                },
                Err(e) => {
                    &&& bound.port == 0
                    &&& e == QuicError::EndpointError(EndpointError::Unreachable)
                },
            },
    {
        let announcements = compute_listen_addresses(requested, bound, hosts);
        if announcements.len() == 0 {
            proof {
                if bound.port != 0 {
                    lemma_first_announcement(requested, bound, hosts@);
                }
            }
            return Err(QuicError::EndpointError(EndpointError::Unreachable));
        }
        assert(announcements@.subrange(0, announcements@.len() as int) =~= announcements@);
        assert forall|i: int| 0 <= i < announcements@.len() implies announcements@[i].concrete() by {
            lemma_announcements_concrete(requested, bound, hosts@, i);
        }
        Ok(QuicIncoming { addr: requested, announcements, announced: 0 })
    }

    /// Whether the listener has addresses left to announce. While it has, the endpoint is
    /// not to be polled: the next poll of the listener does not look at it.
    pub fn is_announcing(&self) -> (announcing: bool)
        ensures
            announcing == (self.pending().len() > 0),
    {
        proof {
            use_type_invariant(self);
        }
        self.announced < self.announcements.len()
    }

    /// Hands out the next address to announce, if one is left.
    pub fn poll_announcement(&mut self) -> (event: Option<ListenerEvent>)
        ensures
            final(self).local() == old(self).local(),
            final(self).addresses() == old(self).addresses(),
            final(self).pending() == pending_after_poll(old(self).pending()),
            match event {
                Some(announcement) => {
                    &&& old(self).pending().len() > 0
                    &&& old(self).pending()[0].concrete()
                    &&& announcement@ == ListenerEventModel::NewAddress(
                        old(self).pending()[0].protocols(),
                    )
                },
                None => old(self).pending().len() == 0,
            },
    {
        proof {
            use_type_invariant(&*self);
        }
        if self.announced < self.announcements.len() {
            let next: SocketAddress = self.announcements[self.announced];
            self.announced = self.announced + 1;
            assert(self.pending() =~= old(self).pending().subrange(
                1,
                old(self).pending().len() as int,
            ));
            Some(ListenerEvent::NewAddress(socketaddr_to_multiaddr(&next)))
        } else {
            None
        }
    }

    /// The address of the listener at which a peer arrived, given the local address of the
    /// connection where the socket tells it. It names one endpoint, whatever the listener
    /// was asked for.
    pub fn local_address(&self, arrived: Option<IpAddress>) -> (local: SocketAddress)
        ensures
            local == upgrade_local(self.local(), self.addresses(), arrived),
            local.concrete(),
    {
        proof {
            use_type_invariant(self);
        }
        let first: SocketAddress = self.announcements[0];
        match arrived {
            Some(ip) => {
                if self.addr.ip.is_unspecified() && !ip.is_unspecified() && ip.is_same_family(
                    &self.addr.ip,
                ) {
                    SocketAddress { ip, port: first.port }
                } else {
                    first
                }
            },
            None => first,
        }
    }

    /// One poll of the listener. `incoming` is what polling the endpoint gave.
    ///
    /// Addresses are announced first: while one is left, the poll yields it and passes
    /// over `incoming`, so that no peer is handed out before the listener's addresses are
    /// known. After that a connecting peer becomes an upgrade with the peer's address and
    /// the address of the listener at which it arrived. No address of the listener that a
    /// poll shows is a wildcard address or has port zero.
    pub fn poll_next(&mut self, incoming: IncomingPoll) -> (poll: ListenerPoll)
        ensures
            poll@ == listener_poll(
                old(self).local(),
                old(self).addresses(),
                old(self).pending(),
                incoming,
            ),
            poll@.shows_endpoints(),
            final(self).pending() == pending_after_poll(old(self).pending()),
            final(self).addresses() == old(self).addresses(),
            final(self).local() == old(self).local(),
    {
        match self.poll_announcement() {
            Some(announcement) => {
                proof {
                    lemma_protocols_name_the_endpoint(old(self).pending()[0]);
                }
                ListenerPoll::Ready(announcement)
            },
            None => match incoming {
                IncomingPoll::Pending => ListenerPoll::Pending,
                IncomingPoll::Closed => ListenerPoll::Finished,
                IncomingPoll::Connecting { peer, arrived } => {
                    let local: SocketAddress = self.local_address(arrived);
                    proof {
                        lemma_protocols_name_the_endpoint(local);
                    }
                    ListenerPoll::Ready(
                        ListenerEvent::Upgrade {
                            remote_addr: socketaddr_to_multiaddr(&peer),
                            local_addr: socketaddr_to_multiaddr(&local),
                        },
                    )
                },
            },
        }
    }
}

} // verus!
