use libp2p_core::multiaddr::Protocol as Part;
use libp2p_core::Multiaddr;
use libp2p_identity::Keypair;
use libp2p_quic::address::{
    multiaddr_to_socketaddr, socket_address_from_parts, socketaddr_to_multiaddr, IpAddress,
    Protocol, SocketAddress,
};
use libp2p_quic::transport::{
    compute_listen_addresses, DialPlan, EndpointError, IncomingPoll, ListenerEvent, ListenerPoll,
    QuicConfig, QuicError, QuicIncoming, TransportError,
};

fn v4(a: u8, b: u8, c: u8, d: u8, port: u16) -> SocketAddress {
    SocketAddress { ip: IpAddress::V4(u32::from_be_bytes([a, b, c, d])), port }
}

fn config() -> QuicConfig {
    QuicConfig::new(&Keypair::generate_ed25519()).unwrap()
}

fn first_address(listener: &mut QuicIncoming) -> Multiaddr {
    match listener.poll_next(IncomingPoll::Pending) {
        ListenerPoll::Ready(ListenerEvent::NewAddress(a)) => a,
        _ => panic!("NewAddress is the first event"),
    }
}

#[test]
fn multiaddr_to_quic_conversion() {
    assert!(multiaddr_to_socketaddr(&"/ip4/127.0.0.1/udp/1234".parse::<Multiaddr>().unwrap()).is_err());
    assert!(multiaddr_to_socketaddr(&"/ip4/127.0.0.1/tcp/12345".parse::<Multiaddr>().unwrap()).is_err());
    assert!(multiaddr_to_socketaddr(&"/ip4/127.0.0.1/tcp/12345/quic".parse::<Multiaddr>().unwrap()).is_err());
    assert!(multiaddr_to_socketaddr(&"/udp/1234/quic".parse::<Multiaddr>().unwrap()).is_err());
    assert!(multiaddr_to_socketaddr(&"/ip4/127.0.0.1/udp/1234/quic-v1".parse::<Multiaddr>().unwrap()).is_err());
    assert!(multiaddr_to_socketaddr(&Multiaddr::empty()).is_err());
    assert_eq!(
        multiaddr_to_socketaddr(&"/ip4/127.0.0.1/udp/12345/quic".parse::<Multiaddr>().unwrap()),
        Ok(v4(127, 0, 0, 1, 12345))
    );
    assert_eq!(
        multiaddr_to_socketaddr(&"/ip4/127.0.0.1/udp/12345/quic".parse::<Multiaddr>().unwrap()),
        Ok(SocketAddress { ip: IpAddress::V4(0x7f00_0001), port: 12345 })
    );
    assert_eq!(
        multiaddr_to_socketaddr(&"/ip4/255.255.255.255/udp/8080/quic".parse::<Multiaddr>().unwrap()),
        Ok(v4(255, 255, 255, 255, 8080))
    );
    assert_eq!(
        multiaddr_to_socketaddr(&"/ip6/::1/udp/12345/quic".parse::<Multiaddr>().unwrap()),
        Ok(SocketAddress { ip: IpAddress::V6(1), port: 12345 })
    );
    assert_eq!(
        multiaddr_to_socketaddr(
            &"/ip6/ffff:ffff:ffff:ffff:ffff:ffff:ffff:ffff/udp/8080/quic".parse::<Multiaddr>().unwrap()
        ),
        Ok(SocketAddress {
            ip: IpAddress::V6(u128::MAX),
            port: 8080
        })
    );
}

#[test]
fn socket_address_from_parts_exact_values() {
    assert_eq!(
        socket_address_from_parts(&[Protocol::Ip4(1), Protocol::Udp(2), Protocol::Quic]),
        Ok(SocketAddress { ip: IpAddress::V4(1), port: 2 })
    );
    assert_eq!(
        socket_address_from_parts(&[Protocol::Ip6(1), Protocol::Udp(2), Protocol::Quic]),
        Ok(SocketAddress { ip: IpAddress::V6(1), port: 2 })
    );
    assert!(socket_address_from_parts(&[]).is_err());
    assert!(socket_address_from_parts(&[Protocol::Ip4(1), Protocol::Udp(2)]).is_err());
    assert!(socket_address_from_parts(&[Protocol::Ip4(1), Protocol::Tcp(2), Protocol::Quic]).is_err());
    assert!(socket_address_from_parts(&[Protocol::Udp(2), Protocol::Ip4(1), Protocol::Quic]).is_err());
    assert!(socket_address_from_parts(&[Protocol::Ip4(1), Protocol::Udp(2), Protocol::Other]).is_err());
    assert!(socket_address_from_parts(&[
        Protocol::Ip4(1),
        Protocol::Udp(2),
        Protocol::Quic,
        Protocol::Quic
    ])
    .is_err());
}

#[test]
fn socket_address_round_trips_through_multiaddr() {
    for socket in [
        v4(10, 1, 2, 3, 4001),
        v4(0, 0, 0, 0, 0),
        SocketAddress { ip: IpAddress::V6(u128::MAX), port: 65535 },
        SocketAddress { ip: IpAddress::V6(0), port: 1 },
    ] {
        let addr = socketaddr_to_multiaddr(&socket);
        assert_eq!(multiaddr_to_socketaddr(&addr), Ok(socket));
    }
    assert_eq!(socketaddr_to_multiaddr(&v4(10, 1, 2, 3, 4001)).to_string(), "/ip4/10.1.2.3/udp/4001/quic");
    assert_eq!(
        socketaddr_to_multiaddr(&SocketAddress { ip: IpAddress::V6(1), port: 9 }),
        "/ip6/::1/udp/9/quic".parse::<Multiaddr>().unwrap()
    );
}

#[test]
fn dialing_a_wildcard_or_port_zero_is_refused_at_once() {
    let config = config();
    for target in [
        "/ip4/0.0.0.0/udp/1234/quic",
        "/ip6/::/udp/1234/quic",
        "/ip4/127.0.0.1/udp/0/quic",
        "/ip6/::1/udp/0/quic",
        "/ip4/0.0.0.0/udp/0/quic",
    ] {
        match config.dial(target.parse().unwrap()) {
            Err(TransportError::Other(e)) => {
                assert_eq!(e, QuicError::EndpointError(EndpointError::ConnectionRefused))
            }
            other => panic!("{} was not refused: {:?}", target, other),
        }
    }
}

#[test]
fn dialing_a_concrete_address_binds_the_wildcard() {
    let plan = config().dial("/ip4/127.0.0.1/udp/12345/quic".parse().unwrap()).unwrap();
    assert_eq!(
        plan,
        DialPlan {
            local: SocketAddress { ip: IpAddress::V6(0), port: 0 },
            remote: v4(127, 0, 0, 1, 12345)
        }
    );
}

#[test]
fn dialing_an_unsupported_address_hands_it_back() {
    let addr: Multiaddr = "/ip4/127.0.0.1/tcp/12345".parse().unwrap();
    match config().dial(addr.clone()) {
        Err(TransportError::MultiaddrNotSupported(given)) => assert_eq!(given, addr),
        other => panic!("unexpected: {:?}", other),
    }
    match config().listen_on(addr.clone()) {
        Err(TransportError::MultiaddrNotSupported(given)) => assert_eq!(given, addr),
        other => panic!("unexpected: {:?}", other),
    }
}

#[test]
fn listening_binds_the_address_asked_for() {
    assert_eq!(
        config().listen_on("/ip4/0.0.0.0/udp/0/quic".parse().unwrap()).unwrap(),
        v4(0, 0, 0, 0, 0)
    );
    assert_eq!(
        config().listen_on("/ip6/::1/udp/7/quic".parse().unwrap()).unwrap(),
        SocketAddress { ip: IpAddress::V6(1), port: 7 }
    );
}

#[test]
fn tests_wildcard_expansion() {
    let addr: Multiaddr = "/ip4/0.0.0.0/udp/1234/quic".parse().unwrap();
    let requested = config().listen_on(addr).expect("listener");
    let hosts = vec![
        IpAddress::V4(0),
        IpAddress::V4(u32::from_be_bytes([127, 0, 0, 1])),
        IpAddress::V4(u32::from_be_bytes([192, 168, 1, 7])),
    ];
    let mut listener = QuicIncoming::new(requested, v4(0, 0, 0, 0, 1234), &hosts).unwrap();
    let mut seen = 0;
    while listener.is_announcing() {
        match listener.poll_next(IncomingPoll::Connecting { peer: v4(10, 0, 0, 3, 5), arrived: None }) {
            ListenerPoll::Ready(ListenerEvent::NewAddress(a)) => {
                let mut iter = a.iter();
                match iter.next().expect("ip address") {
                    Part::Ip4(ip) => assert!(!ip.is_unspecified()),
                    Part::Ip6(ip) => assert!(!ip.is_unspecified()),
                    other => panic!("Unexpected protocol: {}", other),
                }
                if let Part::Udp(port) = iter.next().expect("port") {
                    assert_ne!(0, port)
                } else {
                    panic!("No UDP port in address: {}", a)
                }
                seen += 1;
            }
            _ => panic!("NewAddress is the first event"),
        }
    }
    assert_eq!(seen, 2);
}

#[test]
fn tests_replace_port_0_in_returned_multiaddr_ipv4() {
    let addr = "/ip4/127.0.0.1/udp/0/quic".parse::<Multiaddr>().unwrap();
    assert!(addr.to_string().ends_with("udp/0/quic"));
    let requested = config().listen_on(addr).expect("no error");
    let mut listener = QuicIncoming::new(requested, v4(127, 0, 0, 1, 40123), &vec![]).unwrap();
    let new_addr = first_address(&mut listener);
    assert!(!new_addr.to_string().contains("tcp/0"));
    assert!(!new_addr.to_string().contains("udp/0"));
    assert_eq!(new_addr.to_string(), "/ip4/127.0.0.1/udp/40123/quic");
    assert!(listener.poll_announcement().is_none());
}

#[test]
fn tests_replace_port_0_in_returned_multiaddr_ipv6() {
    let addr: Multiaddr = "/ip6/::1/udp/0/quic".parse().unwrap();
    assert!(addr.to_string().contains("udp/0/quic"));
    let requested = config().listen_on(addr).expect("no error");
    let bound = SocketAddress { ip: IpAddress::V6(1), port: 40124 };
    let mut listener = QuicIncoming::new(requested, bound, &vec![]).unwrap();
    let new_addr = first_address(&mut listener);
    assert!(!new_addr.to_string().contains("tcp/0"));
    assert_eq!(new_addr.to_string(), "/ip6/::1/udp/40124/quic");
}

#[test]
fn tests_larger_addr_denied() {
    let addr = "/ip4/127.0.0.1/tcp/12345/tcp/12345".parse::<Multiaddr>().unwrap();
    assert!(config().listen_on(addr).is_err())
}

#[test]
fn lib_larger_addr_denied() {
    let addr = "/ip4/127.0.0.1/tcp/12345/tcp/12345".parse::<Multiaddr>().unwrap();
    assert!(config().listen_on(addr.clone()).is_err());
    assert!(config().dial(addr).is_err());
    let longer = "/ip4/127.0.0.1/udp/12345/quic/udp/1".parse::<Multiaddr>().unwrap();
    assert!(config().listen_on(longer).is_err());
}

#[test]
fn listen_addresses_exact_values() {
    let hosts = vec![IpAddress::V4(7), IpAddress::V6(0), IpAddress::V6(9), IpAddress::V4(0)];
    let wildcard = v4(0, 0, 0, 0, 0);
    let bound = v4(0, 0, 0, 0, 5000);
    assert_eq!(
        compute_listen_addresses(wildcard, bound, &hosts),
        vec![SocketAddress { ip: IpAddress::V4(7), port: 5000 }]
    );
    let wildcard6 = SocketAddress { ip: IpAddress::V6(0), port: 0 };
    let bound6 = SocketAddress { ip: IpAddress::V6(0), port: 5001 };
    assert_eq!(
        compute_listen_addresses(wildcard6, bound6, &hosts),
        vec![SocketAddress { ip: IpAddress::V6(9), port: 5001 }]
    );
    // Where no usable host address is known, the loopback address of the family stands in.
    assert_eq!(
        compute_listen_addresses(wildcard6, bound6, &vec![IpAddress::V4(7)]),
        vec![SocketAddress { ip: IpAddress::V6(1), port: 5001 }]
    );
    assert_eq!(compute_listen_addresses(wildcard, bound, &vec![]), vec![v4(127, 0, 0, 1, 5000)]);
    assert_eq!(
        compute_listen_addresses(wildcard, bound, &vec![IpAddress::V4(0), IpAddress::V6(9)]),
        vec![v4(127, 0, 0, 1, 5000)]
    );
    assert_eq!(compute_listen_addresses(wildcard, wildcard, &hosts), vec![]);
    assert_eq!(
        compute_listen_addresses(v4(10, 0, 0, 1, 0), v4(10, 0, 0, 1, 6000), &hosts),
        vec![v4(10, 0, 0, 1, 6000)]
    );
    assert_eq!(
        compute_listen_addresses(v4(10, 0, 0, 1, 77), v4(10, 0, 0, 1, 77), &vec![]),
        vec![v4(10, 0, 0, 1, 77)]
    );
}

#[test]
fn listener_turns_incoming_connections_into_upgrades() {
    let requested = v4(0, 0, 0, 0, 0);
    let hosts = vec![IpAddress::V4(7), IpAddress::V4(8)];
    let mut listener = QuicIncoming::new(requested, v4(0, 0, 0, 0, 5000), &hosts).unwrap();
    assert!(listener.is_announcing());
    assert_eq!(first_address(&mut listener).to_string(), "/ip4/0.0.0.7/udp/5000/quic");
    assert_eq!(first_address(&mut listener).to_string(), "/ip4/0.0.0.8/udp/5000/quic");
    assert!(!listener.is_announcing());
    assert!(matches!(listener.poll_next(IncomingPoll::Pending), ListenerPoll::Pending));
    assert!(matches!(listener.poll_next(IncomingPoll::Closed), ListenerPoll::Finished));
    let peer = v4(192, 168, 0, 9, 4444);
    let local_of = |listener: &mut QuicIncoming, arrived: Option<IpAddress>| {
        match listener.poll_next(IncomingPoll::Connecting { peer, arrived }) {
            ListenerPoll::Ready(ListenerEvent::Upgrade { remote_addr, local_addr }) => {
                assert_eq!(remote_addr.to_string(), "/ip4/192.168.0.9/udp/4444/quic");
                local_addr.to_string()
            }
            other => panic!("unexpected: {:?}", other),
        }
    };
    // The address at which the peer arrived, where the socket tells a usable one.
    assert_eq!(local_of(&mut listener, Some(IpAddress::V4(8))), "/ip4/0.0.0.8/udp/5000/quic");
    assert_eq!(local_of(&mut listener, Some(IpAddress::V4(77))), "/ip4/0.0.0.77/udp/5000/quic");
    // Else the first address of the listener: never the wildcard, never port zero.
    assert_eq!(local_of(&mut listener, None), "/ip4/0.0.0.7/udp/5000/quic");
    assert_eq!(local_of(&mut listener, Some(IpAddress::V4(0))), "/ip4/0.0.0.7/udp/5000/quic");
    assert_eq!(local_of(&mut listener, Some(IpAddress::V6(5))), "/ip4/0.0.0.7/udp/5000/quic");
    assert_eq!(listener.local_address(None), SocketAddress { ip: IpAddress::V4(7), port: 5000 });
}

#[test]
fn upgrade_of_a_listener_on_port_zero_names_the_port_bound() {
    let mut listener =
        QuicIncoming::new(v4(127, 0, 0, 1, 0), v4(127, 0, 0, 1, 40123), &vec![IpAddress::V4(7)]).unwrap();
    assert_eq!(first_address(&mut listener).to_string(), "/ip4/127.0.0.1/udp/40123/quic");
    for arrived in [None, Some(IpAddress::V4(7)), Some(IpAddress::V4(0))] {
        match listener.poll_next(IncomingPoll::Connecting { peer: v4(10, 0, 0, 2, 9), arrived }) {
            ListenerPoll::Ready(ListenerEvent::Upgrade { remote_addr, local_addr }) => {
                assert_eq!(remote_addr.to_string(), "/ip4/10.0.0.2/udp/9/quic");
                assert_eq!(local_addr.to_string(), "/ip4/127.0.0.1/udp/40123/quic");
            }
            other => panic!("unexpected: {:?}", other),
        }
    }
}

#[test]
fn first_event_of_a_wildcard_listener_is_a_concrete_address() {
    let requested = v4(0, 0, 0, 0, 0);
    let hosts = vec![IpAddress::V6(1), IpAddress::V4(0), IpAddress::V4(7), IpAddress::V4(8)];
    let peer = v4(192, 168, 0, 9, 4444);
    let mut listener = QuicIncoming::new(requested, v4(0, 0, 0, 0, 5000), &hosts).unwrap();
    assert!(listener.is_announcing());
    match listener.poll_next(IncomingPoll::Connecting { peer, arrived: None }) {
        ListenerPoll::Ready(ListenerEvent::NewAddress(addr)) => {
            assert_eq!(addr.to_string(), "/ip4/0.0.0.7/udp/5000/quic");
        }
        other => panic!("unexpected: {:?}", other),
    }
    assert!(listener.is_announcing());
    match listener.poll_next(IncomingPoll::Closed) {
        ListenerPoll::Ready(ListenerEvent::NewAddress(addr)) => {
            assert_eq!(addr.to_string(), "/ip4/0.0.0.8/udp/5000/quic");
        }
        other => panic!("unexpected: {:?}", other),
    }
    assert!(!listener.is_announcing());
    assert!(listener.poll_announcement().is_none());
    match listener.poll_next(IncomingPoll::Connecting { peer, arrived: None }) {
        ListenerPoll::Ready(ListenerEvent::Upgrade { remote_addr, .. }) => {
            assert_eq!(remote_addr.to_string(), "/ip4/192.168.0.9/udp/4444/quic");
        }
        other => panic!("unexpected: {:?}", other),
    }
    assert!(matches!(listener.poll_next(IncomingPoll::Closed), ListenerPoll::Finished));
}

#[test]
fn wildcard_listener_on_an_unknown_host_announces_the_loopback_address() {
    let mut listener = QuicIncoming::new(v4(0, 0, 0, 0, 0), v4(0, 0, 0, 0, 5000), &vec![]).unwrap();
    assert_eq!(first_address(&mut listener).to_string(), "/ip4/127.0.0.1/udp/5000/quic");
    assert!(!listener.is_announcing());
    let wildcard6 = SocketAddress { ip: IpAddress::V6(0), port: 7 };
    let mut listener = QuicIncoming::new(wildcard6, wildcard6, &vec![IpAddress::V4(9)]).unwrap();
    assert_eq!(first_address(&mut listener).to_string(), "/ip6/::1/udp/7/quic");
    match listener.poll_next(IncomingPoll::Connecting { peer: wildcard6, arrived: None }) {
        ListenerPoll::Ready(ListenerEvent::Upgrade { local_addr, .. }) => {
            assert_eq!(local_addr.to_string(), "/ip6/::1/udp/7/quic");
        }
        other => panic!("unexpected: {:?}", other),
    }
}

#[test]
fn first_event_of_a_listener_on_port_zero_names_the_port_bound() {
    let mut listener = QuicIncoming::new(v4(127, 0, 0, 1, 0), v4(127, 0, 0, 1, 40125), &vec![]).unwrap();
    match listener.poll_next(IncomingPoll::Connecting { peer: v4(10, 0, 0, 2, 9), arrived: None }) {
        ListenerPoll::Ready(ListenerEvent::NewAddress(addr)) => {
            assert_eq!(addr.to_string(), "/ip4/127.0.0.1/udp/40125/quic");
        }
        other => panic!("unexpected: {:?}", other),
    }
    assert!(matches!(listener.poll_next(IncomingPoll::Pending), ListenerPoll::Pending));
}

#[test]
fn listener_without_a_port_is_refused() {
    let unreachable = QuicError::EndpointError(EndpointError::Unreachable);
    let wildcard = v4(0, 0, 0, 0, 0);
    assert_eq!(QuicIncoming::new(wildcard, wildcard, &vec![IpAddress::V4(7)]).unwrap_err(), unreachable);
    assert_eq!(
        QuicIncoming::new(v4(10, 0, 0, 1, 0), v4(10, 0, 0, 1, 0), &vec![IpAddress::V4(7)]).unwrap_err(),
        unreachable
    );
    assert!(QuicIncoming::new(v4(10, 0, 0, 1, 0), v4(10, 0, 0, 1, 9), &vec![]).is_ok());
    assert!(QuicIncoming::new(wildcard, v4(0, 0, 0, 0, 9), &vec![]).is_ok());
}
