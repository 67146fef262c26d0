use libredrop_android::host::{host_peer, HostError};
use libredrop_android::net::{
    discovery_endpoints, Endpoint, InterfaceAddr, Ipv4, DISCOVERY_PORT, LISTEN_PORT,
};
use libredrop_android::registry::{PeerRecord, PeerRegistry};
use libredrop_android::session::{
    DiscoveryError, DiscoverySession, EnumerationError, Phase, ProtocolEvent,
};

fn ip(a: u8, b: u8, c: u8, d: u8) -> Ipv4 {
    Ipv4 { a, b, c, d }
}

fn peer(key: &str, addr: &str) -> PeerRecord {
    PeerRecord { public_key: key.to_string(), ip: addr.to_string(), port: 6000 }
}

fn running_session() -> DiscoverySession {
    DiscoverySession::start(Ok(vec![InterfaceAddr::V4(ip(192, 168, 1, 5))])).unwrap()
}

fn keys(session: &DiscoverySession) -> Vec<String> {
    let registry = session.registry();
    (0..registry.len()).map(|i| registry.peer(i).public_key.clone()).collect()
}

#[test]
fn single_interface_with_loopback() {
    let interfaces = vec![
        InterfaceAddr::V4(ip(127, 0, 0, 1)),
        InterfaceAddr::V4(ip(192, 168, 1, 5)),
    ];
    let r = discovery_endpoints(&interfaces, 1234);
    assert_eq!(r, vec![Endpoint { ip: ip(192, 168, 1, 5), port: 1234 }]);
}

#[test]
fn ipv6_and_loopback_never_announced() {
    let interfaces = vec![
        InterfaceAddr::V6(1),
        InterfaceAddr::V4(ip(127, 1, 2, 3)),
        InterfaceAddr::V6(0xfe80_0000_0000_0000_0000_0000_0000_0001),
        InterfaceAddr::V4(ip(10, 0, 0, 7)),
        InterfaceAddr::V4(ip(172, 16, 0, 1)),
    ];
    let r = discovery_endpoints(&interfaces, 4000);
    assert_eq!(
        r,
        vec![
            Endpoint { ip: ip(10, 0, 0, 7), port: 4000 },
            Endpoint { ip: ip(172, 16, 0, 1), port: 4000 },
        ]
    );
}

#[test]
fn repeated_interface_address_collapses() {
    let interfaces = vec![
        InterfaceAddr::V4(ip(10, 0, 0, 7)),
        InterfaceAddr::V4(ip(10, 0, 0, 7)),
    ];
    let r = discovery_endpoints(&interfaces, 1234);
    assert_eq!(r, vec![Endpoint { ip: ip(10, 0, 0, 7), port: 1234 }]);
}

#[test]
fn no_interfaces_no_endpoints() {
    assert!(discovery_endpoints(&Vec::new(), 1234).is_empty());
}

#[test]
fn loopback_check() {
    assert!(ip(127, 0, 0, 1).is_loopback());
    assert!(ip(127, 255, 255, 255).is_loopback());
    assert!(!ip(128, 0, 0, 1).is_loopback());
    assert!(!ip(126, 0, 0, 1).is_loopback());
}

#[test]
fn ports() {
    assert_eq!(DISCOVERY_PORT, 1234);
    assert_eq!(LISTEN_PORT, 6000);
}

#[test]
fn start_announces_at_discovery_port() {
    let s = DiscoverySession::start(Ok(vec![
        InterfaceAddr::V4(ip(192, 168, 1, 5)),
        InterfaceAddr::V4(ip(127, 0, 0, 1)),
    ]))
    .unwrap();
    assert_eq!(s.addresses(), &vec![Endpoint { ip: ip(192, 168, 1, 5), port: 1234 }]);
    assert_eq!(s.registry().len(), 0);
    assert_eq!(s.phase(), Phase::Running);
    assert_eq!(s.outcome(), None);
}

#[test]
fn enumeration_failure_fails_start() {
    let r = DiscoverySession::start(Err(EnumerationError));
    assert_eq!(r.err(), Some(DiscoveryError::Enumeration));
}

#[test]
fn emitted_sets_register_in_order() {
    let mut s = running_session();
    let a = s.step(ProtocolEvent::PeerSet(vec![peer("peerA", "10.0.0.1")]));
    let b = s.step(ProtocolEvent::PeerSet(Vec::new()));
    let c = s.step(ProtocolEvent::PeerSet(vec![
        peer("peerB", "10.0.0.2"),
        peer("peerC", "10.0.0.3"),
    ]));
    assert_eq!(a, vec![0]);
    assert_eq!(b, Vec::<usize>::new());
    assert_eq!(c, vec![1, 2]);
    assert_eq!(keys(&s), vec!["peerA", "peerB", "peerC"]);
    assert_eq!(s.registry().peer(2).ip, "10.0.0.3");
}

#[test]
fn deliveries_carry_consecutive_indices() {
    let mut s = running_session();
    let mut all = Vec::new();
    for round in 0..4usize {
        let set = (0..round).map(|k| peer(&format!("k{}-{}", round, k), "10.0.0.9")).collect();
        all.extend(s.step(ProtocolEvent::PeerSet(set)));
    }
    assert_eq!(all, (0..6).collect::<Vec<usize>>());
    assert_eq!(s.registry().len(), 6);
}

#[test]
fn stream_failure_keeps_registered_peers() {
    let mut s = running_session();
    s.step(ProtocolEvent::PeerSet(vec![peer("p1", "10.0.0.1")]));
    s.step(ProtocolEvent::PeerSet(vec![peer("p2", "10.0.0.2")]));
    assert!(s.step(ProtocolEvent::StreamFailed).is_empty());
    let late = s.step(ProtocolEvent::PeerSet(vec![peer("p3", "10.0.0.3")]));
    assert!(late.is_empty());
    assert_eq!(keys(&s), vec!["p1", "p2"]);
    assert_eq!(s.phase(), Phase::StreamFailed);
    assert_eq!(s.outcome(), Some(Ok(())));
}

#[test]
fn repeated_peer_gets_two_indices() {
    let mut s = running_session();
    let first = s.step(ProtocolEvent::PeerSet(vec![peer("same", "10.0.0.1")]));
    let second = s.step(ProtocolEvent::PeerSet(vec![peer("same", "10.0.0.1")]));
    assert_eq!(first, vec![0]);
    assert_eq!(second, vec![1]);
    assert_eq!(keys(&s), vec!["same", "same"]);
}

#[test]
fn start_failure_is_an_error() {
    let mut s = running_session();
    assert!(s.step(ProtocolEvent::StartFailed).is_empty());
    assert_eq!(s.phase(), Phase::StartFailed);
    assert_eq!(s.outcome(), Some(Err(DiscoveryError::ProtocolStart)));
}

#[test]
fn stream_end_and_cancel_finish_the_session() {
    let mut s = running_session();
    s.step(ProtocolEvent::StreamEnded);
    assert_eq!(s.phase(), Phase::Ended);
    assert_eq!(s.outcome(), Some(Ok(())));
    s.step(ProtocolEvent::Cancel);
    assert_eq!(s.phase(), Phase::Ended);

    let mut t = running_session();
    t.step(ProtocolEvent::Cancel);
    assert_eq!(t.phase(), Phase::Cancelled);
    assert!(t.step(ProtocolEvent::PeerSet(vec![peer("x", "10.0.0.1")])).is_empty());
    assert_eq!(t.registry().len(), 0);
    assert_eq!(t.outcome(), Some(Ok(())));
}

#[test]
fn registry_appends() {
    let mut r = PeerRegistry::new();
    assert_eq!(r.register(peer("a", "1.2.3.4")), 0);
    assert_eq!(r.register(peer("b", "1.2.3.5")), 1);
    assert_eq!(r.len(), 2);
    assert_eq!(r.peer(1).public_key, "b");
}

#[test]
fn duplicate_copies_every_field() {
    let p = PeerRecord { public_key: "key".to_string(), ip: "10.1.1.1".to_string(), port: 77 };
    let q = p.duplicate();
    assert_eq!(q.public_key, "key");
    assert_eq!(q.ip, "10.1.1.1");
    assert_eq!(q.port, 77);
}

#[test]
fn host_record_of_a_peer() {
    let h = host_peer(&peer("pk", "192.168.0.2"), 5).unwrap();
    assert_eq!(h.index, 5);
    assert_eq!(h.public_key, "pk");
    assert_eq!(h.ip, "192.168.0.2");
    let top = host_peer(&peer("pk", "192.168.0.2"), i32::MAX as usize).unwrap();
    assert_eq!(top.index, i32::MAX);
}

#[test]
fn host_record_index_out_of_range() {
    let r = host_peer(&peer("pk", "192.168.0.2"), i32::MAX as usize + 1);
    assert_eq!(r.err(), Some(HostError::IndexOutOfRange));
}
