//! Local endpoints that a discovery session announces.
use vstd::prelude::*;

verus! {

/// Port paired with every local address that a session announces.
pub const DISCOVERY_PORT: u16 = 1234;

/// Port on which the discovery protocol listens.
pub const LISTEN_PORT: u16 = 6000;

/// An IPv4 address, by its four octets in network order.
#[derive(Clone, Copy, Debug, PartialEq, Eq, Structural)]
pub struct Ipv4 {
    pub a: u8,
    pub b: u8,
    pub c: u8,
    pub d: u8,
}

impl Ipv4 {
    /// Addresses of the `127.0.0.0/8` block.
    pub open spec fn loopback(self) -> bool {
        self.a == 127
    }

    pub fn is_loopback(&self) -> (r: bool)
        ensures
            r == self.loopback(),
    {
        self.a == 127
    }
}

/// The address of one network interface of the host.
#[derive(Clone, Copy, Debug, PartialEq, Eq, Structural)]
pub enum InterfaceAddr {
    V4(Ipv4),
    /// An IPv6 address, as a 128-bit number.
    V6(u128),
}

/// An IPv4 address together with a port.
#[derive(Clone, Copy, Debug, PartialEq, Eq, Structural)]
pub struct Endpoint {
    pub ip: Ipv4,
    pub port: u16,
}

/// `e` is announced for `interfaces` at `port`: some interface has `e`'s
/// IPv4 address, that address is not a loopback one, and `e` carries `port`.
pub open spec fn announced(interfaces: Seq<InterfaceAddr>, port: u16, e: Endpoint) -> bool {
    &&& e.port == port
    &&& !e.ip.loopback()
    &&& interfaces.contains(InterfaceAddr::V4(e.ip))
}

fn contains_endpoint(v: &Vec<Endpoint>, e: Endpoint) -> (r: bool)
    ensures
        r == v@.contains(e),
{
    let mut i: usize = 0;
    while i < v.len()
        invariant
            i <= v@.len(),
            forall|j: int| 0 <= j < i ==> v@[j] != e,
        decreases v@.len() - i,
    {
        if v[i] == e {
            return true;
        }
        i = i + 1;
    }
    false
}

/// The endpoints at which this host announces itself: one for each distinct
/// non-loopback IPv4 interface address, paired with `port`, in the order of
/// first appearance. IPv6 interfaces are skipped.
pub fn discovery_endpoints(interfaces: &Vec<InterfaceAddr>, port: u16) -> (r: Vec<Endpoint>)
    ensures
        r@.no_duplicates(),
        forall|e: Endpoint| #[trigger] r@.contains(e) <==> announced(interfaces@, port, e),
{
    let mut r: Vec<Endpoint> = Vec::new();
    let mut i: usize = 0;
    while i < interfaces.len()
        invariant
            i <= interfaces@.len(),
            r@.no_duplicates(),
            forall|e: Endpoint|
                #[trigger] r@.contains(e) <==> announced(interfaces@.take(i as int), port, e),
        decreases interfaces@.len() - i,
    {
        let ghost before = r@;
        assert(interfaces@.take(i + 1) == interfaces@.take(i as int).push(interfaces@[i as int]));
        match interfaces[i] {
            InterfaceAddr::V4(ip) => {
                if !ip.is_loopback() {
                    let e = Endpoint { ip, port };
                    if !contains_endpoint(&r, e) {
                        r.push(e);
                        assert forall|x: Endpoint| #[trigger] r@.contains(x) implies before.contains(x)
                            || x == e by {
                            if r@.contains(x) {
                                let k = choose|k: int| 0 <= k < r@.len() && r@[k] == x;
                                if k < before.len() {
                                    assert(before[k] == x);
                                }
                            }
                        }
                        assert(r@[before.len() as int] == e);
                    }
                }
            },
            InterfaceAddr::V6(_) => {},
        }
        assert forall|e: Endpoint|
            #[trigger] r@.contains(e) <==> announced(interfaces@.take(i + 1), port, e) by {
            let t = interfaces@.take(i + 1);
            if t.contains(InterfaceAddr::V4(e.ip)) {
                let k = choose|k: int| 0 <= k < t.len() && t[k] == InterfaceAddr::V4(e.ip);
                if k < i {
                    assert(interfaces@.take(i as int)[k] == InterfaceAddr::V4(e.ip));
                }
            }
            if interfaces@.take(i as int).contains(InterfaceAddr::V4(e.ip)) {
                let k = choose|k: int|
                    0 <= k < i && interfaces@.take(i as int)[k] == InterfaceAddr::V4(e.ip);
                assert(t[k] == InterfaceAddr::V4(e.ip));
            }
            if before.contains(e) {
                let k = choose|k: int| 0 <= k < before.len() && before[k] == e;
                assert(r@[k] == e);
            }
            assert(t[i as int] == interfaces@[i as int]);
        }
        i = i + 1;
    }
    assert(interfaces@.take(interfaces@.len() as int) == interfaces@);
    r
}

} // verus!
