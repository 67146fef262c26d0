//! One discovery session: the events of the discovery protocol drive it, and
//! each peer set it accepts is registered and reported to the host.
use crate::net::{announced, discovery_endpoints, Endpoint, InterfaceAddr, DISCOVERY_PORT};
use crate::registry::{PeerRecord, PeerRegistry};
use vstd::prelude::*;

verus! {

/// Where a session stands. Every phase but `Running` is final.
#[derive(Clone, Copy, Debug, PartialEq, Eq, Structural)]
pub enum Phase {
    Running,
    /// The protocol's stream of peer sets came to its end.
    Ended,
    /// The session was stopped on request.
    Cancelled,
    /// The protocol could not be started.
    StartFailed,
    /// The protocol's stream failed.
    StreamFailed,
}

/// The operating system could not list the host's interfaces.
#[derive(Clone, Copy, Debug, PartialEq, Eq, Structural)]
pub struct EnumerationError;

/// A failure that ends the call that runs a session.
#[derive(Clone, Copy, Debug, PartialEq, Eq, Structural)]
pub enum DiscoveryError {
    Enumeration,
    ProtocolStart,
}

/// What the discovery protocol, or the host, tells a running session.
#[derive(Debug)]
pub enum ProtocolEvent {
    StartFailed,
    /// The peers found in one discovery round, in their iteration order.
    PeerSet(Vec<PeerRecord>),
    StreamFailed,
    StreamEnded,
    Cancel,
}

/// The mathematical value of a `ProtocolEvent`.
pub enum SessionEvent {
    StartFailed,
    PeerSet(Seq<PeerRecord>),
    StreamFailed,
    StreamEnded,
    Cancel,
}

impl View for ProtocolEvent {
    type V = SessionEvent;

    open spec fn view(&self) -> SessionEvent {
        match self {
            ProtocolEvent::StartFailed => SessionEvent::StartFailed,
            ProtocolEvent::PeerSet(v) => SessionEvent::PeerSet(v@),
            ProtocolEvent::StreamFailed => SessionEvent::StreamFailed,
            ProtocolEvent::StreamEnded => SessionEvent::StreamEnded,
            ProtocolEvent::Cancel => SessionEvent::Cancel,
        }
    }
}

/// The mathematical value of a session: the registered peers, each at its
/// index, and the phase.
pub struct SessionState {
    pub peers: Seq<PeerRecord>,
    pub phase: Phase,
}

/// A session as it starts: no peers, running.
pub open spec fn initial() -> SessionState {
    SessionState { peers: Seq::empty(), phase: Phase::Running }
}

/// The session after event `e`. A finished session ignores every event; a
/// running one appends each peer of a peer set, in order, and any other event
/// ends it.
pub open spec fn apply(s: SessionState, e: SessionEvent) -> SessionState {
    if s.phase != Phase::Running {
        s
    } else {
        match e {
            SessionEvent::PeerSet(ps) => SessionState { peers: s.peers + ps, phase: Phase::Running },
            SessionEvent::StartFailed => SessionState { peers: s.peers, phase: Phase::StartFailed },
            SessionEvent::StreamFailed => SessionState { peers: s.peers, phase: Phase::StreamFailed },
            SessionEvent::StreamEnded => SessionState { peers: s.peers, phase: Phase::Ended },
            SessionEvent::Cancel => SessionState { peers: s.peers, phase: Phase::Cancelled },
        }
    }
}

/// The registry indices reported to the host on event `e`: one per peer of
/// an accepted peer set, the index that peer was registered at.
pub open spec fn delivered(s: SessionState, e: SessionEvent) -> Seq<int> {
    if s.phase == Phase::Running && e is PeerSet {
        Seq::new(e->PeerSet_0.len(), |k: int| s.peers.len() + k)
    } else {
        Seq::empty()
    }
}

/// The session after `events`, from the start.
pub open spec fn replay(events: Seq<SessionEvent>) -> SessionState
    decreases events.len(),
{
    if events.len() == 0 {
        initial()
    } else {
        apply(replay(events.drop_last()), events.last())
    }
}

/// Every index reported to the host over `events`, in the order of reporting.
pub open spec fn replay_deliveries(events: Seq<SessionEvent>) -> Seq<int>
    decreases events.len(),
{
    if events.len() == 0 {
        Seq::empty()
    } else {
        replay_deliveries(events.drop_last()) + delivered(replay(events.drop_last()), events.last())
    }
}

/// A discovery session: the endpoints it announces, its peer registry and
/// its phase.
pub struct DiscoverySession {
    addresses: Vec<Endpoint>,
    registry: PeerRegistry,
    phase: Phase,
}

impl View for DiscoverySession {
    type V = SessionState;

    closed spec fn view(&self) -> SessionState {
        SessionState { peers: self.registry@, phase: self.phase }
    }
}

impl DiscoverySession {
    /// The endpoints the session announces.
    pub closed spec fn endpoints(&self) -> Seq<Endpoint> {
        self.addresses@
    }

    /// Starts a session from the result of listing the host's interfaces.
    /// When that listing failed, no session is made and the error is
    /// `Enumeration`; otherwise the session runs, has no peers, and announces
    /// each distinct non-loopback IPv4 interface address at `DISCOVERY_PORT`.
    pub fn start(interfaces: Result<Vec<InterfaceAddr>, EnumerationError>) -> (r: Result<
        DiscoverySession,
        DiscoveryError,
    >)
        ensures
            interfaces is Err <==> r is Err,
            r is Err ==> r->Err_0 == DiscoveryError::Enumeration,
            r is Ok ==> r->Ok_0@ == initial(),
            r is Ok ==> r->Ok_0.endpoints().no_duplicates(),
            r is Ok ==> forall|e: Endpoint|
                #[trigger] r->Ok_0.endpoints().contains(e) <==> announced(
                    interfaces->Ok_0@,
                    DISCOVERY_PORT,
                    e,
                ),
    {
        match interfaces {
            Err(_) => Err(DiscoveryError::Enumeration),
            Ok(list) => {
                let addresses = discovery_endpoints(&list, DISCOVERY_PORT);
                Ok(DiscoverySession { addresses, registry: PeerRegistry::new(), phase: Phase::Running })
            },
        }
    }

    /// Applies `event` and returns the registry indices of the peers to
    /// report to the host, in the order to report them.
    pub fn step(&mut self, event: ProtocolEvent) -> (r: Vec<usize>)
        ensures
            final(self)@ == apply(old(self)@, event@),
            final(self).endpoints() == old(self).endpoints(),
            r@.len() == delivered(old(self)@, event@).len(),
            forall|k: int| 0 <= k < r@.len() ==> r@[k] == delivered(old(self)@, event@)[k],
    {
        let mut out: Vec<usize> = Vec::new();
        if self.phase != Phase::Running {
            return out;
        }
        match event {
            ProtocolEvent::PeerSet(peers) => {
                let ghost start = self.registry@;
                let mut i: usize = 0;
                while i < peers.len()
                    invariant
                        i <= peers@.len(),
                        self.phase == Phase::Running,
                        self.addresses == old(self).addresses,
                        start == old(self)@.peers,
                        self.registry@ == start + peers@.take(i as int),
                        out@.len() == i,
                        forall|k: int| 0 <= k < i ==> out@[k] == start.len() + k,
                    decreases peers@.len() - i,
                {
                    let index = self.registry.register(peers[i].duplicate());
                    out.push(index);
                    assert(peers@.take(i + 1) == peers@.take(i as int).push(peers@[i as int]));
                    i = i + 1;
                }
                assert(peers@.take(peers@.len() as int) == peers@);
            },
            ProtocolEvent::StartFailed => {
                self.phase = Phase::StartFailed;
            },
            ProtocolEvent::StreamFailed => {
                self.phase = Phase::StreamFailed;
            },
            ProtocolEvent::StreamEnded => {
                self.phase = Phase::Ended;
            },
            ProtocolEvent::Cancel => {
                self.phase = Phase::Cancelled;
            },
        }
        out
    }

    pub fn phase(&self) -> (r: Phase)
        ensures
            r == self@.phase,
    {
        self.phase
    }

    pub fn registry(&self) -> (r: &PeerRegistry)
        ensures
            r@ == self@.peers,
    {
        &self.registry
    }

    pub fn addresses(&self) -> (r: &Vec<Endpoint>)
        ensures
            r@ == self.endpoints(),
    {
        &self.addresses
    }

    /// What the call that runs the session returns: nothing while it runs;
    /// an error when the protocol could not be started; success once the
    /// stream ended, failed or was cancelled.
    pub fn outcome(&self) -> (r: Option<Result<(), DiscoveryError>>)
        ensures
            self@.phase == Phase::Running <==> r is None,
            self@.phase == Phase::StartFailed ==> r == Some(
                Err::<(), DiscoveryError>(DiscoveryError::ProtocolStart),
            ),
            self@.phase != Phase::Running && self@.phase != Phase::StartFailed ==> r == Some(
                Ok::<(), DiscoveryError>(()),
            ),
    {
        match self.phase {
            Phase::Running => None,
            Phase::StartFailed => Some(Err(DiscoveryError::ProtocolStart)),
            _ => Some(Ok(())),
        }
    }
}

/// Indices are handed to the host in order and without gaps: over any run of
/// a session, the `k`-th index reported is `k`, and as many indices are
/// reported as peers were registered.
pub proof fn lemma_deliveries_are_consecutive(events: Seq<SessionEvent>)
    ensures
        replay_deliveries(events) == Seq::new(replay(events).peers.len(), |k: int| k),
    decreases events.len(),
{
    if events.len() > 0 {
        let prefix = events.drop_last();
        lemma_deliveries_are_consecutive(prefix);
        let s = replay(prefix);
        let e = events.last();
        assert(replay_deliveries(events) =~= Seq::new(replay(events).peers.len(), |k: int| k)) by {
            if s.phase == Phase::Running && e is PeerSet {
                assert(replay(events).peers.len() == s.peers.len() + e->PeerSet_0.len());
            }
        }
    }
}

/// A finished session stays as it is: whatever events follow, it registers
/// no more peers and reports nothing more to the host.
pub proof fn lemma_finished_session_is_final(events: Seq<SessionEvent>, rest: Seq<SessionEvent>)
    requires
        replay(events).phase != Phase::Running,
    ensures
        replay(events + rest) == replay(events),
        replay_deliveries(events + rest) == replay_deliveries(events),
    decreases rest.len(),
{
    if rest.len() == 0 {
        assert(events + rest =~= events);
    } else {
        let all = events + rest;
        assert(all.drop_last() =~= events + rest.drop_last());
        lemma_finished_session_is_final(events, rest.drop_last());
        assert(delivered(replay(all.drop_last()), all.last()) =~= Seq::<int>::empty());
        assert(replay_deliveries(all) =~= replay_deliveries(events));
    }
}

/// When the stream fails after the peer sets `p1` and `p2`, the registry
/// holds exactly the peers of `p1` followed by those of `p2`, whatever the
/// protocol sends afterwards.
pub proof fn lemma_stream_failure_keeps_delivered(
    p1: Seq<PeerRecord>,
    p2: Seq<PeerRecord>,
    rest: Seq<SessionEvent>,
)
    ensures
        replay(
            seq![SessionEvent::PeerSet(p1), SessionEvent::PeerSet(p2), SessionEvent::StreamFailed]
                + rest,
        ).peers == p1 + p2,
        replay(
            seq![SessionEvent::PeerSet(p1), SessionEvent::PeerSet(p2), SessionEvent::StreamFailed]
                + rest,
        ).phase == Phase::StreamFailed,
{
    let h1 = seq![SessionEvent::PeerSet(p1)];
    let h2 = h1.push(SessionEvent::PeerSet(p2));
    let head = h2.push(SessionEvent::StreamFailed);
    assert(h1.drop_last() =~= Seq::<SessionEvent>::empty());
    assert(h2.drop_last() =~= h1);
    assert(head.drop_last() =~= h2);
    assert(replay(h1.drop_last()) == initial());
    assert(Seq::<PeerRecord>::empty() + p1 =~= p1);
    assert(replay(h1).peers == p1);
    assert(replay(h2).peers == p1 + p2);
    assert(replay(head).peers == p1 + p2);
    assert(head =~= seq![SessionEvent::PeerSet(p1), SessionEvent::PeerSet(p2), SessionEvent::StreamFailed]);
    lemma_finished_session_is_final(head, rest);
}

/// Peers are not merged: a peer that comes in two consecutive peer sets of a
/// running session is registered twice, under two distinct indices, each
/// reported to the host.
pub proof fn lemma_repeated_peer_registered_twice(
    s: SessionState,
    a: Seq<PeerRecord>,
    b: Seq<PeerRecord>,
    i: int,
    j: int,
)
    requires
        s.phase == Phase::Running,
        0 <= i < a.len(),
        0 <= j < b.len(),
        a[i] == b[j],
    ensures
        ({
            let first = delivered(s, SessionEvent::PeerSet(a))[i];
            let second = delivered(apply(s, SessionEvent::PeerSet(a)), SessionEvent::PeerSet(b))[j];
            let t = apply(apply(s, SessionEvent::PeerSet(a)), SessionEvent::PeerSet(b));
            &&& first != second
            &&& t.peers[first] == a[i]
            &&& t.peers[second] == a[i]
        }),
{
    let t1 = apply(s, SessionEvent::PeerSet(a));
    let t = apply(t1, SessionEvent::PeerSet(b));
    assert(t.peers[s.peers.len() + i] == t1.peers[s.peers.len() + i]);
}

} // verus!
