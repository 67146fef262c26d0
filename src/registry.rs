//! The ordered, append-only store of the peers seen during one session.
use vstd::prelude::*;

verus! {

/// One peer found on the network: its public key and the address at which
/// it is reachable, each in textual form.
#[derive(Debug)]
pub struct PeerRecord {
    pub public_key: String,
    pub ip: String,
    pub port: u16,
}

impl PeerRecord {
    /// A copy of this record.
    pub fn duplicate(&self) -> (r: PeerRecord)
        ensures
            r == *self,
    {
        PeerRecord { public_key: self.public_key.clone(), ip: self.ip.clone(), port: self.port }
    }
}

/// The peers of one session, each at the index it was given when it was
/// registered. Entries are never removed, replaced or merged.
pub struct PeerRegistry {
    peers: Vec<PeerRecord>,
}

impl View for PeerRegistry {
    type V = Seq<PeerRecord>;

    closed spec fn view(&self) -> Seq<PeerRecord> {
        self.peers@
    }
}

impl PeerRegistry {
    pub fn new() -> (r: PeerRegistry)
        ensures
            r@ == Seq::<PeerRecord>::empty(),
    {
        PeerRegistry { peers: Vec::new() }
    }

    /// Appends `peer` and returns its index, the number of peers registered
    /// before it.
    pub fn register(&mut self, peer: PeerRecord) -> (index: usize)
        ensures
            index == old(self)@.len(),
            final(self)@ == old(self)@.push(peer),
    {
        let index = self.peers.len();
        self.peers.push(peer);
        index
    }

    pub fn len(&self) -> (r: usize)
        ensures
            r == self@.len(),
    {
        self.peers.len()
    }

    pub fn peer(&self, index: usize) -> (r: &PeerRecord)
        requires
            index < self@.len(),
        ensures
            *r == self@[index as int],
    {
        &self.peers[index]
    }
}

} // verus!
