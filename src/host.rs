//! What the host application receives for each newly found peer.
use crate::registry::PeerRecord;
use vstd::prelude::*;

verus! {

/// The host-side class that represents a peer.
pub const PEER_INFO_CLASS: &'static str = "io/libredrop/network/PeerInfo";

/// Constructor of the peer class: an index and two strings.
pub const PEER_INFO_CONSTRUCTOR: &'static str = "(ILjava/lang/String;Ljava/lang/String;)V";

/// The host-side class whose object is notified.
pub const NETWORK_CLASS: &'static str = "io/libredrop/network/Network";

/// The method of the network object called with each new peer.
pub const NEW_PEER_METHOD: &'static str = "onNewConnectionFound";

/// Signature of `NEW_PEER_METHOD`.
pub const NEW_PEER_SIGNATURE: &'static str = "(Lio/libredrop/network/PeerInfo;)V";

/// The constructor arguments of the host's peer object.
#[derive(Debug)]
pub struct HostPeer {
    pub index: i32,
    pub public_key: String,
    pub ip: String,
}

/// Why a peer could not be handed to the host.
#[derive(Clone, Copy, Debug, PartialEq, Eq, Structural)]
pub enum HostError {
    /// The registry index does not fit the host's 32-bit integer.
    IndexOutOfRange,
}

/// The host record of the peer registered at `index`: the index itself, the
/// peer's public key and its IP address. Fails when the index does not fit
/// a 32-bit signed integer.
pub fn host_peer(peer: &PeerRecord, index: usize) -> (r: Result<HostPeer, HostError>)
    ensures
        index <= i32::MAX <==> r is Ok,
        r is Err ==> r == Err::<HostPeer, HostError>(HostError::IndexOutOfRange),
        r matches Ok(h) ==> h.index == index && h.public_key == peer.public_key && h.ip
            == peer.ip,
{
    if index > i32::MAX as usize {
        return Err(HostError::IndexOutOfRange);
    }
    Ok(HostPeer { index: index as i32, public_key: peer.public_key.clone(), ip: peer.ip.clone() })
}

} // verus!
