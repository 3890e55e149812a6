//! Peer identities and the interface of a gossip network that can carry
//! signaling messages.

use vstd::prelude::*;
use crate::signaling::SocketAddress;

verus! {

/// A gossip node's identifier.
#[derive(Debug, Clone, PartialEq, Eq, Hash)]
pub struct GossipPeerId {
    /// The node's unique identifier
    pub id: String,
}

impl GossipPeerId {
    /// The identifier with the given text.
    pub fn new(id: &str) -> (r: Self)
        ensures
            r.id@ == id@,
    {
        GossipPeerId { id: String::from_str(id) }
    }

    /// The identifier's text.
    pub fn as_str(&self) -> (r: &str)
        ensures
            r@ == self.id@,
    {
        self.id.as_str()
    }
}

impl core::str::FromStr for GossipPeerId {
    type Err = String;

    fn from_str(s: &str) -> Result<Self, String> {
        Ok(GossipPeerId::new(s))
    }
}

/// The gossip network a signaling transport runs over. This one carries
/// nothing: it accepts every message and knows no endpoints.
pub struct YourGossipNetwork {}

impl YourGossipNetwork {
    /// A network handle.
    pub fn new() -> (r: Self) {
        YourGossipNetwork {}
    }

    /// Registers the function called with the sender and the bytes of each
    /// signaling message the network receives.
    pub fn set_signaling_callback<F: Fn(String, Vec<u8>)>(&self, callback: F) {
    }

    /// Sends bytes to a peer under a topic; every message is accepted.
    pub fn send_to_peer(&self, peer_id: &str, topic: &[u8], data: &[u8]) -> (r: Result<(), String>)
        ensures
            r is Ok,
    {
        Ok(())
    }

    /// The peer's endpoint; this network tracks none.
    pub fn get_peer_endpoint(&self, peer_id: &str) -> (r: Option<SocketAddress>)
        ensures
            r is None,
    {
        None
    }
}

} // verus!
