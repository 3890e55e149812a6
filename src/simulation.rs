//! A simulated signaling transport for exercising the call stack under
//! loss, failures and congestion.
//!
//! Each endpoint keeps the messages it has sent, per destination, until
//! `deliver_to` hands them to the destination endpoint; the destination then
//! receives them in the order they were sent. Whether a send is lost or
//! fails is decided by two random draws in parts per thousand, which the
//! caller supplies: as arguments of `send_to`, or as a script that
//! `send_message` consumes, two draws per attempt. Rates are in parts per
//! thousand.

use vstd::prelude::*;
use crate::network::NetworkConditions;
use crate::signaling::{SignalingMessage, SignalingTransport, SocketAddress};

verus! {

/// Errors of the simulated transport.
#[derive(Debug, Clone, PartialEq, Eq)]
pub enum MockTransportError {
    /// The destination is not connected.
    NotConnected(String),
    /// The message was lost.
    PacketLoss,
    /// The connection failed while sending.
    ConnectionFailed,
    /// Too many messages wait for the destination.
    QueueFull,
    /// Nothing has arrived.
    NoMessages,
    /// The network is unavailable.
    Network(String),
}

/// Behaviour of a simulated transport.
#[derive(Debug, Clone, Copy, PartialEq, Eq, Structural)]
pub struct MockTransportConfig {
    /// One-way latency in milliseconds
    pub latency_ms: u64,
    /// Chance that a send is lost, in parts per thousand
    pub packet_loss_permille: u32,
    /// Most messages that may wait for one destination
    pub max_queue_size: usize,
    /// Whether sends may fail
    pub simulate_failures: bool,
    /// Chance that a send fails, in parts per thousand
    pub failure_rate_permille: u32,
}

/// The draw used when the script is exhausted: no loss, no failure.
pub const QUIET_DRAW: u32 = 999;

/// The default behaviour: 10 ms, no loss, no failures, 1000 queued
/// messages at most.
pub open spec fn default_config() -> MockTransportConfig {
    MockTransportConfig {
        latency_ms: 10,
        packet_loss_permille: 0,
        max_queue_size: 1000,
        simulate_failures: false,
        failure_rate_permille: 0,
    }
}

impl Default for MockTransportConfig {
    fn default() -> (r: Self)
        ensures
            r == default_config(),
    {
        MockTransportConfig {
            latency_ms: 10,
            packet_loss_permille: 0,
            max_queue_size: 1000,
            simulate_failures: false,
            failure_rate_permille: 0,
        }
    }
}

impl MockTransportConfig {
    /// No loss, no failures, 1 ms.
    pub fn perfect() -> (r: Self)
        ensures
            r == (MockTransportConfig {
                latency_ms: 1,
                packet_loss_permille: 0,
                max_queue_size: 1000,
                simulate_failures: false,
                failure_rate_permille: 0,
                }),
    {
        MockTransportConfig {
            latency_ms: 1,
            packet_loss_permille: 0,
            max_queue_size: 1000,
            simulate_failures: false,
            failure_rate_permille: 0,
        }
    }

    /// 200 ms, 10% loss, 5% failures, 100 queued messages at most.
    pub fn poor() -> (r: Self)
        ensures
            r == (MockTransportConfig {
                latency_ms: 200,
                packet_loss_permille: 100,
                max_queue_size: 100,
                simulate_failures: true,
                failure_rate_permille: 50,
                }),
    {
        MockTransportConfig {
            latency_ms: 200,
            packet_loss_permille: 100,
            max_queue_size: 100,
            simulate_failures: true,
            failure_rate_permille: 50,
        }
    }

    /// 100 ms, 2% loss, failures off (their rate set to 1%), 500 queued
    /// messages at most.
    pub fn mobile() -> (r: Self)
        ensures
            r == (MockTransportConfig {
                latency_ms: 100,
                packet_loss_permille: 20,
                max_queue_size: 500,
                simulate_failures: false,
                failure_rate_permille: 10,
                }),
    {
        MockTransportConfig {
            latency_ms: 100,
            packet_loss_permille: 20,
            max_queue_size: 500,
            simulate_failures: false,
            failure_rate_permille: 10,
        }
    }

    /// Neither loss nor failures can occur.
    pub open spec fn lossless(&self) -> bool {
        self.packet_loss_permille == 0 && (!self.simulate_failures
            || self.failure_rate_permille == 0)
    }
}

/// A sent message waiting for delivery.
#[derive(Debug, Clone, PartialEq, Eq)]
pub struct Outgoing {
    /// Destination peer
    pub to: String,
    /// The message
    pub message: SignalingMessage,
}

/// The messages among `s` addressed to `p`, in order.
pub open spec fn messages_to(s: Seq<(Seq<char>, SignalingMessage)>, p: Seq<char>) -> Seq<
    SignalingMessage,
>
    decreases s.len(),
{
    if s.len() == 0 {
        Seq::empty()
    } else if s.last().0 == p {
        messages_to(s.drop_last(), p).push(s.last().1)
    } else {
        messages_to(s.drop_last(), p)
    }
}

/// Queuing one more entry adds its message to those addressed to its
/// destination and to no other.
pub proof fn lemma_messages_to_push(
    s: Seq<(Seq<char>, SignalingMessage)>,
    e: (Seq<char>, SignalingMessage),
    p: Seq<char>,
)
    ensures
        messages_to(s.push(e), p) == (if e.0 == p {
            messages_to(s, p).push(e.1)
        } else {
            messages_to(s, p)
        }),
{
    assert(s.push(e).drop_last() =~= s);
}

/// The entries among `s` not addressed to `p`, in order.
pub open spec fn not_to(s: Seq<(Seq<char>, SignalingMessage)>, p: Seq<char>) -> Seq<
    (Seq<char>, SignalingMessage),
>
    decreases s.len(),
{
    if s.len() == 0 {
        Seq::empty()
    } else if s.last().0 == p {
        not_to(s.drop_last(), p)
    } else {
        not_to(s.drop_last(), p).push(s.last())
    }
}

/// The names among `s` other than `p`, in order.
pub open spec fn without(s: Seq<Seq<char>>, p: Seq<char>) -> Seq<Seq<char>>
    decreases s.len(),
{
    if s.len() == 0 {
        Seq::empty()
    } else if s.last() == p {
        without(s.drop_last(), p)
    } else {
        without(s.drop_last(), p).push(s.last())
    }
}

proof fn lemma_without(s: Seq<Seq<char>>, p: Seq<char>)
    ensures
        forall|q: Seq<char>| #[trigger] without(s, p).contains(q) <==> q != p && s.contains(q),
    decreases s.len(),
{
    if s.len() > 0 {
        let init = s.drop_last();
        lemma_without(init, p);
        assert forall|q: Seq<char>| #[trigger] without(s, p).contains(q) <==> q != p && s.contains(
            q,
        ) by {
            if s.contains(q) && q != p {
                let k = choose|k: int| 0 <= k < s.len() && s[k] == q;
                if k < s.len() - 1 {
                    assert(init[k] == q);
                    assert(init.contains(q));
                    assert(without(init, p).contains(q));
                    let j = choose|j: int|
                        0 <= j < without(init, p).len() && without(init, p)[j] == q;
                    assert(without(s, p)[j] == q);
                } else {
                    assert(without(s, p) == without(init, p).push(q));
                    assert(without(s, p)[without(init, p).len() as int] == q);
                }
            }
            if without(s, p).contains(q) {
                let k = choose|k: int| 0 <= k < without(s, p).len() && without(s, p)[k] == q;
                if s.last() == p || k < without(init, p).len() {
                    assert(without(init, p)[k] == q);
                    assert(without(init, p).contains(q));
                    let j = choose|j: int| 0 <= j < init.len() && init[j] == q;
                    assert(s[j] == q);
                } else {
                    assert(s[s.len() - 1] == q);
                }
            }
        }
    }
}

/// Messages marked with their sender.
pub open spec fn from_sender(ms: Seq<SignalingMessage>, from: Seq<char>) -> Seq<
    (Seq<char>, SignalingMessage),
> {
    ms.map_values(|m: SignalingMessage| (from, m))
}

/// The send from `b` to `peer` is lost: the peer is connected, the network
/// available, and the loss draw falls under a non-zero loss rate.
pub open spec fn lost(b: MockSignalingTransport, peer: Seq<char>, loss_draw: u32) -> bool {
    b.peers().contains(peer) && b.spec_conditions().available
        && b.spec_config().packet_loss_permille > 0 && loss_draw
        < b.spec_config().packet_loss_permille
}

/// The send from `b` to `peer` fails: it is not lost, failures are on, and
/// the failure draw falls under a non-zero failure rate.
pub open spec fn failed(
    b: MockSignalingTransport,
    peer: Seq<char>,
    loss_draw: u32,
    failure_draw: u32,
) -> bool {
    b.peers().contains(peer) && b.spec_conditions().available && !lost(b, peer, loss_draw)
        && b.spec_config().simulate_failures && b.spec_config().failure_rate_permille > 0
        && failure_draw < b.spec_config().failure_rate_permille
}

/// What one send attempt from `b` to `peer`, with the given draws, does,
/// leaving `a`: it fails with `NotConnected` when the peer is not connected,
/// with `Network` when the network is unavailable, with `PacketLoss` when it
/// is lost, with `ConnectionFailed` when it fails, and with `QueueFull` when
/// the queue for the peer is at its bound; otherwise the message joins the
/// queue for the peer. On failure nothing is queued.
pub open spec fn send_outcome(
    b: MockSignalingTransport,
    a: MockSignalingTransport,
    peer: Seq<char>,
    message: SignalingMessage,
    loss_draw: u32,
    failure_draw: u32,
    r: Result<(), MockTransportError>,
) -> bool {
    let connected = b.peers().contains(peer);
    let room = messages_to(b.outbox(), peer).len() < b.spec_config().max_queue_size;
    &&& a.name() == b.name()
    &&& a.inbox() == b.inbox()
    &&& a.peers() == b.peers()
    &&& a.spec_config() == b.spec_config()
    &&& a.spec_conditions() == b.spec_conditions()
    &&& !connected ==> (r matches Err(MockTransportError::NotConnected(p)) && p@ == peer)
    &&& connected && !b.spec_conditions().available ==> (r matches Err(
        MockTransportError::Network(_),
    ))
    &&& lost(b, peer, loss_draw) ==> r == Err::<(), MockTransportError>(
        MockTransportError::PacketLoss,
    )
    &&& failed(b, peer, loss_draw, failure_draw) ==> r == Err::<(), MockTransportError>(
        MockTransportError::ConnectionFailed,
    )
    &&& connected && b.spec_conditions().available && !lost(b, peer, loss_draw) && !failed(
        b,
        peer,
        loss_draw,
        failure_draw,
    ) && !room ==> r == Err::<(), MockTransportError>(MockTransportError::QueueFull)
    &&& r is Ok <==> connected && b.spec_conditions().available && !lost(b, peer, loss_draw)
        && !failed(b, peer, loss_draw, failure_draw) && room
    &&& r is Err ==> a.outbox() == b.outbox()
    &&& r is Ok ==> a.outbox() == b.outbox().push((peer, message))
}

/// On a lossless link, a send to a connected peer with room in its queue
/// succeeds whatever the draws, and queues the message.
pub proof fn lemma_lossless_send(
    b: MockSignalingTransport,
    a: MockSignalingTransport,
    peer: Seq<char>,
    message: SignalingMessage,
    loss_draw: u32,
    failure_draw: u32,
    r: Result<(), MockTransportError>,
)
    requires
        send_outcome(b, a, peer, message, loss_draw, failure_draw, r),
        b.spec_config().lossless(),
        b.peers().contains(peer),
        b.spec_conditions().available,
        messages_to(b.outbox(), peer).len() < b.spec_config().max_queue_size,
    ensures
        r is Ok,
        a.outbox() == b.outbox().push((peer, message)),
{
}

/// The draw a script gives next.
pub open spec fn next_draw(script: Seq<u32>) -> u32 {
    if script.len() > 0 {
        script[0]
    } else {
        QUIET_DRAW
    }
}

/// The script after one draw.
pub open spec fn after_draw(script: Seq<u32>) -> Seq<u32> {
    if script.len() > 0 {
        script.drop_first()
    } else {
        script
    }
}

/// What one receive from `b` does, leaving `a`: it hands out the oldest
/// delivered message with its sender and drops it, or fails with
/// `NoMessages` when nothing has arrived.
pub open spec fn receive_outcome(
    b: MockSignalingTransport,
    a: MockSignalingTransport,
    r: Result<(String, SignalingMessage), MockTransportError>,
) -> bool {
    &&& b.inbox().len() == 0 ==> r == Err::<(String, SignalingMessage), MockTransportError>(
        MockTransportError::NoMessages,
    ) && a.inbox() == b.inbox()
    &&& b.inbox().len() > 0 ==> (r matches Ok(e) && (e.0@, e.1) == b.inbox()[0] && a.inbox()
        == b.inbox().drop_first())
    &&& a.name() == b.name()
    &&& a.outbox() == b.outbox()
    &&& a.peers() == b.peers()
    &&& a.spec_config() == b.spec_config()
    &&& a.spec_conditions() == b.spec_conditions()
}

/// Endpoint discovery on `t` always succeeds, with an endpoint exactly for a
/// connected peer.
pub open spec fn endpoint_outcome(
    t: MockSignalingTransport,
    peer: Seq<char>,
    r: Result<Option<SocketAddress>, MockTransportError>,
) -> bool {
    r matches Ok(a) && (a is Some <==> t.peers().contains(peer))
}

/// One endpoint of the simulated network.
pub struct MockSignalingTransport {
    config: MockTransportConfig,
    peer_id: String,
    outbox: Vec<Outgoing>,
    inbox: Vec<(String, SignalingMessage)>,
    connected: Vec<String>,
    message_counter: u64,
    conditions: NetworkConditions,
    draws: Vec<u32>,
}

impl MockSignalingTransport {
    /// Name of this endpoint.
    pub closed spec fn name(&self) -> Seq<char> {
        self.peer_id@
    }

    /// Sent messages not yet delivered, with their destinations, oldest first.
    pub closed spec fn outbox(&self) -> Seq<(Seq<char>, SignalingMessage)> {
        self.outbox@.map_values(|o: Outgoing| (o.to@, o.message))
    }

    /// Delivered messages not yet received, with their senders, oldest first.
    pub closed spec fn inbox(&self) -> Seq<(Seq<char>, SignalingMessage)> {
        self.inbox@.map_values(|e: (String, SignalingMessage)| (e.0@, e.1))
    }

    /// Peers this endpoint is connected to.
    pub closed spec fn peers(&self) -> Seq<Seq<char>> {
        self.connected@.map_values(|s: String| s@)
    }

    /// Behaviour given at creation.
    pub closed spec fn spec_config(&self) -> MockTransportConfig {
        self.config
    }

    /// Current network conditions.
    pub closed spec fn spec_conditions(&self) -> NetworkConditions {
        self.conditions
    }

    /// Draws that `send_message` will use, two per attempt.
    pub closed spec fn draws(&self) -> Seq<u32> {
        self.draws@
    }

    /// Number of messages accepted for sending.
    pub closed spec fn sent(&self) -> u64 {
        self.message_counter
    }

    /// An endpoint with the default behaviour.
    pub fn new(peer_id: &str) -> (r: Self)
        ensures
            r.name() == peer_id@,
            r.spec_config() == default_config(),
            r.outbox().len() == 0,
            r.inbox().len() == 0,
            r.peers().len() == 0,
    {
        MockSignalingTransport::with_config(peer_id, MockTransportConfig::default())
    }

    /// An endpoint with the given behaviour, connected to no one, under the
    /// default network conditions.
    pub fn with_config(peer_id: &str, config: MockTransportConfig) -> (r: Self)
        ensures
            r.name() == peer_id@,
            r.spec_config() == config,
            r.spec_conditions() == crate::network::default_conditions(),
            r.outbox().len() == 0,
            r.inbox().len() == 0,
            r.peers().len() == 0,
            r.sent() == 0,
    {
        MockSignalingTransport {
            config,
            peer_id: String::from_str(peer_id),
            outbox: Vec::new(),
            inbox: Vec::new(),
            connected: Vec::new(),
            message_counter: 0,
            conditions: NetworkConditions::default(),
            draws: Vec::new(),
        }
    }

    /// Name of this endpoint.
    pub fn peer_id(&self) -> (r: &str)
        ensures
            r@ == self.name(),
    {
        self.peer_id.as_str()
    }

    fn find_peer(&self, peer: &String) -> (r: bool)
        ensures
            r == self.peers().contains(peer@),
    {
        let mut i: usize = 0;
        while i < self.connected.len()
            invariant
                i <= self.connected@.len(),
                forall|j: int| 0 <= j < i ==> self.connected@[j]@ != peer@,
            decreases self.connected@.len() - i,
        {
            if self.connected[i] == *peer {
                assert(self.peers()[i as int] == peer@);
                return true;
            }
            i = i + 1;
        }
        assert(!self.peers().contains(peer@)) by {
            if self.peers().contains(peer@) {
                let k = choose|k: int| 0 <= k < self.peers().len() && self.peers()[k] == peer@;
                assert(self.connected@[k]@ == peer@);
            }
        }
        false
    }

    fn add_peer(&mut self, peer: String)
        ensures
            final(self).peers().contains(peer@),
            forall|p: Seq<char>| old(self).peers().contains(p) ==> final(self).peers().contains(p),
            forall|p: Seq<char>| final(self).peers().contains(p) ==> p == peer@ || old(self).peers().contains(p),
            final(self).name() == old(self).name(),
            final(self).outbox() == old(self).outbox(),
            final(self).inbox() == old(self).inbox(),
            final(self).spec_config() == old(self).spec_config(),
            final(self).spec_conditions() == old(self).spec_conditions(),
            final(self).sent() == old(self).sent(),
    {
        if !self.find_peer(&peer) {
            let ghost before = self.peers();
            self.connected.push(peer);
            assert(self.peers() =~= before.push(peer@));
            assert forall|p: Seq<char>| before.contains(p) implies self.peers().contains(p) by {
                let k = choose|k: int| 0 <= k < before.len() && before[k] == p;
                assert(self.peers()[k] == p);
            }
            assert(self.peers()[before.len() as int] == peer@);
        }
    }

    /// Connects two endpoints to each other.
    pub fn connect_to(&mut self, other: &mut MockSignalingTransport)
        ensures
            final(self).peers().contains(old(other).name()),
            final(other).peers().contains(old(self).name()),
            final(self).name() == old(self).name(),
            final(other).name() == old(other).name(),
            final(self).outbox() == old(self).outbox(),
            final(other).outbox() == old(other).outbox(),
            final(self).inbox() == old(self).inbox(),
            final(other).inbox() == old(other).inbox(),
            final(self).spec_config() == old(self).spec_config(),
            final(other).spec_config() == old(other).spec_config(),
            final(self).spec_conditions() == old(self).spec_conditions(),
            final(other).spec_conditions() == old(other).spec_conditions(),
    {
        let mine = self.peer_id.clone();
        let theirs = other.peer_id.clone();
        self.add_peer(theirs);
        other.add_peer(mine);
    }

    /// Forgets the connection to a peer.
    pub fn disconnect_from(&mut self, peer_id: &str)
        ensures
            final(self).peers() == without(old(self).peers(), peer_id@),
            !final(self).peers().contains(peer_id@),
            forall|p: Seq<char>| p != peer_id@ ==> (final(self).peers().contains(p) <==> old(self).peers().contains(p)),
            final(self).name() == old(self).name(),
            final(self).outbox() == old(self).outbox(),
            final(self).inbox() == old(self).inbox(),
            final(self).spec_config() == old(self).spec_config(),
            final(self).spec_conditions() == old(self).spec_conditions(),
    {
        let target = String::from_str(peer_id);
        let ghost orig = self.peers();
        let mut kept: Vec<String> = Vec::new();
        let mut i: usize = 0;
        while i < self.connected.len()
            invariant
                i <= self.connected@.len(),
                self.connected@ == old(self).connected@,
                orig == self.peers(),
                target@ == peer_id@,
                kept@.map_values(|s: String| s@) == without(orig.subrange(0, i as int), peer_id@),
            decreases self.connected@.len() - i,
        {
            assert(orig.subrange(0, i + 1).drop_last() =~= orig.subrange(0, i as int));
            if self.connected[i] != target {
                let ghost before = kept@.map_values(|s: String| s@);
                kept.push(self.connected[i].clone());
                assert(kept@.map_values(|s: String| s@) =~= before.push(orig[i as int]));
            }
            i = i + 1;
        }
        assert(orig.subrange(0, i as int) =~= orig);
        self.connected = kept;
        proof {
            lemma_without(orig, peer_id@);
        }
    }

    /// Whether this endpoint is connected to the peer.
    pub fn is_connected_to(&self, peer_id: &str) -> (r: bool)
        ensures
            r == self.peers().contains(peer_id@),
    {
        let p = String::from_str(peer_id);
        self.find_peer(&p)
    }

    /// Names of the connected peers.
    pub fn connected_peers(&self) -> (r: Vec<String>)
        ensures
            r@.map_values(|s: String| s@) == self.peers(),
    {
        let mut out: Vec<String> = Vec::new();
        let mut i: usize = 0;
        while i < self.connected.len()
            invariant
                i <= self.connected@.len(),
                out@.len() == i,
                forall|j: int| 0 <= j < i ==> out@[j]@ == self.connected@[j]@,
            decreases self.connected@.len() - i,
        {
            let name = self.connected[i].clone();
            out.push(name);
            i = i + 1;
        }
        assert(out@.map_values(|s: String| s@) =~= self.peers());
        out
    }

    /// Changes the network conditions.
    pub fn set_network_conditions(&mut self, conditions: NetworkConditions)
        ensures
            final(self).spec_conditions() == conditions,
            final(self).name() == old(self).name(),
            final(self).outbox() == old(self).outbox(),
            final(self).inbox() == old(self).inbox(),
            final(self).peers() == old(self).peers(),
            final(self).spec_config() == old(self).spec_config(),
    {
        self.conditions = conditions;
    }

    /// Current network conditions.
    pub fn network_conditions(&self) -> (r: NetworkConditions)
        ensures
            r == self.spec_conditions(),
    {
        self.conditions
    }

    /// Number of messages accepted for sending.
    pub fn message_count(&self) -> (r: u64)
        ensures
            r == self.sent(),
    {
        self.message_counter
    }

    /// Drops every message waiting for delivery.
    pub fn clear_queues(&mut self)
        ensures
            final(self).outbox().len() == 0,
            final(self).name() == old(self).name(),
            final(self).inbox() == old(self).inbox(),
            final(self).peers() == old(self).peers(),
            final(self).spec_config() == old(self).spec_config(),
            final(self).spec_conditions() == old(self).spec_conditions(),
    {
        self.outbox = Vec::new();
    }

    /// Number of messages waiting for delivery to the peer.
    pub fn queued_message_count(&self, peer_id: &str) -> (r: usize)
        ensures
            r == messages_to(self.outbox(), peer_id@).len(),
    {
        let p = String::from_str(peer_id);
        self.count_for(&p)
    }

    fn count_for(&self, peer: &String) -> (r: usize)
        ensures
            r == messages_to(self.outbox(), peer@).len(),
    {
        let mut n: usize = 0;
        let mut i: usize = 0;
        while i < self.outbox.len()
            invariant
                i <= self.outbox@.len(),
                n == messages_to(self.outbox().subrange(0, i as int), peer@).len(),
                n <= i,
            decreases self.outbox@.len() - i,
        {
            let ghost pre = self.outbox().subrange(0, i as int);
            assert(self.outbox().subrange(0, i + 1).drop_last() =~= pre);
            if self.outbox[i].to == *peer {
                n = n + 1;
            }
            i = i + 1;
        }
        assert(self.outbox().subrange(0, i as int) =~= self.outbox());
        n
    }

    /// Replaces the script of draws that `send_message` consumes.
    pub fn set_draws(&mut self, draws: Vec<u32>)
        ensures
            final(self).draws() == draws@,
            final(self).name() == old(self).name(),
            final(self).outbox() == old(self).outbox(),
            final(self).inbox() == old(self).inbox(),
            final(self).peers() == old(self).peers(),
            final(self).spec_config() == old(self).spec_config(),
            final(self).spec_conditions() == old(self).spec_conditions(),
    {
        self.draws = draws;
    }

    fn take_draw(&mut self) -> (r: u32)
        ensures
            r == next_draw(old(self).draws()),
            final(self).draws() == after_draw(old(self).draws()),
            final(self).name() == old(self).name(),
            final(self).outbox() == old(self).outbox(),
            final(self).inbox() == old(self).inbox(),
            final(self).peers() == old(self).peers(),
            final(self).spec_config() == old(self).spec_config(),
            final(self).spec_conditions() == old(self).spec_conditions(),
    {
        if self.draws.len() > 0 {
            let ghost before = self.draws@;
            let d = self.draws.remove(0);
            assert(self.draws@ =~= before.drop_first());
            d
        } else {
            QUIET_DRAW
        }
    }

    /// One attempt to send a message to a peer, with the loss and failure
    /// draws for this attempt, in parts per thousand.
    pub fn send_to(
        &mut self,
        peer: &String,
        message: SignalingMessage,
        loss_draw: u32,
        failure_draw: u32,
    ) -> (r: Result<(), MockTransportError>)
        ensures
            send_outcome(*old(self), *final(self), peer@, message, loss_draw, failure_draw, r),
            final(self).draws() == old(self).draws(),
    {
        if !self.find_peer(peer) {
            return Err(MockTransportError::NotConnected(peer.clone()));
        }
        if !self.conditions.available {
            return Err(MockTransportError::Network(String::from_str("network unavailable")));
        }
        if self.config.packet_loss_permille > 0 && loss_draw < self.config.packet_loss_permille {
            return Err(MockTransportError::PacketLoss);
        }
        if self.config.simulate_failures && self.config.failure_rate_permille > 0 && failure_draw
            < self.config.failure_rate_permille {
            return Err(MockTransportError::ConnectionFailed);
        }
        if self.count_for(peer) >= self.config.max_queue_size {
            return Err(MockTransportError::QueueFull);
        }
        let ghost before = self.outbox();
        self.outbox.push(Outgoing { to: peer.clone(), message });
        assert(self.outbox() =~= before.push((peer@, message)));
        if self.message_counter < u64::MAX {
            self.message_counter = self.message_counter + 1;
        }
        Ok(())
    }

    /// Hands every message waiting for `other` to it, in the order they were
    /// sent, marked as coming from this endpoint. Returns how many moved.
    pub fn deliver_to(&mut self, other: &mut MockSignalingTransport) -> (r: usize)
        ensures
            r == messages_to(old(self).outbox(), old(other).name()).len(),
            final(other).inbox() == old(other).inbox() + from_sender(
                messages_to(old(self).outbox(), old(other).name()),
                old(self).name(),
            ),
            final(self).outbox() == not_to(old(self).outbox(), old(other).name()),
            final(self).name() == old(self).name(),
            final(self).inbox() == old(self).inbox(),
            final(self).peers() == old(self).peers(),
            final(self).spec_config() == old(self).spec_config(),
            final(self).spec_conditions() == old(self).spec_conditions(),
            final(other).name() == old(other).name(),
            final(other).outbox() == old(other).outbox(),
            final(other).peers() == old(other).peers(),
            final(other).spec_config() == old(other).spec_config(),
            final(other).spec_conditions() == old(other).spec_conditions(),
    {
        let ghost orig = self.outbox();
        let ghost inbox0 = other.inbox();
        let ghost dest = other.peer_id@;
        let ghost from = self.peer_id@;
        let mut pending: Vec<Outgoing> = Vec::new();
        std::mem::swap(&mut pending, &mut self.outbox);
        let total: usize = pending.len();
        let ghost n = total as nat;
        let mut kept: Vec<Outgoing> = Vec::new();
        let mut moved: usize = 0;
        let mut i: usize = 0;
        assert(pending@.map_values(|o: Outgoing| (o.to@, o.message)) =~= orig.subrange(0, n as int));
        while pending.len() > 0
            invariant
                i <= n,
                n == orig.len(),
                n == total,
                pending@.len() == n - i,
                pending@.map_values(|o: Outgoing| (o.to@, o.message)) == orig.subrange(
                    i as int,
                    n as int,
                ),
                other.peer_id@ == dest,
                self.peer_id@ == from,
                self.inbox() == old(self).inbox(),
                self.peers() == old(self).peers(),
                self.spec_config() == old(self).spec_config(),
                self.spec_conditions() == old(self).spec_conditions(),
                other.outbox() == old(other).outbox(),
                other.peers() == old(other).peers(),
                other.spec_config() == old(other).spec_config(),
                other.spec_conditions() == old(other).spec_conditions(),
                kept@.map_values(|o: Outgoing| (o.to@, o.message)) == not_to(
                    orig.subrange(0, i as int),
                    dest,
                ),
                other.inbox() == inbox0 + from_sender(
                    messages_to(orig.subrange(0, i as int), dest),
                    from,
                ),
                moved == messages_to(orig.subrange(0, i as int), dest).len(),
                moved <= i,
            decreases pending@.len(),
        {
            let ghost pre = orig.subrange(0, i as int);
            let ghost rest = pending@;
            assert(orig.subrange(0, i + 1).drop_last() =~= pre);
            assert(orig.subrange(0, i + 1).last() == orig[i as int]);
            let o = pending.remove(0);
            assert((o.to@, o.message) == orig[i as int]) by {
                assert(rest.map_values(|o: Outgoing| (o.to@, o.message))[0] == orig[i as int]);
            }
            assert forall|j: int| 0 <= j < pending@.len() implies (pending@[j].to@, pending@[j].message)
                == orig[i + 1 + j] by {
                assert(pending@[j] == rest[j + 1]);
                assert(rest.map_values(|o: Outgoing| (o.to@, o.message))[j + 1] == orig.subrange(
                    i as int,
                    n as int,
                )[j + 1]);
            }
            assert(pending@.map_values(|o: Outgoing| (o.to@, o.message)) =~= orig.subrange(
                i + 1,
                n as int,
            ));
            if o.to == other.peer_id {
                let ghost before = other.inbox();
                let sender = self.peer_id.clone();
                other.inbox.push((sender, o.message));
                assert(other.inbox() =~= before.push((from, orig[i as int].1)));
                assert(from_sender(messages_to(orig.subrange(0, i + 1), dest), from)
                    =~= from_sender(messages_to(pre, dest), from).push((from, orig[i as int].1)));
                moved = moved + 1;
            } else {
                let ghost before = kept@.map_values(|o: Outgoing| (o.to@, o.message));
                kept.push(o);
                assert(kept@.map_values(|o: Outgoing| (o.to@, o.message)) =~= before.push(
                    orig[i as int],
                ));
            }
            i = i + 1;
        }
        assert(orig.subrange(0, i as int) =~= orig);
        self.outbox = kept;
        moved
    }

    /// The oldest delivered message with its sender; fails with `NoMessages`
    /// when nothing has arrived.
    pub fn receive_next(&mut self) -> (r: Result<(String, SignalingMessage), MockTransportError>)
        ensures
            receive_outcome(*old(self), *final(self), r),
    {
        if self.inbox.len() == 0 {
            return Err(MockTransportError::NoMessages);
        }
        let ghost before = self.inbox();
        let e = self.inbox.remove(0);
        assert(self.inbox() =~= before.drop_first());
        Ok(e)
    }

    /// A connected peer is given a loopback endpoint whose port is 8000
    /// plus the byte length of its name (wrapping); an unknown one none.
    pub fn endpoint_of(&self, peer: &String) -> (r: Result<Option<SocketAddress>, MockTransportError>)
        ensures
            endpoint_outcome(*self, peer@, r),
    {
        if self.find_peer(peer) {
            let n = peer.as_str().len();
            let port = 8000u16.wrapping_add((n % 65536) as u16);
            Ok(Some(SocketAddress::localhost(port)))
        } else {
            Ok(None)
        }
    }
}

impl SignalingTransport for MockSignalingTransport {
    type PeerId = String;

    type Error = MockTransportError;

    open spec fn send_spec(
        &self,
        after: Self,
        peer: String,
        message: SignalingMessage,
        r: Result<(), MockTransportError>,
    ) -> bool {
        &&& send_outcome(
            *self,
            after,
            peer@,
            message,
            next_draw(self.draws()),
            next_draw(after_draw(self.draws())),
            r,
        )
        &&& after.draws() == after_draw(after_draw(self.draws()))
    }

    open spec fn receive_spec(
        &self,
        after: Self,
        r: Result<(String, SignalingMessage), MockTransportError>,
    ) -> bool {
        receive_outcome(*self, after, r)
    }

    open spec fn discover_spec(
        &self,
        peer: String,
        r: Result<Option<SocketAddress>, MockTransportError>,
    ) -> bool {
        endpoint_outcome(*self, peer@, r)
    }

    fn send_message(&mut self, peer: &String, message: SignalingMessage) -> Result<
        (),
        MockTransportError,
    > {
        let loss_draw = self.take_draw();
        let failure_draw = self.take_draw();
        self.send_to(peer, message, loss_draw, failure_draw)
    }

    fn receive_message(&mut self) -> Result<(String, SignalingMessage), MockTransportError> {
        self.receive_next()
    }

    fn discover_peer_endpoint(&self, peer: &String) -> Result<
        Option<SocketAddress>,
        MockTransportError,
    > {
        self.endpoint_of(peer)
    }
}

/// Ready-made pairs of connected endpoints named "peer1" and "peer2".
pub struct MockTransportPair;

impl MockTransportPair {
    /// A connected pair with the default behaviour.
    pub fn connected() -> (r: (MockSignalingTransport, MockSignalingTransport))
        ensures
            r.0.peers().contains(r.1.name()),
            r.1.peers().contains(r.0.name()),
            r.0.spec_config() == default_config(),
            r.1.spec_config() == default_config(),
            r.0.outbox().len() == 0 && r.1.outbox().len() == 0,
            r.0.inbox().len() == 0 && r.1.inbox().len() == 0,
            r.0.spec_conditions() == crate::network::default_conditions(),
            r.1.spec_conditions() == crate::network::default_conditions(),
    {
        MockTransportPair::connected_with_config(MockTransportConfig::default())
    }

    /// A connected pair with the given behaviour.
    pub fn connected_with_config(config: MockTransportConfig) -> (r: (
        MockSignalingTransport,
        MockSignalingTransport,
    ))
        ensures
            r.0.peers().contains(r.1.name()),
            r.1.peers().contains(r.0.name()),
            r.0.spec_config() == config,
            r.1.spec_config() == config,
            r.0.outbox().len() == 0 && r.1.outbox().len() == 0,
            r.0.inbox().len() == 0 && r.1.inbox().len() == 0,
            r.0.spec_conditions() == crate::network::default_conditions(),
            r.1.spec_conditions() == crate::network::default_conditions(),
    {
        let mut t1 = MockSignalingTransport::with_config("peer1", config);
        let mut t2 = MockSignalingTransport::with_config("peer2", config);
        t1.connect_to(&mut t2);
        (t1, t2)
    }

    /// A connected pair under the poor preset.
    pub fn connected_poor_network() -> (r: (MockSignalingTransport, MockSignalingTransport))
        ensures
            r.0.peers().contains(r.1.name()),
            r.1.peers().contains(r.0.name()),
            r.0.spec_config() == (MockTransportConfig {
                latency_ms: 200,
                packet_loss_permille: 100,
                max_queue_size: 100,
                simulate_failures: true,
                failure_rate_permille: 50,
                }),
    {
        MockTransportPair::connected_with_config(MockTransportConfig::poor())
    }

    /// A connected pair under the mobile preset.
    pub fn connected_mobile_network() -> (r: (MockSignalingTransport, MockSignalingTransport))
        ensures
            r.0.peers().contains(r.1.name()),
            r.1.peers().contains(r.0.name()),
            r.0.spec_config() == (MockTransportConfig {
                latency_ms: 100,
                packet_loss_permille: 20,
                max_queue_size: 500,
                simulate_failures: false,
                failure_rate_permille: 10,
                }),
    {
        MockTransportPair::connected_with_config(MockTransportConfig::mobile())
    }
}

/// Messages sent one after another to one peer are handed over, and so
/// received, in the order they were sent: after sending `a`, `b`, `c` to `p`
/// with nothing else waiting for `p`, delivery appends exactly `a`, `b`, `c`,
/// in that order, to `p`'s received messages.
pub proof fn lemma_order_preserved(
    outbox: Seq<(Seq<char>, SignalingMessage)>,
    p: Seq<char>,
    a: SignalingMessage,
    b: SignalingMessage,
    c: SignalingMessage,
)
    requires
        messages_to(outbox, p).len() == 0,
    ensures
        messages_to(outbox.push((p, a)).push((p, b)).push((p, c)), p) == seq![a, b, c],
{
    let o1 = outbox.push((p, a));
    let o2 = o1.push((p, b));
    let o3 = o2.push((p, c));
    assert(o1.drop_last() =~= outbox);
    assert(o2.drop_last() =~= o1);
    assert(o3.drop_last() =~= o2);
    assert(messages_to(outbox, p) =~= Seq::<SignalingMessage>::empty());
    assert(messages_to(o1, p) == messages_to(outbox, p).push(a));
    assert(messages_to(o2, p) == messages_to(o1, p).push(b));
    assert(messages_to(o3, p) == messages_to(o2, p).push(c));
    assert(messages_to(o3, p) =~= seq![a, b, c]);
}

} // verus!
