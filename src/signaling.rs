//! Signaling messages, the transport capability that carries them, and the
//! handler that binds a transport to the protocol.

use vstd::prelude::*;

verus! {

/// Longest session identifier, in characters.
pub const MAX_SESSION_ID_LEN: usize = 100;

/// Errors of the signaling layer.
#[derive(Debug, Clone, PartialEq, Eq)]
pub enum SignalingError {
    /// Invalid SDP
    InvalidSdp(String),
    /// Session not found
    SessionNotFound(String),
    /// Transport error
    TransportError(String),
    /// A session identifier that is empty or longer than
    /// `MAX_SESSION_ID_LEN` characters.
    InvalidSessionId(String),
}

/// An IP address.
#[derive(Debug, Clone, Copy, PartialEq, Eq, Structural, Hash)]
pub enum IpAddress {
    /// IPv4, as the 32-bit value of its four octets, first octet highest.
    V4(u32),
    /// IPv6, as the 128-bit value of its sixteen octets, first octet highest.
    V6(u128),
}

/// An IP address and a port.
#[derive(Debug, Clone, Copy, PartialEq, Eq, Structural, Hash)]
pub struct SocketAddress {
    /// Address
    pub ip: IpAddress,
    /// Port
    pub port: u16,
}

impl SocketAddress {
    /// The IPv4 address `a.b.c.d` with the given port.
    pub fn v4(a: u8, b: u8, c: u8, d: u8, port: u16) -> (r: Self)
        ensures
            r.ip == IpAddress::V4(
                ((a as u32) * 0x100_0000 + (b as u32) * 0x1_0000 + (c as u32) * 0x100
                    + d as u32) as u32,
            ),
            r.port == port,
    {
        let v = (a as u32) * 0x100_0000 + (b as u32) * 0x1_0000 + (c as u32) * 0x100 + d as u32;
        SocketAddress { ip: IpAddress::V4(v), port }
    }

    /// 127.0.0.1 with the given port.
    pub fn localhost(port: u16) -> (r: Self)
        ensures
            r == (SocketAddress { ip: IpAddress::V4(0x7f00_0001), port }),
    {
        SocketAddress { ip: IpAddress::V4(0x7f00_0001), port }
    }
}

/// A session identifier: never empty and at most `MAX_SESSION_ID_LEN`
/// characters long.
#[derive(Debug, PartialEq, Eq, Hash)]
pub struct SessionId {
    id: String,
}

impl View for SessionId {
    type V = Seq<char>;

    closed spec fn view(&self) -> Seq<char> {
        self.id@
    }
}

impl Clone for SessionId {
    fn clone(&self) -> (r: Self)
        ensures
            r@ == self@,
    {
        proof {
            use_type_invariant(self);
        }
        SessionId { id: self.id.clone() }
    }
}

impl SessionId {
    #[verifier::type_invariant]
    spec fn bounded(&self) -> bool {
        valid_session_id(self.id@)
    }

    /// The identifier with the given text; fails with `InvalidSessionId`
    /// when the text is empty or longer than `MAX_SESSION_ID_LEN`
    /// characters.
    pub fn new(text: String) -> (r: Result<Self, SignalingError>)
        ensures
            r is Ok <==> valid_session_id(text@),
            r matches Ok(s) ==> s@ == text@,
            r matches Err(e) ==> e is InvalidSessionId,
    {
        let n = text.as_str().unicode_len();
        if n == 0 || n > MAX_SESSION_ID_LEN {
            Err(SignalingError::InvalidSessionId(text))
        } else {
            Ok(SessionId { id: text })
        }
    }

    /// The identifier's text.
    pub fn as_str(&self) -> (r: &str)
        ensures
            r@ == self@,
            valid_session_id(r@),
    {
        proof {
            use_type_invariant(self);
        }
        self.id.as_str()
    }
}

/// A negotiation message exchanged between two peers. Every variant names
/// the session it belongs to.
#[derive(Debug, Clone, PartialEq, Eq)]
pub enum SignalingMessage {
    /// SDP offer
    Offer {
        /// Session ID
        session_id: SessionId,
        /// SDP content
        sdp: String,
        /// Optional QUIC endpoint
        quic_endpoint: Option<SocketAddress>,
    },
    /// SDP answer
    Answer {
        /// Session ID
        session_id: SessionId,
        /// SDP content
        sdp: String,
        /// Optional QUIC endpoint
        quic_endpoint: Option<SocketAddress>,
    },
    /// ICE candidate
    IceCandidate {
        /// Session ID
        session_id: SessionId,
        /// Candidate string
        candidate: String,
        /// SDP mid
        sdp_mid: Option<String>,
        /// SDP mline index
        sdp_mline_index: Option<u16>,
    },
    /// ICE gathering complete
    IceComplete {
        /// Session ID
        session_id: SessionId,
    },
    /// Close session
    Bye {
        /// Session ID
        session_id: SessionId,
        /// Optional reason
        reason: Option<String>,
    },
}

/// The session identifier a message carries.
pub open spec fn session_of(m: SignalingMessage) -> Seq<char> {
    match m {
        SignalingMessage::Offer { session_id, .. } => session_id@,
        SignalingMessage::Answer { session_id, .. } => session_id@,
        SignalingMessage::IceCandidate { session_id, .. } => session_id@,
        SignalingMessage::IceComplete { session_id } => session_id@,
        SignalingMessage::Bye { session_id, .. } => session_id@,
    }
}

/// A usable session identifier: not empty and at most
/// `MAX_SESSION_ID_LEN` characters.
pub open spec fn valid_session_id(s: Seq<char>) -> bool {
    0 < s.len() <= MAX_SESSION_ID_LEN
}

impl SignalingMessage {
    /// The session identifier of the message, whatever its variant: never
    /// empty and at most `MAX_SESSION_ID_LEN` characters long.
    pub fn session_id(&self) -> (r: &str)
        ensures
            r@ == session_of(*self),
            valid_session_id(r@),
    {
        match self {
            SignalingMessage::Offer { session_id, .. } => session_id.as_str(),
            SignalingMessage::Answer { session_id, .. } => session_id.as_str(),
            SignalingMessage::IceCandidate { session_id, .. } => session_id.as_str(),
            SignalingMessage::IceComplete { session_id } => session_id.as_str(),
            SignalingMessage::Bye { session_id, .. } => session_id.as_str(),
        }
    }

    /// An offer; fails with `InvalidSessionId` for an unusable identifier.
    pub fn offer(session_id: String, sdp: String, quic_endpoint: Option<SocketAddress>) -> (r:
        Result<Self, SignalingError>)
        ensures
            r is Ok <==> valid_session_id(session_id@),
            r matches Err(e) ==> e is InvalidSessionId,
            r matches Ok(m) ==> (m matches SignalingMessage::Offer { session_id: s, sdp: d, quic_endpoint: q }
                && s@ == session_id@ && d == sdp && q == quic_endpoint),
    {
        match SessionId::new(session_id) {
            Ok(session_id) => Ok(SignalingMessage::Offer { session_id, sdp, quic_endpoint }),
            Err(e) => Err(e),
        }
    }

    /// An answer; fails with `InvalidSessionId` for an unusable identifier.
    pub fn answer(session_id: String, sdp: String, quic_endpoint: Option<SocketAddress>) -> (r:
        Result<Self, SignalingError>)
        ensures
            r is Ok <==> valid_session_id(session_id@),
            r matches Err(e) ==> e is InvalidSessionId,
            r matches Ok(m) ==> (m matches SignalingMessage::Answer { session_id: s, sdp: d, quic_endpoint: q }
                && s@ == session_id@ && d == sdp && q == quic_endpoint),
    {
        match SessionId::new(session_id) {
            Ok(session_id) => Ok(SignalingMessage::Answer { session_id, sdp, quic_endpoint }),
            Err(e) => Err(e),
        }
    }

    /// A connectivity candidate; fails with `InvalidSessionId` for an
    /// unusable identifier.
    pub fn ice_candidate(
        session_id: String,
        candidate: String,
        sdp_mid: Option<String>,
        sdp_mline_index: Option<u16>,
    ) -> (r: Result<Self, SignalingError>)
        ensures
            r is Ok <==> valid_session_id(session_id@),
            r matches Err(e) ==> e is InvalidSessionId,
            r matches Ok(m) ==> (m matches SignalingMessage::IceCandidate {
                session_id: s,
                candidate: c,
                sdp_mid: mid,
                sdp_mline_index: idx,
            } && s@ == session_id@ && c == candidate && mid == sdp_mid && idx == sdp_mline_index),
    {
        match SessionId::new(session_id) {
            Ok(session_id) => Ok(
                SignalingMessage::IceCandidate { session_id, candidate, sdp_mid, sdp_mline_index },
            ),
            Err(e) => Err(e),
        }
    }

    /// End of candidate gathering; fails with `InvalidSessionId` for an
    /// unusable identifier.
    pub fn ice_complete(session_id: String) -> (r: Result<Self, SignalingError>)
        ensures
            r is Ok <==> valid_session_id(session_id@),
            r matches Err(e) ==> e is InvalidSessionId,
            r matches Ok(m) ==> (m matches SignalingMessage::IceComplete { session_id: s }
                && s@ == session_id@),
    {
        match SessionId::new(session_id) {
            Ok(session_id) => Ok(SignalingMessage::IceComplete { session_id }),
            Err(e) => Err(e),
        }
    }

    /// Closing of a session; fails with `InvalidSessionId` for an unusable
    /// identifier.
    pub fn bye(session_id: String, reason: Option<String>) -> (r: Result<Self, SignalingError>)
        ensures
            r is Ok <==> valid_session_id(session_id@),
            r matches Err(e) ==> e is InvalidSessionId,
            r matches Ok(m) ==> (m matches SignalingMessage::Bye { session_id: s, reason: why }
                && s@ == session_id@ && why == reason),
    {
        match SessionId::new(session_id) {
            Ok(session_id) => Ok(SignalingMessage::Bye { session_id, reason }),
            Err(e) => Err(e),
        }
    }
}

/// A backend that carries signaling messages between peers: a DHT, a gossip
/// network, a direct connection, or a simulation. Each backend states what
/// its operations do through the three relations below; a backend that
/// states nothing keeps the defaults, which promise nothing.
pub trait SignalingTransport: Sized {
    /// How the backend names a peer.
    type PeerId;

    /// The backend's error.
    type Error;

    /// What one send of `message` to `peer` may do to the backend (from
    /// `self` to `after`) and return.
    open spec fn send_spec(
        &self,
        after: Self,
        peer: Self::PeerId,
        message: SignalingMessage,
        r: Result<(), Self::Error>,
    ) -> bool {
        true
    }

    /// What one receive may do to the backend and return.
    open spec fn receive_spec(
        &self,
        after: Self,
        r: Result<(Self::PeerId, SignalingMessage), Self::Error>,
    ) -> bool {
        true
    }

    /// What endpoint discovery for `peer` may return.
    open spec fn discover_spec(&self, peer: Self::PeerId, r: Result<Option<SocketAddress>, Self::Error>) -> bool {
        true
    }

    /// One best-effort attempt to deliver a message to a peer.
    fn send_message(&mut self, peer: &Self::PeerId, message: SignalingMessage) -> (r: Result<
        (),
        Self::Error,
    >)
        ensures
            old(self).send_spec(*final(self), *peer, message, r),
    ;

    /// The next message that has arrived, with its sender.
    fn receive_message(&mut self) -> (r: Result<(Self::PeerId, SignalingMessage), Self::Error>)
        ensures
            old(self).receive_spec(*final(self), r),
    ;

    /// The peer's network endpoint, or None when the backend does not know
    /// it and connectivity is left to the transport's own discovery.
    fn discover_peer_endpoint(&self, peer: &Self::PeerId) -> (r: Result<
        Option<SocketAddress>,
        Self::Error,
    >)
        ensures
            self.discover_spec(*peer, r),
    ;
}

/// Binds a transport to the signaling operations, so that callers need not
/// depend on the transport's type.
pub struct SignalingHandler<T> {
    transport: T,
}

impl<T: SignalingTransport> SignalingHandler<T> {
    /// The bound transport, as a value.
    pub closed spec fn spec_transport(&self) -> T {
        self.transport
    }

    /// A handler over the given transport.
    pub fn new(transport: T) -> (r: Self)
        ensures
            r.spec_transport() == transport,
    {
        SignalingHandler { transport }
    }

    /// The bound transport.
    pub fn transport(&self) -> (r: &T)
        ensures
            *r == self.spec_transport(),
    {
        &self.transport
    }

    /// The bound transport, for changes of its own.
    pub fn transport_mut(&mut self) -> (r: &mut T)
        ensures
            *r == old(self).spec_transport(),
            final(self).spec_transport() == *final(r),
    {
        &mut self.transport
    }

    /// Sends through the transport: exactly one send of the same message to
    /// the same peer, whose outcome is returned unchanged.
    pub fn send_message(&mut self, peer: &T::PeerId, message: SignalingMessage) -> (r: Result<
        (),
        T::Error,
    >)
        ensures
            old(self).spec_transport().send_spec(final(self).spec_transport(), *peer, message, r),
    {
        self.transport.send_message(peer, message)
    }

    /// Receives through the transport: exactly one receive, whose outcome is
    /// returned unchanged.
    pub fn receive_message(&mut self) -> (r: Result<(T::PeerId, SignalingMessage), T::Error>)
        ensures
            old(self).spec_transport().receive_spec(final(self).spec_transport(), r),
    {
        self.transport.receive_message()
    }

    /// Asks the transport for a peer's endpoint, returning its answer
    /// unchanged.
    pub fn discover_peer_endpoint(&self, peer: &T::PeerId) -> (r: Result<
        Option<SocketAddress>,
        T::Error,
    >)
        ensures
            self.spec_transport().discover_spec(*peer, r),
    {
        self.transport.discover_peer_endpoint(peer)
    }
}

} // verus!
