use saorsa_webrtc::signaling::{
    IpAddress, SessionId, SignalingError, SignalingHandler, SignalingMessage, SignalingTransport, SocketAddress,
};
use std::collections::VecDeque;

struct MockTransport {
    messages: VecDeque<(String, SignalingMessage)>,
}

#[derive(Debug)]
struct MockError;

impl MockTransport {
    fn new() -> Self {
        Self { messages: VecDeque::new() }
    }

    fn add_message(&mut self, peer: String, message: SignalingMessage) {
        self.messages.push_back((peer, message));
    }
}

impl SignalingTransport for MockTransport {
    type PeerId = String;
    type Error = MockError;

    fn send_message(&mut self, peer: &String, message: SignalingMessage) -> Result<(), MockError> {
        self.messages.push_back((peer.clone(), message));
        Ok(())
    }

    fn receive_message(&mut self) -> Result<(String, SignalingMessage), MockError> {
        self.messages.pop_front().ok_or(MockError)
    }

    fn discover_peer_endpoint(&self, _peer: &String) -> Result<Option<SocketAddress>, MockError> {
        Ok(Some(SocketAddress::localhost(8080)))
    }
}

#[test]
fn test_signaling_handler_send_message() {
    let mut handler = SignalingHandler::new(MockTransport::new());

    let message = SignalingMessage::Offer {
        session_id: SessionId::new("test-session".to_string()).unwrap(),
        sdp: "test-sdp".to_string(),
        quic_endpoint: None,
    };

    let result = handler.send_message(&"peer1".to_string(), message.clone());
    assert!(result.is_ok());

    let received = handler.transport_mut().messages.pop_front();
    assert_eq!(received, Some(("peer1".to_string(), message)));
}

#[test]
fn test_signaling_handler_receive_message() {
    let mut transport = MockTransport::new();

    let message = SignalingMessage::Answer {
        session_id: SessionId::new("test-session".to_string()).unwrap(),
        sdp: "test-sdp".to_string(),
        quic_endpoint: None,
    };

    transport.add_message("peer1".to_string(), message.clone());
    let mut handler = SignalingHandler::new(transport);

    let result = handler.receive_message();
    assert!(result.is_ok());
    let (peer, received_message) = result.unwrap();
    assert_eq!(peer, "peer1");
    assert_eq!(received_message, message);
}

#[test]
fn test_signaling_handler_discover_endpoint() {
    let handler = SignalingHandler::new(MockTransport::new());

    let result = handler.discover_peer_endpoint(&"peer1".to_string());
    assert!(result.is_ok());
    assert_eq!(
        result.unwrap(),
        Some(SocketAddress { ip: IpAddress::V4(0x7f00_0001), port: 8080 })
    );
}

#[test]
fn session_ids_of_every_variant() {
    let msgs = vec![
        SignalingMessage::offer("s1".to_string(), "sdp".to_string(), None).unwrap(),
        SignalingMessage::answer("s2".to_string(), "sdp".to_string(), Some(SocketAddress::localhost(9)))
            .unwrap(),
        SignalingMessage::ice_candidate("s3".to_string(), "c".to_string(), Some("0".to_string()), Some(0))
            .unwrap(),
        SignalingMessage::ice_complete("s4".to_string()).unwrap(),
        SignalingMessage::bye("s5".to_string(), Some("done".to_string())).unwrap(),
    ];
    let ids: Vec<&str> = msgs.iter().map(|m| m.session_id()).collect();
    assert_eq!(ids, vec!["s1", "s2", "s3", "s4", "s5"]);
    for m in &msgs {
        assert!(!m.session_id().is_empty());
        assert!(m.session_id().chars().count() <= 100);
    }
}

#[test]
fn unusable_session_ids_are_refused() {
    let empty = SignalingMessage::offer(String::new(), "sdp".to_string(), None);
    assert!(matches!(empty, Err(SignalingError::InvalidSessionId(_))));
    let long = "x".repeat(101);
    assert!(SignalingMessage::bye(long, None).is_err());
    let exactly = "é".repeat(100);
    assert!(SignalingMessage::ice_complete(exactly).is_ok());
    assert!(SessionId::new(String::new()).is_err());
    assert_eq!(SessionId::new("abc".to_string()).unwrap().as_str(), "abc");
}

#[test]
fn socket_address_from_octets() {
    let a = SocketAddress::v4(192, 168, 1, 1, 12345);
    assert_eq!(a.ip, IpAddress::V4(0xc0a8_0101));
    assert_eq!(a.port, 12345);
}
