use saorsa_webrtc::signaling::{SessionId, SignalingMessage, SignalingTransport, SocketAddress};
use saorsa_webrtc::simulation::{
    MockSignalingTransport, MockTransportConfig, MockTransportError, MockTransportPair,
};

fn offer(id: &str) -> SignalingMessage {
    SignalingMessage::Offer { session_id: SessionId::new(id.to_string()).unwrap(), sdp: "test-sdp".to_string(), quic_endpoint: None }
}

#[test]
fn test_mock_transport_basic_functionality() {
    let (mut t1, mut t2) = MockTransportPair::connected();

    assert!(t1.is_connected_to("peer2"));
    assert!(t2.is_connected_to("peer1"));

    let message = offer("test");

    t1.send_message(&"peer2".to_string(), message.clone()).unwrap();
    t1.deliver_to(&mut t2);

    let (peer, received) = t2.receive_message().unwrap();
    assert_eq!(peer, "peer1");
    assert_eq!(received.session_id(), message.session_id());
}

#[test]
fn test_mock_transport_packet_loss() {
    let config = MockTransportConfig { packet_loss_permille: 1000, ..Default::default() };

    let (mut t1, _t2) = MockTransportPair::connected_with_config(config);

    let result = t1.send_message(&"peer2".to_string(), offer("test"));
    assert!(matches!(result, Err(MockTransportError::PacketLoss)));
}

#[test]
fn test_mock_transport_not_connected() {
    let mut t1 = MockSignalingTransport::new("peer1");
    let _t2 = MockSignalingTransport::new("peer2");

    let result = t1.send_message(&"peer2".to_string(), offer("test"));
    assert!(matches!(result, Err(MockTransportError::NotConnected(_))));
}

#[test]
fn queue_bound_and_counts() {
    let config = MockTransportConfig { max_queue_size: 2, ..Default::default() };
    let (mut t1, mut t2) = MockTransportPair::connected_with_config(config);
    let p2 = "peer2".to_string();
    t1.send_message(&p2, offer("a")).unwrap();
    t1.send_message(&p2, offer("b")).unwrap();
    assert_eq!(t1.send_message(&p2, offer("c")), Err(MockTransportError::QueueFull));
    assert_eq!(t1.queued_message_count("peer2"), 2);
    assert_eq!(t1.message_count(), 2);
    assert_eq!(t1.deliver_to(&mut t2), 2);
    assert_eq!(t1.queued_message_count("peer2"), 0);
    assert_eq!(t2.receive_message().unwrap().1.session_id(), "a");
    assert_eq!(t2.receive_message().unwrap().1.session_id(), "b");
    assert_eq!(t2.receive_message(), Err(MockTransportError::NoMessages));
}

#[test]
fn disconnect_and_discovery() {
    let (mut t1, t2) = MockTransportPair::connected();
    assert_eq!(
        t1.discover_peer_endpoint(&"peer2".to_string()).unwrap(),
        Some(SocketAddress::localhost(8005))
    );
    assert_eq!(t1.connected_peers(), vec!["peer2".to_string()]);
    t1.disconnect_from("peer2");
    assert!(!t1.is_connected_to("peer2"));
    assert!(t2.is_connected_to("peer1"));
    assert_eq!(t1.discover_peer_endpoint(&"peer2".to_string()).unwrap(), None);
    assert!(matches!(
        t1.send_message(&"peer2".to_string(), offer("x")),
        Err(MockTransportError::NotConnected(_))
    ));
}

#[test]
fn messages_to_other_peers_stay_queued() {
    let mut t1 = MockSignalingTransport::new("peer1");
    let mut t2 = MockSignalingTransport::new("peer2");
    let mut t3 = MockSignalingTransport::new("peer3");
    t1.connect_to(&mut t2);
    t1.connect_to(&mut t3);
    t1.send_message(&"peer3".to_string(), offer("for-3")).unwrap();
    t1.send_message(&"peer2".to_string(), offer("for-2")).unwrap();
    assert_eq!(t1.deliver_to(&mut t2), 1);
    assert_eq!(t1.queued_message_count("peer3"), 1);
    t1.clear_queues();
    assert_eq!(t1.queued_message_count("peer3"), 0);
    assert_eq!(t2.receive_message().unwrap().1.session_id(), "for-2");
}

#[test]
fn draws_decide_loss_and_failure() {
    let config = MockTransportConfig {
        packet_loss_permille: 100,
        simulate_failures: true,
        failure_rate_permille: 200,
        ..Default::default()
    };
    let (mut t1, _t2) = MockTransportPair::connected_with_config(config);
    let p2 = "peer2".to_string();
    assert_eq!(t1.send_to(&p2, offer("a"), 99, 999), Err(MockTransportError::PacketLoss));
    assert_eq!(t1.send_to(&p2, offer("a"), 100, 199), Err(MockTransportError::ConnectionFailed));
    assert_eq!(t1.send_to(&p2, offer("a"), 100, 200), Ok(()));
    t1.set_draws(vec![0, 999, 500]);
    assert_eq!(t1.send_message(&p2, offer("b")), Err(MockTransportError::PacketLoss));
    assert_eq!(t1.send_message(&p2, offer("c")), Ok(()));
    assert_eq!(t1.queued_message_count("peer2"), 2);
}
