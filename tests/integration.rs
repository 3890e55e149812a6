use saorsa_webrtc::call::{CallManager, CallManagerConfig, PeerIdentityString, SignalOutcome};
use saorsa_webrtc::network::NetworkConditions;
use saorsa_webrtc::signaling::{SessionId, SignalingHandler, SignalingMessage, SignalingTransport};
use saorsa_webrtc::simulation::{MockSignalingTransport, MockTransportConfig, MockTransportPair};
use saorsa_webrtc::types::{CallState, MediaConstraints};

type Manager = CallManager<PeerIdentityString, ()>;

fn managers() -> (Manager, Manager) {
    let call_config = CallManagerConfig::default();
    (Manager::new(call_config.clone()).unwrap(), Manager::new(call_config).unwrap())
}

fn peer(name: &str) -> String {
    name.to_string()
}

/// Sends `message` through `from` to the peer named `to_name`, hands it over
/// to `to`, and returns what `to` receives.
fn relay(
    from: &mut SignalingHandler<MockSignalingTransport>,
    to: &mut SignalingHandler<MockSignalingTransport>,
    to_name: &str,
    message: SignalingMessage,
) -> (String, SignalingMessage) {
    from.send_message(&to_name.to_string(), message).unwrap();
    from.transport_mut().deliver_to(to.transport_mut());
    to.receive_message().unwrap()
}

/// Moves everything `from` has queued for `to` and returns what `to` then
/// receives.
fn exchange(
    from: &mut MockSignalingTransport,
    to: &mut MockSignalingTransport,
) -> Vec<(String, SignalingMessage)> {
    from.deliver_to(to);
    let mut out = Vec::new();
    while let Ok(m) = to.receive_message() {
        out.push(m);
    }
    out
}

#[test]
fn test_call_flow_with_perfect_network() {
    let (transport1, transport2) = MockTransportPair::connected();
    let mut signaling1 = SignalingHandler::new(transport1);
    let mut signaling2 = SignalingHandler::new(transport2);
    let (mut caller, mut callee) = managers();

    let callee_id = PeerIdentityString::new("callee");
    let constraints = MediaConstraints::video_call();

    // Initiate call; the offer reaches the callee.
    let call_id = caller.initiate_call(callee_id.clone(), constraints.clone(), ()).unwrap();
    assert_eq!(caller.get_call_state(call_id), Some(CallState::Calling));
    let offer = caller.offer_message(call_id, "v=0".to_string()).unwrap();
    let (from, msg) = relay(&mut signaling1, &mut signaling2, "peer2", offer);
    let outcome = callee.on_signal(PeerIdentityString::new(&from), &msg, constraints, Some(())).unwrap();
    assert!(matches!(outcome, SignalOutcome::Registered(id) if id == call_id));

    // Accept call; the answer reaches the caller.
    callee.accept_call(call_id, constraints).unwrap();
    assert_eq!(callee.get_call_state(call_id), Some(CallState::Connected));
    let answer = callee.answer_message(call_id, "v=0".to_string()).unwrap();
    let (from, msg) = relay(&mut signaling2, &mut signaling1, "peer1", answer);
    caller.on_signal(PeerIdentityString::new(&from), &msg, constraints, Some(())).unwrap();
    assert_eq!(caller.get_call_state(call_id), Some(CallState::Connected));

    // End call; the bye reaches the callee.
    caller.end_call(call_id).unwrap();
    let bye = Manager::bye_message(call_id, None).unwrap();
    let (from, msg) = relay(&mut signaling1, &mut signaling2, "peer2", bye);
    let outcome = callee.on_signal(PeerIdentityString::new(&from), &msg, constraints, Some(())).unwrap();
    assert!(matches!(outcome, SignalOutcome::Ended(_)));
    assert_eq!(caller.get_call_state(call_id), None);
    assert_eq!(callee.get_call_state(call_id), None);
}

#[test]
fn test_call_flow_with_poor_network() {
    let (mut transport1, mut transport2) = MockTransportPair::connected_poor_network();
    let (mut caller, mut callee) = managers();

    let callee_id = PeerIdentityString::new("callee");
    let constraints = MediaConstraints::audio_only();

    let call_id = caller.initiate_call(callee_id, constraints, ()).unwrap();
    transport1.set_draws(vec![50, 999]);
    let offer = caller.offer_message(call_id, "v=0".to_string()).unwrap();
    match transport1.send_message(&peer("peer2"), offer) {
        Ok(()) => {
            let got = exchange(&mut transport1, &mut transport2);
            assert_eq!(got.len(), 1);
            callee.on_signal(PeerIdentityString::new(&got[0].0), &got[0].1, constraints, Some(())).unwrap();
            if callee.accept_call(call_id, constraints).is_ok() {
                let _ = caller.end_call(call_id);
            }
        }
        Err(_) => {
            assert!(caller.end_call(call_id).is_ok());
            assert_eq!(caller.get_call_state(call_id), None);
        }
    }
}

#[test]
fn test_multiple_concurrent_calls() {
    let (mut caller, mut callee) = managers();
    let constraints = MediaConstraints::audio_only();

    let mut call_ids = Vec::new();
    for i in 0..5 {
        let call_id = caller
            .initiate_call(PeerIdentityString::new(&format!("callee-{}", i)), constraints.clone(), ())
            .unwrap();
        call_ids.push(call_id);
    }

    for call_id in &call_ids {
        assert_eq!(caller.get_call_state(*call_id), Some(CallState::Calling));
    }

    for call_id in &call_ids {
        let _ = callee.accept_call(*call_id, constraints.clone());
    }

    caller.end_call(call_ids[0]).unwrap();
    for call_id in &call_ids[1..] {
        assert_eq!(caller.get_call_state(*call_id), Some(CallState::Calling));
    }

    for call_id in &call_ids {
        let _ = caller.end_call(*call_id);
    }

    for call_id in &call_ids {
        assert_eq!(caller.get_call_state(*call_id), None);
    }
}

#[test]
fn test_network_condition_transitions() {
    let (mut transport1, mut transport2) = MockTransportPair::connected();
    transport1.set_network_conditions(NetworkConditions::perfect());
    transport2.set_network_conditions(NetworkConditions::perfect());

    let (mut caller, _callee) = managers();
    let constraints = MediaConstraints::video_call();
    let call_id = caller.initiate_call(PeerIdentityString::new("callee"), constraints, ()).unwrap();
    let offer = SignalingMessage::offer(call_id.to_string(), "v=0".to_string(), None).unwrap();
    assert!(transport1.send_message(&peer("peer2"), offer.clone()).is_ok());

    transport1.set_network_conditions(NetworkConditions::offline());
    transport2.set_network_conditions(NetworkConditions::poor());
    assert_eq!(transport1.network_conditions(), NetworkConditions::offline());

    let r = transport1.send_message(&peer("peer2"), offer);
    assert!(r.is_err());
    let _ = caller.end_call(call_id);
    assert_eq!(caller.get_call_state(call_id), None);
}

#[test]
fn test_transport_resilience() {
    let config = MockTransportConfig {
        simulate_failures: true,
        failure_rate_permille: 100,
        ..Default::default()
    };

    let (mut transport1, transport2) = MockTransportPair::connected_with_config(config);
    let failure_draws = [85u32, 515, 549, 711, 836, 874, 381, 413, 894, 808];
    transport1.set_draws(failure_draws.iter().flat_map(|d| [999, *d]).collect());
    let mut signaling1 = SignalingHandler::new(transport1);
    let mut signaling2 = SignalingHandler::new(transport2);

    let (mut caller, mut callee) = managers();
    let callee_id = PeerIdentityString::new("callee");
    let constraints = MediaConstraints::audio_only();

    let mut successful_calls = 0;
    let mut failed_calls = 0;

    for _ in 0..10 {
        let call_id = caller.initiate_call(callee_id.clone(), constraints.clone(), ()).unwrap();
        let offer = caller.offer_message(call_id, "v=0".to_string()).unwrap();
        match signaling1.send_message(&"peer2".to_string(), offer) {
            Ok(()) => {
                successful_calls += 1;
                signaling1.transport_mut().deliver_to(signaling2.transport_mut());
                let (from, msg) = signaling2.receive_message().unwrap();
                callee.on_signal(PeerIdentityString::new(&from), &msg, constraints, Some(())).unwrap();
                callee.accept_call(call_id, constraints.clone()).unwrap();
                callee.end_call(call_id).unwrap();
                caller.end_call(call_id).unwrap();
            }
            Err(_) => {
                failed_calls += 1;
                caller.end_call(call_id).unwrap();
            }
        }
    }

    println!("Successful calls: {}, Failed calls: {}", successful_calls, failed_calls);
    assert!(successful_calls > 0, "Should have some successful calls");
    assert!(failed_calls > 0, "Should have some failed calls due to simulated failures");
}

#[test]
fn test_message_ordering_preservation() {
    let (mut transport1, mut transport2) = MockTransportPair::connected();

    let messages = vec![
        SignalingMessage::Offer {
            session_id: SessionId::new("session-1".to_string()).unwrap(),
            sdp: "sdp-1".to_string(),
            quic_endpoint: None,
        },
        SignalingMessage::Answer {
            session_id: SessionId::new("session-2".to_string()).unwrap(),
            sdp: "sdp-2".to_string(),
            quic_endpoint: None,
        },
        SignalingMessage::IceCandidate {
            session_id: SessionId::new("session-3".to_string()).unwrap(),
            candidate: "candidate-3".to_string(),
            sdp_mid: None,
            sdp_mline_index: None,
        },
    ];

    for message in &messages {
        let _ = transport1.send_message(&"peer2".to_string(), message.clone());
    }
    transport1.deliver_to(&mut transport2);

    let mut received_messages = Vec::new();
    for _ in 0..messages.len() {
        if let Ok((_peer, message)) = transport2.receive_message() {
            received_messages.push(message);
        }
    }

    assert_eq!(received_messages.len(), messages.len());
    for (i, (received, expected)) in received_messages.iter().zip(messages.iter()).enumerate() {
        match (received, expected) {
            (SignalingMessage::Offer { session_id, .. }, SignalingMessage::Offer { session_id: expected_id, .. }) => {
                assert_eq!(session_id, expected_id);
            }
            (SignalingMessage::Answer { session_id, .. }, SignalingMessage::Answer { session_id: expected_id, .. }) => {
                assert_eq!(session_id, expected_id);
            }
            (SignalingMessage::IceCandidate { session_id, .. }, SignalingMessage::IceCandidate { session_id: expected_id, .. }) => {
                assert_eq!(session_id, expected_id);
            }
            _ => panic!("Message types don't match at index {}", i),
        }
    }
    assert_eq!(received_messages, messages);
}
