use saorsa_webrtc::gossip::{GossipPeerId, YourGossipNetwork};
use saorsa_webrtc::terminal::{CliDisplayMode, ConnectionStats, DisplayMode};
use saorsa_webrtc::transport::TransportConfig;

#[test]
fn test_transport_config_default() {
    let config = TransportConfig::default();
    assert!(config.local_addr.is_none());
}

#[test]
fn display_mode_from_command_line() {
    assert_eq!(DisplayMode::from(CliDisplayMode::Sixel), DisplayMode::Sixel);
    assert_eq!(DisplayMode::from(CliDisplayMode::Ascii), DisplayMode::Ascii);
    assert_eq!(DisplayMode::from(CliDisplayMode::NoVideo), DisplayMode::NoVideo);
    let stats = ConnectionStats::default();
    assert_eq!(stats.rtt_ms, None);
    assert_eq!(stats.packets_sent, None);
}

#[test]
fn gossip_identity_and_network() {
    let id: GossipPeerId = "node-7".parse().unwrap();
    assert_eq!(id, GossipPeerId::new("node-7"));
    assert_eq!(id.as_str(), "node-7");
    let net = YourGossipNetwork::new();
    net.set_signaling_callback(|_from: String, _data: Vec<u8>| {});
    assert!(net.send_to_peer("node-7", b"WEBRTC_SIGNALING", &[1, 2]).is_ok());
    assert!(net.get_peer_endpoint("node-7").is_none());
}
