use saorsa_webrtc::rtp::{PacketError, RtpPacket};
use saorsa_webrtc::stream::{BridgeError, QuicBridgeConfig, StreamConfig, StreamType, WebRtcQuicBridge};

#[test]
fn test_quic_bridge_send_rtp_packet() {
    let bridge = WebRtcQuicBridge::default();
    let packet = vec![1, 2, 3, 4];

    let result = bridge.send_rtp_packet(&packet);
    assert!(result.is_ok());
}

#[test]
fn test_quic_bridge_receive_rtp_packet() {
    let bridge = WebRtcQuicBridge::default();

    let result = bridge.receive_rtp_packet();
    assert!(result.is_err());
    assert!(matches!(result, Err(BridgeError::StreamError(_))));
}

#[test]
fn test_quic_bridge_bridge_track() {
    let bridge = WebRtcQuicBridge::default();

    let result = bridge.bridge_track("audio-track");
    assert!(result.is_ok());
}

#[test]
fn bridge_refuses_oversized_packets() {
    let bridge = WebRtcQuicBridge::new(QuicBridgeConfig { max_packet_size: 4 });
    assert!(bridge.send_rtp_packet(&[0; 4]).is_ok());
    assert!(bridge.send_rtp_packet(&[0; 5]).is_err());
    assert_eq!(WebRtcQuicBridge::default().config().max_packet_size, 1200);
}

#[test]
fn stream_priorities_and_presets() {
    assert_eq!(StreamType::Audio.priority(), 1);
    assert_eq!(StreamType::Video.priority(), 2);
    assert_eq!(StreamType::ScreenShare.priority(), 3);
    assert_eq!(StreamType::Data.priority(), 4);
    assert!(StreamType::ScreenShare.is_realtime());
    assert!(!StreamType::Data.is_realtime());
    assert_eq!(StreamConfig::audio().max_latency_ms, 50);
    assert_eq!(StreamConfig::video().target_bitrate_bps, 1_000_000);
    assert_eq!(StreamConfig::screen_share().max_bitrate_bps, 1_500_000);
}

#[test]
fn packet_round_trip() {
    let payload: Vec<u8> = (0..1188u32).map(|i| (i % 251) as u8).collect();
    for st in [StreamType::Audio, StreamType::Video, StreamType::Data, StreamType::ScreenShare] {
        let mut p = RtpPacket::new(96, 0xbeef, 0xdead_beef, 0x0102_0304, payload.clone(), st).unwrap();
        p.marker = true;
        p.padding = true;
        p.csrc_count = 15;
        p.payload_type = 127;
        let bytes = p.to_bytes().unwrap();
        assert_eq!(bytes.len(), 1200);
        assert_eq!(bytes[0], 0b1010_1111);
        assert_eq!(bytes[1], 0xff);
        assert_eq!(&bytes[2..4], &[0xbe, 0xef]);
        assert_eq!(RtpPacket::from_bytes(&bytes, st).unwrap(), p);
    }
    let empty = RtpPacket::new(0, 0, 0, 0, Vec::new(), StreamType::Audio).unwrap();
    assert_eq!(empty.size(), 12);
    assert_eq!(RtpPacket::from_bytes(&empty.to_bytes().unwrap(), StreamType::Audio).unwrap(), empty);
}

#[test]
fn packet_bounds_are_enforced() {
    let too_big = RtpPacket::new(0, 0, 0, 0, vec![0; 1189], StreamType::Video);
    assert_eq!(too_big.unwrap_err(), PacketError::PayloadTooLarge { size: 1189, max: 1188 });
    let max = RtpPacket::new(0, 0, 0, 0, vec![0; 1188], StreamType::Video).unwrap();
    assert_eq!(max.size(), 1200);
    let encoded = max.to_bytes().unwrap();
    assert_eq!(encoded.len(), 1200);
    assert_eq!(RtpPacket::from_bytes(&encoded, StreamType::Video).unwrap(), max);
    assert_eq!(
        RtpPacket::from_bytes(&[0u8; 1201], StreamType::Audio),
        Err(PacketError::InputTooLarge { size: 1201, max: 1200 })
    );
    assert_eq!(RtpPacket::from_bytes(&[], StreamType::Audio), Err(PacketError::EmptyInput));
    assert_eq!(RtpPacket::from_bytes(&[0x40; 12], StreamType::Audio), Err(PacketError::Malformed));
    assert_eq!(RtpPacket::from_bytes(&[0x80; 11], StreamType::Audio), Err(PacketError::Malformed));
    let mut bad = max.clone();
    bad.version = 3;
    bad.payload.truncate(10);
    assert_eq!(bad.to_bytes(), Err(PacketError::InvalidHeader));
}

#[test]
fn payload_type_must_fit_seven_bits() {
    assert_eq!(
        RtpPacket::new(128, 0, 0, 0, vec![1], StreamType::Audio),
        Err(PacketError::InvalidPayloadType(128))
    );
    let p = RtpPacket::new(127, 0, 0, 0, vec![1], StreamType::Audio).unwrap();
    assert!(p.to_bytes().is_ok());
}
