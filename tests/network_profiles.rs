use saorsa_webrtc::network::{NetworkConditions, NetworkScenario};
use std::time::Duration;

#[test]
fn test_network_conditions_descriptions() {
    assert_eq!(NetworkConditions::perfect().description(), "Excellent");
    assert_eq!(NetworkConditions::offline().description(), "Offline");
    assert_eq!(NetworkConditions::poor().description(), "Poor");
}

#[test]
fn test_suitability_checks() {
    let perfect = NetworkConditions::perfect();
    assert!(perfect.is_suitable_for_realtime());
    assert!(perfect.is_suitable_for_video());
    assert!(perfect.is_suitable_for_audio());

    let poor = NetworkConditions::poor();
    assert!(!poor.is_suitable_for_realtime());
    assert!(!poor.is_suitable_for_video());
    assert!(!poor.is_suitable_for_audio());

    let mobile = NetworkConditions::mobile();
    assert!(mobile.is_suitable_for_realtime());
    assert!(!mobile.is_suitable_for_video());
    assert!(mobile.is_suitable_for_audio());
}

#[test]
fn test_throughput_calculation() {
    let conditions = NetworkConditions {
        bandwidth_kbps: 1000,
        ..Default::default()
    };

    let packet_1kb = Duration::from_micros(conditions.throughput_for_packet(1024));
    let expected = Duration::from_millis(8);
    assert!(packet_1kb.as_millis() <= expected.as_millis() + 1);
}

#[test]
fn test_network_scenarios() {
    let scenarios = NetworkScenario::all();
    assert_eq!(scenarios.len(), 9);

    let realistic = NetworkScenario::realistic();
    assert_eq!(realistic.len(), 7);
}

#[test]
fn throughput_and_rtt_values() {
    let c = NetworkConditions { bandwidth_kbps: 1000, ..Default::default() };
    assert_eq!(c.throughput_for_packet(1024), 8192);
    assert_eq!(NetworkConditions::offline().throughput_for_packet(1024), 10_000_000);
    assert_eq!(NetworkConditions::mobile().expected_rtt(), 210);
    assert_eq!(NetworkConditions::default().expected_rtt(), 102);
}

#[test]
fn descriptions_of_every_band() {
    assert_eq!(NetworkConditions::unreliable().description(), "Very Poor");
    assert_eq!(NetworkConditions::mobile().description(), "Good");
    assert_eq!(NetworkScenario::Mobile3G.conditions().description(), "Poor (High Latency)");
    assert_eq!(NetworkScenario::OfficeNetwork.conditions().description(), "Good");
    assert_eq!(NetworkConditions::good().description(), "Excellent");
    let lossy = NetworkConditions { latency_ms: 10, packet_loss_bp: 150, ..Default::default() };
    assert_eq!(lossy.description(), "Good (Some Loss)");
    let fair = NetworkConditions { latency_ms: 150, ..Default::default() };
    assert_eq!(fair.description(), "Fair");
    assert!(!NetworkScenario::realistic().contains(&NetworkScenario::Outage));
}

#[test]
fn test_variation() {
    let original = NetworkConditions::perfect();
    let varied = original.with_variation(900, 500, 300, 700);

    assert_ne!(original, varied);
    assert!(varied.available);
}

#[test]
fn variation_formulas() {
    let c = NetworkConditions { latency_ms: 100, jitter_ms: 7, packet_loss_bp: 8000, bandwidth_kbps: 1000, available: true };
    let v = c.with_variation(0, 999, 500, 50);
    assert_eq!(v.latency_ms, 80);
    assert_eq!(v.jitter_ms, 7);
    assert_eq!(v.packet_loss_bp, 10000);
    assert_eq!(v.bandwidth_kbps, 1000);
    assert!(!v.available);
    let w = c.with_variation(999, 0, 0, 51);
    assert_eq!(w.latency_ms, 119);
    assert_eq!(w.packet_loss_bp, 4000);
    assert_eq!(w.bandwidth_kbps, 700);
    assert!(w.available);
}
