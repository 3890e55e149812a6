use saorsa_webrtc::qos::{MediaStreamType, QoSParams, QuicMediaStreamManager, StreamError};

#[test]
fn test_quic_media_stream_manager_create_stream() {
    let mut manager = QuicMediaStreamManager::new(QoSParams::audio());

    let stream_id = manager.create_stream(MediaStreamType::Audio).unwrap();
    assert_eq!(stream_id, 0);

    let stream = manager.get_stream(stream_id).unwrap();
    assert_eq!(stream.stream_type, MediaStreamType::Audio);
    assert_eq!(stream.qos_params.priority, QoSParams::audio().priority);
}

#[test]
fn test_quic_media_stream_manager_multiple_streams() {
    let mut manager = QuicMediaStreamManager::new(QoSParams::audio());

    let audio_id = manager.create_stream(MediaStreamType::Audio).unwrap();
    let video_id = manager.create_stream(MediaStreamType::Video).unwrap();
    let screen_id = manager.create_stream(MediaStreamType::ScreenShare).unwrap();

    assert_eq!(audio_id, 0);
    assert_eq!(video_id, 1);
    assert_eq!(screen_id, 2);

    let active = manager.active_streams();
    assert_eq!(active.len(), 3);
}

#[test]
fn test_quic_media_stream_manager_close_stream() {
    let mut manager = QuicMediaStreamManager::new(QoSParams::audio());

    let stream_id = manager.create_stream(MediaStreamType::Audio).unwrap();
    assert!(manager.get_stream(stream_id).is_some());

    manager.close_stream(stream_id).unwrap();
    assert!(manager.get_stream(stream_id).is_none());
}

#[test]
fn test_quic_media_stream_manager_close_nonexistent_stream() {
    let mut manager = QuicMediaStreamManager::new(QoSParams::audio());

    let result = manager.close_stream(999);
    assert!(matches!(result, Err(StreamError::OperationError(_))));
}

#[test]
fn test_quic_media_stream_manager_send_data() {
    let mut manager = QuicMediaStreamManager::new(QoSParams::audio());

    let stream_id = manager.create_stream(MediaStreamType::Audio).unwrap();

    let data = vec![1, 2, 3, 4];
    let result = manager.send_data(stream_id, &data);
    assert!(result.is_ok());
}

#[test]
fn test_quic_media_stream_manager_send_data_nonexistent_stream() {
    let manager = QuicMediaStreamManager::new(QoSParams::audio());

    let data = vec![1, 2, 3, 4];
    let result = manager.send_data(999, &data);
    assert!(matches!(result, Err(StreamError::OperationError(_))));
}

#[test]
fn test_quic_media_stream_manager_receive_data() {
    let mut manager = QuicMediaStreamManager::new(QoSParams::audio());

    let stream_id = manager.create_stream(MediaStreamType::Audio).unwrap();

    let result = manager.receive_data(stream_id);
    assert!(matches!(result, Err(StreamError::OperationError(_))));
}

#[test]
fn test_quic_media_stream_manager_get_nonexistent_stream() {
    let manager = QuicMediaStreamManager::new(QoSParams::audio());

    assert!(manager.get_stream(999).is_none());
}

#[test]
fn test_qos_params_audio() {
    let audio = QoSParams::audio();
    assert_eq!(audio.target_latency_ms, 50);
    assert_eq!(audio.priority, 10);
}

#[test]
fn test_qos_params_video() {
    let video = QoSParams::video();
    assert_eq!(video.target_latency_ms, 150);
    assert_eq!(video.priority, 5);
}

#[test]
fn test_qos_params_screen_share() {
    let screen = QoSParams::screen_share();
    assert_eq!(screen.target_latency_ms, 200);
    assert_eq!(screen.priority, 3);
}

#[test]
fn data_channel_takes_the_audio_preset() {
    let mut manager = QuicMediaStreamManager::new(QoSParams::video());
    let id = manager.create_stream(MediaStreamType::DataChannel).unwrap();
    let stream = manager.get_stream(id).unwrap();
    assert_eq!(stream.qos_params, QoSParams::audio());
    let screen = manager.create_stream(MediaStreamType::ScreenShare).unwrap();
    assert_eq!(manager.get_stream(screen).unwrap().qos_params, QoSParams::screen_share());
}

#[test]
fn closed_stream_ids_are_not_reused() {
    let mut manager = QuicMediaStreamManager::new(QoSParams::audio());
    let a = manager.create_stream(MediaStreamType::Audio).unwrap();
    let b = manager.create_stream(MediaStreamType::Video).unwrap();
    manager.close_stream(a).unwrap();
    let c = manager.create_stream(MediaStreamType::Audio).unwrap();
    assert_eq!(c, 2);
    let ids: Vec<u64> = manager.active_streams().iter().map(|s| s.stream_id).collect();
    assert_eq!(ids, vec![b, c]);
    assert!(manager.close_stream(a).is_err());
}
