use saorsa_webrtc::media::{MediaEvent, MediaStreamManager};
use saorsa_webrtc::types::{MediaConstraints, MediaType};

#[test]
fn test_media_stream_manager_initialize() {
    let manager = MediaStreamManager::new();

    let result = manager.initialize();
    assert!(result.is_ok());
}

#[test]
fn test_media_stream_manager_get_devices() {
    let manager = MediaStreamManager::new();

    let audio_devices = manager.get_audio_devices();
    assert!(audio_devices.is_empty());

    let video_devices = manager.get_video_devices();
    assert!(video_devices.is_empty());
}

#[test]
fn test_media_stream_manager_create_audio_track() {
    let mut manager = MediaStreamManager::new();

    let track = manager.create_audio_track().unwrap();
    assert_eq!(track.track_type, MediaType::Audio);
    assert!(track.id.starts_with("audio-"));

    let tracks = manager.get_webrtc_tracks();
    assert_eq!(tracks.len(), 1);
    assert_eq!(tracks[0].track_type, MediaType::Audio);
}

#[test]
fn test_media_stream_manager_create_video_track() {
    let mut manager = MediaStreamManager::new();

    let track = manager.create_video_track().unwrap();
    assert_eq!(track.track_type, MediaType::Video);
    assert!(track.id.starts_with("video-"));

    let tracks = manager.get_webrtc_tracks();
    assert_eq!(tracks.len(), 1);
    assert_eq!(tracks[0].track_type, MediaType::Video);
}

#[test]
fn test_media_stream_manager_multiple_tracks() {
    let mut manager = MediaStreamManager::new();

    manager.create_audio_track().unwrap();
    manager.create_video_track().unwrap();

    let tracks = manager.get_webrtc_tracks();
    assert_eq!(tracks.len(), 2);

    assert_ne!(tracks[0].id, tracks[1].id);

    let audio_count = tracks.iter().filter(|t| t.track_type == MediaType::Audio).count();
    let video_count = tracks.iter().filter(|t| t.track_type == MediaType::Video).count();

    assert_eq!(audio_count, 1);
    assert_eq!(video_count, 1);
}

#[test]
fn media_track_remove_is_idempotent() {
    let mut mgr = MediaStreamManager::new();
    mgr.initialize().unwrap();

    let audio = mgr.create_audio_track().unwrap().clone();
    let video = mgr.create_video_track().unwrap().clone();

    assert_eq!(mgr.get_webrtc_tracks().len(), 2);
    assert_eq!(mgr.get_webrtc_tracks()[0].track_type, MediaType::Audio);
    assert_eq!(mgr.get_webrtc_tracks()[1].track_type, MediaType::Video);

    assert!(mgr.remove_track(&audio.id));
    assert!(mgr.remove_track(&video.id));

    assert!(!mgr.remove_track(&audio.id));
    assert!(!mgr.remove_track(&video.id));

    assert!(mgr.get_webrtc_tracks().is_empty());
}

#[test]
fn media_manager_multiple_tracks_of_same_type() {
    let mut mgr = MediaStreamManager::new();
    mgr.initialize().unwrap();

    let audio1 = mgr.create_audio_track().unwrap().clone();
    let audio2 = mgr.create_audio_track().unwrap().clone();
    let video1 = mgr.create_video_track().unwrap().clone();

    assert_eq!(mgr.get_webrtc_tracks().len(), 3);

    assert_ne!(audio1.id, audio2.id);
    assert_ne!(audio1.id, video1.id);

    mgr.remove_track(&audio1.id);
    assert_eq!(mgr.get_webrtc_tracks().len(), 2);
}

#[test]
fn media_manager_initialize_idempotent() {
    let mgr = MediaStreamManager::new();
    mgr.initialize().unwrap();
    mgr.initialize().unwrap();
}

#[test]
fn track_ids_count_existing_tracks() {
    let mut mgr = MediaStreamManager::new();
    assert_eq!(mgr.create_audio_track().unwrap().id, "audio-0");
    assert_eq!(mgr.create_video_track().unwrap().id, "video-1");
    assert_eq!(mgr.create_audio_track().unwrap().id, "audio-2");
}

#[test]
fn initialize_announces_default_devices() {
    let mgr = MediaStreamManager::new();
    let events = mgr.initialize().unwrap();
    assert_eq!(
        events,
        vec![
            MediaEvent::DeviceConnected { device_id: "default-audio".to_string() },
            MediaEvent::DeviceConnected { device_id: "default-video".to_string() },
        ]
    );
}

#[test]
fn tracks_follow_the_constraints() {
    let mut mgr = MediaStreamManager::new();
    let ts = mgr.tracks_for(MediaConstraints::video_call()).unwrap();
    let ids: Vec<&str> = ts.iter().map(|t| t.id.as_str()).collect();
    assert_eq!(ids, vec!["audio-0", "video-1"]);
    assert_eq!(ts[1].track_type, MediaType::Video);
    let ts = mgr.tracks_for(MediaConstraints::screen_share_call()).unwrap();
    assert_eq!(ts.len(), 1);
    assert_eq!(ts[0].id, "audio-2");
    assert_eq!(mgr.get_webrtc_tracks().len(), 3);
}
