use saorsa_webrtc::desktop::{initialize, CallInfo, CallRegistry, CallState};

#[test]
fn test_initialize_with_valid_identity() {
    let result = initialize("alice");
    assert!(result.is_ok());
}

#[test]
fn test_initialize_with_empty_identity() {
    let result = initialize("");
    assert!(result.is_err());
}

#[test]
fn test_call_info_creation() {
    let info = CallInfo {
        call_id: "test-id".to_string(),
        peer: "bob".to_string(),
        state: CallState::Connecting,
    };

    assert_eq!(info.call_id, "test-id");
    assert_eq!(info.peer, "bob");
    assert_eq!(info.state, CallState::Connecting);
}

#[test]
fn test_call_state_serialization() {
    let connecting = CallState::Connecting;
    let active = CallState::Active;
    let ended = CallState::Ended;

    assert_ne!(connecting, active);
    assert_ne!(active, ended);
    assert_ne!(connecting, ended);
}

#[test]
fn desktop_call_lifecycle() {
    let mut calls = CallRegistry::new();
    assert!(calls.call("").is_err());
    let id = calls.call("bob").unwrap();
    assert!(id.starts_with("call-"));
    assert_eq!(id.len(), 41);
    assert_eq!(calls.get_call_state(&id), Ok(CallState::Connecting));
    assert!(calls.end_call(&id).is_ok());
    assert_eq!(calls.get_call_state(&id), Ok(CallState::Ended));
    assert!(calls.end_call("call-missing").is_err());
    assert!(calls.get_call_state("call-missing").is_err());
    let list = calls.list_calls();
    assert_eq!(list.len(), 1);
    assert_eq!(list[0].peer, "bob");
}
