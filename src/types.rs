//! Core value types shared by the call registry and its observers.

use vstd::prelude::*;
use crate::ids::CallId;

verus! {

/// Lifecycle state of a call present in a registry. A call that has ended
/// is absent from the registry rather than held in a state of its own.
#[derive(Debug, Clone, Copy, PartialEq, Eq, Structural, Hash)]
pub enum CallState {
    /// Offered and waiting for the remote side.
    Calling,
    /// Accepted by the remote side.
    Connected,
    /// Rejected.
    Failed,
}

/// Kind of a local media track.
#[derive(Debug, Clone, Copy, PartialEq, Eq, Structural, Hash)]
pub enum MediaType {
    /// Microphone audio
    Audio,
    /// Camera video
    Video,
    /// Screen capture
    ScreenShare,
    /// Application data
    DataChannel,
}

/// Which kinds of media a call carries.
#[derive(Debug, Clone, Copy, PartialEq, Eq, Structural, Hash)]
pub struct MediaConstraints {
    /// Audio wanted
    pub audio: bool,
    /// Video wanted
    pub video: bool,
    /// Screen sharing wanted
    pub screen_share: bool,
}

impl MediaConstraints {
    /// A well-formed call asks for at least one kind of media.
    pub open spec fn spec_valid(&self) -> bool {
        self.audio || self.video || self.screen_share
    }

    /// Audio only.
    pub fn audio_only() -> (r: Self)
        ensures
            r == (MediaConstraints { audio: true, video: false, screen_share: false }),
    {
        MediaConstraints { audio: true, video: false, screen_share: false }
    }

    /// Audio and video.
    pub fn video_call() -> (r: Self)
        ensures
            r == (MediaConstraints { audio: true, video: true, screen_share: false }),
    {
        MediaConstraints { audio: true, video: true, screen_share: false }
    }

    /// Audio and screen sharing.
    pub fn screen_share_call() -> (r: Self)
        ensures
            r == (MediaConstraints { audio: true, video: false, screen_share: true }),
    {
        MediaConstraints { audio: true, video: false, screen_share: true }
    }

    /// Whether audio is wanted.
    pub fn has_audio(&self) -> (r: bool)
        ensures
            r == self.audio,
    {
        self.audio
    }

    /// Whether video is wanted.
    pub fn has_video(&self) -> (r: bool)
        ensures
            r == self.video,
    {
        self.video
    }

    /// Whether screen sharing is wanted.
    pub fn has_screen_share(&self) -> (r: bool)
        ensures
            r == self.screen_share,
    {
        self.screen_share
    }

    /// Whether at least one kind of media is wanted.
    pub fn is_valid(&self) -> (r: bool)
        ensures
            r == self.spec_valid(),
    {
        self.audio || self.video || self.screen_share
    }
}

/// A change in the lifecycle of a call, published to observers.
#[derive(Debug, Clone, Copy, PartialEq, Eq, Structural)]
pub enum CallEvent {
    /// A call was offered to a remote peer.
    CallInitiated {
        /// The call
        call_id: CallId,
        /// Media of the call
        constraints: MediaConstraints,
    },
    /// A remote peer offered a call.
    IncomingCall {
        /// The call
        call_id: CallId,
        /// Media of the call
        constraints: MediaConstraints,
    },
    /// The call was accepted.
    CallAccepted {
        /// The call
        call_id: CallId,
    },
    /// The call was rejected.
    CallRejected {
        /// The call
        call_id: CallId,
    },
    /// The call ended and left the registry.
    CallEnded {
        /// The call
        call_id: CallId,
    },
}

} // verus!
