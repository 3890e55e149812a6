//! Local media tracks and devices.

use vstd::prelude::*;
use crate::types::{MediaConstraints, MediaType};

verus! {

/// Decimal text of a count: its digits, most significant first, with no
/// leading zeros.
pub open spec fn decimal_text(n: usize) -> Seq<char>
    decreases n,
{
    let digit = seq!['0', '1', '2', '3', '4', '5', '6', '7', '8', '9'][(n % 10) as int];
    if n < 10 {
        seq![digit]
    } else {
        decimal_text((n / 10) as usize).push(digit)
    }
}

/// Relies on std's `ToString` for `usize`: the number's decimal digits.
#[verifier::external_body]
fn decimal(n: usize) -> (r: String)
    ensures
        r@ == decimal_text(n),
{
    n.to_string()
}

/// Errors of media handling.
#[derive(Debug, Clone, PartialEq, Eq)]
pub enum MediaError {
    /// Device not found
    DeviceNotFound(String),
    /// Stream error
    StreamError(String),
    /// Configuration error
    ConfigError(String),
}

/// Notifications about devices and streams.
#[derive(Debug, Clone, PartialEq, Eq)]
pub enum MediaEvent {
    /// Device connected
    DeviceConnected {
        /// Device identifier
        device_id: String,
    },
    /// Device disconnected
    DeviceDisconnected {
        /// Device identifier
        device_id: String,
    },
    /// Stream started
    StreamStarted {
        /// Stream identifier
        stream_id: String,
    },
    /// Stream stopped
    StreamStopped {
        /// Stream identifier
        stream_id: String,
    },
}

/// Whether `e` announces that device `id` connected.
pub open spec fn announces(e: MediaEvent, id: Seq<char>) -> bool {
    e matches MediaEvent::DeviceConnected { device_id } && device_id@ == id
}

/// An audio capture device.
#[derive(Debug, Clone, PartialEq, Eq)]
pub struct AudioDevice {
    /// Device identifier
    pub id: String,
    /// Device name
    pub name: String,
}

/// A video capture device.
#[derive(Debug, Clone, PartialEq, Eq)]
pub struct VideoDevice {
    /// Device identifier
    pub id: String,
    /// Device name
    pub name: String,
}

/// An audio track.
#[derive(Debug, Clone, PartialEq, Eq)]
pub struct AudioTrack {
    /// Track identifier
    pub id: String,
}

/// A video track.
#[derive(Debug, Clone, PartialEq, Eq)]
pub struct VideoTrack {
    /// Track identifier
    pub id: String,
}

/// A media stream.
#[derive(Debug, Clone, PartialEq, Eq)]
pub struct MediaStream {
    /// Stream identifier
    pub id: String,
}

/// A local track handed to the session negotiator.
#[derive(Debug, Clone, PartialEq, Eq)]
pub struct WebRtcTrack {
    /// Kind of media
    pub track_type: MediaType,
    /// Track identifier
    pub id: String,
}

/// Identifier of the track created when `n` tracks exist already.
pub open spec fn track_id(kind: MediaType, n: usize) -> Seq<char> {
    let prefix = if kind == MediaType::Audio { "audio-"@ } else { "video-"@ };
    prefix + decimal_text(n)
}

/// Keeps the local tracks that calls attach to their sessions.
pub struct MediaStreamManager {
    audio_devices: Vec<AudioDevice>,
    video_devices: Vec<VideoDevice>,
    webrtc_tracks: Vec<WebRtcTrack>,
    events: Vec<MediaEvent>,
    cursors: Vec<usize>,
}

fn copy_event(e: &MediaEvent) -> (r: MediaEvent)
    ensures
        r == *e,
{
    match e {
        MediaEvent::DeviceConnected { device_id } => MediaEvent::DeviceConnected {
            device_id: device_id.clone(),
        },
        MediaEvent::DeviceDisconnected { device_id } => MediaEvent::DeviceDisconnected {
            device_id: device_id.clone(),
        },
        MediaEvent::StreamStarted { stream_id } => MediaEvent::StreamStarted {
            stream_id: stream_id.clone(),
        },
        MediaEvent::StreamStopped { stream_id } => MediaEvent::StreamStopped {
            stream_id: stream_id.clone(),
        },
    }
}

impl MediaStreamManager {
    /// The tracks, oldest first.
    pub closed spec fn tracks(&self) -> Seq<WebRtcTrack> {
        self.webrtc_tracks@
    }

    /// Every media event published so far, oldest first.
    pub closed spec fn media_events(&self) -> Seq<MediaEvent> {
        self.events@
    }

    /// Index of the next event each subscriber reads.
    pub closed spec fn event_cursors(&self) -> Seq<usize> {
        self.cursors@
    }

    /// A manager with no devices, no tracks and no events.
    pub fn new() -> (r: Self)
        ensures
            r.tracks() == Seq::<WebRtcTrack>::empty(),
            r.media_events() == Seq::<MediaEvent>::empty(),
            r.event_cursors() == Seq::<usize>::empty(),
    {
        MediaStreamManager {
            audio_devices: Vec::new(),
            video_devices: Vec::new(),
            webrtc_tracks: Vec::new(),
            events: Vec::new(),
            cursors: Vec::new(),
        }
    }

    /// Prepares device access and returns the events announcing the
    /// default audio and video devices, for the caller to publish. No
    /// hardware is enumerated, so this always succeeds.
    pub fn initialize(&self) -> (r: Result<Vec<MediaEvent>, MediaError>)
        ensures
            r matches Ok(events) && events@.len() == 2 && announces(events@[0], "default-audio"@)
                && announces(events@[1], "default-video"@),
    {
        let mut events: Vec<MediaEvent> = Vec::new();
        events.push(MediaEvent::DeviceConnected { device_id: String::from_str("default-audio") });
        events.push(MediaEvent::DeviceConnected { device_id: String::from_str("default-video") });
        Ok(events)
    }

    /// Known audio devices; none are enumerated.
    pub fn get_audio_devices(&self) -> (r: &[AudioDevice])
        ensures
            r@.len() == 0,
    {
        &[]
    }

    /// Known video devices; none are enumerated.
    pub fn get_video_devices(&self) -> (r: &[VideoDevice])
        ensures
            r@.len() == 0,
    {
        &[]
    }

    fn create_track(&mut self, kind: MediaType) -> (r: &WebRtcTrack)
        requires
            kind == MediaType::Audio || kind == MediaType::Video,
        ensures
            *r == (WebRtcTrack { track_type: kind, id: r.id }),
            r.id@ == track_id(kind, old(self).tracks().len() as usize),
            final(self).tracks() == old(self).tracks().push(*r),
    {
        let n = self.webrtc_tracks.len();
        let mut id = if kind == MediaType::Audio {
            String::from_str("audio-")
        } else {
            String::from_str("video-")
        };
        let digits = decimal(n);
        id.append(digits.as_str());
        self.webrtc_tracks.push(WebRtcTrack { track_type: kind, id });
        &self.webrtc_tracks[n]
    }

    /// Adds an audio track named `audio-<n>`, n being the number of tracks
    /// before it.
    pub fn create_audio_track(&mut self) -> (r: Result<&WebRtcTrack, MediaError>)
        ensures
            r is Ok,
            r matches Ok(t) ==> t.track_type == MediaType::Audio && t.id@ == track_id(
                MediaType::Audio,
                old(self).tracks().len() as usize,
            ) && final(self).tracks() == old(self).tracks().push(*t),
    {
        Ok(self.create_track(MediaType::Audio))
    }

    /// Adds a video track named `video-<n>`, n being the number of tracks
    /// before it.
    pub fn create_video_track(&mut self) -> (r: Result<&WebRtcTrack, MediaError>)
        ensures
            r is Ok,
            r matches Ok(t) ==> t.track_type == MediaType::Video && t.id@ == track_id(
                MediaType::Video,
                old(self).tracks().len() as usize,
            ) && final(self).tracks() == old(self).tracks().push(*t),
    {
        Ok(self.create_track(MediaType::Video))
    }

    /// The tracks a call with the given constraints gets, added to the
    /// manager: one audio track when audio is wanted, then one video track
    /// when video is wanted.
    pub fn tracks_for(&mut self, constraints: MediaConstraints) -> (r: Result<
        Vec<WebRtcTrack>,
        MediaError,
    >)
        ensures
            r matches Ok(ts) && {
                let n = old(self).tracks().len();
                let a: int = if constraints.audio { 1 } else { 0 };
                &&& final(self).tracks() == old(self).tracks() + ts@
                &&& ts@.len() == a + if constraints.video { 1int } else { 0int }
                &&& constraints.audio ==> ts@[0].track_type == MediaType::Audio && ts@[0].id@
                    == track_id(MediaType::Audio, n as usize)
                &&& constraints.video ==> ts@[a].track_type == MediaType::Video && ts@[a].id@
                    == track_id(MediaType::Video, (n + a) as usize)
            },
    {
        let mut tracks: Vec<WebRtcTrack> = Vec::new();
        if constraints.audio {
            let t = self.create_track(MediaType::Audio);
            let copy = WebRtcTrack { track_type: t.track_type, id: t.id.clone() };
            tracks.push(copy);
        }
        let ghost mid = self.tracks();
        assert(mid == old(self).tracks() + tracks@);
        if constraints.video {
            let t = self.create_track(MediaType::Video);
            let copy = WebRtcTrack { track_type: t.track_type, id: t.id.clone() };
            tracks.push(copy);
            assert(self.tracks() =~= old(self).tracks() + tracks@);
        }
        Ok(tracks)
    }

    /// Adds a subscriber, which receives the events published from now on.
    /// Every event is kept, so no subscriber misses one.
    pub fn subscribe_events(&mut self) -> (r: usize)
        ensures
            r == old(self).event_cursors().len(),
            final(self).event_cursors() == old(self).event_cursors().push(
                old(self).media_events().len() as usize,
            ),
            final(self).media_events() == old(self).media_events(),
            final(self).tracks() == old(self).tracks(),
    {
        let r = self.cursors.len();
        self.cursors.push(self.events.len());
        r
    }

    /// Publishes an event to every subscriber.
    pub fn publish_event(&mut self, e: MediaEvent)
        ensures
            final(self).media_events() == old(self).media_events().push(e),
            final(self).event_cursors() == old(self).event_cursors(),
            final(self).tracks() == old(self).tracks(),
    {
        self.events.push(e);
    }

    /// The next event for a subscriber, or None when it has read every
    /// event or is not a subscriber.
    pub fn next_event(&mut self, subscriber: usize) -> (r: Option<MediaEvent>)
        ensures
            final(self).media_events() == old(self).media_events(),
            final(self).tracks() == old(self).tracks(),
            subscriber >= old(self).event_cursors().len() ==> r is None && final(self).event_cursors()
                == old(self).event_cursors(),
            subscriber < old(self).event_cursors().len() ==> {
                let c = old(self).event_cursors()[subscriber as int];
                &&& c < old(self).media_events().len() ==> r == Some(old(self).media_events()[c as int])
                    && final(self).event_cursors() == old(self).event_cursors().update(
                    subscriber as int,
                    (c + 1) as usize,
                )
                &&& c >= old(self).media_events().len() ==> r is None && final(self).event_cursors()
                    == old(self).event_cursors()
            },
    {
        if subscriber >= self.cursors.len() {
            return None;
        }
        let c = self.cursors[subscriber];
        if c < self.events.len() {
            let e = copy_event(&self.events[c]);
            self.cursors.set(subscriber, c + 1);
            Some(e)
        } else {
            None
        }
    }

    /// All tracks, oldest first.
    pub fn get_webrtc_tracks(&self) -> (r: &[WebRtcTrack])
        ensures
            r@ == self.tracks(),
    {
        self.webrtc_tracks.as_slice()
    }

    /// Removes the first track with the given id; true if one was found.
    pub fn remove_track(&mut self, track_id: &str) -> (r: bool)
        ensures
            r == (exists|i: int|
                0 <= i < old(self).tracks().len() && #[trigger] old(self).tracks()[i].id@
                    == track_id@),
            r ==> exists|i: int|
                0 <= i < old(self).tracks().len() && old(self).tracks()[i].id@ == track_id@
                    && (forall|j: int| 0 <= j < i ==> old(self).tracks()[j].id@ != track_id@)
                    && final(self).tracks() == old(self).tracks().remove(i),
            !r ==> final(self).tracks() == old(self).tracks(),
    {
        let wanted = String::from_str(track_id);
        let mut i: usize = 0;
        while i < self.webrtc_tracks.len()
            invariant
                i <= self.webrtc_tracks@.len(),
                self.webrtc_tracks@ == old(self).tracks(),
                wanted@ == track_id@,
                forall|j: int| 0 <= j < i ==> self.webrtc_tracks@[j].id@ != track_id@,
            decreases self.webrtc_tracks@.len() - i,
        {
            if self.webrtc_tracks[i].id == wanted {
                self.webrtc_tracks.remove(i);
                return true;
            }
            i = i + 1;
        }
        false
    }
}

} // verus!
