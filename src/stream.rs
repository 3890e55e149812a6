//! Stream classification and per-type stream configuration.

use vstd::prelude::*;

verus! {

/// Errors of the media bridge.
#[derive(Debug, Clone, PartialEq, Eq)]
pub enum BridgeError {
    /// The bridge was configured with unusable values.
    ConfigError(String),
    /// A stream operation could not be carried out.
    StreamError(String),
}

/// Kind of media carried by a stream, used to steer multiplexing.
#[derive(Debug, Clone, Copy, PartialEq, Eq, Structural, Hash)]
pub enum StreamType {
    /// Audio stream
    Audio,
    /// Video stream
    Video,
    /// Data channel
    Data,
    /// Screen sharing stream
    ScreenShare,
}

/// Scheduling rank of a stream type: a lower value is served first.
pub open spec fn priority_of(t: StreamType) -> nat {
    match t {
        StreamType::Audio => 1,
        StreamType::Video => 2,
        StreamType::ScreenShare => 3,
        StreamType::Data => 4,
    }
}

/// Whether a stream type carries real-time media.
pub open spec fn realtime(t: StreamType) -> bool {
    t != StreamType::Data
}

impl StreamType {
    /// Scheduling rank (lower = higher priority).
    pub fn priority(&self) -> (r: u8)
        ensures
            r as nat == priority_of(*self),
    {
        match self {
            StreamType::Audio => 1,
            StreamType::Video => 2,
            StreamType::ScreenShare => 3,
            StreamType::Data => 4,
        }
    }

    /// True for audio, video and screen sharing.
    pub fn is_realtime(&self) -> (r: bool)
        ensures
            r == realtime(*self),
    {
        match self {
            StreamType::Data => false,
            _ => true,
        }
    }
}

/// The priority ranks order the stream types strictly, audio first and data
/// last, and every real-time type outranks data.
pub proof fn lemma_priority_order(a: StreamType, b: StreamType)
    ensures
        priority_of(StreamType::Audio) < priority_of(StreamType::Video),
        priority_of(StreamType::Video) < priority_of(StreamType::ScreenShare),
        priority_of(StreamType::ScreenShare) < priority_of(StreamType::Data),
        (priority_of(a) == priority_of(b)) <==> (a == b),
        realtime(a) ==> priority_of(a) < priority_of(StreamType::Data),
{
}

/// Bitrate and latency targets of one media stream.
#[derive(Debug, Clone, Copy, PartialEq, Eq, Structural)]
pub struct StreamConfig {
    /// Stream type
    pub stream_type: StreamType,
    /// Target bitrate in bits per second
    pub target_bitrate_bps: u32,
    /// Maximum bitrate in bits per second
    pub max_bitrate_bps: u32,
    /// Maximum latency in milliseconds
    pub max_latency_ms: u32,
}

impl StreamConfig {
    /// Audio: 64 kbit/s target, 128 kbit/s cap, 50 ms latency.
    pub fn audio() -> (r: Self)
        ensures
            r == (StreamConfig {
                stream_type: StreamType::Audio,
                target_bitrate_bps: 64_000,
                max_bitrate_bps: 128_000,
                max_latency_ms: 50,
            }),
    {
        StreamConfig {
            stream_type: StreamType::Audio,
            target_bitrate_bps: 64_000,
            max_bitrate_bps: 128_000,
            max_latency_ms: 50,
        }
    }

    /// Video: 1 Mbit/s target, 2 Mbit/s cap, 150 ms latency.
    pub fn video() -> (r: Self)
        ensures
            r == (StreamConfig {
                stream_type: StreamType::Video,
                target_bitrate_bps: 1_000_000,
                max_bitrate_bps: 2_000_000,
                max_latency_ms: 150,
            }),
    {
        StreamConfig {
            stream_type: StreamType::Video,
            target_bitrate_bps: 1_000_000,
            max_bitrate_bps: 2_000_000,
            max_latency_ms: 150,
        }
    }

    /// Screen sharing: 500 kbit/s target, 1.5 Mbit/s cap, 200 ms latency.
    pub fn screen_share() -> (r: Self)
        ensures
            r == (StreamConfig {
                stream_type: StreamType::ScreenShare,
                target_bitrate_bps: 500_000,
                max_bitrate_bps: 1_500_000,
                max_latency_ms: 200,
            }),
    {
        StreamConfig {
            stream_type: StreamType::ScreenShare,
            target_bitrate_bps: 500_000,
            max_bitrate_bps: 1_500_000,
            max_latency_ms: 200,
        }
    }
}

/// Largest packet, header included, that the bridge hands to the transport.
pub const MAX_PACKET_SIZE: usize = 1200;

/// Configuration of the media bridge.
#[derive(Debug, Clone, Copy, PartialEq, Eq, Structural)]
pub struct QuicBridgeConfig {
    /// Maximum packet size
    pub max_packet_size: usize,
}

impl Default for QuicBridgeConfig {
    fn default() -> (r: Self)
        ensures
            r.max_packet_size == MAX_PACKET_SIZE,
    {
        QuicBridgeConfig { max_packet_size: MAX_PACKET_SIZE }
    }
}

/// Translates between RTP packets and the transport's data streams.
pub struct WebRtcQuicBridge {
    config: QuicBridgeConfig,
}

impl WebRtcQuicBridge {
    /// The configuration the bridge was built with.
    pub closed spec fn spec_config(&self) -> QuicBridgeConfig {
        self.config
    }

    /// Creates a bridge with the given configuration.
    pub fn new(config: QuicBridgeConfig) -> (r: Self)
        ensures
            r.spec_config() == config,
    {
        WebRtcQuicBridge { config }
    }

    /// The configuration the bridge was built with.
    pub fn config(&self) -> (r: QuicBridgeConfig)
        ensures
            r == self.spec_config(),
    {
        self.config
    }

    /// Accepts an encoded packet for sending when it fits the configured
    /// packet size, and refuses it otherwise.
    pub fn send_rtp_packet(&self, packet: &[u8]) -> (r: Result<(), BridgeError>)
        ensures
            r is Ok <==> packet@.len() <= self.spec_config().max_packet_size,
    {
        if packet.len() <= self.config.max_packet_size {
            Ok(())
        } else {
            Err(BridgeError::StreamError(String::from_str("packet exceeds the maximum size")))
        }
    }

    /// No stream is attached to the bridge, so nothing can be received.
    pub fn receive_rtp_packet(&self) -> (r: Result<Vec<u8>, BridgeError>)
        ensures
            r matches Err(BridgeError::StreamError(_)),
    {
        Err(BridgeError::StreamError(String::from_str("Not implemented")))
    }

    /// Binds a local track to the bridge; every track id is accepted.
    pub fn bridge_track(&self, track_id: &str) -> (r: Result<(), BridgeError>)
        ensures
            r is Ok,
    {
        Ok(())
    }
}

impl Default for WebRtcQuicBridge {
    fn default() -> (r: Self)
        ensures
            r.spec_config().max_packet_size == MAX_PACKET_SIZE,
    {
        WebRtcQuicBridge::new(QuicBridgeConfig::default())
    }
}

} // verus!
