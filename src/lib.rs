//! Peer-to-peer media session coordination: signaling messages, the call
//! session state machine, stream classification with quality-of-service
//! presets, and a bounded RTP-style packet codec.

pub mod call;
pub mod codec;
pub mod desktop;
pub mod events;
pub mod gossip;
pub mod ids;
pub mod media;
pub mod network;
pub mod qos;
pub mod rtp;
pub mod signaling;
pub mod simulation;
pub mod stream;
pub mod terminal;
pub mod transport;
pub mod types;
