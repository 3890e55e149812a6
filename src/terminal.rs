//! Display settings and connection statistics shown by a terminal client.

use vstd::prelude::*;

verus! {

/// How video is drawn in the terminal.
#[derive(Debug, Clone, Copy, PartialEq, Eq, Structural)]
pub enum DisplayMode {
    /// Sixel graphics (best quality)
    Sixel,
    /// ASCII art fallback
    Ascii,
    /// No video display
    NoVideo,
}

/// The display mode as chosen on the command line.
#[derive(Debug, Clone, Copy, PartialEq, Eq, Structural)]
pub enum CliDisplayMode {
    /// Sixel graphics (best quality)
    Sixel,
    /// ASCII art
    Ascii,
    /// No video display
    NoVideo,
}

/// The display mode a command-line choice names.
pub open spec fn display_mode_of(m: CliDisplayMode) -> DisplayMode {
    match m {
        CliDisplayMode::Sixel => DisplayMode::Sixel,
        CliDisplayMode::Ascii => DisplayMode::Ascii,
        CliDisplayMode::NoVideo => DisplayMode::NoVideo,
    }
}

impl From<CliDisplayMode> for DisplayMode {
    fn from(mode: CliDisplayMode) -> (r: DisplayMode)
        ensures
            r == display_mode_of(mode),
    {
        match mode {
            CliDisplayMode::Sixel => DisplayMode::Sixel,
            CliDisplayMode::Ascii => DisplayMode::Ascii,
            CliDisplayMode::NoVideo => DisplayMode::NoVideo,
        }
    }
}

impl vstd::std_specs::convert::FromSpecImpl<CliDisplayMode> for DisplayMode {
    open spec fn obeys_from_spec() -> bool {
        true
    }

    open spec fn from_spec(v: CliDisplayMode) -> DisplayMode {
        display_mode_of(v)
    }
}

/// Measurements of the current connection; each is absent until known.
#[derive(Debug, Clone, Copy, PartialEq, Eq, Structural)]
pub struct ConnectionStats {
    /// Round-trip time in milliseconds
    pub rtt_ms: Option<u32>,
    /// Bitrate in kilobits per second
    pub bitrate_kbps: Option<u32>,
    /// Frames per second
    pub fps: Option<u32>,
    /// Packets lost
    pub packets_lost: Option<u32>,
    /// Packets sent
    pub packets_sent: Option<u32>,
}

impl Default for ConnectionStats {
    fn default() -> (r: Self)
        ensures
            r == (ConnectionStats {
                rtt_ms: None,
                bitrate_kbps: None,
                fps: None,
                packets_lost: None,
                packets_sent: None,
            }),
    {
        ConnectionStats {
            rtt_ms: None,
            bitrate_kbps: None,
            fps: None,
            packets_lost: None,
            packets_sent: None,
        }
    }
}

} // verus!
