//! Named network-condition profiles for exercising the signaling stack.
//!
//! Packet loss is given in basis points: hundredths of a percent, so 100%
//! is 10000. Loss of 10% or more is very poor, of 5% or more poor.

use vstd::prelude::*;

verus! {

/// Simulated network conditions.
#[derive(Debug, Clone, Copy, PartialEq, Eq, Structural)]
pub struct NetworkConditions {
    /// One-way latency in milliseconds
    pub latency_ms: u32,
    /// Jitter (variation of latency) in milliseconds
    pub jitter_ms: u32,
    /// Packet loss in basis points (0 to 10000)
    pub packet_loss_bp: u32,
    /// Bandwidth in kilobits per second
    pub bandwidth_kbps: u32,
    /// Whether the network is reachable at all
    pub available: bool,
}

/// Time to send a packet when nothing can be sent, in microseconds.
pub const STALLED_US: u64 = 10_000_000;

/// Human-readable quality of the given conditions.
pub open spec fn quality(c: NetworkConditions) -> Seq<char> {
    if !c.available {
        "Offline"@
    } else if c.packet_loss_bp >= 1000 {
        "Very Poor"@
    } else if c.packet_loss_bp >= 500 {
        "Poor"@
    } else if c.latency_ms > 200 {
        "Poor (High Latency)"@
    } else if c.latency_ms > 100 {
        "Fair"@
    } else if c.latency_ms > 50 {
        "Good"@
    } else if c.packet_loss_bp > 100 {
        "Good (Some Loss)"@
    } else {
        "Excellent"@
    }
}

/// The default conditions: 50 ms, 5 ms jitter, no loss, 1 Mbit/s.
pub open spec fn default_conditions() -> NetworkConditions {
    NetworkConditions {
        latency_ms: 50,
        jitter_ms: 5,
        packet_loss_bp: 0,
        bandwidth_kbps: 1000,
        available: true,
    }
}

impl Default for NetworkConditions {
    fn default() -> (r: Self)
        ensures
            r == default_conditions(),
    {
        NetworkConditions {
            latency_ms: 50,
            jitter_ms: 5,
            packet_loss_bp: 0,
            bandwidth_kbps: 1000,
            available: true,
        }
    }
}

impl NetworkConditions {
    /// 1 ms, no jitter or loss, 10 Mbit/s.
    pub fn perfect() -> (r: Self)
        ensures
            r == (NetworkConditions {
                latency_ms: 1,
                jitter_ms: 0,
                packet_loss_bp: 0,
                bandwidth_kbps: 10000,
                available: true,
            }),
    {
        NetworkConditions {
            latency_ms: 1,
            jitter_ms: 0,
            packet_loss_bp: 0,
            bandwidth_kbps: 10000,
            available: true,
        }
    }

    /// Broadband: 20 ms, 2 ms jitter, 0.1% loss, 5 Mbit/s.
    pub fn good() -> (r: Self)
        ensures
            r == (NetworkConditions {
                latency_ms: 20,
                jitter_ms: 2,
                packet_loss_bp: 10,
                bandwidth_kbps: 5000,
                available: true,
            }),
    {
        NetworkConditions {
            latency_ms: 20,
            jitter_ms: 2,
            packet_loss_bp: 10,
            bandwidth_kbps: 5000,
            available: true,
        }
    }

    /// Mobile: 100 ms, 20 ms jitter, 1% loss, 2 Mbit/s.
    pub fn mobile() -> (r: Self)
        ensures
            r == (NetworkConditions {
                latency_ms: 100,
                jitter_ms: 20,
                packet_loss_bp: 100,
                bandwidth_kbps: 2000,
                available: true,
            }),
    {
        NetworkConditions {
            latency_ms: 100,
            jitter_ms: 20,
            packet_loss_bp: 100,
            bandwidth_kbps: 2000,
            available: true,
        }
    }

    /// Congested: 300 ms, 50 ms jitter, 5% loss, 500 kbit/s.
    pub fn poor() -> (r: Self)
        ensures
            r == (NetworkConditions {
                latency_ms: 300,
                jitter_ms: 50,
                packet_loss_bp: 500,
                bandwidth_kbps: 500,
                available: true,
            }),
    {
        NetworkConditions {
            latency_ms: 300,
            jitter_ms: 50,
            packet_loss_bp: 500,
            bandwidth_kbps: 500,
            available: true,
        }
    }

    /// Lossy: 150 ms, 100 ms jitter, 15% loss, 1 Mbit/s.
    pub fn unreliable() -> (r: Self)
        ensures
            r == (NetworkConditions {
                latency_ms: 150,
                jitter_ms: 100,
                packet_loss_bp: 1500,
                bandwidth_kbps: 1000,
                available: true,
            }),
    {
        NetworkConditions {
            latency_ms: 150,
            jitter_ms: 100,
            packet_loss_bp: 1500,
            bandwidth_kbps: 1000,
            available: true,
        }
    }

    /// Comes and goes, starting unavailable: 200 ms, 30 ms jitter, 2% loss,
    /// 1.5 Mbit/s.
    pub fn intermittent() -> (r: Self)
        ensures
            r == (NetworkConditions {
                latency_ms: 200,
                jitter_ms: 30,
                packet_loss_bp: 200,
                bandwidth_kbps: 1500,
                available: false,
            }),
    {
        NetworkConditions {
            latency_ms: 200,
            jitter_ms: 30,
            packet_loss_bp: 200,
            bandwidth_kbps: 1500,
            available: false,
        }
    }

    /// No connectivity.
    pub fn offline() -> (r: Self)
        ensures
            r == (NetworkConditions {
                latency_ms: 0,
                jitter_ms: 0,
                packet_loss_bp: 10000,
                bandwidth_kbps: 0,
                available: false,
            }),
    {
        NetworkConditions {
            latency_ms: 0,
            jitter_ms: 0,
            packet_loss_bp: 10000,
            bandwidth_kbps: 0,
            available: false,
        }
    }

    /// Expected round-trip time in milliseconds: twice the latency plus
    /// half the jitter, rounded down.
    pub fn expected_rtt(&self) -> (r: u64)
        ensures
            r == 2 * self.latency_ms + self.jitter_ms / 2,
    {
        2 * (self.latency_ms as u64) + (self.jitter_ms as u64) / 2
    }

    /// Time to send a packet of the given size, in microseconds, rounded
    /// down and capped at `u64::MAX`; `STALLED_US` when the network is
    /// unavailable or has no bandwidth.
    pub fn throughput_for_packet(&self, packet_size_bytes: usize) -> (r: u64)
        ensures
            !self.available || self.bandwidth_kbps == 0 ==> r == STALLED_US,
            self.available && self.bandwidth_kbps > 0 ==> r == (if packet_size_bytes * 8000
                / self.bandwidth_kbps as int > u64::MAX {
                u64::MAX as int
            } else {
                packet_size_bytes * 8000 / self.bandwidth_kbps as int
            }),
    {
        if self.bandwidth_kbps == 0 || !self.available {
            return STALLED_US;
        }
        let bits_times_1000 = (packet_size_bytes as u128) * 8000;
        let us = bits_times_1000 / (self.bandwidth_kbps as u128);
        if us > u64::MAX as u128 {
            u64::MAX
        } else {
            us as u64
        }
    }

    /// Good enough for real-time media: under 200 ms, under 5% loss, at
    /// least 500 kbit/s.
    pub fn is_suitable_for_realtime(&self) -> (r: bool)
        ensures
            r == (self.available && self.latency_ms < 200 && self.packet_loss_bp < 500
                && self.bandwidth_kbps >= 500),
    {
        self.available && self.latency_ms < 200 && self.packet_loss_bp < 500
            && self.bandwidth_kbps >= 500
    }

    /// Good enough for video: under 100 ms, under 2% loss, at least
    /// 2 Mbit/s.
    pub fn is_suitable_for_video(&self) -> (r: bool)
        ensures
            r == (self.available && self.latency_ms < 100 && self.packet_loss_bp < 200
                && self.bandwidth_kbps >= 2000),
    {
        self.available && self.latency_ms < 100 && self.packet_loss_bp < 200
            && self.bandwidth_kbps >= 2000
    }

    /// Good enough for audio: under 300 ms, under 10% loss, at least
    /// 100 kbit/s.
    pub fn is_suitable_for_audio(&self) -> (r: bool)
        ensures
            r == (self.available && self.latency_ms < 300 && self.packet_loss_bp < 1000
                && self.bandwidth_kbps >= 100),
    {
        self.available && self.latency_ms < 300 && self.packet_loss_bp < 1000
            && self.bandwidth_kbps >= 100
    }

    /// Human-readable quality.
    pub fn description(&self) -> (r: &'static str)
        ensures
            r@ == quality(*self),
    {
        if !self.available {
            "Offline"
        } else if self.packet_loss_bp >= 1000 {
            "Very Poor"
        } else if self.packet_loss_bp >= 500 {
            "Poor"
        } else if self.latency_ms > 200 {
            "Poor (High Latency)"
        } else if self.latency_ms > 100 {
            "Fair"
        } else if self.latency_ms > 50 {
            "Good"
        } else if self.packet_loss_bp > 100 {
            "Good (Some Loss)"
        } else {
            "Excellent"
        }
    }
    /// Conditions fluctuated by four random draws, each in parts per
    /// thousand: latency scaled into [80%, 120%), loss into [50%, 200%)
    /// and capped at 100%, bandwidth into [70%, 130%), and an outage when the
    /// last draw is at most 50 (a 5% chance). Jitter is kept.
    pub fn with_variation(
        &self,
        latency_draw: u32,
        loss_draw: u32,
        bandwidth_draw: u32,
        outage_draw: u32,
    ) -> (r: Self)
        requires
            is_draw(latency_draw),
            is_draw(loss_draw),
            is_draw(bandwidth_draw),
            is_draw(outage_draw),
        ensures
            r.latency_ms == scaled(self.latency_ms, 800_000 + 400 * latency_draw, u32::MAX as int),
            r.jitter_ms == self.jitter_ms,
            r.packet_loss_bp == scaled(self.packet_loss_bp, 500_000 + 1500 * loss_draw, 10000),
            r.bandwidth_kbps == scaled(
                self.bandwidth_kbps,
                700_000 + 600 * bandwidth_draw,
                u32::MAX as int,
            ),
            r.available == (self.available && outage_draw > 50),
    {
        NetworkConditions {
            latency_ms: scale(self.latency_ms, 800_000 + 400 * latency_draw as u64, u32::MAX),
            jitter_ms: self.jitter_ms,
            packet_loss_bp: scale(self.packet_loss_bp, 500_000 + 1500 * loss_draw as u64, 10000),
            bandwidth_kbps: scale(
                self.bandwidth_kbps,
                700_000 + 600 * bandwidth_draw as u64,
                u32::MAX,
            ),
            available: self.available && outage_draw > 50,
        }
    }
}

fn scale(x: u32, num: u64, cap: u32) -> (r: u32)
    requires
        num <= 2_000_000,
    ensures
        r == scaled(x, num as int, cap as int),
{
    proof {
        assert(x as int * num as int <= (u32::MAX as int) * 2_000_000) by (nonlinear_arith)
            requires
                num <= 2_000_000,
        ;
    }
    let v = (x as u64) * num / 1_000_000;
    if v > cap as u64 {
        cap
    } else {
        v as u32
    }
}


/// `x` scaled by `num / 1_000_000`, rounded down and capped at `cap`.
pub open spec fn scaled(x: u32, num: int, cap: int) -> int {
    let v = x * num / 1_000_000;
    if v > cap { cap } else { v }
}

/// Whether `d` is a random draw in parts per thousand.
pub open spec fn is_draw(d: u32) -> bool {
    d < 1000
}

/// Network situations to test against.
#[derive(Debug, Clone, Copy, PartialEq, Eq, Structural)]
pub enum NetworkScenario {
    /// Perfect conditions for baseline testing
    Perfect,
    /// Typical home broadband
    HomeBroadband,
    /// Office network with moderate congestion
    OfficeNetwork,
    /// Mobile 4G/LTE connection
    Mobile4G,
    /// Mobile 3G connection
    Mobile3G,
    /// Satellite internet (high latency)
    Satellite,
    /// Congested network
    Congested,
    /// Intermittent connectivity
    Intermittent,
    /// Complete outage
    Outage,
}

impl NetworkScenario {
    /// The conditions of this scenario.
    pub fn conditions(&self) -> (r: NetworkConditions)
        ensures
            *self == NetworkScenario::Perfect ==> r.latency_ms == 1 && r.available,
            *self == NetworkScenario::Outage ==> !r.available && r.bandwidth_kbps == 0,
            *self == NetworkScenario::Satellite ==> r.latency_ms == 600,
            *self == NetworkScenario::Intermittent ==> !r.available,
            *self != NetworkScenario::Intermittent && *self != NetworkScenario::Outage
                ==> r.available,
    {
        match self {
            NetworkScenario::Perfect => NetworkConditions::perfect(),
            NetworkScenario::HomeBroadband => NetworkConditions::good(),
            NetworkScenario::OfficeNetwork => NetworkConditions {
                latency_ms: 80,
                jitter_ms: 10,
                packet_loss_bp: 50,
                bandwidth_kbps: 3000,
                available: true,
            },
            NetworkScenario::Mobile4G => NetworkConditions::mobile(),
            NetworkScenario::Mobile3G => NetworkConditions {
                latency_ms: 300,
                jitter_ms: 50,
                packet_loss_bp: 300,
                bandwidth_kbps: 500,
                available: true,
            },
            NetworkScenario::Satellite => NetworkConditions {
                latency_ms: 600,
                jitter_ms: 20,
                packet_loss_bp: 100,
                bandwidth_kbps: 2000,
                available: true,
            },
            NetworkScenario::Congested => NetworkConditions::poor(),
            NetworkScenario::Intermittent => NetworkConditions::intermittent(),
            NetworkScenario::Outage => NetworkConditions::offline(),
        }
    }

    /// Every scenario.
    pub fn all() -> (r: Vec<Self>)
        ensures
            r@ == seq![
                NetworkScenario::Perfect,
                NetworkScenario::HomeBroadband,
                NetworkScenario::OfficeNetwork,
                NetworkScenario::Mobile4G,
                NetworkScenario::Mobile3G,
                NetworkScenario::Satellite,
                NetworkScenario::Congested,
                NetworkScenario::Intermittent,
                NetworkScenario::Outage,
            ],
    {
        let r = vec![
            NetworkScenario::Perfect,
            NetworkScenario::HomeBroadband,
            NetworkScenario::OfficeNetwork,
            NetworkScenario::Mobile4G,
            NetworkScenario::Mobile3G,
            NetworkScenario::Satellite,
            NetworkScenario::Congested,
            NetworkScenario::Intermittent,
            NetworkScenario::Outage,
        ];
        assert(r@ =~= seq![
            NetworkScenario::Perfect,
            NetworkScenario::HomeBroadband,
            NetworkScenario::OfficeNetwork,
            NetworkScenario::Mobile4G,
            NetworkScenario::Mobile3G,
            NetworkScenario::Satellite,
            NetworkScenario::Congested,
            NetworkScenario::Intermittent,
            NetworkScenario::Outage,
        ]);
        r
    }

    /// The scenarios met in practice: all but the perfect one and the
    /// outage.
    pub fn realistic() -> (r: Vec<Self>)
        ensures
            r@ == seq![
                NetworkScenario::HomeBroadband,
                NetworkScenario::OfficeNetwork,
                NetworkScenario::Mobile4G,
                NetworkScenario::Mobile3G,
                NetworkScenario::Satellite,
                NetworkScenario::Congested,
                NetworkScenario::Intermittent,
            ],
    {
        let r = vec![
            NetworkScenario::HomeBroadband,
            NetworkScenario::OfficeNetwork,
            NetworkScenario::Mobile4G,
            NetworkScenario::Mobile3G,
            NetworkScenario::Satellite,
            NetworkScenario::Congested,
            NetworkScenario::Intermittent,
        ];
        assert(r@ =~= seq![
            NetworkScenario::HomeBroadband,
            NetworkScenario::OfficeNetwork,
            NetworkScenario::Mobile4G,
            NetworkScenario::Mobile3G,
            NetworkScenario::Satellite,
            NetworkScenario::Congested,
            NetworkScenario::Intermittent,
        ]);
        r
    }
}

} // verus!
