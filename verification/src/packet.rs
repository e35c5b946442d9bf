//! The messages two peers exchange over the transport.
//!
//! A `WireMessage` is the tagged union that crosses the byte-message boundary:
//! per-tick input data, round-lifecycle control messages, and keepalives.

use vstd::prelude::*;

verus! {

/// One side's input for a single tick.
///
/// Immutable once created.  `checksum` optionally carries a digest of
/// hook-determined game state for desync detection; `rng_draw` carries the
/// shared RNG value consumed this tick and is present only in packets sent by
/// the RNG authority.
#[derive(Clone, Copy, Debug, PartialEq, Eq)]
pub struct InputPacket {
    pub tick: u32,
    pub input_bits: u16,
    pub checksum: Option<u32>,
    pub rng_draw: Option<u32>,
}

/// A round outcome as reported by one peer, from that peer's own perspective.
#[derive(Clone, Copy, Debug, PartialEq, Eq)]
pub enum WinnerReport {
    /// The reporting peer's player won.
    Mine,
    /// The reporting peer's opponent won.
    Theirs,
    /// Neither player won.
    Draw,
}

/// Round-lifecycle control messages, multiplexed over the same transport as
/// input packets.
#[derive(Clone, Copy, Debug, PartialEq, Eq)]
pub enum RoundControl {
    /// The sender has finished its local round-start sequence.
    StartReady,
    /// The sender's round is concluding; it will sample no further input
    /// after `tick`.
    Ending { tick: u32 },
    /// The sender's game reported the round outcome at `tick`.
    Outcome { tick: u32, report: WinnerReport },
}

/// Everything that can cross the wire, as one tagged union.
#[derive(Clone, Copy, Debug, PartialEq, Eq)]
pub enum WireMessage {
    Input(InputPacket),
    Control(RoundControl),
    Heartbeat,
}

impl InputPacket {
    /// Build the local packet for a tick.  The packet always carries exactly
    /// the tick it was built for.
    pub fn new(tick: u32, input_bits: u16, checksum: Option<u32>, rng_draw: Option<u32>) -> (r:
        InputPacket)
        ensures
            r == (InputPacket { tick, input_bits, checksum, rng_draw }),
    {
        InputPacket { tick, input_bits, checksum, rng_draw }
    }

    /// Whether two packets for the same tick agree on their state digests.
    ///
    /// A missing digest on either side is treated as agreement: the checksum
    /// is an optional feature and its absence is not evidence of divergence.
    pub fn checksums_agree(&self, other: &InputPacket) -> (r: bool)
        ensures
            r == spec_checksums_agree(*self, *other),
    {
        match (self.checksum, other.checksum) {
            (Some(a), Some(b)) => a == b,
            _ => true,
        }
    }
}

/// Two packets diverge only when both carry a digest and the digests differ.
pub open spec fn spec_checksums_agree(a: InputPacket, b: InputPacket) -> bool {
    match (a.checksum, b.checksum) {
        (Some(x), Some(y)) => x == y,
        _ => true,
    }
}

} // verus!
