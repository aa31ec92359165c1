//! The data that flows through the pipeline.

use vstd::prelude::*;

verus! {

/// The wall-clock time of a packet. The library only carries it from a packet to
/// the packets and reports made of it.
#[verifier::external_type_specification]
#[verifier::external_body]
pub struct ExSystemTime(std::time::SystemTime);

/// One sample of the sensor. Each reading is an IEEE-754 single-precision value,
/// held as its 32-bit pattern (see `reading`).
#[derive(Debug, Clone, Copy)]
pub struct SensorPacket {
    pub timestamp: std::time::SystemTime,
    pub force: u32,
    pub position: u32,
    pub temperature: u32,
}

/// The kinds of anomaly that a packet can show.
#[derive(Debug, Clone, Copy, PartialEq, Eq, Structural)]
pub enum AnomalyType {
    ForceSpike,
    TempSpike,
    PositionalError,
}

/// An anomaly, with the packet that showed it.
#[derive(Debug, Clone, Copy)]
pub struct AnomalyReport {
    pub anomaly: AnomalyType,
    pub packet: SensorPacket,
}

/// The recent readings of each channel, oldest first, from which clean packets are
/// smoothed. Each reading is a single-precision bit pattern.
#[derive(Clone)]
pub struct SensorProcessor {
    pub force_buffer: std::collections::VecDeque<u32>,
    pub temp_buffer: std::collections::VecDeque<u32>,
    pub pos_buffer: std::collections::VecDeque<u32>,
}

/// A request to change one of the limits; the new limit is a single-precision bit
/// pattern.
#[derive(Debug, Clone, Copy, PartialEq, Eq, Structural)]
pub enum Feedback {
    UpdateForceThreshold(u32),
    UpdateTempThreshold(u32),
    UpdatePosThreshold(u32),
}

} // verus!
