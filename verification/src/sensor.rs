//! The sensor simulator's choice of which channel a spike hits.

use rand::Rng;
use vstd::prelude::*;

verus! {

/// How many channels a spike can hit.
pub const SPIKE_CHANNELS: u32 = 3;

/// The channel of a simulated spike.
#[derive(Debug, Clone, Copy, PartialEq, Eq, Structural)]
pub enum SpikeChannel {
    Force,
    Temperature,
    Position,
}

/// The channel that a roll selects: 0 force, 1 temperature, 2 position, any other
/// roll none.
pub open spec fn channel_of(roll: u32) -> Option<SpikeChannel> {
    if roll == 0 {
        Some(SpikeChannel::Force)
    } else if roll == 1 {
        Some(SpikeChannel::Temperature)
    } else if roll == 2 {
        Some(SpikeChannel::Position)
    } else {
        None
    }
}

/// The channel that `roll` selects.
pub fn spike_channel(roll: u32) -> (c: Option<SpikeChannel>)
    ensures
        c == channel_of(roll),
{
    if roll == 0 {
        Some(SpikeChannel::Force)
    } else if roll == 1 {
        Some(SpikeChannel::Temperature)
    } else if roll == 2 {
        Some(SpikeChannel::Position)
    } else {
        None
    }
}

/// Calls `rand::Rng::random_range` on the thread's generator with the range
/// `0..bound`. Its documentation promises a value in the range and a panic on an
/// empty one, so `bound` must be positive; which value comes back is left to chance.
#[verifier::external_body]
fn random_below(bound: u32) -> (r: u32)
    requires
        0 < bound,
    ensures
        r < bound,
{
    rand::rng().random_range(0..bound)
}

/// Rolls for the channel of a spike. Which channel comes back is left to chance:
/// only the map from a roll to its channel (`spike_channel`) is specified, and every
/// roll below `SPIKE_CHANNELS` selects one.
pub fn pick_spike_channel() -> SpikeChannel {
    let roll = random_below(SPIKE_CHANNELS);
    match spike_channel(roll) {
        Some(c) => c,
        None => {
            assert(false);
            SpikeChannel::Force
        }
    }
}

} // verus!
