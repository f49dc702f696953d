use vstd::prelude::*;

verus! {

/// One hit: a measurement on a single hardware channel.
///
/// `energy`, `energy_short` and `timestamp` are bit patterns of IEEE 754
/// binary64 numbers.
#[derive(Clone, Copy, Debug)]
pub struct CompassData {
    /// Hardware identifier (board and channel) that the channel map resolves.
    pub uuid: u32,
    /// Long-gate amplitude.
    pub energy: u64,
    /// Short-gate amplitude.
    pub energy_short: u64,
    /// Time of the hit.
    pub timestamp: u64,
}

} // verus!
