//! One sampled sensor snapshot.

use vstd::prelude::*;

verus! {

/// An immutable sensor snapshot: three magnitudes, each carried as the bit
/// pattern of a single-precision number (see [`crate::float_bits`]). A
/// reading is created fresh each cycle, never mutated, and keeps no
/// identity beyond its values.
#[derive(Clone, Copy, PartialEq, Eq, Structural, Debug)]
pub struct Reading {
    /// Bit pattern of the sampled temperature.
    pub temperature: u32,
    /// Bit pattern of the sampled vibration.
    pub vibration: u32,
    /// Bit pattern of the sampled speed.
    pub speed: u32,
}

impl Reading {
    /// Builds a reading from the three magnitudes' bit patterns.
    pub fn new(temperature: u32, vibration: u32, speed: u32) -> (r: Reading)
        ensures
            r.temperature == temperature,
            r.vibration == vibration,
            r.speed == speed,
    {
        Reading { temperature, vibration, speed }
    }
}

} // verus!
