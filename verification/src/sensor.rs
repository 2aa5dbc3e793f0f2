//! The acquisition side: sampling errors and the simulated sensor backend.

use vstd::prelude::*;
use crate::reading::Reading;

verus! {

/// Why a sample could not be acquired; carries the backend's message.
/// Acquisition failure is a recoverable, expected condition: the loop logs
/// it, skips the cycle, and carries on.
#[derive(Clone, PartialEq, Eq, Debug)]
pub struct AcquisitionError {
    /// Human-readable cause from the acquisition backend.
    pub cause: String,
}

/// Bit pattern of the simulated temperature, the number seventy-five.
pub const SIM_TEMPERATURE_BITS: u32 = 0x4296_0000;

/// Bit pattern of the simulated vibration, one half.
pub const SIM_VIBRATION_BITS: u32 = 0x3F00_0000;

/// Bit pattern of the simulated speed, six fifths.
pub const SIM_SPEED_BITS: u32 = 0x3F99_999A;

/// The stub acquisition backend: every sample yields the same fixed
/// reading, and acquisition never fails. It is safely callable repeatedly:
/// no call depends on a prior one.
#[derive(Clone, Copy, PartialEq, Eq, Structural, Debug)]
pub struct SimulatedSensor {
}

impl SimulatedSensor {
    /// The one reading the stub produces.
    pub open spec fn spec_reading() -> Reading {
        Reading {
            temperature: SIM_TEMPERATURE_BITS,
            vibration: SIM_VIBRATION_BITS,
            speed: SIM_SPEED_BITS,
        }
    }

    /// Builds the stub backend.
    pub fn new() -> (s: SimulatedSensor)
    {
        SimulatedSensor {  }
    }

    /// Produces one reading; the stub variant never fails.
    pub fn sample(&self) -> (r: Result<Reading, AcquisitionError>)
        ensures
            r == Ok::<Reading, AcquisitionError>(Self::spec_reading()),
    {
        Ok(Reading {
            temperature: SIM_TEMPERATURE_BITS,
            vibration: SIM_VIBRATION_BITS,
            speed: SIM_SPEED_BITS,
        })
    }
}

} // verus!
