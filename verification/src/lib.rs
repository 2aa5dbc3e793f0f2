//! Verified core of a periodic monitoring-and-control loop.
//!
//! Each cycle samples a sensor reading, evaluates it against a temperature
//! threshold, and dispatches a stop command to an actuator transport when
//! the verdict is anomalous. The loop's decision logic, its outcome
//! classification, and its cancellation discipline live here with proved
//! contracts; the transport and the timer are supplied by the caller.

pub mod channel;
pub mod control;
pub mod detector;
pub mod float_bits;
pub mod reading;
pub mod sensor;

pub use channel::ChannelEvent;
pub use channel::ChannelState;
pub use channel::Command;
pub use channel::SendError;
pub use control::ControlLoop;
pub use control::CycleInput;
pub use control::CycleOutcome;
pub use control::LoopState;
pub use detector::AnomalyDetector;
pub use float_bits::bits_gt;
pub use float_bits::bits_is_nan;
pub use float_bits::bits_le;
pub use reading::Reading;
pub use sensor::AcquisitionError;
pub use sensor::SimulatedSensor;
