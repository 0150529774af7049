//! Sensor readings, faults, and the view the display shows.
//!
//! Temperature and humidity are carried in tenths of a unit (`215` stands
//! for `21.5`), the resolution the display shows.  A reading is produced
//! fresh each cycle and never mutated; the device keeps no history, only
//! the view currently on the display.

use vstd::prelude::*;

verus! {

/// One structured sensor reading, stamped with the monotonic tick at which
/// the bus transaction completed.
#[derive(Clone, Copy, Debug, PartialEq, Eq, Structural)]
pub struct SensorReading {
    /// Temperature in tenths of the configured unit.
    pub temperature_deci: i32,
    /// Relative humidity in tenths of a percent.
    pub humidity_deci: i32,
    /// Monotonic tick of the sample.
    pub timestamp: u64,
}

/// A failed sensor bus transaction.  NACK, timeout and checksum mismatch
/// all collapse into this one transient, recoverable fault: the loop skips
/// the sample and goes on.
#[derive(Clone, Copy, Debug, PartialEq, Eq, Structural)]
pub struct SensorFault;

/// A failed display bus transaction during init or flush.  Transient and
/// recoverable: the loop skips the redraw and goes on.
#[derive(Clone, Copy, Debug, PartialEq, Eq, Structural)]
pub struct DisplayFault;

/// What the display shows: the latest successful reading, or a placeholder
/// until the first one arrives.
#[derive(Clone, Copy, Debug, PartialEq, Eq, Structural)]
pub enum DeviceView {
    Reading(SensorReading),
    Placeholder,
}

} // verus!
