//! Static sensor configuration.
//!
//! The device has no runtime configuration surface: the sensor's accuracy
//! level and temperature unit are fixed at start-up and never change.

use vstd::prelude::*;

verus! {

/// Repeatability level of a sensor measurement.
#[derive(Clone, Copy, Debug, PartialEq, Eq, Structural)]
pub enum Accuracy {
    Low,
    Medium,
    High,
}

/// Unit in which the sensor reports temperature.
#[derive(Clone, Copy, Debug, PartialEq, Eq, Structural)]
pub enum TemperatureUnit {
    Celsius,
    Fahrenheit,
}

/// The fixed configuration record handed to the sensor at start-up.
#[derive(Clone, Copy, Debug, PartialEq, Eq, Structural)]
pub struct SensorConfig {
    pub accuracy: Accuracy,
    pub unit: TemperatureUnit,
}

impl core::default::Default for SensorConfig {
    /// The configuration the device ships with: high accuracy, Celsius.
    fn default() -> (c: SensorConfig)
        ensures
            c.accuracy is High,
            c.unit is Celsius,
    {
        SensorConfig { accuracy: Accuracy::High, unit: TemperatureUnit::Celsius }
    }
}

} // verus!
