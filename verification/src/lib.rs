//! Verified core of a small environmental monitor.
//!
//! The device samples a temperature/humidity sensor over a bus, renders the
//! readings to a small pixel display, and reacts to a physical button through
//! a hardware edge interrupt.  This crate holds everything that makes a
//! decision: the interrupt-safe shared button state, the coalescing press
//! flag, the fault policy of the main loop, and the composition of each
//! display frame.  The bus transactions themselves (sensor read, display
//! flush), pin configuration and the delay between iterations are hardware
//! I/O and live outside the crate; they hand plain values in and take plain
//! values back.

pub mod button;
pub mod config;
pub mod device;
pub mod exclusion;
pub mod frame;
pub mod reading;
pub mod text;

pub use config::Accuracy;
pub use config::SensorConfig;
pub use config::TemperatureUnit;
