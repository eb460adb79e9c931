//! Driver core for a combined temperature / pressure / humidity sensor on a
//! register-addressed serial bus.
//!
//! The measurement engine reads the factory calibration constants once, then
//! turns raw ADC register values into calibrated physical measurements.  All
//! floating-point values are carried as IEEE 754 binary64 bit patterns, so the
//! whole compensation pipeline is stated and verified over plain integers; the
//! arithmetic itself is performed by a software implementation of the format.

pub mod bme280;
pub mod bus;
pub mod calibration;
pub mod compensation;
pub mod fp;
pub mod register;
