//! Driver logic for the Bosch BMI160 accelerometer and gyroscope.
//!
//! The crate holds the parts of the driver that decide and compute: how the
//! logical settings are packed into the device's registers, in which order the
//! bus is asked to do what, and how the sample registers decode into readings.
//! It performs no bus traffic itself: it names each operation as a value and
//! takes the transport's answer as a value.

pub mod bus;
pub mod config;
pub mod i2c;
pub mod sequence;
