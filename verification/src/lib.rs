//! Platform-agnostic driver for the TSL2591 high dynamic range digital light
//! sensor.
//!
//! The driver decides which I2C transactions reach the sensor and what the
//! replies mean; every decision is proved against a contract. The transactions
//! themselves are plain values ([`bus::BusOp`]) that an I2C executor performs.
pub mod bus;
pub mod driver;
pub mod error;
pub mod laws;
pub mod registers;

pub use crate::driver::AdafruitTSL2591;
pub use crate::registers::{Gain, IntegrationTime, Persist, Register, TSL2591_ADDR};
