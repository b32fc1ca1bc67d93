//! Verified core of a balcony weather station: decoding of the raw register
//! contents of its I2C sensors, the fixed-point compensation formulas of the
//! BME280, and the decision logic of the WiFi and MQTT connection loops.
//! Everything that touches hardware, timers or the network lives in the
//! firmware crate around this library.

pub mod arith;
pub mod bytes;
pub mod sensors;
pub mod network;
pub mod mqtt;
