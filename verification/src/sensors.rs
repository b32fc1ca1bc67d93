//! Sensor drivers: register maps, command bytes and data decoding.

pub mod types;
pub mod bme280;
pub mod tsl2591;
pub mod bh1750;

pub use types::SensorError;

use vstd::prelude::*;

verus! {

/// Bus address of the CCS811 gas sensor.
pub const CCS811_ADDRESS: u8 = 0x5A;
/// Bus address of the BME280 climate sensor.
pub const BME280_ADDRESS: u8 = 0x76;
/// Bus address of the TSL2591 light sensor.
pub const TSL2591_ADDRESS: u8 = 0x29;
/// Seconds between two rounds of readings.
pub const SENSOR_PERIOD_SECS: u64 = 10;

} // verus!
