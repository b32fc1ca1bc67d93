//! Types shared by the sensor drivers.

use vstd::prelude::*;

verus! {

/// Why a sensor could not be initialised or read.
#[derive(Debug, Clone, Copy, PartialEq, Eq, Structural)]
pub enum SensorError {
    /// A transfer on the I2C bus failed.
    I2cError,
    /// The sensor answered with data that cannot be decoded.
    InvalidData,
}

} // verus!
