//! AMS TSL2591 ambient light sensor.

use vstd::prelude::*;
use crate::bytes::{le_u16, u16_from_le_bytes};

verus! {

/// Command bit (0x80) plus "normal" transaction (0x20); the register pointer
/// then auto-increments across a burst read.
pub const TSL2591_COMMAND: u8 = 0xA0;
/// Enable register.
pub const TSL2591_REG_ENABLE: u8 = 0x00;
/// Gain and integration time register.
pub const TSL2591_REG_CONTROL: u8 = 0x01;
/// Low byte of channel 0; channel 1 follows at 0x16.
pub const TSL2591_REG_CHAN0_LOW: u8 = 0x14;
/// Power on and enable the ambient light sensor (PON | AEN).
pub const TSL2591_ENABLE_POWERON_ALS: u8 = 0x03;
/// Medium gain (25x), 100 ms integration time.
pub const TSL2591_CONTROL_MED_100MS: u8 = 0x10;

/// The sensor, known by its bus address.
pub struct TSL2591 {
    pub address: u8,
}

/// The two raw channels of one light reading.
#[derive(Debug, Clone, Copy, PartialEq, Eq, Structural)]
pub struct LightChannels {
    /// Channel 0: full spectrum.
    pub full_spectrum: u16,
    /// Channel 1: infrared.
    pub infrared: u16,
}

impl TSL2591 {
    /// The two writes that start the sensor: enable it, then set gain and
    /// integration time.
    pub fn init_commands() -> (cmds: [[u8; 2]; 2])
        ensures
            cmds[0][0] == 0xA0u8 && cmds[0][1] == 0x03u8,
            cmds[1][0] == 0xA1u8 && cmds[1][1] == 0x10u8,
    {
        let enable: u8 = TSL2591_COMMAND | TSL2591_REG_ENABLE;
        let control: u8 = TSL2591_COMMAND | TSL2591_REG_CONTROL;
        assert(enable == 0xA0u8 && control == 0xA1u8) by (bit_vector)
            requires enable == 0xA0u8 | 0x00u8, control == 0xA0u8 | 0x01u8;
        [[enable, TSL2591_ENABLE_POWERON_ALS], [control, TSL2591_CONTROL_MED_100MS]]
    }

    /// The register write that starts the 4-byte burst read of both channels.
    pub fn read_command() -> (cmd: u8)
        ensures
            cmd == 0xB4u8,
    {
        let cmd: u8 = TSL2591_COMMAND | TSL2591_REG_CHAN0_LOW;
        assert(cmd == 0xB4u8) by (bit_vector)
            requires cmd == 0xA0u8 | 0x14u8;
        cmd
    }

    /// Splits the 4-byte burst into channel 0 and channel 1, each a
    /// little-endian word.
    pub fn channels_from_burst(burst: &[u8; 4]) -> (ch: LightChannels)
        ensures
            ch.full_spectrum as int == le_u16(burst[0], burst[1]),
            ch.infrared as int == le_u16(burst[2], burst[3]),
    {
        let full_spectrum = u16_from_le_bytes([burst[0], burst[1]]);
        let infrared = u16_from_le_bytes([burst[2], burst[3]]);
        LightChannels { full_spectrum, infrared }
    }
}

} // verus!
