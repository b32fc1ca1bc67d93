//! Rohm BH1750 ambient light sensor.

use vstd::prelude::*;

verus! {

/// Power-up command.
pub const BH1750_POWER_UP: u8 = 0x01;
/// One-time high-resolution measurement command.
pub const BH1750_HIGH_RES_ONE_TIME: u8 = 0x20;

/// The sensor, known by its bus address.
pub struct BH1750 {
    pub address: u8,
}

impl BH1750 {
    /// The two single-byte writes of the start-up sequence, in order.
    pub fn init_commands() -> (cmds: [u8; 2])
        ensures
            cmds[0] == BH1750_POWER_UP,
            cmds[1] == BH1750_HIGH_RES_ONE_TIME,
    {
        [BH1750_POWER_UP, BH1750_HIGH_RES_ONE_TIME]
    }

    /// The 16-bit measurement from the two bytes the sensor sends, most
    /// significant byte first.
    pub fn raw_from_bytes(bytes: &[u8; 2]) -> (raw: u16)
        ensures
            raw as int == 256 * bytes[0] as int + bytes[1] as int,
    {
        let hi = bytes[0];
        let lo = bytes[1];
        let raw: u16 = ((hi as u16) << 8u32) | (lo as u16);
        assert(raw as int == 256 * hi as int + lo as int) by (bit_vector)
            requires raw == ((hi as u16) << 8u32) | (lo as u16);
        raw
    }
}

} // verus!
