use wetterstation::sensors::bh1750::{BH1750, BH1750_HIGH_RES_ONE_TIME, BH1750_POWER_UP};
use wetterstation::sensors::tsl2591::{LightChannels, TSL2591};

#[test]
fn tsl2591_init_commands() {
    assert_eq!(TSL2591::init_commands(), [[0xA0, 0x03], [0xA1, 0x10]]);
}

#[test]
fn tsl2591_read_command_addresses_channel_zero() {
    assert_eq!(TSL2591::read_command(), 0xB4);
}

#[test]
fn tsl2591_channels_are_little_endian() {
    let ch = TSL2591::channels_from_burst(&[0x34, 0x12, 0xCD, 0xAB]);
    assert_eq!(ch, LightChannels { full_spectrum: 0x1234, infrared: 0xABCD });
}

#[test]
fn bh1750_init_commands() {
    assert_eq!(BH1750::init_commands(), [BH1750_POWER_UP, BH1750_HIGH_RES_ONE_TIME]);
    assert_eq!(BH1750::init_commands(), [0x01, 0x20]);
}

#[test]
fn bh1750_raw_value_is_big_endian() {
    assert_eq!(BH1750::raw_from_bytes(&[0x12, 0x34]), 0x1234);
    assert_eq!(BH1750::raw_from_bytes(&[0xFF, 0xFF]), 0xFFFF);
    assert_eq!(BH1750::raw_from_bytes(&[0x00, 0x00]), 0);
}
