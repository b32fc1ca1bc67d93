//! Bosch BME280 combined temperature / pressure / humidity sensor.
//!
//! The sensor reports uncompensated ADC values; turning them into physical
//! quantities takes the factory calibration stored in two register banks and
//! the fixed-point compensation formulas of the datasheet.

use vstd::prelude::*;
use crate::arith::{fits_i32, fits_i64, wrap_i32, wrap_i64, lemma_i32_shr, lemma_i32_shl, lemma_i64_shr, lemma_i64_shl, lemma_mul_bound};
use crate::bytes::{le_i16, le_u16, i16_from_le_bytes, u16_from_le_bytes};

verus! {

/// Register/value pair: humidity oversampling x1.
pub const BME280_HUM_OVERSAMPLE_ONE: [u8; 2] = [0xF2, 0x01];
/// Register/value pair: IIR filter coefficient 4.
pub const BME280_P_FILTER_FOUR: [u8; 2] = [0xF5, 0x08];
/// Register/value pair: temperature and pressure oversampling x1, sleep mode.
pub const BME280_SLEEP_OVERSAMPLE_ONE: [u8; 2] = [0xF4, 0x24];
/// Register/value pair: oversampling x1, forced mode (one measurement).
pub const BME280_FORCED_MEASUREMENT: [u8; 2] = [0xF4, 0x25];
/// First register of the first calibration bank (26 bytes, 0x88..=0xA1).
pub const BME280_CALIB_BANK1_START: u8 = 0x88;
/// First register of the second calibration bank (7 bytes, 0xE1..=0xE7).
pub const BME280_CALIB_BANK2_START: u8 = 0xE1;
/// First register of the measurement burst (8 bytes, 0xF7..=0xFE).
pub const BME280_DATA_START: u8 = 0xF7;

/// The not yet initialised sensor, known by its bus address.
pub struct BME280Builder {
    pub address: u8,
}

impl BME280Builder {
    /// The register writes of the start-up sequence, in order: humidity
    /// oversampling, IIR filter, then temperature/pressure oversampling in
    /// sleep mode.
    pub fn init_commands() -> (cmds: [[u8; 2]; 3])
        ensures
            cmds[0] == BME280_HUM_OVERSAMPLE_ONE,
            cmds[1] == BME280_P_FILTER_FOUR,
            cmds[2] == BME280_SLEEP_OVERSAMPLE_ONE,
    {
        [BME280_HUM_OVERSAMPLE_ONE, BME280_P_FILTER_FOUR, BME280_SLEEP_OVERSAMPLE_ONE]
    }
}

/// An initialised sensor together with its factory calibration.
pub struct BME280 {
    pub address: u8,
    pub calibration: BME280Calibration,
}

/// Factory calibration words of one BME280.
#[derive(Debug, Clone, Copy)]
pub struct BME280Calibration {
    pub dig_t1: u16,
    pub dig_t2: i16,
    pub dig_t3: i16,
    pub dig_p1: u16,
    pub dig_p2: i16,
    pub dig_p3: i16,
    pub dig_p4: i16,
    pub dig_p5: i16,
    pub dig_p6: i16,
    pub dig_p7: i16,
    pub dig_p8: i16,
    pub dig_p9: i16,
    pub dig_h1: u8,
    pub dig_h2: i16,
    pub dig_h3: u8,
    pub dig_h4: i16,
    pub dig_h5: i16,
    pub dig_h6: i8,
}

/// The all-zero calibration.
pub open spec fn zero_calibration() -> BME280Calibration {
    BME280Calibration {
        dig_t1: 0, dig_t2: 0, dig_t3: 0,
        dig_p1: 0, dig_p2: 0, dig_p3: 0, dig_p4: 0, dig_p5: 0,
        dig_p6: 0, dig_p7: 0, dig_p8: 0, dig_p9: 0,
        dig_h1: 0, dig_h2: 0, dig_h3: 0, dig_h4: 0, dig_h5: 0, dig_h6: 0,
    }
}

impl Default for BME280Calibration {
    fn default() -> (r: Self)
        ensures
            r == zero_calibration(),
    {
        BME280Calibration {
            dig_t1: 0, dig_t2: 0, dig_t3: 0,
            dig_p1: 0, dig_p2: 0, dig_p3: 0, dig_p4: 0, dig_p5: 0,
            dig_p6: 0, dig_p7: 0, dig_p8: 0, dig_p9: 0,
            dig_h1: 0, dig_h2: 0, dig_h3: 0, dig_h4: 0, dig_h5: 0, dig_h6: 0,
        }
    }
}

/// The calibration word that the datasheet stores in the two register banks:
/// little-endian words in bank 1 (0x88..), and in bank 2 (0xE1..) the
/// humidity words H4 and H5 are 12-bit values that share the nibbles of
/// register 0xE5.
pub open spec fn calibration_from_banks(b1: Seq<u8>, b2: Seq<u8>) -> BME280Calibration {
    BME280Calibration {
        dig_t1: le_u16(b1[0], b1[1]) as u16,
        dig_t2: le_i16(b1[2], b1[3]) as i16,
        dig_t3: le_i16(b1[4], b1[5]) as i16,
        dig_p1: le_u16(b1[6], b1[7]) as u16,
        dig_p2: le_i16(b1[8], b1[9]) as i16,
        dig_p3: le_i16(b1[10], b1[11]) as i16,
        dig_p4: le_i16(b1[12], b1[13]) as i16,
        dig_p5: le_i16(b1[14], b1[15]) as i16,
        dig_p6: le_i16(b1[16], b1[17]) as i16,
        dig_p7: le_i16(b1[18], b1[19]) as i16,
        dig_p8: le_i16(b1[20], b1[21]) as i16,
        dig_p9: le_i16(b1[22], b1[23]) as i16,
        dig_h1: b1[25],
        dig_h2: le_i16(b2[0], b2[1]) as i16,
        dig_h3: b2[2],
        dig_h4: (16 * b2[3] as int + b2[4] as int % 16) as i16,
        dig_h5: (16 * b2[5] as int + b2[4] as int / 16) as i16,
        dig_h6: (if b2[6] >= 128 { b2[6] as int - 256 } else { b2[6] as int }) as i8,
    }
}

impl BME280Calibration {
    /// Decodes the calibration from the contents of the two calibration
    /// register banks (26 bytes from 0x88 and 7 bytes from 0xE1).
    pub fn from_banks(bank1: &[u8; 26], bank2: &[u8; 7]) -> (cal: BME280Calibration)
        ensures
            cal == calibration_from_banks(bank1@, bank2@),
            cal.dig_t1 as int == le_u16(bank1[0], bank1[1]),
            cal.dig_t2 as int == le_i16(bank1[2], bank1[3]),
            cal.dig_t3 as int == le_i16(bank1[4], bank1[5]),
            cal.dig_p1 as int == le_u16(bank1[6], bank1[7]),
            cal.dig_p2 as int == le_i16(bank1[8], bank1[9]),
            cal.dig_p3 as int == le_i16(bank1[10], bank1[11]),
            cal.dig_p4 as int == le_i16(bank1[12], bank1[13]),
            cal.dig_p5 as int == le_i16(bank1[14], bank1[15]),
            cal.dig_p6 as int == le_i16(bank1[16], bank1[17]),
            cal.dig_p7 as int == le_i16(bank1[18], bank1[19]),
            cal.dig_p8 as int == le_i16(bank1[20], bank1[21]),
            cal.dig_p9 as int == le_i16(bank1[22], bank1[23]),
            cal.dig_h1 == bank1[25],
            cal.dig_h2 as int == le_i16(bank2[0], bank2[1]),
            cal.dig_h3 == bank2[2],
            cal.dig_h4 as int == 16 * bank2[3] as int + bank2[4] as int % 16,
            cal.dig_h5 as int == 16 * bank2[5] as int + bank2[4] as int / 16,
            cal.dig_h6 as int == (if bank2[6] >= 128 { bank2[6] as int - 256 } else { bank2[6] as int }),
            0 <= cal.dig_h4 < 4096,
            0 <= cal.dig_h5 < 4096,
    {
        let b3 = bank2[3];
        let b4 = bank2[4];
        let b5 = bank2[5];
        let b6 = bank2[6];
        let dig_h4: i16 = ((b3 as i16) << 4u32) | ((b4 as i16) & 0x0F);
        let dig_h5: i16 = ((b5 as i16) << 4u32) | ((b4 as i16) >> 4u32);
        let dig_h6: i8 = b6 as i8;
        assert(dig_h4 as int == 16 * b3 as int + b4 as int % 16) by (bit_vector)
            requires dig_h4 == ((b3 as i16) << 4u32) | ((b4 as i16) & 0x0F);
        assert(dig_h5 as int == 16 * b5 as int + b4 as int / 16) by (bit_vector)
            requires dig_h5 == ((b5 as i16) << 4u32) | ((b4 as i16) >> 4u32);
        assert(dig_h6 as int == (if b6 >= 128 { b6 as int - 256 } else { b6 as int })) by (bit_vector)
            requires dig_h6 == b6 as i8;
        BME280Calibration {
            dig_t1: u16_from_le_bytes([bank1[0], bank1[1]]),
            dig_t2: i16_from_le_bytes([bank1[2], bank1[3]]),
            dig_t3: i16_from_le_bytes([bank1[4], bank1[5]]),
            dig_p1: u16_from_le_bytes([bank1[6], bank1[7]]),
            dig_p2: i16_from_le_bytes([bank1[8], bank1[9]]),
            dig_p3: i16_from_le_bytes([bank1[10], bank1[11]]),
            dig_p4: i16_from_le_bytes([bank1[12], bank1[13]]),
            dig_p5: i16_from_le_bytes([bank1[14], bank1[15]]),
            dig_p6: i16_from_le_bytes([bank1[16], bank1[17]]),
            dig_p7: i16_from_le_bytes([bank1[18], bank1[19]]),
            dig_p8: i16_from_le_bytes([bank1[20], bank1[21]]),
            dig_p9: i16_from_le_bytes([bank1[22], bank1[23]]),
            dig_h1: bank1[25],
            dig_h2: i16_from_le_bytes([bank2[0], bank2[1]]),
            dig_h3: bank2[2],
            dig_h4,
            dig_h5,
            dig_h6,
        }
    }
}

/// The three uncompensated ADC values of one measurement burst.
#[derive(Debug, Clone, Copy, PartialEq, Eq, Structural)]
pub struct RawMeasurement {
    /// 20-bit pressure value.
    pub pressure: u32,
    /// 20-bit temperature value.
    pub temperature: u32,
    /// 16-bit humidity value.
    pub humidity: u32,
}

/// A 20-bit ADC value sent as most significant byte, middle byte and the
/// upper nibble of the last byte.
pub open spec fn adc20(msb: u8, lsb: u8, xlsb: u8) -> int {
    4096 * msb as int + 16 * lsb as int + xlsb as int / 16
}

/// The ADC values in the burst read from 0xF7: pressure in bytes 0..3,
/// temperature in bytes 3..6, humidity (big-endian) in bytes 6..8.
pub open spec fn raw_from_burst_spec(b: Seq<u8>) -> RawMeasurement {
    RawMeasurement {
        pressure: adc20(b[0], b[1], b[2]) as u32,
        temperature: adc20(b[3], b[4], b[5]) as u32,
        humidity: (256 * b[6] as int + b[7] as int) as u32,
    }
}

// ---------------------------------------------------------------------------
// Temperature
// ---------------------------------------------------------------------------

/// First product of the temperature formula, `((adc_T>>3) - (T1<<1)) * T2`.
pub open spec fn temp_term1(adc_t: int, cal: BME280Calibration) -> int {
    (adc_t / 8 - 2 * cal.dig_t1) * cal.dig_t2
}

/// The square `((adc_T>>4) - T1)^2` of the temperature formula.
pub open spec fn temp_square(adc_t: int, cal: BME280Calibration) -> int {
    (adc_t / 16 - cal.dig_t1) * (adc_t / 16 - cal.dig_t1)
}

/// Second product of the temperature formula, `(square >> 12) * T3`.
pub open spec fn temp_term2(adc_t: int, cal: BME280Calibration) -> int {
    (temp_square(adc_t, cal) / 4096) * cal.dig_t3
}

/// The temperature formula computes without leaving the range of `i32`.
pub open spec fn temperature_fits(adc_t: int, cal: BME280Calibration) -> bool {
    &&& fits_i32(temp_term1(adc_t, cal))
    &&& fits_i32(temp_square(adc_t, cal))
    &&& fits_i32(temp_term2(adc_t, cal))
}

/// The fine temperature `t_fine` that the pressure and humidity formulas use.
pub open spec fn t_fine_spec(adc_t: int, cal: BME280Calibration) -> int {
    temp_term1(adc_t, cal) / 2048 + temp_term2(adc_t, cal) / 16384
}

/// The temperature in hundredths of a degree Celsius for a fine temperature.
pub open spec fn centi_celsius(t_fine: int) -> int {
    (t_fine * 5 + 128) / 256
}

impl BME280 {
    /// Splits the 8-byte burst read from register 0xF7 into the three ADC
    /// values.
    pub fn raw_from_burst(burst: &[u8; 8]) -> (raw: RawMeasurement)
        ensures
            raw == raw_from_burst_spec(burst@),
            raw.pressure as int / 4096 == burst[0] && (raw.pressure as int / 16) % 256 == burst[1]
                && raw.pressure as int % 16 == burst[2] as int / 16,
            raw.temperature as int / 4096 == burst[3] && (raw.temperature as int / 16) % 256 == burst[4]
                && raw.temperature as int % 16 == burst[5] as int / 16,
            raw.humidity as int / 256 == burst[6] && raw.humidity as int % 256 == burst[7],
            raw.pressure < 0x100000,
            raw.temperature < 0x100000,
            raw.humidity < 0x10000,
    {
        let b0 = burst[0];
        let b1 = burst[1];
        let b2 = burst[2];
        let b3 = burst[3];
        let b4 = burst[4];
        let b5 = burst[5];
        let b6 = burst[6];
        let b7 = burst[7];
        let pressure: u32 = ((b0 as u32) << 12u32) | ((b1 as u32) << 4u32) | ((b2 as u32) >> 4u32);
        let temperature: u32 = ((b3 as u32) << 12u32) | ((b4 as u32) << 4u32) | ((b5 as u32) >> 4u32);
        let humidity: u32 = ((b6 as u32) << 8u32) | (b7 as u32);
        assert(pressure as int == adc20(b0, b1, b2) && pressure < 0x100000 && pressure / 4096 == b0 as u32
            && (pressure / 16) % 256 == b1 as u32 && pressure % 16 == (b2 as u32) / 16) by (bit_vector)
            requires pressure == ((b0 as u32) << 12u32) | ((b1 as u32) << 4u32) | ((b2 as u32) >> 4u32);
        assert(temperature as int == adc20(b3, b4, b5) && temperature < 0x100000 && temperature / 4096 == b3 as u32
            && (temperature / 16) % 256 == b4 as u32 && temperature % 16 == (b5 as u32) / 16) by (bit_vector)
            requires temperature == ((b3 as u32) << 12u32) | ((b4 as u32) << 4u32) | ((b5 as u32) >> 4u32);
        assert(humidity as int == 256 * b6 as int + b7 as int && humidity < 0x10000 && humidity / 256 == b6 as u32
            && humidity % 256 == b7 as u32) by (bit_vector)
            requires humidity == ((b6 as u32) << 8u32) | (b7 as u32);
        RawMeasurement { pressure, temperature, humidity }
    }

    /// Compensated temperature: returns the temperature in hundredths of a
    /// degree Celsius (5123 is 51.23 °C) and the fine temperature `t_fine`.
    pub fn compensate_temperature(adc_t: i32, cal: &BME280Calibration) -> (r: (i32, i32))
        requires
            temperature_fits(adc_t as int, *cal),
        ensures
            r.1 as int == t_fine_spec(adc_t as int, *cal),
            r.0 as int == centi_celsius(r.1 as int),
            256 * r.0 <= 5 * r.1 + 128 < 256 * r.0 + 256,
    {
        proof {
            lemma_i32_shr(adc_t);
            lemma_i32_shl(cal.dig_t1 as i32);
        }
        let t1 = cal.dig_t1 as i32;
        let diff = (adc_t >> 3u32) - (t1 << 1u32);
        let term1 = diff * (cal.dig_t2 as i32);
        let coarse = (adc_t >> 4u32) - t1;
        let square = coarse * coarse;
        proof { lemma_i32_shr(square); }
        let term2 = (square >> 12u32) * (cal.dig_t3 as i32);
        proof {
            lemma_i32_shr(term1);
            lemma_i32_shr(term2);
        }
        let t_fine = (term1 >> 11u32) + (term2 >> 14u32);
        let scaled = t_fine * 5 + 128;
        proof { lemma_i32_shr(scaled); }
        (scaled >> 8u32, t_fine)
    }

    /// Decides `temperature_fits`: whether the temperature formula stays in
    /// the range of `i32` for these inputs.
    pub fn temperature_in_range(adc_t: i32, cal: &BME280Calibration) -> (b: bool)
        ensures
            b == temperature_fits(adc_t as int, *cal),
    {
        proof { lemma_i32_shr(adc_t); }
        let t1 = cal.dig_t1 as i64;
        let diff = (adc_t >> 3u32) as i64 - 2 * t1;
        proof { lemma_mul_bound(diff as int, cal.dig_t2 as int, 0x2000_0000, 0x8000); }
        let term1 = diff * (cal.dig_t2 as i64);
        if term1 < i32::MIN as i64 || term1 > i32::MAX as i64 {
            return false;
        }
        let coarse = (adc_t >> 4u32) as i64 - t1;
        proof { lemma_mul_bound(coarse as int, coarse as int, 0x1000_0000, 0x1000_0000); }
        let square = coarse * coarse;
        if square < i32::MIN as i64 || square > i32::MAX as i64 {
            return false;
        }
        let sq = square as i32;
        proof {
            lemma_i32_shr(sq);
            lemma_mul_bound((sq >> 12u32) as int, cal.dig_t3 as int, 0x80000, 0x8000);
        }
        let term2 = ((sq >> 12u32) as i64) * (cal.dig_t3 as i64);
        term2 >= i32::MIN as i64 && term2 <= i32::MAX as i64
    }
}


// ---------------------------------------------------------------------------
// Pressure
// ---------------------------------------------------------------------------

/// The intermediate values of the 64-bit pressure formula of the datasheet,
/// named after the variables of the formula and the step that computes them.
pub ghost struct PressureTerms {
    /// `var1 = t_fine - 128000`
    pub v1: int,
    /// `var1 * var1`
    pub v1_sq: int,
    /// `var1 * var1 * P6`
    pub a: int,
    /// `var1 * P5`
    pub b: int,
    /// `var2 = var1*var1*P6 + ((var1*P5) << 17)`
    pub s1: int,
    /// `var2 += P4 << 35`
    pub s2: int,
    /// `var1 * var1 * P3`
    pub c1: int,
    /// `var1 * P2`
    pub c2: int,
    /// `(c1 >> 8) + (c2 << 12)`
    pub c3: int,
    /// `(1 << 47) + c3`
    pub d1: int,
    /// `d1 * P1`
    pub d2: int,
    /// The divisor `var1 = d2 >> 33`.
    pub divisor: int,
    /// `p = 1048576 - adc_P`
    pub p0: int,
    /// `(p << 31) - var2`
    pub e2: int,
    /// `e2 * 3125`
    pub e3: int,
    /// `p = e3 / var1`, rounded toward zero.
    pub q: int,
    /// `P9 * (p >> 13)`
    pub f1: int,
    /// `P9 * (p >> 13) * (p >> 13)`
    pub f2: int,
    /// `P8 * p`
    pub h1: int,
    /// `p + var1`, with `var1 = f2 >> 25`
    pub k1: int,
    /// `p + var1 + var2`, with `var2 = h1 >> 19`
    pub k2: int,
    /// `(k2 >> 8) + (P7 << 4)`
    pub result: int,
}

/// Integer division rounded toward zero, as Rust's `/` on signed integers.
pub open spec fn div_toward_zero(a: int, b: int) -> int {
    let q: int = (if a < 0 { -a } else { a }) / (if b < 0 { -b } else { b });
    if (a < 0) != (b < 0) { -q } else { q }
}

/// The intermediate values of the pressure formula for these inputs.
pub open spec fn pressure_terms(adc_p: int, t_fine: int, cal: BME280Calibration) -> PressureTerms {
    let v1 = t_fine - 128000;
    let v1_sq = v1 * v1;
    let a = v1_sq * cal.dig_p6;
    let b = v1 * cal.dig_p5;
    let s1 = a + wrap_i64(b * 131072);
    let s2 = s1 + wrap_i64(cal.dig_p4 * 34359738368);
    let c1 = v1_sq * cal.dig_p3;
    let c2 = v1 * cal.dig_p2;
    let c3 = c1 / 256 + wrap_i64(c2 * 4096);
    let d1 = 140737488355328 + c3;
    let d2 = d1 * cal.dig_p1;
    let divisor = d2 / 8589934592;
    let p0 = 1048576 - adc_p;
    let e2 = wrap_i64(p0 * 2147483648) - s2;
    let e3 = e2 * 3125;
    let q = div_toward_zero(e3, divisor);
    let f1 = cal.dig_p9 * (q / 8192);
    let f2 = f1 * (q / 8192);
    let h1 = cal.dig_p8 * q;
    let k1 = q + f2 / 33554432;
    let k2 = k1 + h1 / 524288;
    let result = k2 / 256 + wrap_i64(cal.dig_p7 * 16);
    PressureTerms {
        v1, v1_sq, a, b, s1, s2, c1, c2, c3, d1, d2, divisor, p0, e2, e3, q, f1, f2, h1, k1, k2,
        result,
    }
}

/// The pressure formula computes without leaving the range of `i64` (and,
/// once the divisor is known to be non-zero, without dividing `i64::MIN` by
/// -1).
pub open spec fn pressure_fits(adc_p: int, t_fine: int, cal: BME280Calibration) -> bool {
    let t = pressure_terms(adc_p, t_fine, cal);
    &&& fits_i64(t.v1_sq)
    &&& fits_i64(t.a)
    &&& fits_i64(t.b)
    &&& fits_i64(t.s1)
    &&& fits_i64(t.s2)
    &&& fits_i64(t.c1)
    &&& fits_i64(t.c2)
    &&& fits_i64(t.c3)
    &&& fits_i64(t.d1)
    &&& fits_i64(t.d2)
    &&& t.divisor != 0 ==> {
        &&& fits_i64(t.e2)
        &&& fits_i64(t.e3)
        &&& !(t.e3 == i64::MIN && t.divisor == -1)
        &&& fits_i64(t.f1)
        &&& fits_i64(t.f2)
        &&& fits_i64(t.h1)
        &&& fits_i64(t.k1)
        &&& fits_i64(t.k2)
        &&& fits_i64(t.result)
    }
}

/// The compensated pressure in Pa as a Q24.8 fixed-point number (24674867
/// is 96386.2 Pa); 0 where the formula's divisor is zero.
pub open spec fn pressure_spec(adc_p: int, t_fine: int, cal: BME280Calibration) -> int {
    let t = pressure_terms(adc_p, t_fine, cal);
    if t.divisor == 0 { 0 } else { t.result }
}

impl BME280 {
    /// Compensated pressure in Pa, Q24.8 fixed point (divide by 256 for Pa);
    /// 0 where the formula would divide by zero.
    pub fn compensate_pressure(adc_p: i32, t_fine: i32, cal: &BME280Calibration) -> (p: i64)
        requires
            pressure_fits(adc_p as int, t_fine as int, *cal),
        ensures
            p as int == pressure_spec(adc_p as int, t_fine as int, *cal),
    {
        let ghost t = pressure_terms(adc_p as int, t_fine as int, *cal);
        let v1: i64 = (t_fine as i64) - 128000;
        let v1_sq = v1 * v1;
        let a = v1_sq * (cal.dig_p6 as i64);
        let b = v1 * (cal.dig_p5 as i64);
        proof {
            lemma_i64_shl(b);
            lemma_i64_shl(cal.dig_p4 as i64);
        }
        let s1 = a + (b << 17u32);
        let s2 = s1 + ((cal.dig_p4 as i64) << 35u32);
        let c1 = v1_sq * (cal.dig_p3 as i64);
        let c2 = v1 * (cal.dig_p2 as i64);
        proof {
            lemma_i64_shr(c1);
            lemma_i64_shl(c2);
        }
        let c3 = (c1 >> 8u32) + (c2 << 12u32);
        let d1 = 0x8000_0000_0000i64 + c3;
        let d2 = d1 * (cal.dig_p1 as i64);
        proof { lemma_i64_shr(d2); }
        let divisor = d2 >> 33u32;
        assert(divisor as int == t.divisor);
        if divisor == 0 {
            return 0;
        }
        let p0: i64 = 1048576 - (adc_p as i64);
        proof { lemma_i64_shl(p0); }
        let e2 = (p0 << 31u32) - s2;
        let e3 = e2 * 3125;
        let q = match e3.checked_div(divisor) {
            Some(q) => q,
            None => {
                assert(false);
                0
            },
        };
        assert(q as int == t.q);
        proof { lemma_i64_shr(q); }
        let f1 = (cal.dig_p9 as i64) * (q >> 13u32);
        let f2 = f1 * (q >> 13u32);
        let h1 = (cal.dig_p8 as i64) * q;
        proof {
            lemma_i64_shr(f2);
            lemma_i64_shr(h1);
            lemma_i64_shl(cal.dig_p7 as i64);
        }
        let k1 = q + (f2 >> 25u32);
        let k2 = k1 + (h1 >> 19u32);
        proof { lemma_i64_shr(k2); }
        (k2 >> 8u32) + ((cal.dig_p7 as i64) << 4u32)
    }
}


/// `x` as an `i64`, if it is one.
fn narrow_i64(x: i128) -> (r: Option<i64>)
    ensures
        match r {
            Some(v) => fits_i64(x as int) && v as int == x as int,
            None => !fits_i64(x as int),
        },
{
    if x < i64::MIN as i128 || x > i64::MAX as i128 {
        None
    } else {
        Some(x as i64)
    }
}

/// The product of two `i64` values, computed without overflow in `i128`.
fn wide_mul(x: i64, y: i64) -> (r: i128)
    ensures
        r as int == x as int * y as int,
{
    proof {
        lemma_mul_bound(x as int, y as int, 0x8000_0000_0000_0000, 0x8000_0000_0000_0000);
    }
    (x as i128) * (y as i128)
}

impl BME280 {
    /// Decides `pressure_fits`: whether the pressure formula stays in the
    /// range of `i64` for these inputs.
    pub fn pressure_in_range(adc_p: i32, t_fine: i32, cal: &BME280Calibration) -> (ok: bool)
        ensures
            ok == pressure_fits(adc_p as int, t_fine as int, *cal),
    {
        let ghost t = pressure_terms(adc_p as int, t_fine as int, *cal);
        let v1: i64 = (t_fine as i64) - 128000;
        let v1_sq = match narrow_i64(wide_mul(v1, v1)) { Some(v) => v, None => return false };
        let a = match narrow_i64(wide_mul(v1_sq, cal.dig_p6 as i64)) { Some(v) => v, None => return false };
        let b = match narrow_i64(wide_mul(v1, cal.dig_p5 as i64)) { Some(v) => v, None => return false };
        proof {
            lemma_i64_shl(b);
            lemma_i64_shl(cal.dig_p4 as i64);
        }
        let s1 = match narrow_i64(a as i128 + (b << 17u32) as i128) { Some(v) => v, None => return false };
        let s2 = match narrow_i64(s1 as i128 + ((cal.dig_p4 as i64) << 35u32) as i128) {
            Some(v) => v,
            None => return false,
        };
        let c1 = match narrow_i64(wide_mul(v1_sq, cal.dig_p3 as i64)) { Some(v) => v, None => return false };
        let c2 = match narrow_i64(wide_mul(v1, cal.dig_p2 as i64)) { Some(v) => v, None => return false };
        proof {
            lemma_i64_shr(c1);
            lemma_i64_shl(c2);
        }
        let c3 = match narrow_i64((c1 >> 8u32) as i128 + (c2 << 12u32) as i128) {
            Some(v) => v,
            None => return false,
        };
        let d1 = match narrow_i64(0x8000_0000_0000i128 + c3 as i128) { Some(v) => v, None => return false };
        let d2 = match narrow_i64(wide_mul(d1, cal.dig_p1 as i64)) { Some(v) => v, None => return false };
        proof { lemma_i64_shr(d2); }
        let divisor = d2 >> 33u32;
        assert(divisor as int == t.divisor);
        if divisor == 0 {
            return true;
        }
        let p0: i64 = 1048576 - (adc_p as i64);
        proof { lemma_i64_shl(p0); }
        let e2 = match narrow_i64((p0 << 31u32) as i128 - s2 as i128) { Some(v) => v, None => return false };
        let e3 = match narrow_i64(wide_mul(e2, 3125)) { Some(v) => v, None => return false };
        if e3 == i64::MIN && divisor == -1 {
            return false;
        }
        let q = match e3.checked_div(divisor) {
            Some(q) => q,
            None => {
                assert(false);
                0
            },
        };
        assert(q as int == t.q);
        proof { lemma_i64_shr(q); }
        let f1 = match narrow_i64(wide_mul(cal.dig_p9 as i64, q >> 13u32)) { Some(v) => v, None => return false };
        let f2 = match narrow_i64(wide_mul(f1, q >> 13u32)) { Some(v) => v, None => return false };
        let h1 = match narrow_i64(wide_mul(cal.dig_p8 as i64, q)) { Some(v) => v, None => return false };
        proof {
            lemma_i64_shr(f2);
            lemma_i64_shr(h1);
            lemma_i64_shl(cal.dig_p7 as i64);
        }
        let k1 = match narrow_i64(q as i128 + (f2 >> 25u32) as i128) { Some(v) => v, None => return false };
        let k2 = match narrow_i64(k1 as i128 + (h1 >> 19u32) as i128) { Some(v) => v, None => return false };
        proof { lemma_i64_shr(k2); }
        narrow_i64((k2 >> 8u32) as i128 + ((cal.dig_p7 as i64) << 4u32) as i128).is_some()
    }
}


// ---------------------------------------------------------------------------
// Humidity
// ---------------------------------------------------------------------------

/// The intermediate values of the 32-bit humidity formula of the datasheet.
pub ghost struct HumidityTerms {
    /// `v = t_fine - 76800`
    pub v: int,
    /// `(adc_H << 14) - (H4 << 20)`
    pub x3: int,
    /// `H5 * v`
    pub x4: int,
    /// `x3 - x4`
    pub x5: int,
    /// `x5 + 16384`
    pub x6: int,
    /// `v * H6`
    pub y1: int,
    /// `v * H3`
    pub y2: int,
    /// `(y2 >> 11) + 32768`
    pub y3: int,
    /// `(y1 >> 10) * y3`
    pub y4: int,
    /// `(y4 >> 10) + 2097152`
    pub y5: int,
    /// `y5 * H2`
    pub y6: int,
    /// `y6 + 8192`
    pub y7: int,
    /// `v = (x6 >> 15) * (y7 >> 14)`
    pub z: int,
    /// `(z >> 15) * (z >> 15)`
    pub w1: int,
    /// `(w1 >> 7) * H1`
    pub w2: int,
    /// `v = z - (w2 >> 4)`, before clamping to `0..=419430400`.
    pub u: int,
}

/// The intermediate values of the humidity formula for these inputs.
pub open spec fn humidity_terms(adc_h: int, t_fine: int, cal: BME280Calibration) -> HumidityTerms {
    let v = t_fine - 76800;
    let x3 = wrap_i32(adc_h * 16384) - wrap_i32(cal.dig_h4 * 1048576);
    let x4 = cal.dig_h5 * v;
    let x5 = x3 - x4;
    let x6 = x5 + 16384;
    let y1 = v * cal.dig_h6;
    let y2 = v * cal.dig_h3;
    let y3 = y2 / 2048 + 32768;
    let y4 = (y1 / 1024) * y3;
    let y5 = y4 / 1024 + 2097152;
    let y6 = y5 * cal.dig_h2;
    let y7 = y6 + 8192;
    let z = (x6 / 32768) * (y7 / 16384);
    let w1 = (z / 32768) * (z / 32768);
    let w2 = (w1 / 128) * cal.dig_h1;
    let u = z - w2 / 16;
    HumidityTerms { v, x3, x4, x5, x6, y1, y2, y3, y4, y5, y6, y7, z, w1, w2, u }
}

/// The humidity formula computes without leaving the range of `i32`.
pub open spec fn humidity_fits(adc_h: int, t_fine: int, cal: BME280Calibration) -> bool {
    let t = humidity_terms(adc_h, t_fine, cal);
    &&& fits_i32(t.v)
    &&& fits_i32(t.x3)
    &&& fits_i32(t.x4)
    &&& fits_i32(t.x5)
    &&& fits_i32(t.x6)
    &&& fits_i32(t.y1)
    &&& fits_i32(t.y2)
    &&& fits_i32(t.y3)
    &&& fits_i32(t.y4)
    &&& fits_i32(t.y5)
    &&& fits_i32(t.y6)
    &&& fits_i32(t.y7)
    &&& fits_i32(t.z)
    &&& fits_i32(t.w1)
    &&& fits_i32(t.w2)
    &&& fits_i32(t.u)
}

/// The largest humidity value before the final shift: 100 %RH in Q22.10,
/// shifted left by 12.
pub const HUMIDITY_CEILING: i32 = 419430400;

/// The compensated relative humidity in %RH as a Q22.10 fixed-point number
/// (47445 is 46.333 %RH): the formula's value clamped to `0..=419430400`,
/// shifted right by 12.
pub open spec fn humidity_spec(adc_h: int, t_fine: int, cal: BME280Calibration) -> int {
    let u = humidity_terms(adc_h, t_fine, cal).u;
    let clamped = if u < 0 { 0 } else if u > HUMIDITY_CEILING { HUMIDITY_CEILING as int } else { u };
    clamped / 4096
}

/// `x` as an `i32`, if it is one.
fn narrow_i32(x: i64) -> (r: Option<i32>)
    ensures
        match r {
            Some(v) => fits_i32(x as int) && v as int == x as int,
            None => !fits_i32(x as int),
        },
{
    if x < i32::MIN as i64 || x > i32::MAX as i64 {
        None
    } else {
        Some(x as i32)
    }
}

/// The product of two `i32` values, computed without overflow in `i64`.
fn wide_mul_i32(x: i32, y: i32) -> (r: i64)
    ensures
        r as int == x as int * y as int,
{
    proof {
        lemma_mul_bound(x as int, y as int, 0x8000_0000, 0x8000_0000);
    }
    (x as i64) * (y as i64)
}

impl BME280 {
    /// Compensated relative humidity in %RH, Q22.10 fixed point (divide by
    /// 1024 for %RH); always within 0..=100 %RH.
    pub fn compensate_humidity(adc_h: i32, t_fine: i32, cal: &BME280Calibration) -> (h: i32)
        requires
            humidity_fits(adc_h as int, t_fine as int, *cal),
        ensures
            h as int == humidity_spec(adc_h as int, t_fine as int, *cal),
            0 <= h <= 102400,
            ({
                let u = humidity_terms(adc_h as int, t_fine as int, *cal).u;
                &&& 0 <= u <= 419430400 ==> 4096 * h <= u < 4096 * h + 4096
                &&& u < 0 ==> h == 0
                &&& u >= 419430400 ==> h == 102400
            }),
    {
        let ghost t = humidity_terms(adc_h as int, t_fine as int, *cal);
        let v = t_fine - 76800;
        proof {
            lemma_i32_shl(adc_h);
            lemma_i32_shl(cal.dig_h4 as i32);
        }
        let x3 = (adc_h << 14u32) - ((cal.dig_h4 as i32) << 20u32);
        let x6 = (x3 - (cal.dig_h5 as i32) * v) + 16384;
        let y1 = v * (cal.dig_h6 as i32);
        let y2 = v * (cal.dig_h3 as i32);
        proof {
            lemma_i32_shr(y1);
            lemma_i32_shr(y2);
        }
        let y3 = (y2 >> 11u32) + 32768;
        let y4 = (y1 >> 10u32) * y3;
        proof { lemma_i32_shr(y4); }
        let y7 = ((y4 >> 10u32) + 2097152) * (cal.dig_h2 as i32) + 8192;
        proof {
            lemma_i32_shr(x6);
            lemma_i32_shr(y7);
        }
        let z = (x6 >> 15u32) * (y7 >> 14u32);
        proof { lemma_i32_shr(z); }
        let w1 = (z >> 15u32) * (z >> 15u32);
        proof { lemma_i32_shr(w1); }
        let w2 = (w1 >> 7u32) * (cal.dig_h1 as i32);
        proof { lemma_i32_shr(w2); }
        let mut u = z - (w2 >> 4u32);
        assert(u as int == t.u);
        u = if u < 0 { 0 } else { u };
        u = if u > HUMIDITY_CEILING { HUMIDITY_CEILING } else { u };
        proof { lemma_i32_shr(u); }
        u >> 12u32
    }

    /// Decides `humidity_fits`: whether the humidity formula stays in the
    /// range of `i32` for these inputs.
    pub fn humidity_in_range(adc_h: i32, t_fine: i32, cal: &BME280Calibration) -> (ok: bool)
        ensures
            ok == humidity_fits(adc_h as int, t_fine as int, *cal),
    {
        let ghost t = humidity_terms(adc_h as int, t_fine as int, *cal);
        let v = match narrow_i32(t_fine as i64 - 76800) { Some(v) => v, None => return false };
        proof {
            lemma_i32_shl(adc_h);
            lemma_i32_shl(cal.dig_h4 as i32);
        }
        let x3 = match narrow_i32((adc_h << 14u32) as i64 - ((cal.dig_h4 as i32) << 20u32) as i64) {
            Some(v) => v,
            None => return false,
        };
        let x4 = match narrow_i32(wide_mul_i32(cal.dig_h5 as i32, v)) { Some(v) => v, None => return false };
        let x5 = match narrow_i32(x3 as i64 - x4 as i64) { Some(v) => v, None => return false };
        let x6 = match narrow_i32(x5 as i64 + 16384) { Some(v) => v, None => return false };
        let y1 = match narrow_i32(wide_mul_i32(v, cal.dig_h6 as i32)) { Some(v) => v, None => return false };
        let y2 = match narrow_i32(wide_mul_i32(v, cal.dig_h3 as i32)) { Some(v) => v, None => return false };
        proof {
            lemma_i32_shr(y1);
            lemma_i32_shr(y2);
        }
        let y3 = match narrow_i32((y2 >> 11u32) as i64 + 32768) { Some(v) => v, None => return false };
        let y4 = match narrow_i32(wide_mul_i32(y1 >> 10u32, y3)) { Some(v) => v, None => return false };
        proof { lemma_i32_shr(y4); }
        let y5 = match narrow_i32((y4 >> 10u32) as i64 + 2097152) { Some(v) => v, None => return false };
        let y6 = match narrow_i32(wide_mul_i32(y5, cal.dig_h2 as i32)) { Some(v) => v, None => return false };
        let y7 = match narrow_i32(y6 as i64 + 8192) { Some(v) => v, None => return false };
        proof {
            lemma_i32_shr(x6);
            lemma_i32_shr(y7);
        }
        let z = match narrow_i32(wide_mul_i32(x6 >> 15u32, y7 >> 14u32)) { Some(v) => v, None => return false };
        proof { lemma_i32_shr(z); }
        let w1 = match narrow_i32(wide_mul_i32(z >> 15u32, z >> 15u32)) { Some(v) => v, None => return false };
        proof { lemma_i32_shr(w1); }
        let w2 = match narrow_i32(wide_mul_i32(w1 >> 7u32, cal.dig_h1 as i32)) { Some(v) => v, None => return false };
        proof { lemma_i32_shr(w2); }
        narrow_i32(z as i64 - (w2 >> 4u32) as i64).is_some()
    }
}


// ---------------------------------------------------------------------------
// A whole measurement
// ---------------------------------------------------------------------------

/// One compensated measurement in the formulas' fixed-point units.
#[derive(Debug, Clone, Copy, PartialEq, Eq, Structural)]
pub struct ClimateMeasurement {
    /// Temperature in hundredths of a degree Celsius.
    pub centi_celsius: i32,
    /// Pressure in Pa, Q24.8 fixed point.
    pub pressure_q24_8: i64,
    /// Relative humidity in %RH, Q22.10 fixed point.
    pub humidity_q22_10: i32,
}

/// The three formulas stay in range for the ADC values of this burst.
pub open spec fn measurement_fits(cal: BME280Calibration, burst: Seq<u8>) -> bool {
    let raw = raw_from_burst_spec(burst);
    let t_fine = t_fine_spec(raw.temperature as int, cal);
    &&& temperature_fits(raw.temperature as int, cal)
    &&& pressure_fits(raw.pressure as int, t_fine, cal)
    &&& humidity_fits(raw.humidity as int, t_fine, cal)
}

/// The compensated measurement of a burst: temperature, then pressure and
/// humidity from the temperature's `t_fine`.
pub open spec fn measurement_spec(cal: BME280Calibration, burst: Seq<u8>) -> ClimateMeasurement {
    let raw = raw_from_burst_spec(burst);
    let t_fine = t_fine_spec(raw.temperature as int, cal);
    ClimateMeasurement {
        centi_celsius: centi_celsius(t_fine) as i32,
        pressure_q24_8: pressure_spec(raw.pressure as int, t_fine, cal) as i64,
        humidity_q22_10: humidity_spec(raw.humidity as int, t_fine, cal) as i32,
    }
}

impl BME280 {
    /// Compensates the burst read from register 0xF7 after a forced
    /// measurement. `None` exactly where one of the formulas would leave the
    /// range of its integer type.
    pub fn measure(&self, burst: &[u8; 8]) -> (m: Option<ClimateMeasurement>)
        ensures
            m is Some <==> measurement_fits(self.calibration, burst@),
            m matches Some(v) ==> v == measurement_spec(self.calibration, burst@),
            m matches Some(v) ==> ({
                let raw = raw_from_burst_spec(burst@);
                let t_fine = t_fine_spec(raw.temperature as int, self.calibration);
                &&& v.centi_celsius as int == centi_celsius(t_fine)
                &&& v.pressure_q24_8 as int == pressure_spec(raw.pressure as int, t_fine, self.calibration)
                &&& v.humidity_q22_10 as int == humidity_spec(raw.humidity as int, t_fine, self.calibration)
            }),
            m matches Some(v) ==> 0 <= v.humidity_q22_10 <= 102400,
    {
        let raw = BME280::raw_from_burst(burst);
        let cal = &self.calibration;
        let adc_t = raw.temperature as i32;
        let adc_p = raw.pressure as i32;
        let adc_h = raw.humidity as i32;
        if !BME280::temperature_in_range(adc_t, cal) {
            return None;
        }
        let (centi, t_fine) = BME280::compensate_temperature(adc_t, cal);
        if !BME280::pressure_in_range(adc_p, t_fine, cal) || !BME280::humidity_in_range(adc_h, t_fine, cal) {
            return None;
        }
        let pressure = BME280::compensate_pressure(adc_p, t_fine, cal);
        let humidity = BME280::compensate_humidity(adc_h, t_fine, cal);
        Some(ClimateMeasurement { centi_celsius: centi, pressure_q24_8: pressure, humidity_q22_10: humidity })
    }
}


// ---------------------------------------------------------------------------
// Laws of the compensation formulas
// ---------------------------------------------------------------------------

/// The temperature is `5 * t_fine + 128` divided by 256 and rounded toward
/// negative infinity, for every sign of `t_fine`.
pub proof fn lemma_centi_celsius_floor(t_fine: int)
    ensures
        256 * centi_celsius(t_fine) <= 5 * t_fine + 128 < 256 * centi_celsius(t_fine) + 256,
{
}

/// The temperature never decreases as `t_fine` grows, and it is below zero
/// exactly where `t_fine` is at most -26.
pub proof fn lemma_centi_celsius_monotone(t1: int, t2: int)
    ensures
        t1 <= t2 ==> centi_celsius(t1) <= centi_celsius(t2),
        centi_celsius(t1) < 0 <==> t1 <= -26,
{
    lemma_centi_celsius_floor(t1);
    lemma_centi_celsius_floor(t2);
}

/// Clamping only cuts the formula's value `u` at 0 and at 100 %RH: inside
/// that range the result is `u` divided by 4096 (rounded down), and the
/// result never decreases as `u` grows.
pub proof fn lemma_humidity_clamp(adc_h: int, t_fine: int, cal: BME280Calibration, adc_h2: int, t_fine2: int)
    ensures
        ({
            let u = humidity_terms(adc_h, t_fine, cal).u;
            let h = humidity_spec(adc_h, t_fine, cal);
            &&& 0 <= u <= 419430400 ==> 4096 * h <= u < 4096 * h + 4096
            &&& u < 0 ==> h == 0
            &&& u >= 419430400 ==> h == 102400
            &&& 0 <= h <= 102400
        }),
        humidity_terms(adc_h, t_fine, cal).u <= humidity_terms(adc_h2, t_fine2, cal).u
            ==> humidity_spec(adc_h, t_fine, cal) <= humidity_spec(adc_h2, t_fine2, cal),
{
}

/// The pressure formula depends on the temperature through the signed
/// `v1 = t_fine - 128000`: the terms in `v1 * v1` are the same for
/// temperatures mirrored around `t_fine = 128000` (25 °C), and the terms
/// linear in `v1` (`v1 * P5`, `v1 * P2`) change sign.
pub proof fn lemma_pressure_terms_mirror(adc_p: int, t1: int, t2: int, cal: BME280Calibration)
    requires
        t1 - 128000 == 128000 - t2,
    ensures
        pressure_terms(adc_p, t1, cal).v1 == -pressure_terms(adc_p, t2, cal).v1,
        pressure_terms(adc_p, t1, cal).v1_sq == pressure_terms(adc_p, t2, cal).v1_sq,
        pressure_terms(adc_p, t1, cal).a == pressure_terms(adc_p, t2, cal).a,
        pressure_terms(adc_p, t1, cal).c1 == pressure_terms(adc_p, t2, cal).c1,
        pressure_terms(adc_p, t1, cal).b == -pressure_terms(adc_p, t2, cal).b,
        pressure_terms(adc_p, t1, cal).c2 == -pressure_terms(adc_p, t2, cal).c2,
{
    let v = t1 - 128000;
    assert((-v) * (-v) == v * v) by (nonlinear_arith);
    assert((-v) * cal.dig_p5 == -(v * cal.dig_p5)) by (nonlinear_arith);
    assert((-v) * cal.dig_p2 == -(v * cal.dig_p2)) by (nonlinear_arith);
}

/// One step of `t_fine` moves the linear terms of the pressure formula by
/// exactly P5 and P2, and they vanish at `t_fine = 128000`.
pub proof fn lemma_pressure_terms_linear(adc_p: int, t: int, cal: BME280Calibration)
    ensures
        pressure_terms(adc_p, t + 1, cal).b == pressure_terms(adc_p, t, cal).b + cal.dig_p5,
        pressure_terms(adc_p, t + 1, cal).c2 == pressure_terms(adc_p, t, cal).c2 + cal.dig_p2,
        pressure_terms(adc_p, 128000, cal).b == 0,
        pressure_terms(adc_p, 128000, cal).c2 == 0,
        pressure_terms(adc_p, 128000, cal).v1_sq == 0,
{
    let v = t - 128000;
    assert((v + 1) * cal.dig_p5 == v * cal.dig_p5 + cal.dig_p5) by (nonlinear_arith);
    assert((v + 1) * cal.dig_p2 == v * cal.dig_p2 + cal.dig_p2) by (nonlinear_arith);
}

/// The decoded calibration: every bank-1 word is the little-endian word of
/// its two registers, low byte first, at the datasheet's offsets.
pub proof fn lemma_calibration_words(b1: Seq<u8>, b2: Seq<u8>)
    requires
        b1.len() == 26,
        b2.len() == 7,
    ensures
        ({
            let c = calibration_from_banks(b1, b2);
            &&& c.dig_t1 as int == b1[0] + 256 * b1[1]
            &&& c.dig_p1 as int == b1[6] + 256 * b1[7]
            &&& c.dig_t2 as int % 65536 == b1[2] + 256 * b1[3]
            &&& c.dig_t3 as int % 65536 == b1[4] + 256 * b1[5]
            &&& c.dig_p2 as int % 65536 == b1[8] + 256 * b1[9]
            &&& c.dig_p3 as int % 65536 == b1[10] + 256 * b1[11]
            &&& c.dig_p4 as int % 65536 == b1[12] + 256 * b1[13]
            &&& c.dig_p5 as int % 65536 == b1[14] + 256 * b1[15]
            &&& c.dig_p6 as int % 65536 == b1[16] + 256 * b1[17]
            &&& c.dig_p7 as int % 65536 == b1[18] + 256 * b1[19]
            &&& c.dig_p8 as int % 65536 == b1[20] + 256 * b1[21]
            &&& c.dig_p9 as int % 65536 == b1[22] + 256 * b1[23]
            &&& c.dig_h2 as int % 65536 == b2[0] + 256 * b2[1]
            &&& c.dig_h1 == b1[25]
            &&& c.dig_h3 == b2[2]
        }),
{
}


/// The pressure formula's division rounds toward zero: the quotient times
/// the divisor lies between zero and the dividend, less than one divisor
/// away from it.
pub proof fn lemma_pressure_quotient(adc_p: int, t_fine: int, cal: BME280Calibration)
    ensures
        ({
            let t = pressure_terms(adc_p, t_fine, cal);
            let prod = t.q * t.divisor;
            t.divisor != 0 ==> {
                &&& (t.e3 >= 0 ==> 0 <= prod <= t.e3 && t.e3 - prod < (if t.divisor < 0 { -t.divisor } else { t.divisor }))
                &&& (t.e3 < 0 ==> t.e3 <= prod <= 0 && prod - t.e3 < (if t.divisor < 0 { -t.divisor } else { t.divisor }))
            }
        }),
{
    let t = pressure_terms(adc_p, t_fine, cal);
    let a = t.e3;
    let b = t.divisor;
    if b != 0 {
        let aa: int = if a < 0 { -a } else { a };
        let bb: int = if b < 0 { -b } else { b };
        let q0 = aa / bb;
        assert(0 <= aa - q0 * bb < bb) by (nonlinear_arith)
            requires bb > 0, aa >= 0, q0 == aa / bb;
        assert(q0 >= 0) by (nonlinear_arith)
            requires bb > 0, aa >= 0, q0 == aa / bb;
        assert(t.q == if (a < 0) != (b < 0) { -q0 } else { q0 });
        if b > 0 {
            assert(t.q * b == (if a < 0 { -(q0 * bb) } else { q0 * bb })) by (nonlinear_arith)
                requires b > 0, bb == b, t.q == (if (a < 0) != (b < 0) { -q0 } else { q0 });
        } else {
            assert(t.q * b == (if a < 0 { -(q0 * bb) } else { q0 * bb })) by (nonlinear_arith)
                requires b < 0, bb == -b, t.q == (if (a < 0) != (b < 0) { -q0 } else { q0 });
        }
    }
}

/// The second temperature term is a square scaled by T3: it has the sign of
/// T3, and it is the same for raw values mirrored around `16 * T1`.
pub proof fn lemma_temp_term2_square(adc1: int, adc2: int, cal: BME280Calibration)
    ensures
        cal.dig_t3 >= 0 ==> temp_term2(adc1, cal) >= 0,
        cal.dig_t3 <= 0 ==> temp_term2(adc1, cal) <= 0,
        adc1 / 16 - cal.dig_t1 == cal.dig_t1 - adc2 / 16 ==> temp_term2(adc1, cal) == temp_term2(adc2, cal),
{
    let d = adc1 / 16 - cal.dig_t1 as int;
    assert(d * d >= 0) by (nonlinear_arith);
    let s = temp_square(adc1, cal) / 4096;
    assert(s >= 0);
    assert(cal.dig_t3 >= 0 ==> s * cal.dig_t3 >= 0) by (nonlinear_arith) requires s >= 0;
    assert(cal.dig_t3 <= 0 ==> s * cal.dig_t3 <= 0) by (nonlinear_arith) requires s >= 0;
    assert((-d) * (-d) == d * d) by (nonlinear_arith);
}

/// The first temperature term grows with the raw value when T2 is positive:
/// with T3 = 0 (no square term), `t_fine` never decreases as `adc_T` grows.
pub proof fn lemma_t_fine_monotone_linear(adc1: int, adc2: int, cal: BME280Calibration)
    requires
        adc1 <= adc2,
        cal.dig_t2 > 0,
        cal.dig_t3 == 0,
    ensures
        t_fine_spec(adc1, cal) <= t_fine_spec(adc2, cal),
{
    let x1 = adc1 / 8 - 2 * cal.dig_t1;
    let x2 = adc2 / 8 - 2 * cal.dig_t1;
    assert(adc1 / 8 <= adc2 / 8) by (nonlinear_arith) requires adc1 <= adc2;
    assert(x1 * cal.dig_t2 <= x2 * cal.dig_t2) by (nonlinear_arith)
        requires x1 <= x2, cal.dig_t2 > 0;
    let p1 = temp_term1(adc1, cal);
    let p2 = temp_term1(adc2, cal);
    assert(p1 / 2048 <= p2 / 2048) by (nonlinear_arith) requires p1 <= p2;
    assert(temp_term2(adc1, cal) == 0);
    assert(temp_term2(adc2, cal) == 0);
}

} // verus!
