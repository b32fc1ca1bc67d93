use wetterstation::sensors::bme280::{
    BME280Builder, BME280Calibration, ClimateMeasurement, RawMeasurement, BME280,
    BME280_HUM_OVERSAMPLE_ONE, BME280_P_FILTER_FOUR, BME280_SLEEP_OVERSAMPLE_ONE,
};

fn example_calibration() -> BME280Calibration {
    BME280Calibration {
        dig_t1: 27504, dig_t2: 26435, dig_t3: -1000,
        dig_p1: 36477, dig_p2: -10685, dig_p3: 3024, dig_p4: 2855, dig_p5: 140,
        dig_p6: -7, dig_p7: 15500, dig_p8: -14600, dig_p9: 6000,
        dig_h1: 75, dig_h2: 362, dig_h3: 0, dig_h4: 313, dig_h5: 50, dig_h6: 30,
    }
}

#[test]
fn init_commands_are_the_start_up_sequence() {
    let cmds = BME280Builder::init_commands();
    assert_eq!(cmds, [BME280_HUM_OVERSAMPLE_ONE, BME280_P_FILTER_FOUR, BME280_SLEEP_OVERSAMPLE_ONE]);
    assert_eq!(cmds, [[0xF2, 0x01], [0xF5, 0x08], [0xF4, 0x24]]);
}

#[test]
fn calibration_is_decoded_from_both_banks() {
    let mut bank1 = [0u8; 26];
    // T1 = 27504 = 0x6B70, T2 = 26435 = 0x6743, T3 = -1000 = 0xFC18
    bank1[0] = 0x70; bank1[1] = 0x6B;
    bank1[2] = 0x43; bank1[3] = 0x67;
    bank1[4] = 0x18; bank1[5] = 0xFC;
    // P1 = 36477 = 0x8E7D, P2 = -10685 = 0xD643, P9 = 6000 = 0x1770
    bank1[6] = 0x7D; bank1[7] = 0x8E;
    bank1[8] = 0x43; bank1[9] = 0xD6;
    bank1[22] = 0x70; bank1[23] = 0x17;
    bank1[24] = 0xEE; // unused register 0xA0
    bank1[25] = 75;
    // H2 = 362 = 0x016A, H3 = 0, E4 = 0x13, E5 = 0x29, E6 = 0x03, H6 = 0xE2 (-30)
    let bank2 = [0x6A, 0x01, 0x00, 0x13, 0x29, 0x03, 0xE2];
    let cal = BME280Calibration::from_banks(&bank1, &bank2);
    assert_eq!(cal.dig_t1, 27504);
    assert_eq!(cal.dig_t2, 26435);
    assert_eq!(cal.dig_t3, -1000);
    assert_eq!(cal.dig_p1, 36477);
    assert_eq!(cal.dig_p2, -10685);
    assert_eq!(cal.dig_p3, 0);
    assert_eq!(cal.dig_p9, 6000);
    assert_eq!(cal.dig_h1, 75);
    assert_eq!(cal.dig_h2, 362);
    assert_eq!(cal.dig_h3, 0);
    // H4 = 0x13 << 4 | (0x29 & 0x0F) = 0x139, H5 = 0x03 << 4 | 0x29 >> 4 = 0x32
    assert_eq!(cal.dig_h4, 0x139);
    assert_eq!(cal.dig_h5, 0x32);
    assert_eq!(cal.dig_h6, -30);
}

#[test]
fn calibration_humidity_words_are_twelve_bits() {
    let bank1 = [0xFFu8; 26];
    let bank2 = [0xFFu8; 7];
    let cal = BME280Calibration::from_banks(&bank1, &bank2);
    assert_eq!(cal.dig_h4, 0xFFF);
    assert_eq!(cal.dig_h5, 0xFFF);
    assert_eq!(cal.dig_t1, 0xFFFF);
    assert_eq!(cal.dig_t2, -1);
    assert_eq!(cal.dig_h6, -1);
}

#[test]
fn default_calibration_is_zero() {
    let cal = BME280Calibration::default();
    assert_eq!(cal.dig_t1, 0);
    assert_eq!(cal.dig_p9, 0);
    assert_eq!(cal.dig_h6, 0);
}

#[test]
fn burst_is_split_into_adc_values() {
    let raw = BME280::raw_from_burst(&[101, 90, 192, 126, 237, 0, 117, 48]);
    assert_eq!(raw, RawMeasurement { pressure: 415148, temperature: 519888, humidity: 30000 });
    let max = BME280::raw_from_burst(&[0xFF; 8]);
    assert_eq!(max, RawMeasurement { pressure: 0xFFFFF, temperature: 0xFFFFF, humidity: 0xFFFF });
}

#[test]
fn temperature_of_example() {
    let cal = example_calibration();
    assert!(BME280::temperature_in_range(519888, &cal));
    let (centi, t_fine) = BME280::compensate_temperature(519888, &cal);
    assert_eq!(t_fine, 128422);
    assert_eq!(centi, 2508);
}

#[test]
fn temperature_range_check_rejects_overflow() {
    let mut cal = example_calibration();
    cal.dig_t1 = 0;
    cal.dig_t2 = 32767;
    // (1048575 >> 3) * 32767 does not fit in an i32
    assert!(!BME280::temperature_in_range(1048575, &cal));
}

#[test]
fn pressure_of_example() {
    let cal = example_calibration();
    assert!(BME280::pressure_in_range(415148, 128422, &cal));
    let p = BME280::compensate_pressure(415148, 128422, &cal);
    assert_eq!(p, 25767233);
}

#[test]
fn pressure_is_zero_when_divisor_vanishes() {
    let mut cal = example_calibration();
    cal.dig_p1 = 0;
    assert!(BME280::pressure_in_range(415148, 128422, &cal));
    assert_eq!(BME280::compensate_pressure(415148, 128422, &cal), 0);
}

#[test]
fn pressure_range_check_rejects_overflow() {
    let mut cal = example_calibration();
    cal.dig_p6 = i16::MAX;
    // (t_fine - 128000)^2 * P6 exceeds i64 for an extreme t_fine
    assert!(!BME280::pressure_in_range(415148, i32::MIN, &cal));
}

#[test]
fn humidity_of_example() {
    let cal = example_calibration();
    assert!(BME280::humidity_in_range(30000, 128422, &cal));
    assert_eq!(BME280::compensate_humidity(30000, 128422, &cal), 56317);
}

#[test]
fn humidity_is_clamped_to_zero_and_hundred_percent() {
    let cal = example_calibration();
    assert!(BME280::humidity_in_range(0, 128422, &cal));
    assert_eq!(BME280::compensate_humidity(0, 128422, &cal), 0);
    assert!(BME280::humidity_in_range(65535, 128422, &cal));
    assert_eq!(BME280::compensate_humidity(65535, 128422, &cal), 102400);
}

#[test]
fn humidity_range_check_rejects_overflow() {
    let cal = example_calibration();
    // t_fine - 76800 leaves the range of i32
    assert!(!BME280::humidity_in_range(30000, i32::MIN, &cal));
}

#[test]
fn measurement_of_a_burst() {
    let sensor = BME280 { address: 0x76, calibration: example_calibration() };
    let m = sensor.measure(&[101, 90, 192, 126, 237, 0, 117, 48]);
    assert_eq!(
        m,
        Some(ClimateMeasurement { centi_celsius: 2508, pressure_q24_8: 25767233, humidity_q22_10: 56317 })
    );
}

#[test]
fn measurement_refused_where_formula_overflows() {
    let mut cal = example_calibration();
    cal.dig_t1 = 0;
    cal.dig_t2 = 32767;
    let sensor = BME280 { address: 0x76, calibration: cal };
    assert_eq!(sensor.measure(&[0xFF; 8]), None);
}
