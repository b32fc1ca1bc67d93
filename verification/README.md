# wetterstation

Firmware of a balcony weather station (ESP32-C6, embassy): a BME280 climate
sensor and a TSL2591 light sensor on I2C, a battery monitor on the ADC, and an
MQTT client that publishes the readings over WiFi.

* `src/` is the verified library (Verus):
  * `sensors/bme280.rs` decodes the calibration banks and measurement bursts
    and implements the datasheet's fixed-point compensation formulas for
    temperature, pressure and humidity, with exact contracts and checks that
    decide when a formula would overflow;
  * `sensors/tsl2591.rs`, `sensors/bh1750.rs` hold the light sensors'
    commands and data decoding;
  * `network.rs` builds the network stack's seed and static IPv4
    configuration and decides the steps of the WiFi connection loop;
  * `mqtt.rs` maps readings to topics and decides the steps of the broker
    session loop.
* `app/` is the firmware around it: peripherals, I2C and ADC transfers,
  timers, the radio, TCP and MQTT I/O, and the floating-point conversions.
* `tests/` exercises the library with concrete values.
