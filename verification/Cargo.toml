[package]
name = "wetterstation"
version = "0.1.0"
edition = "2021"
publish = false

[dependencies]
heapless = "=0.8.0"
embassy-executor = "0.9"
embassy-net = { version = "0.7", features = ["tcp", "proto-ipv4", "medium-ethernet"] }
embassy-sync = "=0.7.2"
embassy-time = "=0.5.1"
rust-mqtt = "0.5"
smoltcp = { version = "=0.12.0", default-features = false, features = ["proto-ipv4", "medium-ethernet", "socket-tcp"] }
static_cell = "=2.1.1"
defmt = "1"
defmt-rtt = "1"
esp-hal = { version = "=1.0.0", features = ["esp32c6", "unstable"] }
esp-radio = { version = "0.17", features = ["esp32c6", "wifi", "unstable"] }
esp-rtos = { version = "0.2", features = ["esp32c6", "embassy", "esp-radio"] }
esp-alloc = "0.9"
esp-bootloader-esp-idf = { version = "0.4", features = ["esp32c6"] }
