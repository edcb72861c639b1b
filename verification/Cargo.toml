[package]
name = "piscine"
version = "0.1.0"
edition = "2021"
publish = false

[dependencies]
anyhow = "1"
chrono = { version = "0.4", default-features = false, features = ["std"] }
ds18b20 = "*"
embedded-graphics = "0.8"
embedded-hal = "0.2"
embedded-hal-bus = "*"
embedded-svc = "*"
esp-idf-svc = "*"
heapless = "*"
log = "0.4"
nmea0183 = "*"
one-wire-bus = "*"
parking_lot = "0.12"
ssd1306 = "*"
