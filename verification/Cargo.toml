[package]
name = "avr_async"
version = "0.1.0"
edition = "2021"
publish = false

[dependencies]
avr-device = { version = "0.7", features = ["atmega328p"] }
either = { version = "=1.19.0", default-features = false }
heapless = "=0.7.17"
num-traits = { version = "=0.2.19", default-features = false }
pin-utils = "=0.1.1"
