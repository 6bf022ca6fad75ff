[package]
name = "ublox"
version = "0.1.0"
edition = "2021"
publish = false

[dependencies]
rtcm-rs = "=0.11.0"
chrono = { version = "=0.4.45", default-features = false, features = ["clock", "std"] }
num-traits = { version = "=0.2.19", default-features = false }
