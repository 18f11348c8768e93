[package]
name = "nixie_clock"
version = "0.1.0"
edition = "2021"
publish = false

[dependencies]
bit-vec = "*"
rand = "0.8"
chrono = "0.4"
rppal = "*"
spin_sleep = "*"
tokio = { version = "1", features = ["rt-multi-thread", "signal", "macros"] }
embedded-hal = "0.2"
one-wire-bus = "*"
ds18b20 = "*"
