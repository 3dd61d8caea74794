[package]
name = "earperk_osc"
version = "1.0.0"
edition = "2021"
publish = false

[dependencies]
rosc = "*"
rust-ini = "*"
log = "*"
fern = { version = "*", features = ["colored"] }
chrono = "*"
tokio = { version = "*", features = ["full"] }
tokio-util = "*"
wasapi = "*"
winapi = { version = "*", features = ["mmreg"] }
