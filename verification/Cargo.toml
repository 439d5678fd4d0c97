[package]
name = "pmtu"
version = "0.1.0"
edition = "2021"
publish = false

[dependencies]
async-std = "*"
parking_lot = "*"
socket2 = "*"

[dev-dependencies]
pnet_packet = "*"
