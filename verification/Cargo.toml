[package]
name = "vicmon"
version = "0.1.0"
edition = "2021"
publish = false

[dependencies]
hex = "=0.4.3"
victron_ble = { version = "=1.1.0", default-features = false }
log = "=0.4.34"
anyhow = "=1.0.104"
