[package]
name = "relay_core"
version = "0.1.0"
edition = "2021"
publish = false

[dependencies]
log = "=0.4.34"
mio = { version = "=0.8.11", features = ["os-poll", "os-ext"] }
socket2 = { version = "=0.6.5", features = ["all"] }
