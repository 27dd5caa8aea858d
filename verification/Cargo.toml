[package]
name = "heron"
version = "0.1.0"
edition = "2021"
publish = false

[dependencies]
bevy = { version = "0.6", default-features = false }
heron_core = "1"
heron_debug = { version = "1", features = ["2d"] }
heron_macros = "1"
heron_rapier = { version = "1", features = ["2d"] }
