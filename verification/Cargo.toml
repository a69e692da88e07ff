[package]
name = "t5f"
version = "0.1.0"
edition = "2021"
publish = false

[dependencies]
bimap = "=0.6.3"
serde = { version = "1", features = ["derive"] }
bincode = "1"
ron = "0.10"
uuid = { version = "1", features = ["v4"] }
crossbeam-channel = "0.5"
clap = { version = "4", features = ["derive"] }
superstruct = "0.9"
bevy = { version = "0.16", default-features = false }
