[package]
name = "rssn_advanced"
version = "0.1.0"
edition = "2021"
publish = false

[dependencies]
bincode-next = { version = "=3.1.1", features = ["serde"] }
serde = { version = "=1.0.229", features = ["derive"] }
serde_json = { version = "=1.0.154", features = ["float_roundtrip"] }
