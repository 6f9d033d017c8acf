[package]
name = "alvr_sockets"
version = "0.1.0"
edition = "2021"
publish = false

[dependencies]
futures = { version = "0.3", default-features = false }
rand = "0.8"
rcgen = "0.11"
semver = "1"
serde = { version = "1", features = ["derive"] }
serde_cbor = "0.11"
tokio = { version = "1", features = ["net"] }
