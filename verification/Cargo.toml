[package]
name = "flo_client"
version = "0.1.0"
edition = "2021"
publish = false

[dependencies]
serde = { version = "1", features = ["derive"] }
toml = "*"
tokio = { version = "1", features = ["sync", "rt", "rt-multi-thread", "macros"] }
parking_lot = "*"
