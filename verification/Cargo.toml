[package]
name = "model_merge"
version = "0.1.0"
edition = "2021"
publish = false

[dependencies]
serde_json = "1"
uuid = { version = "1", features = ["v4"] }
serde = { version = "1", features = ["derive"] }
candle-core = "*"
half = "2"
memmap2 = "0.9"
rand = "*"
