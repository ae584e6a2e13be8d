[package]
name = "packet_tap"
version = "0.1.0"
edition = "2021"
publish = false

[dependencies]
aes = "0.6"
cfb8 = "0.6"
base64 = "0.13"
hex = "0.4"
miniz_oxide = "0.4"
tokio = { version = "1", features = ["full"] }
parking_lot = "0.11"
deadqueue = "0.2"
config = "0.11"
env_logger = "0.8"
log = "0.4"
colored = "2"
serde = { version = "1", features = ["derive"] }
