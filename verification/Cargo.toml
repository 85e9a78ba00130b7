[package]
name = "spotlight"
version = "0.1.0"
edition = "2021"
publish = false

[dependencies]
crossbeam-channel = "0.5"
parking_lot = "0.12"
rustfft = "6"
serde = { version = "1", features = ["derive"] }
dirs = "5"
