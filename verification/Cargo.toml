[package]
name = "room_bridge"
version = "0.1.0"
edition = "2021"
publish = false

[dependencies]
flume = "*"
image = { version = "*", default-features = false, features = ["png"] }
livekit-api = "*"
parking_lot = "*"
tokio = { version = "*", features = ["rt", "sync", "time"] }
