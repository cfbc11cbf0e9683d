[package]
name = "player_bridge"
version = "0.1.0"
edition = "2021"
publish = false

[dependencies]
flume = "*"
serde = { version = "*", features = ["derive"] }
serde_json = "*"
