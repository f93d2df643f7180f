[package]
name = "arena_game"
version = "0.1.0"
edition = "2021"
publish = false

[dependencies]
ez_colorize = "*"
serde = { version = "1", features = ["derive"] }
serde_json = "1"
tungstenite = "0.19"
url = "2"
