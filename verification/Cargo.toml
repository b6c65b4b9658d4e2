[package]
name = "pong_core"
version = "0.1.0"
edition = "2021"
publish = false

[dependencies]
serde = { version = "=1.0.229", features = ["derive"] }
serde_json = "=1.0.151"
tungstenite = "=0.30.0"
url = "=2.5.8"
sdl2 = { version = "=0.38.0", features = ["ttf"] }
