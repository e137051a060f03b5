[package]
name = "cef_bridge"
version = "0.1.0"
edition = "2021"
publish = false

[dependencies]
base64 = "*"
serde = { version = "1", features = ["derive"] }
serde_json = "1"
discord-rich-presence = "*"
anyhow = "1"
