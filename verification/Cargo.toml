[package]
name = "hytale_presence"
version = "0.1.0"
edition = "2021"
publish = false

[dependencies]
discord-rich-presence = "1"
serde = { version = "1", features = ["derive"] }
tauri = { version = "2", default-features = false }
uuid = { version = "1", features = ["v4"] }
