[package]
name = "wpp_desktop"
version = "0.1.46"
edition = "2021"
publish = false

[dependencies]
url = "2"
portable-pty = "*"
serde = { version = "1", features = ["derive"] }
tauri = { version = "2", default-features = false }
tauri-plugin-updater = { version = "2", default-features = false }
