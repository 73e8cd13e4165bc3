[package]
name = "ever_living"
version = "0.1.0"
edition = "2021"
publish = false

[dependencies]
url = "2"
serde = { version = "1", features = ["derive"] }
serde_json = "1"
libc = "0.2"
reqwest = { version = "0.12", default-features = false }
tokio = { version = "1", features = ["time"] }
tauri = { version = "2", default-features = false, features = ["wry", "tray-icon"] }
