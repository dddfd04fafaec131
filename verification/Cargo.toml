[package]
name = "tauri-plugin-livekit-mobile"
version = "0.2.0"
edition = "2021"
publish = false

[dependencies]
base64 = "0.22"
serde = { version = "1", features = ["derive"] }
serde_json = "1"
thiserror = "2"
tokio = { version = "1", features = ["sync", "time", "macros", "rt"] }
tauri = { version = "2", default-features = false }
