[package]
name = "erolib"
version = "0.1.0"
edition = "2021"
publish = false

[dependencies]
serde = { version = "1", features = ["derive"] }
tauri = { version = "2", default-features = false, features = ["wry"] }
tokio = { version = "1", features = ["time"] }
tracing = "0.1"
url = "2"
