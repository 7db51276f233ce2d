[package]
name = "todo_timer"
version = "0.1.0"
edition = "2021"
publish = false

[dependencies]
serde = { version = "1", default-features = false, features = ["derive", "std"] }
tauri = { version = "2", default-features = false, features = ["wry", "tray-icon"] }
tokio = { version = "1", default-features = false, features = ["time", "rt"] }
