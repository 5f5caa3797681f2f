[package]
name = "meeting_minutes"
version = "0.1.0"
edition = "2021"
publish = false

[dependencies]
log = "0.4"
reqwest = { version = "0.12", default-features = false, features = ["json", "multipart"] }
serde = { version = "1", features = ["derive"] }
tauri = { version = "2", default-features = false }
tokio = { version = "1", features = ["rt", "sync", "time"] }
