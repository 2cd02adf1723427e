[package]
name = "paperclip_bridge"
version = "0.1.0"
edition = "2021"
publish = false

[dependencies]
keyring = { version = "3", features = ["apple-native", "windows-native", "linux-native"] }
url = "2"
uuid = "1"
serde = { version = "1", features = ["derive"] }
serde_json = "1"
tokio = { version = "1", features = ["fs", "sync", "process", "rt", "macros"] }
reqwest = { version = "0.12", default-features = false, features = ["json", "rustls-tls"] }
