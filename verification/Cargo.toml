[package]
name = "aqnoor_virtual_printer"
version = "0.1.0"
edition = "2021"
publish = false

[dependencies]
base64 = "=0.22.1"
chrono = { version = "=0.4.45", default-features = false, features = ["clock", "std"] }
image = { version = "=0.25.10", default-features = false, features = ["png"] }
rxing = { version = "0.6", default-features = false }
qrcode = { version = "=0.14.1", default-features = false }
uuid = { version = "1", features = ["v4"] }
log = "0.4"
env_logger = { version = "0.11", default-features = false }
serde = { version = "1", features = ["derive"] }
serde_json = "1"
tokio = { version = "1", features = ["rt-multi-thread", "macros", "net", "sync", "io-util", "time"] }
tauri = { version = "2", default-features = false }
