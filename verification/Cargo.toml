[package]
name = "minosse"
version = "0.1.0"
edition = "2021"
publish = false

[dependencies]
regex = "*"
sys-info = "*"
serde = { version = "*", features = ["derive"] }
serde_json = "*"
anyhow = "*"
tokio = { version = "*", features = ["rt", "macros", "sync", "time"] }
tokio-stream = "*"
windows = { version = "*", features = ["Win32_Foundation", "Win32_System_Threading"] }
windows-service = "*"
wmi = "*"
