[package]
name = "rustconnect"
version = "0.1.0"
edition = "2021"
publish = false

[dependencies]
base64 = "0.21"
image = { version = "0.25", default-features = false, features = ["png", "jpeg", "ico"] }
device_query = "1.1.3"
futures-util = "0.3"
once_cell = "1"
reqwest = { version = "0.12", default-features = false, features = ["blocking"] }
serde = { version = "1", features = ["derive"] }
serde_json = "1"
tokio = { version = "1", features = ["rt-multi-thread", "macros", "sync", "time"] }
tokio-tungstenite = "0.26"
winreg = "0.10"
