[package]
name = "loopback_auth"
version = "0.1.0"
edition = "2021"
publish = false

[dependencies]
base64 = "0.22"
chrono = "0.4"
rand = "0.8"
reqwest = { version = "0.12", features = ["json"] }
serde = { version = "1", features = ["derive"] }
serde_json = "1"
sha2 = "0.10"
tiny_http = "0.12"
tokio = { version = "1", features = ["rt", "sync", "time", "macros"] }
url = "2"
urlencoding = "2"
webbrowser = "*"
