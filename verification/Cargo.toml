[package]
name = "cloudreve_desktop"
version = "0.1.0"
edition = "2021"
publish = false

[dependencies]
chrono = "0.4"
sha2 = "0.10"
base64 = "0.22"
url = "2"
serde = { version = "1", features = ["derive"] }
serde_json = "1"
dirs = "5"
filetime = "0.2"
anyhow = "1"
