[package]
name = "playrust"
version = "0.1.0"
edition = "2021"
publish = false

[dependencies]
anyhow = "1"
base64 = "0.22"
chromiumoxide = "*"
futures-util = "0.3"
image = { version = "0.25", default-features = false, features = ["png"] }
reqwest = { version = "*", default-features = false }
serde = { version = "1", features = ["derive"] }
serde_json = "1"
serde-saphyr = "*"
tempfile = "3"
thiserror = "2"
tokio = { version = "1", features = ["full"] }
url = "2"
