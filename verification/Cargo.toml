[package]
name = "http_client"
version = "0.1.0"
edition = "2021"
publish = false

[dependencies]
url = "2"
serde = "1"
serde_json = "1"
futures-channel = "0.3"
log = "0.4"
curl = { version = "0.4", default-features = false }
