[package]
name = "sidecar_broker"
version = "0.1.0"
edition = "2021"
publish = false

[dependencies]
base64 = "0.22"
log = "0.4"
reqwest = { version = "0.12", default-features = false, features = ["blocking"] }
serde_json = "1"
