[package]
name = "marchproxy_filters"
version = "0.1.0"
edition = "2021"
publish = false

[dependencies]
base64 = "0.13"
jsonwebtoken = "9"
serde = { version = "1", features = ["derive"] }
serde_json = "1"
log = "0.4"
proxy-wasm = "0.2"
