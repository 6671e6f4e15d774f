[package]
name = "razer"
version = "0.1.0"
edition = "2021"

[dependencies]
razer-ws = { version = "=0.9.3", features = ["ssl"] }
serde_json = "=1.0.154"
openssl = "=0.10.81"
lazy_static = "=1.5.1"
