[package]
name = "bridge_notify"
version = "0.1.0"
edition = "2021"
publish = false

[dependencies]
serde_json = "*"
tracing = "*"

[dependencies.reqwest]
version = "*"
default-features = false
