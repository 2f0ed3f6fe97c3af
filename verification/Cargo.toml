[package]
name = "gateway_core"
version = "0.1.0"
edition = "2021"
publish = false

[dependencies]
sha2 = "*"
data-encoding = "*"

[dev-dependencies]
serde_json = "*"
