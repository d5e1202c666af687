[package]
name = "chainsig_core"
version = "0.1.0"
edition = "2021"
publish = false

[dependencies]
k256 = "=0.13.4"
near-sdk = { version = "=5.29.1", features = ["non-contract-usage"] }
serde = { version = "*", features = ["derive"] }
serde_json = "*"
