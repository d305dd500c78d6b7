[package]
name = "aurora_bridge"
version = "0.1.0"
edition = "2021"
publish = false

[dependencies]
aurora-engine-types = "=3.0.0"
ethabi = "=18.0.0"
hex = "=0.4.3"
near-sdk = { version = "=5.29.1", features = ["non-contract-usage"] }
primitive-types = "=0.14.0"
