[package]
name = "near_token_factory"
version = "0.1.0"
edition = "2021"
publish = false

[dependencies]
near-sdk = { version = "=5.29.1", features = ["non-contract-usage"] }

[dev-dependencies]
ethabi = "=18.0.0"
