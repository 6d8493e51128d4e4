[package]
name = "asset_store"
version = "0.1.0"
edition = "2021"
publish = false

[dependencies]
base64 = "=0.22.1"
reqwest = { version = "=0.12.28", default-features = false, features = ["default-tls"] }
