[package]
name = "proxy_client"
version = "0.1.0"
edition = "2021"
publish = false

[dependencies]
anyhow = "1"
nix = "0.23"
serde = "1"
serde_json = { version = "1", features = ["raw_value"] }
