[package]
name = "rust_plugin"
version = "0.1.0"
edition = "2021"
publish = false

[dependencies]
extism-pdk = "=0.3.4"
proto_pdk = "0.13"
semver = "=1.0.28"
serde = { version = "=1.0.229", features = ["derive"] }
toml = "=0.8.23"
