[package]
name = "served_bootstrap"
version = "0.1.0"
edition = "2021"
publish = false

[dependencies]
anyhow = "1"
lapce-plugin = "*"
semver = "1"
serde = { version = "1", features = ["derive"] }
serde_json = "1"
tar-wasi = "*"
zip = { version = "*", default-features = false }
