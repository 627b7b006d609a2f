[package]
name = "simple_mod_framework_installer"
version = "0.1.0"
edition = "2021"
publish = false

[dependencies]
anyhow = "1"
base64 = "0.21"
dirs = "4"
ehttp = "0.2"
human_bytes = "0.4"
keyvalues-serde = "0.1"
mslnk = "0.1"
poll-promise = "0.2"
registry = "1"
reqwest = { version = "0.11", default-features = false, features = ["blocking", "rustls-tls"] }
rust-ini = "0.18"
serde = { version = "1", features = ["derive"] }
serde_json = "1"
zip-extract = "0.1"
