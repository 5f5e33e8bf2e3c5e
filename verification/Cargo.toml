[package]
name = "trendlens_backend"
version = "0.1.0"
edition = "2021"
publish = false

[dependencies]
async-trait = "0.1"
bincode = "=1.3.3"
candid = "=0.10.39"
ic-cdk = "=0.13.6"
ic-stable-structures = "=0.6.9"
serde = { version = "1", features = ["derive"] }
serde_json = { version = "=1.0.154", features = ["preserve_order"] }
serde_qs = "=0.13.0"
serde-this-or-that = "=0.4.2"
serde_with = "=3.24.0"
thiserror = "=1.0.69"
