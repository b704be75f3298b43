[package]
name = "data_contract_version_gate"
version = "0.1.0"
edition = "2021"
publish = false

[dependencies]
anyhow = "1"
pdk = "*"
serde = { version = "1", features = ["derive"] }
serde_json = "1"
