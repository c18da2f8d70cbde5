[package]
name = "gas_storage"
version = "0.1.0"
edition = "2021"
publish = false

[dependencies]
cosmwasm-std = { version = "=2.3.5", features = ["iterator"] }

[dev-dependencies]
cw-storage-plus = "=2.0.0"
serde_json = "=1.0.151"
