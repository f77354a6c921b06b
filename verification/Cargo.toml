[package]
name = "cosmos_adventures_hub"
version = "0.1.0"
edition = "2021"
publish = false

[dependencies]
cosmwasm-std = "1.5"
cosmwasm-schema = "1.5"
cw-storage-plus = "1.2"
cw721 = "0.15"
cw721-base = "0.15"
cw721-metadata-onchain = "0.15"
thiserror = "1"
serde = { version = "1", features = ["derive"] }
abstract-core = "0.21"
