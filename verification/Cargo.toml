[package]
name = "counting_contract"
version = "0.3.0"
edition = "2021"
publish = false

[dependencies]
cosmwasm-schema = "1"
cosmwasm-std = "1"
cw2 = "1"
cw-storage-plus = "1"
serde = { version = "1", features = ["derive"] }
thiserror = "1"
