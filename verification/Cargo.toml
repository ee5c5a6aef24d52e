[package]
name = "vault_valuation"
version = "0.1.0"
edition = "2021"
publish = false

[dependencies]
cosmwasm-std = "2"
cosmwasm-schema = "2"
serde = { version = "1", features = ["derive"] }
strum = { version = "0.26", features = ["derive"] }
async-trait = "0.1"
futures = "0.3"
log = "0.4"
alloy-primitives = "*"
