[package]
name = "cw721_angel"
version = "0.1.0"
edition = "2021"
publish = false

[dependencies]
cosmwasm-std = "1"
cosmwasm-schema = "1"
cw2 = "0.15"
cw721 = "0.15"
cw721-base = { version = "0.15", features = ["library"] }
schemars = "0.8"
serde = "1"
