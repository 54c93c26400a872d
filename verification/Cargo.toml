[package]
name = "nftmx_marketplace"
version = "0.1.0"
edition = "2021"
publish = false

[dependencies]
cosmwasm-std = "0.16"
cw0 = "0.9"
cw20 = "0.9"
cw721 = "0.9"
serde = { version = "1.0", features = ["derive"] }
