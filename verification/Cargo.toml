[package]
name = "anchor_leverage"
version = "0.1.0"
edition = "2021"
publish = false

[dependencies]
bigint = "4"
cosmwasm-bignumber = "1.0"
cosmwasm-std = "0.10"
cosmwasm-storage = "0.10"
cw20 = "0.2"
moneymarket = ">=0.1, <0.3"
schemars = "0.7"
serde = { version = "1.0", default-features = false, features = ["derive"] }
terraswap = "1"
