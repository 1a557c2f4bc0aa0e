[package]
name = "radical_doge_rewards"
version = "0.1.0"
edition = "2021"
publish = false

[dependencies]
scrypto = "*"
