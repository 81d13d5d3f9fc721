[package]
name = "hd_wallet"
version = "0.1.0"
edition = "2021"
publish = false

[dependencies]
cardano = "*"
hex = "*"
serde_json = "*"
