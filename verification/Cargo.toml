[package]
name = "giveaway"
version = "0.1.0"
edition = "2021"
publish = false

[dependencies]
hex = "=0.4.3"
sha3 = "=0.10.9"
libsecp256k1 = "=0.7.2"
bs58 = "*"
