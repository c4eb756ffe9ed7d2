[package]
name = "dogecoin_handshake"
version = "0.1.0"
edition = "2021"
publish = false

[dependencies]
bitcoin_hashes = "0.12"
rand = "0.8"
