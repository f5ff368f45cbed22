[package]
name = "nakamoto_p2p"
version = "0.1.0"
edition = "2021"
publish = false

[dependencies]
bitcoincash = "0.29.2"
bitcoin_hashes = "0.11.0"
fastrand = "1.9.0"
nonempty = "0.7.0"
