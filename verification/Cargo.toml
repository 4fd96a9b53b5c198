[package]
name = "fast_stark_crypto"
version = "0.1.0"
edition = "2021"
publish = false

[dependencies]
malachite = "0.4"
pyo3 = { version = "0.20", features = ["extension-module"] }
starknet-crypto = "0.6"
