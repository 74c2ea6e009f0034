[package]
name = "amm_pool"
version = "0.1.0"
edition = "2021"
publish = false

[dependencies]
near-sdk = "3.1.0"
wee_alloc = "0.4.5"
