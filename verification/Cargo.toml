[package]
name = "op_cat_test"
version = "0.1.0"
edition = "2021"
publish = false

[dependencies]
anyhow = "1"
bitcoin = { version = "0.32", features = ["rand-std"] }
bitcoincore-rpc = "0.19"
env_logger = "*"
