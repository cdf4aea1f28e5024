[package]
name = "bitcoinrpc"
version = "0.1.0"
edition = "2021"
publish = false

[dependencies]
jsonrpc-v1 = { version = "=0.1.0", default-features = false }
serde = "=0.6.15"
strason = "=0.3.4"
