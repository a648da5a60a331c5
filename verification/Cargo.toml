[package]
name = "tagged_chain"
version = "0.1.0"
edition = "2021"
publish = false

[dependencies]
ibc-proto = "=0.51.1"
ibc-relayer = "=0.29.5"
serde_json = "=1.0.154"
