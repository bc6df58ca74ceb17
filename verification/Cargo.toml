[package]
name = "nimiq_consensus"
version = "0.1.0"
edition = "2021"
publish = false

[dependencies]
rand = "0.8"
hex = "0.4"
blake2 = "0.10"
futures = "0.1"
