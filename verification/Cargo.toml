[package]
name = "blockchain"
version = "0.1.0"
edition = "2021"
publish = false

[dependencies]
chrono = { version = "0.4", default-features = false, features = ["clock"] }
num-bigint = "0.4"
num-traits = "0.2"
rust-crypto = "0.2.36"
