[package]
name = "crypto"
version = "0.1.0"
edition = "2021"
publish = false

[dependencies]
num-bigint = { version = "0.4", features = ["rand"] }
rand = "0.8"
sha256 = { version = "*", default-features = false }
