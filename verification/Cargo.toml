[package]
name = "curve25519"
version = "0.1.0"
edition = "2021"

[dependencies]
regex = "1"

[dev-dependencies]
num-bigint = { version = "0.4", features = ["rand"] }
num-traits = "0.2"
rand = "0.8"
