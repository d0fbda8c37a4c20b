[package]
name = "apaint"
version = "0.1.0"
edition = "2021"
publish = false

[dependencies]
crypto-hash = "=0.3.4"
gcd = "=2.3.0"
regex-syntax = "0.8"
serde = { version = "=1.0.229", features = ["derive"] }
serde_json = "=1.0.154"
