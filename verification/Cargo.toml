[package]
name = "messagerie"
version = "0.1.0"
edition = "2021"
publish = false

[dependencies]
aes = "0.7"
block-modes = "0.8"
openssl = "0.10"
tokio = { version = "1", features = ["full"] }
