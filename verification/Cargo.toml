[package]
name = "tee_signer"
version = "0.1.0"
edition = "2021"
publish = false

[dependencies]
openssl = "0.10"
base64 = "0.22"
chrono = "0.4"
hex = "0.4"
