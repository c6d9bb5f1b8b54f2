[package]
name = "mpesa"
version = "0.1.0"
edition = "2021"
publish = false

[dependencies]
base64 = "0.13"
openssl = "0.10"
reqwest = { version = "0.12", features = ["blocking", "json"] }
