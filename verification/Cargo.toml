[package]
name = "azure_service_bus"
version = "0.1.0"
edition = "2021"
publish = false

[dependencies]
base64 = "0.13"
eyre = "0.6"
hmac = "0.12"
hyper = { version = "0.14", default-features = false }
percent-encoding = "2"
rust-crypto = "0.2.36"
sha2 = "0.10"
