[package]
name = "oath"
version = "0.1.0"
edition = "2021"
publish = false

[dependencies]
hmac-sha1 = "0.1"
time = "0.1"
