[package]
name = "rkl_client"
version = "0.1.0"
edition = "2021"
publish = false

[dependencies]
aes-gcm = "*"
base64 = "*"
spake2 = "*"
reqwest = { version = "*", default-features = false }
