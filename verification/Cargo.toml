[package]
name = "qqr"
version = "0.1.0"
edition = "2021"
publish = false

[dependencies]
qrcode = "*"
image = { version = "*", default-features = false, features = ["png"] }
rocket = "*"
