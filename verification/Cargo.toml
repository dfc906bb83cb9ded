[package]
name = "link_rs"
version = "0.1.0"
edition = "2021"
publish = false

[dependencies]
harsh = "*"
qrcode = { version = "*", default-features = false }
