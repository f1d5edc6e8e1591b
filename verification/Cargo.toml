[package]
name = "boomnet"
version = "0.1.0"
edition = "2021"
publish = false

[dependencies]
base64 = "0.22"
http = "1"
httparse = "1"
rand = "0.9"
