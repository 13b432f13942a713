[package]
name = "socket"
version = "0.1.0"
edition = "2021"
publish = false

[dependencies]
napi = { version = "2", features = ["napi4"] }
napi-derive = "2"
