[package]
name = "indica"
version = "0.1.0"
edition = "2021"
publish = false

[dependencies]
rayon = "1.11"
napi = { version = "3", features = ["napi4"] }
napi-derive = "3"
